//! The editor's key and mouse dispatch: the help and theme overlays, the
//! global shortcuts, the footer hint and the decisions on quitting, saving
//! and autosaving.  The terminal loop performs the returned commands and
//! hands the next input back.
use vstd::prelude::*;

use crate::text::{join_seq, join_with, owned, push_str, seq_starts_with};

verus! {

/// A key, as far as the editor tells keys apart.
#[derive(Clone, Copy, Debug, PartialEq, Eq, Structural)]
pub enum KeyCode {
    F(u8),
    Char(char),
    Esc,
    Enter,
    Backspace,
    Tab,
    BackTab,
    Up,
    Down,
    Left,
    Right,
    PageUp,
    PageDown,
    Home,
    End,
    Other,
}

/// A key press with the modifiers the editor looks at.
#[derive(Clone, Copy, Debug, PartialEq, Eq, Structural)]
pub struct KeyInput {
    pub code: KeyCode,
    pub ctrl: bool,
    pub shift: bool,
}

/// What a mouse event did.
#[derive(Clone, Copy, Debug, PartialEq, Eq, Structural)]
pub enum MouseKind {
    ScrollUp,
    ScrollDown,
    LeftDown,
    Other,
}

/// A mouse event at a terminal cell.
#[derive(Clone, Copy, Debug, PartialEq, Eq, Structural)]
pub struct MouseInput {
    pub kind: MouseKind,
    pub column: u16,
    pub row: u16,
}

/// One terminal event.
#[derive(Clone, Copy, Debug, PartialEq, Eq, Structural)]
pub enum Input {
    Key(KeyInput),
    Mouse(MouseInput),
    Other,
}

/// A scrollable overlay (the help or the theme screen).
#[derive(Clone, Copy, Debug, PartialEq, Eq, Structural)]
pub struct Overlay {
    pub open: bool,
    pub scroll: u16,
    pub scroll_max: u16,
}

/// Which pane has the keyboard.
#[derive(Clone, Copy, Debug, PartialEq, Eq, Structural)]
pub enum PaneFocus {
    Structure,
    Details,
}

/// The part of the editor state that the dispatch reads and changes.
#[derive(Clone, Copy, Debug, PartialEq, Eq, Structural)]
pub struct Chrome {
    pub help: Overlay,
    pub theme: Overlay,
    pub pane: PaneFocus,
    pub details_visible: bool,
    pub dirty: bool,
    pub should_quit: bool,
}

/// What the editor has to do after an input.
#[derive(Clone, Copy, Debug, PartialEq, Eq, Structural)]
pub enum Command {
    /// Nothing beyond the state change.
    Nothing,
    /// An open modal takes the input.
    Modal,
    /// Run validation (F3).
    Validate,
    Preview,
    Export,
    Save,
    /// Ask before quitting with unsaved changes.
    ConfirmQuit,
    TreeEnter,
    OpenInsertPicker,
    DeleteRow,
    DuplicateRow,
    Undo,
    /// Move the selected row down (`true`) or up.
    Reorder(bool),
    AddColumn,
    RemoveColumn,
    /// Hop to the next (`true`) or previous column.
    HopColumn(bool),
    /// Tree or details navigation with this key.
    TreeNav(KeyInput),
    /// A mouse event for the tree and details panes.
    TreeMouse(MouseInput),
}

/// `s + by`, capped at `max`.
pub open spec fn scrolled_down(s: u16, by: u16, max: u16) -> u16 {
    if s + by > max {
        max
    } else {
        (s + by) as u16
    }
}

/// `s - by`, floored at 0.
pub open spec fn scrolled_up(s: u16, by: u16) -> u16 {
    if s >= by {
        (s - by) as u16
    } else {
        0
    }
}

fn scroll_down(s: u16, by: u16, max: u16) -> (r: u16)
    ensures
        r == scrolled_down(s, by, max),
{
    if s as u32 + by as u32 > max as u32 {
        max
    } else {
        s + by
    }
}

fn scroll_up(s: u16, by: u16) -> (r: u16)
    ensures
        r == scrolled_up(s, by),
{
    if s >= by {
        s - by
    } else {
        0
    }
}

/// An open overlay after an input; `close` is the number of the function
/// key that toggles it (Esc closes it too).  Every input stays inside.
pub open spec fn overlay_after(o: Overlay, close: u8, input: Input) -> Overlay {
    match input {
        Input::Key(k) => match k.code {
            KeyCode::F(n) => if n == close {
                Overlay { open: false, scroll: 0, ..o }
            } else {
                o
            },
            KeyCode::Esc => Overlay { open: false, scroll: 0, ..o },
            KeyCode::Down => Overlay { scroll: scrolled_down(o.scroll, 1, o.scroll_max), ..o },
            KeyCode::Up => Overlay { scroll: scrolled_up(o.scroll, 1), ..o },
            KeyCode::PageDown => Overlay { scroll: scrolled_down(o.scroll, 10, o.scroll_max), ..o },
            KeyCode::PageUp => Overlay { scroll: scrolled_up(o.scroll, 10), ..o },
            KeyCode::Home => Overlay { scroll: 0, ..o },
            KeyCode::End => Overlay { scroll: o.scroll_max, ..o },
            KeyCode::Char(c) => if c == 'j' {
                Overlay { scroll: scrolled_down(o.scroll, 1, o.scroll_max), ..o }
            } else if c == 'k' {
                Overlay { scroll: scrolled_up(o.scroll, 1), ..o }
            } else if c == 'g' {
                Overlay { scroll: 0, ..o }
            } else if c == 'G' {
                Overlay { scroll: o.scroll_max, ..o }
            } else {
                o
            },
            _ => o,
        },
        Input::Mouse(m) => match m.kind {
            MouseKind::ScrollUp => Overlay { scroll: scrolled_up(o.scroll, 3), ..o },
            MouseKind::ScrollDown => Overlay { scroll: scrolled_down(o.scroll, 3, o.scroll_max), ..o },
            _ => o,
        },
        Input::Other => o,
    }
}

/// Applies one input to an open overlay.
pub fn overlay_step(o: Overlay, close: u8, input: Input) -> (r: Overlay)
    ensures
        r == overlay_after(o, close, input),
{
    match input {
        Input::Key(k) => match k.code {
            KeyCode::F(n) => if n == close {
                Overlay { open: false, scroll: 0, ..o }
            } else {
                o
            },
            KeyCode::Esc => Overlay { open: false, scroll: 0, ..o },
            KeyCode::Down => Overlay { scroll: scroll_down(o.scroll, 1, o.scroll_max), ..o },
            KeyCode::Up => Overlay { scroll: scroll_up(o.scroll, 1), ..o },
            KeyCode::PageDown => Overlay { scroll: scroll_down(o.scroll, 10, o.scroll_max), ..o },
            KeyCode::PageUp => Overlay { scroll: scroll_up(o.scroll, 10), ..o },
            KeyCode::Home => Overlay { scroll: 0, ..o },
            KeyCode::End => Overlay { scroll: o.scroll_max, ..o },
            KeyCode::Char(c) => if c == 'j' {
                Overlay { scroll: scroll_down(o.scroll, 1, o.scroll_max), ..o }
            } else if c == 'k' {
                Overlay { scroll: scroll_up(o.scroll, 1), ..o }
            } else if c == 'g' {
                Overlay { scroll: 0, ..o }
            } else if c == 'G' {
                Overlay { scroll: o.scroll_max, ..o }
            } else {
                o
            },
            _ => o,
        },
        Input::Mouse(m) => match m.kind {
            MouseKind::ScrollUp => Overlay { scroll: scroll_up(o.scroll, 3), ..o },
            MouseKind::ScrollDown => Overlay { scroll: scroll_down(o.scroll, 3, o.scroll_max), ..o },
            _ => o,
        },
        Input::Other => o,
    }
}

/// The command a key gives when no overlay or modal is open (F1, F2 and
/// Tab change the state instead and give `Nothing`).
pub open spec fn key_command(k: KeyInput) -> Command {
    match k.code {
        KeyCode::F(n) => if n == 3 {
            Command::Validate
        } else if n == 1 || n == 2 {
            Command::Nothing
        } else {
            Command::TreeNav(k)
        },
        KeyCode::Tab | KeyCode::BackTab => Command::Nothing,
        KeyCode::Enter => Command::TreeEnter,
        KeyCode::Char(c) => if c == 'p' && !k.ctrl {
            Command::Preview
        } else if c == 'E' && k.shift {
            Command::Export
        } else if c == 's' && !k.ctrl {
            Command::Save
        } else if c == 'q' && k.ctrl {
            Command::Nothing
        } else if c == '/' && !k.ctrl {
            Command::OpenInsertPicker
        } else if c == 'd' && !k.ctrl {
            Command::DeleteRow
        } else if c == 'y' && !k.ctrl {
            Command::DuplicateRow
        } else if c == 'u' && !k.ctrl {
            Command::Undo
        } else if c == 'J' {
            Command::Reorder(true)
        } else if c == 'K' {
            Command::Reorder(false)
        } else if c == 'C' {
            Command::AddColumn
        } else if c == 'V' {
            Command::RemoveColumn
        } else if c == 'c' && !k.ctrl {
            Command::HopColumn(false)
        } else if c == 'v' && !k.ctrl {
            Command::HopColumn(true)
        } else {
            Command::TreeNav(k)
        },
        _ => Command::TreeNav(k),
    }
}

/// Whether the key is Ctrl+Q.
pub open spec fn is_quit_key(k: KeyInput) -> bool {
    k.code == KeyCode::Char('q') && k.ctrl
}

/// The state and command after an input: an open help overlay takes every
/// input, then an open theme overlay, then an open modal; otherwise the
/// global shortcuts apply.  Ctrl+Q quits a clean editor and asks first in a
/// dirty one.
pub open spec fn dispatched(c: Chrome, input: Input, modal_open: bool) -> (Chrome, Command) {
    if c.help.open {
        (Chrome { help: overlay_after(c.help, 1, input), ..c }, Command::Nothing)
    } else if c.theme.open {
        (Chrome { theme: overlay_after(c.theme, 2, input), ..c }, Command::Nothing)
    } else if modal_open {
        (c, Command::Modal)
    } else {
        match input {
            Input::Key(k) => if k.code == KeyCode::F(1) {
                (Chrome { help: Overlay { open: true, ..c.help }, ..c }, Command::Nothing)
            } else if k.code == KeyCode::F(2) {
                (Chrome { theme: Overlay { open: true, ..c.theme }, ..c }, Command::Nothing)
            } else if is_quit_key(k) {
                if c.dirty {
                    (c, Command::ConfirmQuit)
                } else {
                    (Chrome { should_quit: true, ..c }, Command::Nothing)
                }
            } else if k.code == KeyCode::Tab || k.code == KeyCode::BackTab {
                if c.details_visible {
                    (Chrome {
                        pane: match c.pane {
                            PaneFocus::Structure => PaneFocus::Details,
                            PaneFocus::Details => PaneFocus::Structure,
                        },
                        ..c
                    }, Command::Nothing)
                } else {
                    (c, Command::Nothing)
                }
            } else {
                (c, key_command(k))
            },
            Input::Mouse(m) => (c, Command::TreeMouse(m)),
            Input::Other => (c, Command::Nothing),
        }
    }
}

fn command_for_key(k: KeyInput) -> (r: Command)
    ensures
        r == key_command(k),
{
    match k.code {
        KeyCode::F(n) => if n == 3 {
            Command::Validate
        } else if n == 1 || n == 2 {
            Command::Nothing
        } else {
            Command::TreeNav(k)
        },
        KeyCode::Tab | KeyCode::BackTab => Command::Nothing,
        KeyCode::Enter => Command::TreeEnter,
        KeyCode::Char(c) => if c == 'p' && !k.ctrl {
            Command::Preview
        } else if c == 'E' && k.shift {
            Command::Export
        } else if c == 's' && !k.ctrl {
            Command::Save
        } else if c == 'q' && k.ctrl {
            Command::Nothing
        } else if c == '/' && !k.ctrl {
            Command::OpenInsertPicker
        } else if c == 'd' && !k.ctrl {
            Command::DeleteRow
        } else if c == 'y' && !k.ctrl {
            Command::DuplicateRow
        } else if c == 'u' && !k.ctrl {
            Command::Undo
        } else if c == 'J' {
            Command::Reorder(true)
        } else if c == 'K' {
            Command::Reorder(false)
        } else if c == 'C' {
            Command::AddColumn
        } else if c == 'V' {
            Command::RemoveColumn
        } else if c == 'c' && !k.ctrl {
            Command::HopColumn(false)
        } else if c == 'v' && !k.ctrl {
            Command::HopColumn(true)
        } else {
            Command::TreeNav(k)
        },
        _ => Command::TreeNav(k),
    }
}

/// Handles one terminal event: updates the state and says what the editor
/// has to do next.
pub fn handle_event(c: &mut Chrome, input: Input, modal_open: bool) -> (r: Command)
    ensures
        (*final(c), r) == dispatched(*old(c), input, modal_open),
{
    if c.help.open {
        c.help = overlay_step(c.help, 1, input);
        return Command::Nothing;
    }
    if c.theme.open {
        c.theme = overlay_step(c.theme, 2, input);
        return Command::Nothing;
    }
    if modal_open {
        return Command::Modal;
    }
    match input {
        Input::Key(k) => {
            if k.code == KeyCode::F(1) {
                c.help.open = true;
                Command::Nothing
            } else if k.code == KeyCode::F(2) {
                c.theme.open = true;
                Command::Nothing
            } else if k.code == KeyCode::Char('q') && k.ctrl {
                if c.dirty {
                    Command::ConfirmQuit
                } else {
                    c.should_quit = true;
                    Command::Nothing
                }
            } else if k.code == KeyCode::Tab || k.code == KeyCode::BackTab {
                if c.details_visible {
                    c.pane = match c.pane {
                        PaneFocus::Structure => PaneFocus::Details,
                        PaneFocus::Details => PaneFocus::Structure,
                    };
                }
                Command::Nothing
            } else {
                command_for_key(k)
            }
        },
        Input::Mouse(m) => Command::TreeMouse(m),
        Input::Other => Command::Nothing,
    }
}

/// An open overlay takes every input: nothing is dispatched and nothing
/// but the overlay changes.
pub proof fn law_overlay_takes_every_input(c: Chrome, input: Input, modal_open: bool)
    requires
        c.help.open || c.theme.open,
    ensures
        dispatched(c, input, modal_open).1 == Command::Nothing,
        dispatched(c, input, modal_open).0 == (if c.help.open {
            Chrome { help: overlay_after(c.help, 1, input), ..c }
        } else {
            Chrome { theme: overlay_after(c.theme, 2, input), ..c }
        }),
{
}

/// Scrolling an overlay never goes past its end.
pub proof fn law_overlay_scroll_in_range(o: Overlay, close: u8, input: Input)
    requires
        o.scroll <= o.scroll_max,
    ensures
        overlay_after(o, close, input).scroll <= o.scroll_max,
        overlay_after(o, close, input).scroll_max == o.scroll_max,
{
}

/// F1 opens the help and F1 closes it again, back at the top; F2 does the
/// same for the theme screen (Esc closes either).
pub proof fn law_function_key_round_trip(c: Chrome, n: u8, ctrl: bool, shift: bool, modal_open: bool)
    requires
        n == 1 || n == 2,
        !c.help.open,
        !c.theme.open,
        !modal_open,
    ensures
        ({
            let key = Input::Key(KeyInput { code: KeyCode::F(n), ctrl, shift });
            let opened = dispatched(c, key, modal_open).0;
            &&& (if n == 1 { opened.help.open } else { opened.theme.open })
            &&& dispatched(opened, key, modal_open) == (if n == 1 {
                (Chrome { help: Overlay { open: false, scroll: 0, ..c.help }, ..c }, Command::Nothing)
            } else {
                (Chrome { theme: Overlay { open: false, scroll: 0, ..c.theme }, ..c }, Command::Nothing)
            })
        }),
{
}

/// Only Ctrl+Q quits, and only a clean editor with no overlay or modal in
/// front; with unsaved changes it asks first.
pub proof fn law_only_ctrl_q_quits(c: Chrome, input: Input, modal_open: bool)
    requires
        !c.should_quit,
    ensures
        dispatched(c, input, modal_open).0.should_quit ==> (input matches Input::Key(k) && is_quit_key(k)
            && !c.dirty && !c.help.open && !c.theme.open && !modal_open),
        (input matches Input::Key(k) && is_quit_key(k) && c.dirty && !c.help.open && !c.theme.open
            && !modal_open) ==> dispatched(c, input, modal_open) == (c, Command::ConfirmQuit),
{
}

/// Fits an overlay to `total` wrapped lines shown `visible` at a time: the
/// deepest scroll shows the last line at the bottom (kept as a `u16`, as
/// the terminal scrolls by one), and the scroll is brought within it.
pub fn fit_overlay(o: &mut Overlay, total: usize, visible: u16)
    ensures
        final(o).scroll_max == (if total >= visible { (total - visible) as u16 } else { 0u16 }),
        final(o).scroll == (if old(o).scroll > final(o).scroll_max { final(o).scroll_max } else { old(o).scroll }),
        final(o).open == old(o).open,
{
    let v = visible as usize;
    let rest: usize = if total >= v {
        total - v
    } else {
        0
    };
    o.scroll_max = #[verifier::truncate] (rest as u16);
    if o.scroll > o.scroll_max {
        o.scroll = o.scroll_max;
    }
}

// ---------------------------------------------------------------------------
// Footer hint
// ---------------------------------------------------------------------------

/// The footer's key hints: fewer and shorter with an overlay or modal open
/// and on narrow terminals, a mouse note on wide ones.
pub open spec fn footer_parts(overlay_open: bool, width: u16) -> Seq<Seq<char>> {
    if overlay_open {
        if width < 80 {
            seq!["F1:Help"@, "Esc:Close"@, "C-q:Quit"@]
        } else {
            seq!["F1:Help"@, "Esc:Close"@, "Ctrl+Q:Quit"@]
        }
    } else if width < 80 {
        seq!["F1:Help"@, "F2:Theme"@, "F3:Val"@, "s:Save"@, "C-q:Quit"@]
    } else if width < 120 {
        seq!["F1: Help"@, "F2: Theme"@, "F3: Validate"@, "s: Save"@, "Ctrl+Q: Quit"@]
    } else {
        seq!["F1: Help"@, "F2: Theme"@, "F3: Validate"@, "s: Save"@, "Ctrl+Q: Quit"@, "(mouse: click/scroll)"@]
    }
}

/// The footer line: `*  ` first when there are unsaved changes, then the
/// hints two spaces apart.
pub open spec fn footer_text(dirty: bool, overlay_open: bool, width: u16) -> Seq<char> {
    (if dirty {
        "*  "@
    } else {
        Seq::empty()
    }) + join_seq(footer_parts(overlay_open, width), "  "@)
}

fn owned_all(parts: &[&str]) -> (r: Vec<String>)
    ensures
        r@.map_values(|x: String| x@) == parts@.map_values(|x: &str| x@),
{
    let mut r: Vec<String> = Vec::new();
    let mut i: usize = 0;
    while i < parts.len()
        invariant
            i <= parts@.len(),
            r@.len() == i,
            forall|k: int| 0 <= k < i ==> (#[trigger] r@[k])@ == parts@[k]@,
        decreases parts@.len() - i,
    {
        r.push(owned(parts[i]));
        i = i + 1;
    }
    assert(r@.map_values(|x: String| x@) =~= parts@.map_values(|x: &str| x@));
    r
}

/// The footer hint line for a terminal `width` columns wide.
pub fn footer_hint(dirty: bool, overlay_open: bool, width: u16) -> (r: String)
    ensures
        r@ == footer_text(dirty, overlay_open, width),
{
    let parts: Vec<&str> = if overlay_open {
        if width < 80 {
            vec!["F1:Help", "Esc:Close", "C-q:Quit"]
        } else {
            vec!["F1:Help", "Esc:Close", "Ctrl+Q:Quit"]
        }
    } else if width < 80 {
        vec!["F1:Help", "F2:Theme", "F3:Val", "s:Save", "C-q:Quit"]
    } else if width < 120 {
        vec!["F1: Help", "F2: Theme", "F3: Validate", "s: Save", "Ctrl+Q: Quit"]
    } else {
        vec!["F1: Help", "F2: Theme", "F3: Validate", "s: Save", "Ctrl+Q: Quit", "(mouse: click/scroll)"]
    };
    assert(parts@.map_values(|x: &str| x@) =~= footer_parts(overlay_open, width));
    let strings = owned_all(parts.as_slice());
    let joined = join_with(&strings, "  ");
    let mut r = if dirty {
        owned("*  ")
    } else {
        String::new()
    };
    push_str(&mut r, joined.as_str());
    r
}

/// A join begins with its first piece.
proof fn lemma_join_starts_with_first(p: Seq<Seq<char>>, sep: Seq<char>)
    requires
        p.len() >= 1,
    ensures
        seq_starts_with(join_seq(p, sep), p[0]),
    decreases p.len(),
{
    if p.len() > 1 {
        lemma_join_starts_with_first(p.drop_last(), sep);
        let j = join_seq(p.drop_last(), sep);
        assert(p.drop_last()[0] == p[0]);
        assert(join_seq(p, sep) == j + sep + p.last());
        assert((j + sep + p.last()).take(p[0].len() as int) =~= j.take(p[0].len() as int));
    } else {
        assert(p[0].take(p[0].len() as int) =~= p[0]);
    }
}

/// Below the dirty marker, every footer begins with the F1 help hint, in
/// its short or its long form.
pub proof fn law_footer_starts_with_help(overlay_open: bool, width: u16)
    ensures
        seq_starts_with(join_seq(footer_parts(overlay_open, width), "  "@), "F1:Help"@)
            || seq_starts_with(join_seq(footer_parts(overlay_open, width), "  "@), "F1: Help"@),
{
    lemma_join_starts_with_first(footer_parts(overlay_open, width), "  "@);
}

// ---------------------------------------------------------------------------
// Saving and autosaving
// ---------------------------------------------------------------------------

/// What `s` (save) does.
#[derive(Clone, Copy, Debug, PartialEq, Eq, Structural)]
pub enum SaveStep {
    /// Nothing is open: warn.
    NoTemplate,
    /// Save to the known path, with a backup copy.
    SaveToPath,
    /// Ask for a path, offering the default file name.
    Prompt,
}

/// What `s` does: warn without a template, save where the template came
/// from, or ask for a path.
pub fn save_step(has_template: bool, has_path: bool) -> (r: SaveStep)
    ensures
        r == (if !has_template {
            SaveStep::NoTemplate
        } else if has_path {
            SaveStep::SaveToPath
        } else {
            SaveStep::Prompt
        }),
{
    if !has_template {
        SaveStep::NoTemplate
    } else if has_path {
        SaveStep::SaveToPath
    } else {
        SaveStep::Prompt
    }
}

/// The file name that the save prompt offers.
pub fn default_save_name() -> (r: String)
    ensures
        r@ == "template.json"@,
{
    owned("template.json")
}

/// How long a change waits before it is written out, in milliseconds.
pub const AUTOSAVE_DEBOUNCE_MS: u64 = 2000;

/// Unsaved changes and when they started (milliseconds on a monotonic clock).
#[derive(Clone, Copy, Debug, PartialEq, Eq, Structural)]
pub struct Autosave {
    pub dirty: bool,
    pub dirty_since: Option<u64>,
}

/// Milliseconds from `since` to `now` (0 when the clock reads earlier).
pub open spec fn elapsed(since: u64, now: u64) -> int {
    if now >= since {
        now - since
    } else {
        0
    }
}

impl Autosave {
    /// A clean editor.
    pub fn new() -> (r: Autosave)
        ensures
            !r.dirty,
            r.dirty_since is None,
    {
        Autosave { dirty: false, dirty_since: None }
    }

    /// Records the result of comparing the template with what was saved
    /// last: a difference makes the editor dirty, starting the clock on the
    /// first one.
    pub fn note_change(&mut self, changed: bool, now: u64)
        ensures
            changed ==> final(self).dirty,
            changed && !old(self).dirty ==> final(self).dirty_since == Some(now),
            changed && old(self).dirty ==> final(self).dirty_since == old(self).dirty_since,
            !changed ==> *final(self) == *old(self),
    {
        if changed {
            if !self.dirty {
                self.dirty_since = Some(now);
            }
            self.dirty = true;
        }
    }

    /// A clock tick: whether to write the template out now.  Only a dirty
    /// editor saves, only once the changes are `AUTOSAVE_DEBOUNCE_MS` old,
    /// and only with a path and a template to save; a dirty editor without
    /// a start time starts the clock now.
    pub fn tick(&mut self, now: u64, has_path: bool, has_template: bool) -> (save: bool)
        ensures
            save == (old(self).dirty && old(self).dirty_since is Some
                && elapsed(old(self).dirty_since->0, now) >= AUTOSAVE_DEBOUNCE_MS && has_path && has_template),
            *final(self) == (if old(self).dirty && old(self).dirty_since is None {
                Autosave { dirty: true, dirty_since: Some(now) }
            } else {
                *old(self)
            }),
    {
        if !self.dirty {
            return false;
        }
        let since = match self.dirty_since {
            Some(t) => t,
            None => {
                self.dirty_since = Some(now);
                return false;
            },
        };
        let waited = if now >= since {
            now - since
        } else {
            0
        };
        if waited < AUTOSAVE_DEBOUNCE_MS {
            return false;
        }
        has_path && has_template
    }

    /// The template was written out: nothing is unsaved any more.
    pub fn saved(&mut self)
        ensures
            !final(self).dirty,
            final(self).dirty_since is None,
    {
        self.dirty = false;
        self.dirty_since = None;
    }
}

/// A clean editor never autosaves, and after a save the next tick writes
/// nothing until a new change comes.
pub proof fn law_clean_never_autosaves(a: Autosave, now: u64, has_path: bool, has_template: bool)
    requires
        !a.dirty,
    ensures
        !(a.dirty && a.dirty_since is Some && elapsed(a.dirty_since->0, now) >= AUTOSAVE_DEBOUNCE_MS
            && has_path && has_template),
{
}

/// With no overlay or modal open, each shortcut key (without Ctrl) gives
/// its command and leaves the editor state as it was: F3 validates, `p`
/// previews, Shift+`E` exports, `s` saves, Enter enters the row, `/` opens
/// the insert picker, `d` deletes, `y` duplicates, `u` undoes, `J`/`K` move
/// the row down/up, `C`/`V` add/remove a column, `v`/`c` hop to the
/// next/previous column.
pub proof fn law_shortcut_keys(c: Chrome, k: KeyInput)
    requires
        !c.help.open,
        !c.theme.open,
        !k.ctrl,
    ensures
        ({
            let (c2, r) = dispatched(c, Input::Key(k), false);
            &&& k.code == KeyCode::F(3) ==> r == Command::Validate && c2 == c
            &&& k.code == KeyCode::Char('p') ==> r == Command::Preview && c2 == c
            &&& (k.code == KeyCode::Char('E') && k.shift) ==> r == Command::Export && c2 == c
            &&& k.code == KeyCode::Char('s') ==> r == Command::Save && c2 == c
            &&& k.code == KeyCode::Enter ==> r == Command::TreeEnter && c2 == c
            &&& k.code == KeyCode::Char('/') ==> r == Command::OpenInsertPicker && c2 == c
            &&& k.code == KeyCode::Char('d') ==> r == Command::DeleteRow && c2 == c
            &&& k.code == KeyCode::Char('y') ==> r == Command::DuplicateRow && c2 == c
            &&& k.code == KeyCode::Char('u') ==> r == Command::Undo && c2 == c
            &&& k.code == KeyCode::Char('J') ==> r == Command::Reorder(true) && c2 == c
            &&& k.code == KeyCode::Char('K') ==> r == Command::Reorder(false) && c2 == c
            &&& k.code == KeyCode::Char('C') ==> r == Command::AddColumn && c2 == c
            &&& k.code == KeyCode::Char('V') ==> r == Command::RemoveColumn && c2 == c
            &&& k.code == KeyCode::Char('v') ==> r == Command::HopColumn(true) && c2 == c
            &&& k.code == KeyCode::Char('c') ==> r == Command::HopColumn(false) && c2 == c
            &&& (k.code == KeyCode::Down || k.code == KeyCode::Up) ==> r == Command::TreeNav(k) && c2 == c
        }),
{
}

/// Unsaved changes put `*  ` in front of the footer and change nothing
/// else; every footer names the quit key; the mouse note shows only on
/// terminals at least 120 columns wide with nothing open on top.
pub proof fn law_footer_marks_and_hints(overlay_open: bool, width: u16)
    ensures
        footer_text(true, overlay_open, width) == "*  "@ + footer_text(false, overlay_open, width),
        footer_parts(overlay_open, width).contains("C-q:Quit"@) || footer_parts(overlay_open, width).contains(
            "Ctrl+Q:Quit"@,
        ) || footer_parts(overlay_open, width).contains("Ctrl+Q: Quit"@),
        footer_parts(overlay_open, width).last() == "(mouse: click/scroll)"@ <==> (!overlay_open && width >= 120),
{
    reveal_strlit("(mouse: click/scroll)");
    reveal_strlit("C-q:Quit");
    reveal_strlit("Ctrl+Q:Quit");
    reveal_strlit("Ctrl+Q: Quit");
    assert(Seq::<char>::empty() + join_seq(footer_parts(overlay_open, width), "  "@) =~= join_seq(
        footer_parts(overlay_open, width),
        "  "@,
    ));
    let p = footer_parts(overlay_open, width);
    if overlay_open {
        if width < 80 {
            assert(p[2] == "C-q:Quit"@);
        } else {
            assert(p[2] == "Ctrl+Q:Quit"@);
        }
        assert(p.last().len() != "(mouse: click/scroll)"@.len());
    } else if width < 80 {
        assert(p[4] == "C-q:Quit"@);
        assert(p.last().len() != "(mouse: click/scroll)"@.len());
    } else {
        assert(p[4] == "Ctrl+Q: Quit"@);
        if width < 120 {
            assert(p.last().len() != "(mouse: click/scroll)"@.len());
        }
    }
}

} // verus!
