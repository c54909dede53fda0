//! The modal dialogs in front of the editor (load error, save prompt,
//! confirmation, validation errors, missing or failing MJML) and what a key
//! does to each.
use vstd::prelude::*;

use crate::chrome::{Chrome, Input, KeyCode, KeyInput, is_quit_key};
use crate::editor::{Notice, ToastLevel};
use crate::text::{chars_of, owned, push_char, trim, trim_seq};

verus! {

/// What a confirmation prompt confirms.
#[derive(Clone, Copy, Debug, PartialEq, Eq, Structural)]
pub enum ConfirmKind {
    QuitUnsaved,
}

/// A modal dialog.
#[derive(Debug)]
pub enum Modal {
    LoadError { message: String },
    SavePrompt { path: String },
    ConfirmPrompt { message: String, on_confirm: ConfirmKind },
    ValidationErrors { errors: Vec<String>, scroll_offset: usize },
    MjmlMissing { searched: Vec<String> },
    MjmlCompileError { stderr: String, scroll: u16 },
}

/// The view of a [`Modal`].
pub enum SpecModal {
    LoadError { message: Seq<char> },
    SavePrompt { path: Seq<char> },
    ConfirmPrompt { message: Seq<char>, on_confirm: ConfirmKind },
    ValidationErrors { errors: Seq<Seq<char>>, scroll_offset: usize },
    MjmlMissing { searched: Seq<Seq<char>> },
    MjmlCompileError { stderr: Seq<char>, scroll: u16 },
}

impl View for Modal {
    type V = SpecModal;

    open spec fn view(&self) -> SpecModal {
        match self {
            Modal::LoadError { message } => SpecModal::LoadError { message: message@ },
            Modal::SavePrompt { path } => SpecModal::SavePrompt { path: path@ },
            Modal::ConfirmPrompt { message, on_confirm } => SpecModal::ConfirmPrompt {
                message: message@,
                on_confirm: *on_confirm,
            },
            Modal::ValidationErrors { errors, scroll_offset } => SpecModal::ValidationErrors {
                errors: errors@.map_values(|e: String| e@),
                scroll_offset: *scroll_offset,
            },
            Modal::MjmlMissing { searched } => SpecModal::MjmlMissing {
                searched: searched@.map_values(|e: String| e@),
            },
            Modal::MjmlCompileError { stderr, scroll } => SpecModal::MjmlCompileError {
                stderr: stderr@,
                scroll: *scroll,
            },
        }
    }
}

/// The view of an optional modal.
pub open spec fn modal_view(m: Option<Modal>) -> Option<SpecModal> {
    match m {
        Some(x) => Some(x@),
        None => None,
    }
}

/// How a key left the modal.
#[derive(Clone, Copy, Debug, PartialEq, Eq, Structural)]
pub enum ModalResult {
    Continue,
    CloseSuccess,
    CloseCancel,
}

/// What the editor has to do besides the modal change.
#[derive(Debug)]
pub enum ModalEffect {
    Nothing,
    /// Show a message.
    Toast(Notice),
    /// Save to `target` (the typed path, trimmed); if saving fails, reopen
    /// the prompt with `prompt`, the text as typed.
    Save { target: String, prompt: String },
}

/// The view of a [`ModalEffect`].
pub enum SpecEffect {
    Nothing,
    Toast(ToastLevel, Seq<char>),
    Save { target: Seq<char>, prompt: Seq<char> },
}

impl View for ModalEffect {
    type V = SpecEffect;

    open spec fn view(&self) -> SpecEffect {
        match self {
            ModalEffect::Nothing => SpecEffect::Nothing,
            ModalEffect::Toast(n) => SpecEffect::Toast(n.level, n.message@),
            ModalEffect::Save { target, prompt } => SpecEffect::Save { target: target@, prompt: prompt@ },
        }
    }
}

/// The prompt that Ctrl+Q opens when there are unsaved changes.
pub open spec fn quit_prompt() -> SpecModal {
    SpecModal::ConfirmPrompt { message: "Unsaved changes. Quit anyway?"@, on_confirm: ConfirmKind::QuitUnsaved }
}

/// `s` with its last character removed (unchanged when empty).
pub open spec fn without_last_char(s: Seq<char>) -> Seq<char> {
    if s.len() == 0 {
        s
    } else {
        s.drop_last()
    }
}

/// What a key does to the save prompt holding `path`.
pub open spec fn save_prompt_key(path: Seq<char>, k: KeyInput) -> (Option<SpecModal>, ModalResult, SpecEffect) {
    match k.code {
        KeyCode::Esc => (None, ModalResult::CloseCancel, SpecEffect::Toast(ToastLevel::Info, "Save cancelled."@)),
        KeyCode::Enter => save_confirmed(path),
        KeyCode::Char(c) => if c == 's' && k.ctrl {
            save_confirmed(path)
        } else if !k.ctrl {
            (Some(SpecModal::SavePrompt { path: path.push(c) }), ModalResult::Continue, SpecEffect::Nothing)
        } else {
            (Some(SpecModal::SavePrompt { path }), ModalResult::Continue, SpecEffect::Nothing)
        },
        KeyCode::Backspace => (
            Some(SpecModal::SavePrompt { path: without_last_char(path) }),
            ModalResult::Continue,
            SpecEffect::Nothing,
        ),
        _ => (Some(SpecModal::SavePrompt { path }), ModalResult::Continue, SpecEffect::Nothing),
    }
}

/// Enter (or Ctrl+S) on the save prompt: an empty path is refused,
/// anything else is saved to.
pub open spec fn save_confirmed(path: Seq<char>) -> (Option<SpecModal>, ModalResult, SpecEffect) {
    if trim_seq(path).len() == 0 {
        (
            Some(SpecModal::SavePrompt { path }),
            ModalResult::Continue,
            SpecEffect::Toast(ToastLevel::Warning, "Save path cannot be empty."@),
        )
    } else {
        (None, ModalResult::CloseSuccess, SpecEffect::Save { target: trim_seq(path), prompt: path })
    }
}

/// The validation list scrolled by a key.
pub open spec fn errors_scrolled(len: nat, scroll: usize, k: KeyInput) -> usize {
    match k.code {
        KeyCode::Up => if scroll >= 1 { (scroll - 1) as usize } else { 0 },
        KeyCode::PageUp => if scroll >= 5 { (scroll - 5) as usize } else { 0 },
        KeyCode::Down => if scroll + 1 < (if len > 1 { len } else { 1 }) { (scroll + 1) as usize } else { scroll },
        KeyCode::PageDown => {
            let last: int = if len >= 1 { len - 1 } else { 0 };
            (if scroll + 5 < last { scroll + 5 } else { last }) as usize
        },
        KeyCode::Char(c) => if c == 'k' {
            if scroll >= 1 { (scroll - 1) as usize } else { 0 }
        } else if c == 'j' {
            if scroll + 1 < (if len > 1 { len } else { 1 }) { (scroll + 1) as usize } else { scroll }
        } else {
            scroll
        },
        _ => scroll,
    }
}

/// Whether the key is Enter or Esc.
pub open spec fn closes(k: KeyInput) -> bool {
    k.code == KeyCode::Enter || k.code == KeyCode::Esc
}

/// What a key does to a modal, when it is not F1 or Ctrl+Q.
pub open spec fn modal_key(c: Chrome, m: SpecModal, k: KeyInput) -> (Chrome, Option<SpecModal>, ModalResult, SpecEffect) {
    match m {
        SpecModal::LoadError { .. } | SpecModal::MjmlMissing { .. } => if closes(k) {
            (c, None, ModalResult::CloseSuccess, SpecEffect::Nothing)
        } else {
            (c, Some(m), ModalResult::Continue, SpecEffect::Nothing)
        },
        SpecModal::SavePrompt { path } => {
            let (m2, r, e) = save_prompt_key(path, k);
            (c, m2, r, e)
        },
        SpecModal::ConfirmPrompt { on_confirm, .. } => if k.code == KeyCode::Char('y') || k.code == KeyCode::Char('Y') {
            (Chrome { should_quit: true, ..c }, None, ModalResult::CloseSuccess, SpecEffect::Nothing)
        } else if k.code == KeyCode::Char('n') || k.code == KeyCode::Char('N') || k.code == KeyCode::Esc {
            (c, None, ModalResult::CloseCancel, SpecEffect::Toast(ToastLevel::Info, "Cancelled."@))
        } else {
            (c, Some(m), ModalResult::Continue, SpecEffect::Nothing)
        },
        SpecModal::ValidationErrors { errors, scroll_offset } => if closes(k) {
            (c, None, ModalResult::CloseSuccess, SpecEffect::Nothing)
        } else {
            (
                c,
                Some(SpecModal::ValidationErrors {
                    errors,
                    scroll_offset: errors_scrolled(errors.len(), scroll_offset, k),
                }),
                ModalResult::Continue,
                SpecEffect::Nothing,
            )
        },
        SpecModal::MjmlCompileError { stderr, scroll } => if closes(k) {
            (c, None, ModalResult::CloseSuccess, SpecEffect::Nothing)
        } else if k.code == KeyCode::Down || k.code == KeyCode::Char('j') {
            (c, Some(SpecModal::MjmlCompileError { stderr, scroll: if scroll < u16::MAX { (scroll + 1) as u16 } else { scroll } }), ModalResult::Continue, SpecEffect::Nothing)
        } else if k.code == KeyCode::Up || k.code == KeyCode::Char('k') {
            (c, Some(SpecModal::MjmlCompileError { stderr, scroll: if scroll >= 1 { (scroll - 1) as u16 } else { 0 } }), ModalResult::Continue, SpecEffect::Nothing)
        } else {
            (c, Some(m), ModalResult::Continue, SpecEffect::Nothing)
        },
    }
}

/// What an input does while a modal is open (`None` for the result when
/// there is no modal: the input is not the modal's).  F1 opens the help on
/// top, Ctrl+Q quits or asks first; mouse and other events are swallowed.
pub open spec fn modal_stepped(c: Chrome, m: Option<SpecModal>, input: Input) -> (Chrome, Option<SpecModal>, Option<ModalResult>, SpecEffect) {
    match m {
        None => (c, m, None, SpecEffect::Nothing),
        Some(md) => match input {
            Input::Key(k) => if k.code == KeyCode::F(1) {
                (
                    Chrome { help: crate::chrome::Overlay { open: true, scroll: 0, ..c.help }, ..c },
                    m,
                    Some(ModalResult::Continue),
                    SpecEffect::Nothing,
                )
            } else if is_quit_key(k) {
                if c.dirty {
                    (c, Some(quit_prompt()), Some(ModalResult::Continue), SpecEffect::Nothing)
                } else {
                    (Chrome { should_quit: true, ..c }, m, Some(ModalResult::Continue), SpecEffect::Nothing)
                }
            } else {
                let (c2, m2, r, e) = modal_key(c, md, k);
                (c2, m2, Some(r), e)
            },
            _ => (c, m, Some(ModalResult::Continue), SpecEffect::Nothing),
        },
    }
}

fn toast(level: ToastLevel, msg: &str) -> (r: ModalEffect)
    ensures
        r@ == SpecEffect::Toast(level, msg@),
{
    ModalEffect::Toast(Notice { level, message: owned(msg) })
}

fn drop_last_char(s: &String) -> (r: String)
    ensures
        r@ == without_last_char(s@),
{
    let cs = chars_of(s.as_str());
    let mut r = String::new();
    if cs.len() == 0 {
        return r;
    }
    let mut i: usize = 0;
    let last = cs.len() - 1;
    while i < last
        invariant
            last + 1 == cs@.len(),
            cs@ == s@,
            cs@.len() >= 1,
            i + 1 <= cs@.len(),
            r@ == cs@.take(i as int),
        decreases cs@.len() - i,
    {
        push_char(&mut r, cs[i]);
        i = i + 1;
        assert(r@ =~= cs@.take(i as int));
    }
    assert(cs@.take(i as int) =~= s@.drop_last());
    r
}

fn confirm_save(path: String) -> (r: (Option<Modal>, ModalResult, ModalEffect))
    ensures
        (modal_view(r.0), r.1, r.2@) == save_confirmed(path@),
{
    let t = trim(path.as_str());
    let n = chars_of(t).len();
    if n == 0 {
        (Some(Modal::SavePrompt { path }), ModalResult::Continue, toast(ToastLevel::Warning, "Save path cannot be empty."))
    } else {
        let target = owned(t);
        (None, ModalResult::CloseSuccess, ModalEffect::Save { target, prompt: path })
    }
}

fn save_prompt_step(path: String, k: KeyInput) -> (r: (Option<Modal>, ModalResult, ModalEffect))
    ensures
        (modal_view(r.0), r.1, r.2@) == save_prompt_key(path@, k),
{
    match k.code {
        KeyCode::Esc => (None, ModalResult::CloseCancel, toast(ToastLevel::Info, "Save cancelled.")),
        KeyCode::Enter => confirm_save(path),
        KeyCode::Backspace => {
            let p = drop_last_char(&path);
            (Some(Modal::SavePrompt { path: p }), ModalResult::Continue, ModalEffect::Nothing)
        },
        KeyCode::Char(c) => if c == 's' && k.ctrl {
            confirm_save(path)
        } else if !k.ctrl {
            let mut p = path;
            push_char(&mut p, c);
            (Some(Modal::SavePrompt { path: p }), ModalResult::Continue, ModalEffect::Nothing)
        } else {
            (Some(Modal::SavePrompt { path }), ModalResult::Continue, ModalEffect::Nothing)
        },
        _ => (Some(Modal::SavePrompt { path }), ModalResult::Continue, ModalEffect::Nothing),
    }
}

fn scroll_errors(len: usize, scroll: usize, k: KeyInput) -> (r: usize)
    ensures
        r == errors_scrolled(len as nat, scroll, k),
{
    let up = k.code == KeyCode::Up || k.code == KeyCode::Char('k');
    let down = k.code == KeyCode::Down || k.code == KeyCode::Char('j');
    let floor: usize = if len > 1 {
        len
    } else {
        1
    };
    if up {
        if scroll >= 1 {
            scroll - 1
        } else {
            0
        }
    } else if down {
        if scroll < floor - 1 {
            scroll + 1
        } else {
            scroll
        }
    } else if k.code == KeyCode::PageUp {
        if scroll >= 5 {
            scroll - 5
        } else {
            0
        }
    } else if k.code == KeyCode::PageDown {
        let last: usize = if len >= 1 {
            len - 1
        } else {
            0
        };
        if scroll < last && last - scroll > 5 {
            scroll + 5
        } else {
            last
        }
    } else {
        scroll
    }
}

fn modal_key_step(c: &mut Chrome, m: Modal, k: KeyInput) -> (r: (Option<Modal>, ModalResult, ModalEffect))
    ensures
        (*final(c), modal_view(r.0), r.1, r.2@) == modal_key(*old(c), m@, k),
{
    let close = k.code == KeyCode::Enter || k.code == KeyCode::Esc;
    match m {
        Modal::LoadError { message } => if close {
            (None, ModalResult::CloseSuccess, ModalEffect::Nothing)
        } else {
            (Some(Modal::LoadError { message }), ModalResult::Continue, ModalEffect::Nothing)
        },
        Modal::MjmlMissing { searched } => if close {
            (None, ModalResult::CloseSuccess, ModalEffect::Nothing)
        } else {
            (Some(Modal::MjmlMissing { searched }), ModalResult::Continue, ModalEffect::Nothing)
        },
        Modal::SavePrompt { path } => save_prompt_step(path, k),
        Modal::ConfirmPrompt { message, on_confirm } => if k.code == KeyCode::Char('y') || k.code == KeyCode::Char('Y') {
            c.should_quit = true;
            (None, ModalResult::CloseSuccess, ModalEffect::Nothing)
        } else if k.code == KeyCode::Char('n') || k.code == KeyCode::Char('N') || k.code == KeyCode::Esc {
            (None, ModalResult::CloseCancel, toast(ToastLevel::Info, "Cancelled."))
        } else {
            (Some(Modal::ConfirmPrompt { message, on_confirm }), ModalResult::Continue, ModalEffect::Nothing)
        },
        Modal::ValidationErrors { errors, scroll_offset } => if close {
            (None, ModalResult::CloseSuccess, ModalEffect::Nothing)
        } else {
            let s = scroll_errors(errors.len(), scroll_offset, k);
            (Some(Modal::ValidationErrors { errors, scroll_offset: s }), ModalResult::Continue, ModalEffect::Nothing)
        },
        Modal::MjmlCompileError { stderr, scroll } => if close {
            (None, ModalResult::CloseSuccess, ModalEffect::Nothing)
        } else if k.code == KeyCode::Down || k.code == KeyCode::Char('j') {
            let s = if scroll < 65535 {
                scroll + 1
            } else {
                scroll
            };
            (Some(Modal::MjmlCompileError { stderr, scroll: s }), ModalResult::Continue, ModalEffect::Nothing)
        } else if k.code == KeyCode::Up || k.code == KeyCode::Char('k') {
            let s = if scroll >= 1 {
                scroll - 1
            } else {
                0
            };
            (Some(Modal::MjmlCompileError { stderr, scroll: s }), ModalResult::Continue, ModalEffect::Nothing)
        } else {
            (Some(Modal::MjmlCompileError { stderr, scroll }), ModalResult::Continue, ModalEffect::Nothing)
        },
    }
}

/// The quit confirmation prompt.
pub fn quit_prompt_modal() -> (r: Modal)
    ensures
        r@ == quit_prompt(),
{
    Modal::ConfirmPrompt { message: owned("Unsaved changes. Quit anyway?"), on_confirm: ConfirmKind::QuitUnsaved }
}

/// Handles an input while a modal may be open; returns `None` when there is
/// no modal, so that the input goes to the editor.
pub fn handle_modal_event(c: &mut Chrome, modal: &mut Option<Modal>, input: Input) -> (r: (
    Option<ModalResult>,
    ModalEffect,
))
    ensures
        (*final(c), modal_view(*final(modal)), r.0, r.1@) == modal_stepped(*old(c), modal_view(*old(modal)), input),
{
    if modal.is_none() {
        return (None, ModalEffect::Nothing);
    }
    match input {
        Input::Key(k) => {
            if k.code == KeyCode::F(1) {
                c.help.open = true;
                c.help.scroll = 0;
                return (Some(ModalResult::Continue), ModalEffect::Nothing);
            }
            if k.code == KeyCode::Char('q') && k.ctrl {
                if c.dirty {
                    *modal = Some(quit_prompt_modal());
                } else {
                    c.should_quit = true;
                }
                return (Some(ModalResult::Continue), ModalEffect::Nothing);
            }
            match modal.take() {
                None => (None, ModalEffect::Nothing),
                Some(m) => {
                    let (m2, res, eff) = modal_key_step(c, m, k);
                    *modal = m2;
                    (Some(res), eff)
                },
            }
        },
        _ => (Some(ModalResult::Continue), ModalEffect::Nothing),
    }
}

/// Typing a character into the save prompt and deleting it again gives
/// back the path as it was.
pub proof fn law_type_then_backspace(path: Seq<char>, ch: char, shift: bool)
    ensures
        ({
            let typed = save_prompt_key(path, KeyInput { code: KeyCode::Char(ch), ctrl: false, shift });
            &&& typed.0 == Some(SpecModal::SavePrompt { path: path.push(ch) })
            &&& save_prompt_key(path.push(ch), KeyInput { code: KeyCode::Backspace, ctrl: false, shift: false }).0
                == Some(SpecModal::SavePrompt { path })
        }),
{
    assert(path.push(ch).drop_last() =~= path);
}

/// Scrolling the validation list keeps the first shown error within the
/// list.
pub proof fn law_errors_scroll_in_range(len: nat, scroll: usize, k: KeyInput)
    requires
        scroll < (if len > 1 { len } else { 1 }),
    ensures
        errors_scrolled(len, scroll, k) < (if len > 1 { len } else { 1 }),
{
}

/// A confirmation prompt quits only on `y`; `n` and Esc close it without
/// quitting.
pub proof fn law_confirm_quits_only_on_yes(c: Chrome, message: Seq<char>, k: KeyInput)
    requires
        !c.should_quit,
    ensures
        ({
            let (c2, m2, r, e) = modal_key(c, SpecModal::ConfirmPrompt { message, on_confirm: ConfirmKind::QuitUnsaved }, k);
            &&& c2.should_quit <==> (k.code == KeyCode::Char('y') || k.code == KeyCode::Char('Y'))
            &&& (k.code == KeyCode::Char('n') || k.code == KeyCode::Esc) ==> (m2 is None && r == ModalResult::CloseCancel)
        }),
{
}

/// On the save prompt, Enter saves to the typed path, trimmed, and closes the
/// prompt; a blank path is refused with a warning and the prompt stays as
/// it was; Esc closes it without saving; a typed character (without Ctrl)
/// is added at the end of the path.
pub proof fn law_save_prompt_keys(path: Seq<char>, k: KeyInput)
    ensures
        ({
            let (m, r, e) = save_prompt_key(path, k);
            &&& (k.code == KeyCode::Enter && trim_seq(path).len() > 0) ==> m is None && r == ModalResult::CloseSuccess
                && e == SpecEffect::Save { target: trim_seq(path), prompt: path }
            &&& (k.code == KeyCode::Enter && trim_seq(path).len() == 0) ==> m == Some(SpecModal::SavePrompt { path })
                && r == ModalResult::Continue && e is Toast && !(e is Save)
            &&& k.code == KeyCode::Esc ==> m is None && r == ModalResult::CloseCancel && !(e is Save)
            &&& (k.code is Char && !k.ctrl) ==> m == Some(SpecModal::SavePrompt { path: path.push(k.code->Char_0) })
                && r == ModalResult::Continue && e == SpecEffect::Nothing
        }),
{
}

/// In the validation list Down (or `j`) moves one error further unless at
/// the last one, and Up (or `k`) one back unless at the first.
pub proof fn law_errors_scroll_steps(len: nat, scroll: usize, k: KeyInput)
    requires
        scroll < len <= usize::MAX,
    ensures
        (k.code == KeyCode::Down || k.code == KeyCode::Char('j')) ==> errors_scrolled(len, scroll, k) == (if scroll + 1
            < len {
            scroll + 1
        } else {
            scroll as int
        }),
        (k.code == KeyCode::Up || k.code == KeyCode::Char('k')) ==> errors_scrolled(len, scroll, k) == (if scroll >= 1 {
            scroll - 1
        } else {
            0
        }),
{
}

} // verus!
