//! Keyboard and mouse handling of the structure tree and the details pane:
//! scrolling, clicking rows (a click on the glyph column toggles a row, a
//! second click on the same cell opens it) and clicking a details link.
use vstd::prelude::*;

use crate::chrome::{Chrome, KeyCode, KeyInput, MouseInput, MouseKind, PaneFocus};

verus! {

/// A rectangle of terminal cells.
#[derive(Clone, Copy, Debug, PartialEq, Eq, Structural)]
pub struct Area {
    pub x: u16,
    pub y: u16,
    pub width: u16,
    pub height: u16,
}

/// `a + b`, capped at the largest `u16`.
pub open spec fn sat_add(a: u16, b: u16) -> u16 {
    if a + b > u16::MAX {
        u16::MAX
    } else {
        (a + b) as u16
    }
}

/// Whether the cell at column `x`, row `y` lies in the area.
pub open spec fn area_contains(a: Area, x: u16, y: u16) -> bool {
    x >= a.x && x < sat_add(a.x, a.width) && y >= a.y && y < sat_add(a.y, a.height)
}

fn add_capped(a: u16, b: u16) -> (r: u16)
    ensures
        r == sat_add(a, b),
{
    if a as u32 + b as u32 > 65535 {
        65535
    } else {
        a + b
    }
}

/// Whether the cell at column `x`, row `y` lies in the area.
pub fn contains(a: Area, x: u16, y: u16) -> (r: bool)
    ensures
        r == area_contains(a, x, y),
{
    x >= a.x && x < add_capped(a.x, a.width) && y >= a.y && y < add_capped(a.y, a.height)
}

/// The scroll positions and the selected row of the two panes.
#[derive(Clone, Copy, Debug, PartialEq, Eq, Structural)]
pub struct Panes {
    pub details_scroll: usize,
    pub details_scroll_max: usize,
    pub tree_scroll: usize,
    pub selected_row: usize,
}

/// A tree operation asked for by a key.
#[derive(Clone, Copy, Debug, PartialEq, Eq, Structural)]
pub enum TreeMove {
    Nothing,
    /// Move the selection by this many rows.
    By(isize),
    First,
    Last,
    Collapse,
    Expand,
    Toggle,
}

/// `s + by`, capped at `max`.
pub open spec fn down_capped(s: usize, by: usize, max: usize) -> usize {
    if s + by > max {
        max
    } else {
        (s + by) as usize
    }
}

/// `s - by`, floored at 0.
pub open spec fn up_floored(s: usize, by: usize) -> usize {
    if s >= by {
        (s - by) as usize
    } else {
        0
    }
}

/// Whether the details pane has the keyboard.
pub open spec fn details_focused(c: Chrome) -> bool {
    c.pane == PaneFocus::Details && c.details_visible
}

/// A navigation key: moves in the tree, or scrolls the details pane when it
/// has the keyboard.
pub open spec fn navigated(c: Chrome, p: Panes, k: KeyInput) -> (Panes, TreeMove) {
    let details = details_focused(c);
    let down = k.code == KeyCode::Down || k.code == KeyCode::Char('j');
    let up = k.code == KeyCode::Up || k.code == KeyCode::Char('k');
    if down && !details {
        (p, TreeMove::By(1))
    } else if up && !details {
        (p, TreeMove::By(-1isize))
    } else if down {
        (Panes { details_scroll: down_capped(p.details_scroll, 1, p.details_scroll_max), ..p }, TreeMove::Nothing)
    } else if up {
        (Panes { details_scroll: up_floored(p.details_scroll, 1), ..p }, TreeMove::Nothing)
    } else if k.code == KeyCode::PageDown {
        if details {
            (Panes { details_scroll: down_capped(p.details_scroll, 10, p.details_scroll_max), ..p }, TreeMove::Nothing)
        } else {
            (p, TreeMove::By(10))
        }
    } else if k.code == KeyCode::PageUp {
        if details {
            (Panes { details_scroll: up_floored(p.details_scroll, 10), ..p }, TreeMove::Nothing)
        } else {
            (p, TreeMove::By(-10isize))
        }
    } else if (k.code == KeyCode::Home || k.code == KeyCode::Char('g')) && !k.shift {
        if details {
            (Panes { details_scroll: 0, ..p }, TreeMove::Nothing)
        } else {
            (p, TreeMove::First)
        }
    } else if k.code == KeyCode::End || k.code == KeyCode::Char('G') {
        if details {
            (Panes { details_scroll: p.details_scroll_max, ..p }, TreeMove::Nothing)
        } else {
            (p, TreeMove::Last)
        }
    } else if (k.code == KeyCode::Left || k.code == KeyCode::Char('h')) && !k.ctrl && !details {
        (p, TreeMove::Collapse)
    } else if (k.code == KeyCode::Right || k.code == KeyCode::Char('l')) && !k.ctrl && !details {
        (p, TreeMove::Expand)
    } else if k.code == KeyCode::Char(' ') && !details {
        (p, TreeMove::Toggle)
    } else {
        (p, TreeMove::Nothing)
    }
}

fn down_by(s: usize, by: usize, max: usize) -> (r: usize)
    ensures
        r == down_capped(s, by, max),
{
    if s >= max || max - s < by {
        max
    } else {
        s + by
    }
}

fn up_by(s: usize, by: usize) -> (r: usize)
    ensures
        r == up_floored(s, by),
{
    if s >= by {
        s - by
    } else {
        0
    }
}

/// Handles a navigation key for the tree and details panes.
pub fn tree_nav(c: &Chrome, p: &mut Panes, k: KeyInput) -> (r: TreeMove)
    ensures
        (*final(p), r) == navigated(*c, *old(p), k),
{
    let details = c.pane == PaneFocus::Details && c.details_visible;
    let down = k.code == KeyCode::Down || k.code == KeyCode::Char('j');
    let up = k.code == KeyCode::Up || k.code == KeyCode::Char('k');
    if down && !details {
        TreeMove::By(1)
    } else if up && !details {
        TreeMove::By(-1)
    } else if down {
        p.details_scroll = down_by(p.details_scroll, 1, p.details_scroll_max);
        TreeMove::Nothing
    } else if up {
        p.details_scroll = up_by(p.details_scroll, 1);
        TreeMove::Nothing
    } else if k.code == KeyCode::PageDown {
        if details {
            p.details_scroll = down_by(p.details_scroll, 10, p.details_scroll_max);
            TreeMove::Nothing
        } else {
            TreeMove::By(10)
        }
    } else if k.code == KeyCode::PageUp {
        if details {
            p.details_scroll = up_by(p.details_scroll, 10);
            TreeMove::Nothing
        } else {
            TreeMove::By(-10)
        }
    } else if (k.code == KeyCode::Home || k.code == KeyCode::Char('g')) && !k.shift {
        if details {
            p.details_scroll = 0;
            TreeMove::Nothing
        } else {
            TreeMove::First
        }
    } else if k.code == KeyCode::End || k.code == KeyCode::Char('G') {
        if details {
            p.details_scroll = p.details_scroll_max;
            TreeMove::Nothing
        } else {
            TreeMove::Last
        }
    } else if (k.code == KeyCode::Left || k.code == KeyCode::Char('h')) && !k.ctrl && !details {
        TreeMove::Collapse
    } else if (k.code == KeyCode::Right || k.code == KeyCode::Char('l')) && !k.ctrl && !details {
        TreeMove::Expand
    } else if k.code == KeyCode::Char(' ') && !details {
        TreeMove::Toggle
    } else {
        TreeMove::Nothing
    }
}

/// What a mouse event on the panes asks for besides the state change.
#[derive(Clone, Copy, Debug, PartialEq, Eq, Structural)]
pub enum MouseAction {
    Nothing,
    /// A tree row was clicked and selected: toggle it when the click hit the
    /// glyph column, open it when it repeats the last click in time.  The
    /// click is the new last click.
    RowClick { toggle: bool, open: bool },
    /// The details link with this index (the last one containing the cell)
    /// was clicked: reveal and select its row.
    DetailsLink(usize),
}

/// Where the panes are on screen, and what the tree shows.
#[derive(Clone, Copy, Debug, PartialEq, Eq, Structural)]
pub struct PaneGeometry {
    pub tree_area: Area,
    pub details_area: Area,
    /// How many rows the tree shows in all.
    pub rows: usize,
}

/// The last index below `n` whose area contains the cell.
pub open spec fn last_hit(hits: Seq<Area>, n: nat, x: u16, y: u16) -> Option<nat>
    decreases n,
{
    if n == 0 {
        None
    } else if area_contains(hits[n - 1], x, y) {
        Some((n - 1) as nat)
    } else {
        last_hit(hits, (n - 1) as nat, x, y)
    }
}

/// The deepest the tree can scroll with `rows` rows in an area `height`
/// cells high (two of them are the border).
pub open spec fn tree_scroll_max(rows: usize, height: u16) -> int {
    let visible: int = if height >= 2 { height - 2 } else { 0 };
    if rows >= visible {
        rows - visible
    } else {
        0
    }
}

/// A mouse event on the panes.  `repeat` is the cell of the last click if
/// it came recently enough to make a double click.
pub open spec fn clicked(
    c: Chrome,
    p: Panes,
    g: PaneGeometry,
    m: MouseInput,
    repeat: Option<(u16, u16)>,
    hits: Seq<Area>,
) -> (Chrome, Panes, MouseAction) {
    let (x, y) = (m.column, m.row);
    let in_tree = area_contains(g.tree_area, x, y);
    let in_details = c.details_visible && area_contains(g.details_area, x, y);
    match m.kind {
        MouseKind::ScrollUp => if in_details {
            (c, Panes { details_scroll: up_floored(p.details_scroll, 3), ..p }, MouseAction::Nothing)
        } else if in_tree {
            (c, Panes { tree_scroll: if p.tree_scroll >= 3 { (p.tree_scroll - 3) as usize } else { 0 }, ..p }, MouseAction::Nothing)
        } else {
            (c, p, MouseAction::Nothing)
        },
        MouseKind::ScrollDown => if in_details {
            (c, Panes { details_scroll: down_capped(p.details_scroll, 3, p.details_scroll_max), ..p }, MouseAction::Nothing)
        } else if in_tree {
            let ms = tree_scroll_max(g.rows, g.tree_area.height);
            (c, Panes { tree_scroll: (if p.tree_scroll + 3 > ms { ms } else { p.tree_scroll + 3 }) as usize, ..p }, MouseAction::Nothing)
        } else {
            (c, p, MouseAction::Nothing)
        },
        MouseKind::LeftDown => if in_tree {
            let c2 = Chrome { pane: PaneFocus::Structure, ..c };
            let inner_y = sat_add(g.tree_area.y, 1);
            let idx = p.tree_scroll + (y - inner_y);
            if y >= inner_y && idx < g.rows {
                (c2, Panes { selected_row: idx as usize, ..p }, MouseAction::RowClick {
                    toggle: x < sat_add(g.tree_area.x, 6),
                    open: repeat == Some((x, y)),
                })
            } else {
                (c2, p, MouseAction::Nothing)
            }
        } else if in_details {
            let c2 = Chrome { pane: PaneFocus::Details, ..c };
            match last_hit(hits, hits.len(), x, y) {
                Some(i) => (c2, p, MouseAction::DetailsLink(i as usize)),
                None => (c2, p, MouseAction::Nothing),
            }
        } else {
            (c, p, MouseAction::Nothing)
        },
        MouseKind::Other => (c, p, MouseAction::Nothing),
    }
}

fn find_last_hit(hits: &Vec<Area>, x: u16, y: u16) -> (r: Option<usize>)
    ensures
        match last_hit(hits@, hits@.len(), x, y) {
            Some(i) => r == Some(i as usize),
            None => r is None,
        },
{
    let mut n: usize = hits.len();
    while n > 0
        invariant
            n <= hits@.len(),
            last_hit(hits@, hits@.len(), x, y) == last_hit(hits@, n as nat, x, y),
        decreases n,
    {
        if contains(hits[n - 1], x, y) {
            return Some(n - 1);
        }
        n = n - 1;
    }
    None
}

/// Handles a mouse event on the tree and details panes.
pub fn tree_mouse(
    c: &mut Chrome,
    p: &mut Panes,
    g: &PaneGeometry,
    m: MouseInput,
    repeat: Option<(u16, u16)>,
    hits: &Vec<Area>,
) -> (r: MouseAction)
    ensures
        (*final(c), *final(p), r) == clicked(*old(c), *old(p), *g, m, repeat, hits@),
{
    let x = m.column;
    let y = m.row;
    let in_tree = contains(g.tree_area, x, y);
    let in_details = c.details_visible && contains(g.details_area, x, y);
    match m.kind {
        MouseKind::ScrollUp => {
            if in_details {
                p.details_scroll = up_by(p.details_scroll, 3);
            } else if in_tree {
                p.tree_scroll = if p.tree_scroll >= 3 {
                    p.tree_scroll - 3
                } else {
                    0
                };
            }
            MouseAction::Nothing
        },
        MouseKind::ScrollDown => {
            if in_details {
                p.details_scroll = down_by(p.details_scroll, 3, p.details_scroll_max);
            } else if in_tree {
                let h = g.tree_area.height;
                let visible: usize = if h >= 2 {
                    (h - 2) as usize
                } else {
                    0
                };
                let ms: usize = if g.rows >= visible {
                    g.rows - visible
                } else {
                    0
                };
                p.tree_scroll = if p.tree_scroll >= ms || ms - p.tree_scroll < 3 {
                    ms
                } else {
                    p.tree_scroll + 3
                };
            }
            MouseAction::Nothing
        },
        MouseKind::LeftDown => {
            if in_tree {
                c.pane = PaneFocus::Structure;
                let inner_y = add_capped(g.tree_area.y, 1);
                if y >= inner_y {
                    let off = (y - inner_y) as usize;
                    if p.tree_scroll < g.rows && off < g.rows - p.tree_scroll {
                        p.selected_row = p.tree_scroll + off;
                        let toggle = x < add_capped(g.tree_area.x, 6);
                        let open = match repeat {
                            Some((px, py)) => px == x && py == y,
                            None => false,
                        };
                        return MouseAction::RowClick { toggle, open };
                    }
                }
                MouseAction::Nothing
            } else if in_details {
                c.pane = PaneFocus::Details;
                match find_last_hit(hits, x, y) {
                    Some(i) => MouseAction::DetailsLink(i),
                    None => MouseAction::Nothing,
                }
            } else {
                MouseAction::Nothing
            }
        },
        MouseKind::Other => MouseAction::Nothing,
    }
}

/// A row click always selects a row that the tree shows, and scrolling
/// keeps the details pane within its range.
pub proof fn law_click_stays_in_range(
    c: Chrome,
    p: Panes,
    g: PaneGeometry,
    m: MouseInput,
    repeat: Option<(u16, u16)>,
    hits: Seq<Area>,
)
    requires
        p.details_scroll <= p.details_scroll_max,
    ensures
        clicked(c, p, g, m, repeat, hits).2 is RowClick ==> clicked(c, p, g, m, repeat, hits).1.selected_row < g.rows,
        clicked(c, p, g, m, repeat, hits).1.details_scroll <= p.details_scroll_max,
        clicked(c, p, g, m, repeat, hits).2 matches MouseAction::DetailsLink(i) ==> i < hits.len(),
{
    lemma_last_hit_bound(hits, hits.len(), m.column, m.row);
}

proof fn lemma_last_hit_bound(hits: Seq<Area>, n: nat, x: u16, y: u16)
    ensures
        last_hit(hits, n, x, y) matches Some(i) ==> i < n,
    decreases n,
{
    if n > 0 {
        lemma_last_hit_bound(hits, (n - 1) as nat, x, y);
    }
}

/// Keys keep the details pane within its range.
pub proof fn law_nav_scroll_in_range(c: Chrome, p: Panes, k: KeyInput)
    requires
        p.details_scroll <= p.details_scroll_max,
    ensures
        navigated(c, p, k).0.details_scroll <= p.details_scroll_max,
        navigated(c, p, k).0.details_scroll_max == p.details_scroll_max,
        navigated(c, p, k).0.tree_scroll == p.tree_scroll,
        navigated(c, p, k).0.selected_row == p.selected_row,
{
}

// ---------------------------------------------------------------------------
// Fitting the panes to the screen
// ---------------------------------------------------------------------------

/// The tree scroll after bringing the selected row into a window of
/// `visible` rows: up to it when it is above, down to it when below.
pub open spec fn followed(selected: usize, scroll: usize, visible: usize) -> usize {
    let s1 = if selected < scroll { selected } else { scroll };
    if visible > 0 && selected >= s1 + visible {
        (selected + 1 - visible) as usize
    } else {
        s1
    }
}

/// Scrolls the tree so that the selected row is visible.
pub fn follow_selection(p: &mut Panes, visible: usize)
    ensures
        *final(p) == (Panes { tree_scroll: followed(old(p).selected_row, old(p).tree_scroll, visible), ..*old(p) }),
{
    if p.selected_row < p.tree_scroll {
        p.tree_scroll = p.selected_row;
    }
    if visible > 0 && p.selected_row >= p.tree_scroll && p.selected_row - p.tree_scroll >= visible {
        p.tree_scroll = p.selected_row - (visible - 1);
    }
}

/// `n - k`, floored at 0.
pub open spec fn minus(n: usize, k: usize) -> usize {
    if n >= k {
        (n - k) as usize
    } else {
        0
    }
}

/// Keeps the tree scroll within the rows: at most `rows - visible`.
pub fn clamp_tree_scroll(p: &mut Panes, rows: usize, visible: usize)
    ensures
        *final(p) == (Panes {
            tree_scroll: if old(p).tree_scroll > minus(rows, visible) { minus(rows, visible) } else { old(p).tree_scroll },
            ..*old(p)
        }),
{
    let max = if rows >= visible {
        rows - visible
    } else {
        0
    };
    if p.tree_scroll > max {
        p.tree_scroll = max;
    }
}

/// Fits the details scroll to `lines` lines shown `height` at a time: the
/// deepest scroll shows the last line at the bottom.
pub fn fit_details(p: &mut Panes, lines: usize, height: usize)
    ensures
        final(p).details_scroll_max == minus(lines, height),
        final(p).details_scroll == (if old(p).details_scroll > minus(lines, height) {
            minus(lines, height)
        } else {
            old(p).details_scroll
        }),
        final(p).tree_scroll == old(p).tree_scroll,
        final(p).selected_row == old(p).selected_row,
{
    p.details_scroll_max = if lines >= height {
        lines - height
    } else {
        0
    };
    if p.details_scroll > p.details_scroll_max {
        p.details_scroll = p.details_scroll_max;
    }
}

/// The length of a scrollbar thumb on a track `h` cells high for `total`
/// lines: proportional, at least one cell.
pub open spec fn thumb_len(h: nat, total: nat) -> nat {
    let l = (h * h) / (if total >= 1 { total } else { 1 });
    if l >= 1 {
        l
    } else {
        1
    }
}

/// Where the thumb starts for a scroll position.
pub open spec fn thumb_top(h: nat, total: nat, scroll: nat) -> nat {
    let free: nat = if h >= thumb_len(h, total) { (h - thumb_len(h, total)) as nat } else { 0 };
    let range: nat = if total > h { (total - h) as nat } else { 1 };
    (scroll * free) / range
}

/// The scrollbar thumb for a track `height` cells high showing `total`
/// lines scrolled by `scroll`: its first cell and its length.
pub fn scrollbar_thumb(height: u16, total: usize, scroll: usize) -> (r: (usize, usize))
    requires
        scroll * height <= usize::MAX,
    ensures
        r.0 == thumb_top(height as nat, total as nat, scroll as nat),
        r.1 == thumb_len(height as nat, total as nat),
{
    let h = height as usize;
    let hh: usize = if h <= 65535 {
        assert(h * h <= 65535 * 65535) by (nonlinear_arith)
            requires
                h <= 65535;
        h * h
    } else {
        0
    };
    let t = if total >= 1 {
        total
    } else {
        1
    };
    let l0 = hh / t;
    let len = if l0 >= 1 {
        l0
    } else {
        1
    };
    let free = if h >= len {
        h - len
    } else {
        0
    };
    let range = if total > h {
        total - h
    } else {
        1
    };
    assert(scroll * free <= scroll * h) by (nonlinear_arith)
        requires
            free <= h;
    let top = (scroll * free) / range;
    (top, len)
}

/// While the scroll stays within the lines, the thumb stays on the track.
pub proof fn law_thumb_on_track(h: nat, total: nat, scroll: nat)
    requires
        h >= 1,
        total > h,
        scroll <= total - h,
    ensures
        thumb_top(h, total, scroll) + thumb_len(h, total) <= h,
{
    let len = thumb_len(h, total);
    assert((h * h) / total <= h) by (nonlinear_arith)
        requires
            total > h,
            h >= 1;
    let free: nat = (h - len) as nat;
    let range: nat = (total - h) as nat;
    assert((scroll * free) / range <= free) by (nonlinear_arith)
        requires
            scroll <= range,
            range >= 1;
}

/// In the structure pane, Down/`j` and Up/`k` move the selection by one,
/// PageDown/PageUp by ten, Home/`g` and End/`G` to the first and last row,
/// Left/`h` collapses, Right/`l` expands and Space toggles; the panes are
/// left as they were.  In the details pane the same moves scroll the
/// details instead, never past their end, and change nothing else.
pub proof fn law_nav_keys(c: Chrome, p: Panes, k: KeyInput)
    requires
        !k.ctrl,
        !k.shift,
    ensures
        ({
            let (p2, m) = navigated(c, p, k);
            let j = k.code == KeyCode::Down || k.code == KeyCode::Char('j');
            let u = k.code == KeyCode::Up || k.code == KeyCode::Char('k');
            &&& !details_focused(c) ==> {
                &&& j ==> m == TreeMove::By(1) && p2 == p
                &&& u ==> m == TreeMove::By(-1isize) && p2 == p
                &&& k.code == KeyCode::PageDown ==> m == TreeMove::By(10) && p2 == p
                &&& k.code == KeyCode::PageUp ==> m == TreeMove::By(-10isize) && p2 == p
                &&& (k.code == KeyCode::Home || k.code == KeyCode::Char('g')) ==> m == TreeMove::First && p2 == p
                &&& (k.code == KeyCode::End || k.code == KeyCode::Char('G')) ==> m == TreeMove::Last && p2 == p
                &&& (k.code == KeyCode::Left || k.code == KeyCode::Char('h')) ==> m == TreeMove::Collapse && p2 == p
                &&& (k.code == KeyCode::Right || k.code == KeyCode::Char('l')) ==> m == TreeMove::Expand && p2 == p
                &&& k.code == KeyCode::Char(' ') ==> m == TreeMove::Toggle && p2 == p
            }
            &&& details_focused(c) ==> {
                &&& m == TreeMove::Nothing
                &&& p2 == (Panes { details_scroll: p2.details_scroll, ..p })
                &&& j && p.details_scroll < p.details_scroll_max ==> p2.details_scroll == p.details_scroll + 1
                &&& u && p.details_scroll > 0 ==> p2.details_scroll == p.details_scroll - 1
                &&& (k.code == KeyCode::Home || k.code == KeyCode::Char('g')) ==> p2.details_scroll == 0
                &&& (k.code == KeyCode::End || k.code == KeyCode::Char('G')) ==> p2.details_scroll == p.details_scroll_max
            }
        }),
{
}

} // verus!
