//! The open template with its undo history, and the structural commands on
//! the selected row: delete, duplicate, reorder, add, remove and hop between
//! columns, undo.
use vstd::prelude::*;

use crate::columns::{
    ColOwnerKind, SpecColOwner, column_count, column_count_view, column_deleted, column_inserted,
    delete_current_column, enclosing_columns, enclosing_view, insert_column, is_last_column,
    is_last_column_view,
};
use crate::edits::{Reorder, duplicate_path, duplicated, remove_path, removed, reorder_path, reordered};
use crate::model::{SpecTemplate, Template};
use crate::text::owned;
use crate::tree::{SpecTreeId, Step, TreeId, copy_path};

verus! {

/// How many earlier states undo keeps.
pub const UNDO_CAP: usize = 20;

/// How a message to the user is shown.
#[derive(Clone, Copy, Debug, PartialEq, Eq, Structural)]
pub enum ToastLevel {
    Success,
    Info,
    Warning,
    Error,
}

/// A message to the user.
#[derive(Debug)]
pub struct Notice {
    pub level: ToastLevel,
    pub message: String,
}

/// What the view has to do after a command.
#[derive(Debug)]
pub struct EditOutcome {
    /// A message to show, if any.
    pub notice: Option<Notice>,
    /// The row to select, if the selection moves.
    pub select: Option<TreeId>,
    /// Whether the selection has to be brought back into range.
    pub clamp_selection: bool,
    /// A row to expand so that the selection is visible.
    pub expand: Option<Vec<Step>>,
    /// Whether the body row has to be expanded too.
    pub expand_body: bool,
}

/// The view of an [`EditOutcome`].
pub struct SpecOutcome {
    pub notice: Option<(ToastLevel, Seq<char>)>,
    pub select: Option<SpecTreeId>,
    pub clamp_selection: bool,
    pub expand: Option<Seq<Step>>,
    pub expand_body: bool,
}

impl View for EditOutcome {
    type V = SpecOutcome;

    open spec fn view(&self) -> SpecOutcome {
        SpecOutcome {
            notice: match self.notice {
                Some(n) => Some((n.level, n.message@)),
                None => None,
            },
            select: match self.select {
                Some(id) => Some(id@),
                None => None,
            },
            clamp_selection: self.clamp_selection,
            expand: match self.expand {
                Some(p) => Some(p@),
                None => None,
            },
            expand_body: self.expand_body,
        }
    }
}

/// An outcome that only shows a message (or nothing).
pub open spec fn note(n: Option<(ToastLevel, Seq<char>)>) -> SpecOutcome {
    SpecOutcome { notice: n, select: None, clamp_selection: false, expand: None, expand_body: false }
}

/// The open template and the states undo can go back to, oldest first.
#[derive(Debug)]
pub struct Editor {
    pub template: Option<Template>,
    pub undo_stack: Vec<Template>,
}

/// The view of an [`Editor`].
pub struct SpecEditor {
    pub template: Option<SpecTemplate>,
    pub undo: Seq<SpecTemplate>,
}

impl View for Editor {
    type V = SpecEditor;

    open spec fn view(&self) -> SpecEditor {
        SpecEditor {
            template: match self.template {
                Some(t) => Some(t@),
                None => None,
            },
            undo: self.undo_stack@.map_values(|t: Template| t@),
        }
    }
}

/// The history after recording `t`: pushed on top, the oldest entry dropped
/// beyond the cap (nothing is recorded without a template).
pub open spec fn pushed(u: Seq<SpecTemplate>, t: Option<SpecTemplate>) -> Seq<SpecTemplate> {
    match t {
        None => u,
        Some(t) => if u.len() + 1 > UNDO_CAP {
            u.push(t).drop_first()
        } else {
            u.push(t)
        },
    }
}

/// The history without its newest entry.
pub open spec fn popped(u: Seq<SpecTemplate>) -> Seq<SpecTemplate> {
    if u.len() == 0 {
        u
    } else {
        u.drop_last()
    }
}

/// The view of the selected row.
pub open spec fn sel_view(selected: Option<&TreeId>) -> Option<SpecTreeId> {
    match selected {
        Some(id) => Some(id@),
        None => None,
    }
}

/// An editor with the template replaced.
pub open spec fn with_template(e: SpecEditor, t: SpecTemplate, u: Seq<SpecTemplate>) -> SpecEditor {
    SpecEditor { template: Some(t), undo: u }
}

/// An editor whose last recorded state was taken back again.
pub open spec fn rolled_back(e: SpecEditor) -> SpecEditor {
    SpecEditor { undo: popped(pushed(e.undo, e.template)), ..e }
}

/// The editor after undo: the newest recorded template comes back.
pub open spec fn undone(e: SpecEditor) -> SpecEditor {
    SpecEditor { template: Some(e.undo.last()), undo: e.undo.drop_last() }
}

fn notice(level: ToastLevel, msg: &str) -> (r: Option<Notice>)
    ensures
        r is Some,
        r->0.level == level,
        r->0.message@ == msg@,
{
    Some(Notice { level, message: owned(msg) })
}

fn quiet(n: Option<Notice>) -> (r: EditOutcome)
    ensures
        r@ == note(
            match n {
                Some(x) => Some((x.level, x.message@)),
                None => None,
            },
        ),
{
    EditOutcome { notice: n, select: None, clamp_selection: false, expand: None, expand_body: false }
}

/// Deleting the selected row.
pub open spec fn deleted_row(e: SpecEditor, sel: Option<SpecTreeId>) -> (SpecEditor, SpecOutcome) {
    match sel {
        None => (e, note(Some((ToastLevel::Warning, "Nothing selected to delete."@)))),
        Some(SpecTreeId::Path(p)) => if is_last_column_view(e.template, p) {
            (e, note(Some((ToastLevel::Info, "A section needs at least one column"@))))
        } else {
            match e.template {
                None => (rolled_back(e), note(None)),
                Some(t) => match removed(t, p) {
                    None => (rolled_back(e), note(Some((ToastLevel::Warning, "Could not delete that row."@)))),
                    Some(t2) => (
                        with_template(e, t2, pushed(e.undo, e.template)),
                        SpecOutcome { clamp_selection: true, ..note(Some((ToastLevel::Info, "Deleted."@))) },
                    ),
                },
            }
        },
        Some(_) => (e, note(Some((ToastLevel::Warning, "Cannot delete this row."@)))),
    }
}

/// Duplicating the selected row.
pub open spec fn duplicated_row(e: SpecEditor, sel: Option<SpecTreeId>) -> (SpecEditor, SpecOutcome) {
    match sel {
        None => (e, note(Some((ToastLevel::Warning, "Nothing selected to duplicate."@)))),
        Some(SpecTreeId::Path(p)) => match e.template {
            None => (rolled_back(e), note(None)),
            Some(t) => match duplicated(t, p) {
                None => (rolled_back(e), note(Some((ToastLevel::Warning, "Could not duplicate that row."@)))),
                Some((t2, q)) => (
                    with_template(e, t2, pushed(e.undo, e.template)),
                    SpecOutcome {
                        select: Some(SpecTreeId::Path(q)),
                        ..note(Some((ToastLevel::Success, "Duplicated."@)))
                    },
                ),
            },
        },
        Some(_) => (e, note(Some((ToastLevel::Warning, "Cannot duplicate this row."@)))),
    }
}

/// Moving the selected row by `delta` within its list.
pub open spec fn reordered_row(e: SpecEditor, sel: Option<SpecTreeId>, delta: isize) -> (SpecEditor, SpecOutcome) {
    match sel {
        None => (e, note(None)),
        Some(SpecTreeId::Path(p)) => match e.template {
            None => (rolled_back(e), note(None)),
            Some(t) => match reordered(t, p, delta) {
                Reorder::Applied(t2, q) => (
                    with_template(e, t2, pushed(e.undo, e.template)),
                    SpecOutcome {
                        select: Some(SpecTreeId::Path(q)),
                        ..note(Some((ToastLevel::Success, "Reordered."@)))
                    },
                ),
                _ => (rolled_back(e), note(None)),
            },
        },
        Some(_) => (e, note(Some((ToastLevel::Info, "Cannot reorder this row."@)))),
    }
}

/// The owner of the selected row's columns.
pub open spec fn sel_owner(e: SpecEditor, sel: Option<SpecTreeId>) -> Option<SpecColOwner> {
    match (e.template, sel) {
        (Some(t), Some(SpecTreeId::Path(p))) => enclosing_view(t, p),
        _ => None,
    }
}

/// Adding a column next to the selected row's columns.
pub open spec fn column_added(e: SpecEditor, sel: Option<SpecTreeId>) -> (SpecEditor, SpecOutcome) {
    if sel is None {
        (e, note(None))
    } else {
        match sel_owner(e, sel) {
            None => (e, note(Some((ToastLevel::Info, "No columns on this selection"@)))),
            Some(o) => match column_inserted(e.template->0, o) {
                None => (rolled_back(e), note(Some((ToastLevel::Warning, "Could not add a column."@)))),
                Some((t2, q)) => (
                    with_template(e, t2, pushed(e.undo, e.template)),
                    SpecOutcome {
                        notice: Some((ToastLevel::Success, "Added column."@)),
                        select: Some(SpecTreeId::Path(q)),
                        clamp_selection: false,
                        expand: Some(o.owner_path),
                        expand_body: o.owner_path.len() == 1,
                    },
                ),
            },
        }
    }
}

/// Removing the column the selected row is in.
pub open spec fn column_removed(e: SpecEditor, sel: Option<SpecTreeId>) -> (SpecEditor, SpecOutcome) {
    if sel is None {
        (e, note(None))
    } else {
        match sel_owner(e, sel) {
            None => (e, note(Some((ToastLevel::Info, "No columns on this selection"@)))),
            Some(o) => {
                let n = match column_count_view(e.template->0, o) {
                    Some(n) => n,
                    None => 0,
                };
                if n <= 1 {
                    (e, note(Some((ToastLevel::Info, "A section needs at least one column"@))))
                } else {
                    match column_deleted(e.template->0, o) {
                        None => (rolled_back(e), note(Some((ToastLevel::Warning, "Could not remove that column."@)))),
                        Some(t2) => (
                            with_template(e, t2, pushed(e.undo, e.template)),
                            SpecOutcome { clamp_selection: true, ..note(Some((ToastLevel::Info, "Removed column."@))) },
                        ),
                    }
                }
            },
        }
    }
}

/// The column after (`forward`) or before column `i` of `n`, wrapping round.
pub open spec fn hop_target(i: usize, n: nat, forward: bool) -> int {
    if forward {
        (i + 1) % (n as int)
    } else {
        (i - 1) % (n as int)
    }
}

/// The row that hopping to the next or previous column selects.
pub open spec fn column_hop(e: SpecEditor, sel: Option<SpecTreeId>, forward: bool) -> SpecOutcome {
    if sel is None {
        note(None)
    } else {
        match sel_owner(e, sel) {
            None => note(Some((ToastLevel::Info, "No columns on this selection"@))),
            Some(o) => match column_count_view(e.template->0, o) {
                Some(n) => if n == 0 {
                    note(None)
                } else {
                    let next = hop_target(o.col_index, n, forward) as usize;
                    SpecOutcome {
                        notice: None,
                        select: Some(SpecTreeId::Path(o.owner_path.push(match o.kind {
                            ColOwnerKind::Section => Step::SectionChild(next),
                            ColOwnerKind::Group => Step::GroupCol(next),
                        }))),
                        clamp_selection: false,
                        expand: Some(o.owner_path),
                        expand_body: false,
                    }
                },
                None => note(None),
            },
        }
    }
}

impl Editor {
    /// An editor on `template` with no history.
    pub fn new(template: Option<Template>) -> (r: Editor)
        ensures
            r@.template == (match template {
                Some(t) => Some(t@),
                None => None,
            }),
            r@.undo.len() == 0,
    {
        let r = Editor { template, undo_stack: Vec::new() };
        assert(r@.undo =~= Seq::<SpecTemplate>::empty());
        r
    }

    /// Records the current template so that undo can come back to it.
    pub fn push_undo(&mut self)
        ensures
            final(self)@ == (SpecEditor { undo: pushed(old(self)@.undo, old(self)@.template), ..old(self)@ }),
    {
        let ghost u0 = self@.undo;
        match &self.template {
            None => {},
            Some(t) => {
                let c = t.clone();
                self.undo_stack.push(c);
                assert(self@.undo =~= u0.push(c@));
                if self.undo_stack.len() > UNDO_CAP {
                    self.undo_stack.remove(0);
                    assert(self@.undo =~= u0.push(c@).drop_first());
                }
            },
        }
    }

    fn drop_newest(&mut self)
        ensures
            final(self)@ == (SpecEditor { undo: popped(old(self)@.undo), ..old(self)@ }),
    {
        let ghost u0 = self@.undo;
        let _ = self.undo_stack.pop();
        assert(self@.undo =~= popped(u0));
    }

    /// Goes back to the last recorded template.
    pub fn undo_last(&mut self) -> (r: EditOutcome)
        ensures
            old(self)@.undo.len() == 0 ==> final(self)@ == old(self)@
                && r@ == note(Some((ToastLevel::Warning, "Nothing to undo."@))),
            old(self)@.undo.len() > 0 ==> final(self)@ == undone(old(self)@)
                && r@ == (SpecOutcome {
                clamp_selection: true,
                ..note(Some((ToastLevel::Success, "Undid last change."@)))
            }),
    {
        let ghost u0 = self@.undo;
        match self.undo_stack.pop() {
            None => quiet(notice(ToastLevel::Warning, "Nothing to undo.")),
            Some(t) => {
                assert(self@.undo =~= u0.drop_last());
                self.template = Some(t);
                EditOutcome {
                    notice: notice(ToastLevel::Success, "Undid last change."),
                    select: None,
                    clamp_selection: true,
                    expand: None,
                    expand_body: false,
                }
            },
        }
    }

    /// Deletes the selected row (the only column of its section or group
    /// stays).
    pub fn delete_selected_row(&mut self, selected: Option<&TreeId>) -> (r: EditOutcome)
        ensures
            (final(self)@, r@) == deleted_row(old(self)@, sel_view(selected)),
    {
        let id = match selected {
            None => return quiet(notice(ToastLevel::Warning, "Nothing selected to delete.")),
            Some(id) => id,
        };
        let path = match id {
            TreeId::Path(p) => p,
            _ => return quiet(notice(ToastLevel::Warning, "Cannot delete this row.")),
        };
        if is_last_column(self.template.as_ref(), path.as_slice()) {
            return quiet(notice(ToastLevel::Info, "A section needs at least one column"));
        }
        self.push_undo();
        match &mut self.template {
            None => {
                self.drop_newest();
                quiet(None)
            },
            Some(t) => {
                if !remove_path(t, path.as_slice()) {
                    self.drop_newest();
                    return quiet(notice(ToastLevel::Warning, "Could not delete that row."));
                }
                EditOutcome {
                    notice: notice(ToastLevel::Info, "Deleted."),
                    select: None,
                    clamp_selection: true,
                    expand: None,
                    expand_body: false,
                }
            },
        }
    }

    /// Duplicates the selected row right after itself and selects the copy.
    pub fn duplicate_selected_row(&mut self, selected: Option<&TreeId>) -> (r: EditOutcome)
        ensures
            (final(self)@, r@) == duplicated_row(old(self)@, sel_view(selected)),
    {
        let id = match selected {
            None => return quiet(notice(ToastLevel::Warning, "Nothing selected to duplicate.")),
            Some(id) => id,
        };
        let path = match id {
            TreeId::Path(p) => p,
            _ => return quiet(notice(ToastLevel::Warning, "Cannot duplicate this row.")),
        };
        self.push_undo();
        match &mut self.template {
            None => {
                self.drop_newest();
                quiet(None)
            },
            Some(t) => match duplicate_path(t, path.as_slice()) {
                None => {
                    self.drop_newest();
                    quiet(notice(ToastLevel::Warning, "Could not duplicate that row."))
                },
                Some(q) => EditOutcome {
                    notice: notice(ToastLevel::Success, "Duplicated."),
                    select: Some(TreeId::Path(q)),
                    clamp_selection: false,
                    expand: None,
                    expand_body: false,
                },
            },
        }
    }

    /// Moves the selected row by `delta` places within its list.
    pub fn reorder_selected(&mut self, selected: Option<&TreeId>, delta: isize) -> (r: EditOutcome)
        requires
            (old(self)@.template, sel_view(selected)) matches (Some(t), Some(SpecTreeId::Path(p)))
                ==> !(reordered(t, p, delta) is Fault),
        ensures
            (final(self)@, r@) == reordered_row(old(self)@, sel_view(selected), delta),
    {
        let id = match selected {
            None => return quiet(None),
            Some(id) => id,
        };
        let path = match id {
            TreeId::Path(p) => p,
            _ => return quiet(notice(ToastLevel::Info, "Cannot reorder this row.")),
        };
        self.push_undo();
        match &mut self.template {
            None => {
                self.drop_newest();
                quiet(None)
            },
            Some(t) => match reorder_path(t, path.as_slice(), delta) {
                None => {
                    self.drop_newest();
                    quiet(None)
                },
                Some(q) => EditOutcome {
                    notice: notice(ToastLevel::Success, "Reordered."),
                    select: Some(TreeId::Path(q)),
                    clamp_selection: false,
                    expand: None,
                    expand_body: false,
                },
            },
        }
    }

    /// Adds an empty column after the selected row's columns, splits the
    /// width equally and selects the new column.
    pub fn add_column(&mut self, selected: Option<&TreeId>) -> (r: EditOutcome)
        ensures
            (final(self)@, r@) == column_added(old(self)@, sel_view(selected)),
    {
        let id = match selected {
            None => return quiet(None),
            Some(id) => id,
        };
        let owner = match enclosing_columns(self.template.as_ref(), id) {
            None => return quiet(notice(ToastLevel::Info, "No columns on this selection")),
            Some(o) => o,
        };
        self.push_undo();
        match &mut self.template {
            None => {
                self.drop_newest();
                quiet(None)
            },
            Some(t) => match insert_column(t, &owner) {
                None => {
                    self.drop_newest();
                    quiet(notice(ToastLevel::Warning, "Could not add a column."))
                },
                Some(new_id) => {
                    let expand_body = owner.owner_path.len() == 1;
                    EditOutcome {
                        notice: notice(ToastLevel::Success, "Added column."),
                        select: Some(new_id),
                        clamp_selection: false,
                        expand: Some(copy_path(owner.owner_path.as_slice())),
                        expand_body,
                    }
                },
            },
        }
    }

    /// Removes the column the selected row is in and splits the width
    /// equally; the last column of a section or group stays.
    pub fn remove_column(&mut self, selected: Option<&TreeId>) -> (r: EditOutcome)
        ensures
            (final(self)@, r@) == column_removed(old(self)@, sel_view(selected)),
    {
        let id = match selected {
            None => return quiet(None),
            Some(id) => id,
        };
        let owner = match enclosing_columns(self.template.as_ref(), id) {
            None => return quiet(notice(ToastLevel::Info, "No columns on this selection")),
            Some(o) => o,
        };
        let n = match column_count(self.template.as_ref(), &owner) {
            Some(n) => n,
            None => 0,
        };
        if n <= 1 {
            return quiet(notice(ToastLevel::Info, "A section needs at least one column"));
        }
        self.push_undo();
        match &mut self.template {
            None => {
                self.drop_newest();
                quiet(None)
            },
            Some(t) => if !delete_current_column(t, &owner) {
                self.drop_newest();
                quiet(notice(ToastLevel::Warning, "Could not remove that column."))
            } else {
                EditOutcome {
                    notice: notice(ToastLevel::Info, "Removed column."),
                    select: None,
                    clamp_selection: true,
                    expand: None,
                    expand_body: false,
                }
            },
        }
    }

    /// Selects the next (`forward`) or previous column of the selected
    /// row's section or group, wrapping round.
    pub fn hop_column(&self, selected: Option<&TreeId>, forward: bool) -> (r: EditOutcome)
        ensures
            r@ == column_hop(self@, sel_view(selected), forward),
    {
        let id = match selected {
            None => return quiet(None),
            Some(id) => id,
        };
        let owner = match enclosing_columns(self.template.as_ref(), id) {
            None => return quiet(notice(ToastLevel::Info, "No columns on this selection")),
            Some(o) => o,
        };
        let n = match column_count(self.template.as_ref(), &owner) {
            Some(n) => n,
            None => return quiet(None),
        };
        if n == 0 {
            return quiet(None);
        }
        let rem = owner.col_index % n;
        let next = if forward {
            if rem + 1 == n {
                0
            } else {
                rem + 1
            }
        } else if rem == 0 {
            n - 1
        } else {
            rem - 1
        };
        proof {
            lemma_hop(owner.col_index, n, forward, rem, next);
        }
        let step = match owner.kind {
            ColOwnerKind::Section => Step::SectionChild(next),
            ColOwnerKind::Group => Step::GroupCol(next),
        };
        let mut path = copy_path(owner.owner_path.as_slice());
        path.push(step);
        EditOutcome {
            notice: None,
            select: Some(TreeId::Path(path)),
            clamp_selection: false,
            expand: Some(copy_path(owner.owner_path.as_slice())),
            expand_body: false,
        }
    }
}

/// The wrap-round arithmetic of a column hop.
proof fn lemma_hop(i: usize, n: usize, forward: bool, rem: usize, next: usize)
    requires
        n > 0,
        rem == i % n,
        forward ==> next == (if rem + 1 == n { 0 } else { rem + 1 }),
        !forward ==> next == (if rem == 0 { n - 1 } else { rem - 1 }),
    ensures
        next == hop_target(i, n as nat, forward),
{
    let d = n as int;
    let q = (i as int) / d;
    vstd::arithmetic::div_mod::lemma_fundamental_div_mod(i as int, d);
    assert(i as int == q * d + rem);
    if forward {
        if rem + 1 == n {
            assert(i + 1 == (q + 1) * d + 0) by (nonlinear_arith)
                requires
                    i as int == q * d + rem,
                    rem + 1 == d;
            vstd::arithmetic::div_mod::lemma_fundamental_div_mod_converse(i + 1, d, q + 1, 0);
        } else {
            vstd::arithmetic::div_mod::lemma_fundamental_div_mod_converse(i + 1, d, q, rem + 1);
        }
    } else {
        if rem == 0 {
            assert(i - 1 == (q - 1) * d + (d - 1)) by (nonlinear_arith)
                requires
                    i as int == q * d + rem,
                    rem == 0;
            vstd::arithmetic::div_mod::lemma_fundamental_div_mod_converse(i - 1, d, q - 1, d - 1);
        } else {
            vstd::arithmetic::div_mod::lemma_fundamental_div_mod_converse(i - 1, d, q, rem - 1);
        }
    }
}

/// One undo after `e1` brings `e0`'s template back whenever the template
/// changed, and the history too unless it was full.
pub open spec fn undo_restores(e0: SpecEditor, e1: SpecEditor) -> bool {
    e1.template != e0.template ==> {
        &&& undone(e1).template == e0.template
        &&& e0.undo.len() < UNDO_CAP ==> undone(e1).undo == e0.undo
    }
}

proof fn lemma_recorded_undo(e0: SpecEditor, t2: SpecTemplate)
    requires
        e0.template is Some,
    ensures
        undo_restores(e0, with_template(e0, t2, pushed(e0.undo, e0.template))),
{
    let u = pushed(e0.undo, e0.template);
    if e0.undo.len() < UNDO_CAP {
        assert(u.drop_last() =~= e0.undo);
    }
}

/// Every structural edit that changes the template is taken back exactly
/// by one undo: delete, duplicate, reorder, adding and removing a column.
pub proof fn law_undo_reverts_edit(e0: SpecEditor, sel: Option<SpecTreeId>, delta: isize)
    ensures
        undo_restores(e0, deleted_row(e0, sel).0),
        undo_restores(e0, duplicated_row(e0, sel).0),
        undo_restores(e0, reordered_row(e0, sel, delta).0),
        undo_restores(e0, column_added(e0, sel).0),
        undo_restores(e0, column_removed(e0, sel).0),
{
    if let Some(t) = e0.template {
        if let Some(SpecTreeId::Path(p)) = sel {
            if let Some(t2) = removed(t, p) {
                lemma_recorded_undo(e0, t2);
            }
            if let Some((t2, q)) = duplicated(t, p) {
                lemma_recorded_undo(e0, t2);
            }
            if let Reorder::Applied(t2, q) = reordered(t, p, delta) {
                lemma_recorded_undo(e0, t2);
            }
        }
        if let Some(o) = sel_owner(e0, sel) {
            if let Some((t2, q)) = column_inserted(t, o) {
                lemma_recorded_undo(e0, t2);
            }
            if let Some(t2) = column_deleted(t, o) {
                lemma_recorded_undo(e0, t2);
            }
        }
    }
}

/// The history never grows past its cap.
pub proof fn law_history_capped(u: Seq<SpecTemplate>, t: Option<SpecTemplate>)
    requires
        u.len() <= UNDO_CAP,
    ensures
        pushed(u, t).len() <= UNDO_CAP,
        popped(u).len() <= UNDO_CAP,
{
}

/// Hopping from column `i` of `n` goes to the next column, from the last
/// one round to the first; hopping back goes to the previous column, from
/// the first one round to the last.
pub proof fn law_hop_wraps_round(i: usize, n: nat)
    requires
        i < n,
    ensures
        hop_target(i, n, true) == (if i + 1 < n { i + 1 } else { 0 }),
        hop_target(i, n, false) == (if i > 0 { i - 1 } else { n - 1 }),
{
    let m = n as int;
    let x = i as int;
    if x + 1 < m {
        vstd::arithmetic::div_mod::lemma_small_mod((x + 1) as nat, n);
    } else {
        vstd::arithmetic::div_mod::lemma_mod_self_0(m);
    }
    if x > 0 {
        vstd::arithmetic::div_mod::lemma_small_mod((x - 1) as nat, n);
    } else {
        vstd::arithmetic::div_mod::lemma_fundamental_div_mod(-1, m);
        assert((-1int) % m == m - 1) by (nonlinear_arith)
            requires
                m > 0,
        {
        }
    }
}

/// On a selected row below the body, the row commands act through the
/// template operations and record the template before them as the newest
/// undo entry: delete takes the row out (a section's only column is kept
/// and nothing is recorded), duplicate copies it and selects the copy,
/// and a move that applies moves it and selects it where it landed.
pub proof fn law_row_commands(e: SpecEditor, p: Seq<Step>, delta: isize)
    requires
        e.template is Some,
    ensures
        ({
            let t = e.template->0;
            let sel = Some(SpecTreeId::Path(p));
            &&& is_last_column_view(e.template, p) ==> deleted_row(e, sel).0 == e
            &&& (!is_last_column_view(e.template, p) && removed(t, p) is Some) ==> {
                &&& deleted_row(e, sel).0.template == removed(t, p)
                &&& deleted_row(e, sel).0.undo.last() == t
            }
            &&& duplicated(t, p) matches Some((t2, q)) ==> {
                &&& duplicated_row(e, sel).0.template == Some(t2)
                &&& duplicated_row(e, sel).0.undo.last() == t
                &&& duplicated_row(e, sel).1.select == Some(SpecTreeId::Path(q))
            }
            &&& reordered(t, p, delta) matches Reorder::Applied(t2, q) ==> {
                &&& reordered_row(e, sel, delta).0.template == Some(t2)
                &&& reordered_row(e, sel, delta).0.undo.last() == t
                &&& reordered_row(e, sel, delta).1.select == Some(SpecTreeId::Path(q))
            }
            &&& !(reordered(t, p, delta) is Applied) ==> reordered_row(e, sel, delta).0.template == e.template
        }),
{
}

/// Adding a column next to the selected row's columns acts through the
/// column operation, records the template before it, and selects the new
/// column; removing one is refused (changing nothing) when the owner has
/// a single column.
pub proof fn law_column_commands(e: SpecEditor, p: Seq<Step>)
    requires
        e.template is Some,
    ensures
        ({
            let t = e.template->0;
            let sel = Some(SpecTreeId::Path(p));
            &&& enclosing_view(t, p) matches Some(o) ==> {
                &&& column_inserted(t, o) matches Some((t2, q)) ==> {
                    &&& column_added(e, sel).0.template == Some(t2)
                    &&& column_added(e, sel).0.undo.last() == t
                    &&& column_added(e, sel).1.select == Some(SpecTreeId::Path(q))
                }
                &&& column_count_view(t, o) matches Some(n) ==> {
                    &&& n <= 1 ==> column_removed(e, sel).0 == e
                    &&& (n > 1 && column_deleted(t, o) is Some) ==> {
                        &&& column_removed(e, sel).0.template == column_deleted(t, o)
                        &&& column_removed(e, sel).0.undo.last() == t
                    }
                }
            }
        }),
{
}

} // verus!
