//! Column operations: equal width split, finding the columns a selection
//! belongs to, adding and removing a column.
use vstd::prelude::*;

use crate::model::{
    BodyNode, MjColumn, MjGroup, MjSection, SectionChild, SpecBodyNode, SpecMjColumn, SpecMjGroup,
    SpecMjSection, SpecSectionChild, SpecTemplate, Template, lemma_seq_view_body_node,
    seq_view_mj_column, seq_view_section_child, seq_view_string, wrapper_view,
};
use crate::nav::{lemma_set_node_at, node_at, node_at_ref, put_node, set_node_at, take_node};
use crate::text::{decimal, push_char, usize_to_decimal};
use crate::tree::{SpecTreeId, Step, TreeId};

verus! {

/// The percentage of column `i` when `n` columns share the width equally:
/// each gets `100 / n`, the last one the remainder.
pub open spec fn width_pct(n: nat, i: nat) -> nat {
    if i + 1 == n {
        (100 - (100nat / n) * ((n - 1) as nat)) as nat
    } else {
        100nat / n
    }
}

/// The width text of column `i` of `n`, such as `"33%"`.
pub open spec fn width_text(n: nat, i: nat) -> Seq<char> {
    decimal(width_pct(n, i)).push('%')
}

/// The widths for `n` equal columns, in order.
pub open spec fn widths_view(n: nat) -> Seq<Seq<char>> {
    Seq::new(n, |i: int| width_text(n, i as nat))
}

/// The sum of the first `k` of `n` column percentages.
pub open spec fn pct_sum(n: nat, k: nat) -> int
    decreases k,
{
    if k == 0 {
        0
    } else {
        pct_sum(n, (k - 1) as nat) + width_pct(n, (k - 1) as nat)
    }
}

proof fn lemma_share_bound(n: nat)
    requires
        n >= 1,
    ensures
        (100nat / n) * ((n - 1) as nat) <= 100,
{
    assert((100nat / n) * ((n - 1) as nat) <= (100nat / n) * n) by (nonlinear_arith)
        requires n >= 1;
    assert((100nat / n) * n <= 100) by (nonlinear_arith)
        requires n >= 1;
}

/// Splitting the width of `n` columns: `n` widths such as `"33%"`, all equal
/// but the last, which takes the remainder.
pub fn rebalance_widths(n: usize) -> (r: Vec<String>)
    ensures
        r@.map_values(|s: String| s@) == widths_view(n as nat),
        r@.len() == n,
        forall|k: int| 0 <= k < n ==> (#[trigger] r@[k])@ == width_text(n as nat, k as nat),
{
    let mut r: Vec<String> = Vec::new();
    if n == 0 {
        assert(r@.map_values(|s: String| s@) =~= widths_view(0));
        return r;
    }
    proof {
        lemma_share_bound(n as nat);
    }
    let each = 100 / n;
    let last = 100 - each * (n - 1);
    let mut i: usize = 0;
    while i < n
        invariant
            1 <= n,
            i <= n,
            each == 100nat / (n as nat),
            last == 100 - (100nat / (n as nat)) * ((n - 1) as nat),
            r@.len() == i,
            forall|k: int| 0 <= k < i ==> (#[trigger] r@[k])@ == width_text(n as nat, k as nat),
        decreases n - i,
    {
        let p = if i + 1 == n {
            last
        } else {
            each
        };
        let mut s = usize_to_decimal(p);
        push_char(&mut s, '%');
        r.push(s);
        i = i + 1;
    }
    assert(r@.map_values(|s: String| s@) =~= widths_view(n as nat));
    r
}

/// The first `k < n` shares are all `100 / n`.
proof fn lemma_pct_sum_prefix(n: nat, k: nat)
    requires
        k < n,
    ensures
        pct_sum(n, k) == k * (100nat / n),
    decreases k,
{
    if k > 0 {
        lemma_pct_sum_prefix(n, (k - 1) as nat);
        let q: int = (100nat / n) as int;
        assert(pct_sum(n, k) == (k - 1) * q + q);
        assert((k - 1) * q + q == k * q) by (nonlinear_arith);
        assert(k * q == k * (100nat / n));
    } else {
        let q: int = (100nat / n) as int;
        assert(0 * q == 0) by (nonlinear_arith);
        assert(k * (100nat / n) == 0 * q);
    }
}

/// The equal split always adds up to exactly 100%.
pub proof fn law_widths_total(n: nat)
    requires
        n >= 1,
    ensures
        pct_sum(n, n) == 100,
{
    lemma_pct_sum_prefix(n, (n - 1) as nat);
    lemma_share_bound(n);
    let q: int = (100nat / n) as int;
    let m: int = n - 1;
    assert(m * q == q * m) by (nonlinear_arith);
}

// ---------------------------------------------------------------------------
// The columns a selection belongs to
// ---------------------------------------------------------------------------

/// Whose columns: a section's or a group's.
#[derive(Clone, Copy, Debug, PartialEq, Eq, Structural)]
pub enum ColOwnerKind {
    Section,
    Group,
}

/// The owner of the columns a selection belongs to, and which column.
#[derive(Debug)]
pub struct ColOwner {
    /// The path of the section, or of the group (a section child step last).
    pub owner_path: Vec<Step>,
    /// The column the selection is in.
    pub col_index: usize,
    pub kind: ColOwnerKind,
}

/// The view of a [`ColOwner`].
pub struct SpecColOwner {
    pub owner_path: Seq<Step>,
    pub col_index: usize,
    pub kind: ColOwnerKind,
}

impl View for ColOwner {
    type V = SpecColOwner;

    open spec fn view(&self) -> SpecColOwner {
        SpecColOwner { owner_path: self.owner_path@, col_index: self.col_index, kind: self.kind }
    }
}

/// The view of an optional owner.
pub open spec fn owner_view(o: Option<ColOwner>) -> Option<SpecColOwner> {
    match o {
        Some(x) => Some(x@),
        None => None,
    }
}

/// The walk along a path that finds the enclosing columns: still going
/// (the owner found so far, the path of the current node, the node), or
/// finished with an answer.
pub enum EncState {
    Going { owner: Option<SpecColOwner>, node_path: Seq<Step>, node: Option<SpecBodyNode> },
    Done(Option<SpecColOwner>),
}

/// A reached node that is a section owns the columns from now on.
pub open spec fn section_owner(nd: Option<SpecBodyNode>, np: Seq<Step>, owner: Option<SpecColOwner>) -> Option<SpecColOwner> {
    match nd {
        Some(SpecBodyNode::MjSection(_)) => Some(SpecColOwner { owner_path: np, col_index: 0, kind: ColOwnerKind::Section }),
        _ => owner,
    }
}

/// One step of the walk: step `i` of the path is `step`.
pub open spec fn enc_step(t: SpecTemplate, st: EncState, i: int, step: Step) -> EncState {
    match st {
        EncState::Done(o) => EncState::Done(o),
        EncState::Going { owner, node_path, node } => match step {
            Step::BodyNode(idx) => if i == 0 {
                let np = node_path.push(step);
                let nd = if idx < t.body.nodes.len() {
                    Some(t.body.nodes[idx as int])
                } else {
                    None
                };
                EncState::Going { owner: section_owner(nd, np, owner), node_path: np, node: nd }
            } else {
                st
            },
            Step::WrapperChild(idx) => match node {
                None => EncState::Done(None),
                Some(SpecBodyNode::MjWrapper(w)) => {
                    let np = node_path.push(step);
                    let nd = if idx < w.children.len() {
                        Some(w.children[idx as int])
                    } else {
                        None
                    };
                    EncState::Going { owner: section_owner(nd, np, owner), node_path: np, node: nd }
                },
                Some(_) => EncState::Done(owner),
            },
            Step::SectionChild(idx) => match node {
                None => EncState::Done(None),
                Some(SpecBodyNode::MjSection(s)) => if idx < s.children.len() {
                    match s.children[idx as int] {
                        SpecSectionChild::MjColumn(_) => EncState::Going {
                            owner: Some(SpecColOwner { owner_path: node_path, col_index: idx, kind: ColOwnerKind::Section }),
                            node_path,
                            node,
                        },
                        SpecSectionChild::MjGroup(_) => EncState::Going {
                            owner: Some(SpecColOwner {
                                owner_path: node_path.push(step),
                                col_index: 0,
                                kind: ColOwnerKind::Group,
                            }),
                            node_path,
                            node,
                        },
                    }
                } else {
                    EncState::Done(None)
                },
                Some(_) => EncState::Done(owner),
            },
            Step::GroupCol(idx) => EncState::Going {
                owner: match owner {
                    Some(o) => if o.kind == ColOwnerKind::Group {
                        Some(SpecColOwner { col_index: idx, ..o })
                    } else {
                        owner
                    },
                    None => None,
                },
                node_path,
                node,
            },
            _ => st,
        },
    }
}

/// The walk over the first `n` steps of `p`.
pub open spec fn enc_fold(t: SpecTemplate, p: Seq<Step>, n: nat) -> EncState
    decreases n,
{
    if n == 0 {
        EncState::Going { owner: None, node_path: Seq::empty(), node: None }
    } else {
        enc_step(t, enc_fold(t, p, (n - 1) as nat), n - 1, p[n - 1])
    }
}

/// The columns the row at `p` belongs to: the innermost section or group
/// passed on the way (a group's column follows its column step).
pub open spec fn enclosing_view(t: SpecTemplate, p: Seq<Step>) -> Option<SpecColOwner> {
    match enc_fold(t, p, p.len()) {
        EncState::Going { owner, .. } => owner,
        EncState::Done(o) => o,
    }
}

/// Once the walk has finished, later steps do not change the answer.
proof fn lemma_enc_done(t: SpecTemplate, p: Seq<Step>, k: nat, n: nat, o: Option<SpecColOwner>)
    requires
        k <= n,
        enc_fold(t, p, k) == EncState::Done(o),
    ensures
        enc_fold(t, p, n) == EncState::Done(o),
    decreases n - k,
{
    if k < n {
        lemma_enc_done(t, p, k, (n - 1) as nat, o);
    }
}

fn copy_steps(v: &Vec<Step>) -> (r: Vec<Step>)
    ensures
        r@ == v@,
{
    crate::tree::copy_path(v.as_slice())
}

/// The columns the selected row belongs to, if any.
pub fn enclosing_columns(template: Option<&Template>, id: &TreeId) -> (r: Option<ColOwner>)
    ensures
        match (template, id@) {
            (Some(t), SpecTreeId::Path(p)) => owner_view(r) == enclosing_view(t@, p),
            _ => r is None,
        },
{
    let path = match id {
        TreeId::Path(p) => p,
        _ => return None,
    };
    let t = match template {
        Some(t) => t,
        None => return None,
    };
    let mut owner: Option<ColOwner> = None;
    let mut node_path: Vec<Step> = Vec::new();
    let mut node: Option<&BodyNode> = None;
    let mut i: usize = 0;
    while i < path.len()
        invariant
            i <= path@.len(),
            template == Some(t),
            id@ == SpecTreeId::Path(path@),
            enc_fold(t@, path@, i as nat) == (EncState::Going {
                owner: owner_view(owner),
                node_path: node_path@,
                node: match node {
                    Some(n) => Some(n@),
                    None => None,
                },
            }),
        decreases path@.len() - i,
    {
        proof {
            lemma_seq_view_body_node(t.body.nodes@);
        }
        let step = path[i];
        match step {
            Step::BodyNode(idx) => {
                if i == 0 {
                    node_path.push(step);
                    node = if idx < t.body.nodes.len() {
                        Some(&t.body.nodes[idx])
                    } else {
                        None
                    };
                    if let Some(BodyNode::MjSection(_)) = node {
                        owner = Some(ColOwner { owner_path: copy_steps(&node_path), col_index: 0, kind: ColOwnerKind::Section });
                    }
                }
            },
            Step::WrapperChild(idx) => {
                match node {
                    None => {
                        proof {
                            lemma_enc_done(t@, path@, (i + 1) as nat, path@.len(), None);
                        }
                        return None;
                    },
                    Some(BodyNode::MjWrapper(w)) => {
                        proof {
                            lemma_seq_view_body_node(w.children@);
                        }
                        assert(wrapper_view(*w).children == crate::model::seq_view_body_node(w.children@));
                        node_path.push(step);
                        node = if idx < w.children.len() {
                            Some(&w.children[idx])
                        } else {
                            None
                        };
                        if let Some(BodyNode::MjSection(_)) = node {
                            owner = Some(ColOwner { owner_path: copy_steps(&node_path), col_index: 0, kind: ColOwnerKind::Section });
                        }
                    },
                    Some(_) => {
                        proof {
                            lemma_enc_done(t@, path@, (i + 1) as nat, path@.len(), owner_view(owner));
                        }
                        return owner;
                    },
                }
            },
            Step::SectionChild(idx) => {
                match node {
                    None => {
                        proof {
                            lemma_enc_done(t@, path@, (i + 1) as nat, path@.len(), None);
                        }
                        return None;
                    },
                    Some(BodyNode::MjSection(s)) => {
                        if idx < s.children.len() {
                            match &s.children[idx] {
                                SectionChild::MjColumn(_) => {
                                    owner = Some(ColOwner { owner_path: copy_steps(&node_path), col_index: idx, kind: ColOwnerKind::Section });
                                },
                                SectionChild::MjGroup(_) => {
                                    let mut gp = copy_steps(&node_path);
                                    gp.push(step);
                                    owner = Some(ColOwner { owner_path: gp, col_index: 0, kind: ColOwnerKind::Group });
                                },
                            }
                        } else {
                            proof {
                                lemma_enc_done(t@, path@, (i + 1) as nat, path@.len(), None);
                            }
                            return None;
                        }
                    },
                    Some(_) => {
                        proof {
                            lemma_enc_done(t@, path@, (i + 1) as nat, path@.len(), owner_view(owner));
                        }
                        return owner;
                    },
                }
            },
            Step::GroupCol(idx) => {
                match owner {
                    Some(mut o) => {
                        if o.kind == ColOwnerKind::Group {
                            o.col_index = idx;
                        }
                        owner = Some(o);
                    },
                    None => {},
                }
            },
            _ => {},
        }
        i = i + 1;
    }
    owner
}

/// The group a path ending in a section child step addresses, if any.
pub open spec fn group_at_view(t: SpecTemplate, p: Seq<Step>) -> Option<SpecMjGroup> {
    if p.len() == 0 {
        None
    } else {
        match p.last() {
            Step::SectionChild(i) => match node_at(t, p.drop_last()) {
                Some(SpecBodyNode::MjSection(s)) => if i < s.children.len() {
                    match s.children[i as int] {
                        SpecSectionChild::MjGroup(g) => Some(g),
                        _ => None,
                    }
                } else {
                    None
                },
                _ => None,
            },
            _ => None,
        }
    }
}

/// How many columns the owner has (a section counts all its children).
pub open spec fn column_count_view(t: SpecTemplate, o: SpecColOwner) -> Option<nat> {
    match o.kind {
        ColOwnerKind::Section => match node_at(t, o.owner_path) {
            Some(SpecBodyNode::MjSection(s)) => Some(s.children.len()),
            _ => None,
        },
        ColOwnerKind::Group => match group_at_view(t, o.owner_path) {
            Some(g) => Some(g.children.len()),
            None => None,
        },
    }
}

/// How many columns the owner has.
pub fn column_count(template: Option<&Template>, owner: &ColOwner) -> (r: Option<usize>)
    ensures
        match template {
            Some(t) => match (r, column_count_view(t@, owner@)) {
                (Some(a), Some(b)) => a == b,
                (None, None) => true,
                _ => false,
            },
            None => r is None,
        },
{
    let t = match template {
        Some(t) => t,
        None => return None,
    };
    match owner.kind {
        ColOwnerKind::Section => match node_at_ref(t, owner.owner_path.as_slice()) {
            Some(BodyNode::MjSection(s)) => Some(s.children.len()),
            _ => None,
        },
        ColOwnerKind::Group => match group_at(t, owner.owner_path.as_slice()) {
            Some(g) => Some(g.children.len()),
            None => None,
        },
    }
}

fn without_last(p: &[Step]) -> (r: Vec<Step>)
    requires
        p@.len() > 0,
    ensures
        r@ == p@.drop_last(),
{
    let mut r: Vec<Step> = Vec::new();
    let mut i: usize = 0;
    while i < p.len() - 1
        invariant
            i + 1 <= p@.len(),
            r@ == p@.take(i as int),
        decreases p@.len() - i,
    {
        r.push(p[i]);
        i = i + 1;
        assert(r@ =~= p@.take(i as int));
    }
    assert(p@.take(i as int) =~= p@.drop_last());
    r
}

/// The group a path addresses.
pub fn group_at<'a>(t: &'a Template, path: &[Step]) -> (r: Option<&'a MjGroup>)
    ensures
        match group_at_view(t@, path@) {
            Some(g) => r is Some && r->0@ == g,
            None => r is None,
        },
{
    if path.len() == 0 {
        return None;
    }
    let i = match path[path.len() - 1] {
        Step::SectionChild(i) => i,
        _ => return None,
    };
    let parent = without_last(path);
    match node_at_ref(t, parent.as_slice()) {
        Some(BodyNode::MjSection(s)) => if i < s.children.len() {
            match &s.children[i] {
                SectionChild::MjGroup(g) => Some(g),
                _ => None,
            }
        } else {
            None
        },
        _ => None,
    }
}

/// Whether the row at `path` is the only column of its section or group.
pub open spec fn is_last_column_view(t: Option<SpecTemplate>, path: Seq<Step>) -> bool {
    match t {
        None => false,
        Some(t) => match enclosing_view(t, path) {
            None => false,
            Some(o) => path.len() > 0 && (path.last() is SectionChild || path.last() is GroupCol)
                && column_count_view(t, o) == Some(1nat),
        },
    }
}

/// Whether the row at `path` is the only column of its section or group
/// (such a column cannot be deleted).
pub fn is_last_column(template: Option<&Template>, path: &[Step]) -> (r: bool)
    ensures
        r == is_last_column_view(
            match template {
                Some(t) => Some(t@),
                None => None,
            },
            path@,
        ),
{
    let id = TreeId::Path(crate::tree::copy_path(path));
    let owner = match enclosing_columns(template, &id) {
        Some(o) => o,
        None => return false,
    };
    let ends_on_column = path.len() > 0 && match path[path.len() - 1] {
        Step::SectionChild(_) | Step::GroupCol(_) => true,
        _ => false,
    };
    if !ends_on_column {
        return false;
    }
    match column_count(template, &owner) {
        Some(n) => n == 1,
        None => false,
    }
}

// ---------------------------------------------------------------------------
// Rebalancing, adding and removing a column
// ---------------------------------------------------------------------------

/// The number of columns among the first `j` section children.
pub open spec fn cols_before(ch: Seq<SpecSectionChild>, j: nat) -> nat
    decreases j,
{
    if j == 0 {
        0
    } else {
        cols_before(ch, (j - 1) as nat) + if ch[j - 1] is MjColumn {
            1nat
        } else {
            0nat
        }
    }
}

/// Section children with the columns' widths split equally, in order
/// (groups keep theirs).
pub open spec fn rebalanced_children(ch: Seq<SpecSectionChild>) -> Seq<SpecSectionChild> {
    Seq::new(
        ch.len(),
        |j: int| match ch[j] {
            SpecSectionChild::MjColumn(c) => SpecSectionChild::MjColumn(SpecMjColumn {
                width: Some(width_text(cols_before(ch, ch.len()), cols_before(ch, j as nat))),
                ..c
            }),
            SpecSectionChild::MjGroup(g) => SpecSectionChild::MjGroup(g),
        },
    )
}

/// A group with its columns' widths split equally.
pub open spec fn rebalanced_columns(cols: Seq<SpecMjColumn>) -> Seq<SpecMjColumn> {
    Seq::new(cols.len(), |j: int| SpecMjColumn { width: Some(width_text(cols.len(), j as nat)), ..cols[j] })
}

/// A column with nothing set and no components.
pub open spec fn empty_column_view() -> SpecMjColumn {
    SpecMjColumn {
        width: None,
        background_color: None,
        padding: None,
        inner_background_color: None,
        components: Seq::empty(),
    }
}

/// A column with nothing set and no components.
pub fn empty_column() -> (r: MjColumn)
    ensures
        r@ == empty_column_view(),
{
    let c = MjColumn {
        width: None,
        background_color: None,
        padding: None,
        inner_background_color: None,
        components: Vec::new(),
    };
    assert(c@.components =~= Seq::empty());
    c
}

fn count_columns(ch: &Vec<SectionChild>) -> (r: usize)
    ensures
        r as nat == cols_before(seq_view_section_child(ch@), ch@.len()),
{
    let ghost v = seq_view_section_child(ch@);
    let mut n: usize = 0;
    let mut j: usize = 0;
    while j < ch.len()
        invariant
            j <= ch@.len(),
            v == seq_view_section_child(ch@),
            n as nat == cols_before(v, j as nat),
            n <= j,
        decreases ch@.len() - j,
    {
        if let SectionChild::MjColumn(_) = &ch[j] {
            n = n + 1;
        }
        j = j + 1;
    }
    n
}

/// Splits the width of a section's columns equally.
pub fn apply_rebalance_section(s: &mut MjSection)
    ensures
        final(s)@ == (SpecMjSection { children: rebalanced_children(old(s)@.children), ..old(s)@ }),
{
    let ghost ch0 = old(s)@.children;
    let n = count_columns(&s.children);
    let widths = rebalance_widths(n);
    let mut i: usize = 0;
    let mut j: usize = 0;
    while j < s.children.len()
        invariant
            j <= s.children@.len(),
            s.children@.len() == ch0.len(),
            ch0 == old(s)@.children,
            n as nat == cols_before(ch0, ch0.len()),
            widths@.len() == n,
            forall|k: int| 0 <= k < n ==> (#[trigger] widths@[k])@ == width_text(n as nat, k as nat),
            i as nat == cols_before(ch0, j as nat),
            s.background_color == old(s).background_color,
            s.padding == old(s).padding,
            s.full_width == old(s).full_width,
            forall|k: int| 0 <= k < j ==> (#[trigger] s.children@[k])@ == rebalanced_children(ch0)[k],
            forall|k: int| j <= k < s.children@.len() ==> (#[trigger] s.children@[k])@ == ch0[k],
        decreases s.children@.len() - j,
    {
        proof {
            lemma_cols_before_mono(ch0, (j + 1) as nat, ch0.len());
        }
        let child = s.children.remove(j);
        let ghost cv = child@;
        let new_child = match child {
            SectionChild::MjColumn(mut c) => {
                assert(i < n);
                c.width = Some(widths[i].clone());
                i = i + 1;
                SectionChild::MjColumn(c)
            },
            SectionChild::MjGroup(g) => SectionChild::MjGroup(g),
        };
        s.children.insert(j, new_child);
        j = j + 1;
    }
    assert(s@.children =~= rebalanced_children(ch0));
}

/// More children never hold fewer columns.
proof fn lemma_cols_before_mono(ch: Seq<SpecSectionChild>, a: nat, b: nat)
    requires
        a <= b,
    ensures
        cols_before(ch, a) <= cols_before(ch, b),
        cols_before(ch, b) <= cols_before(ch, a) + (b - a),
    decreases b - a,
{
    if a < b {
        lemma_cols_before_mono(ch, a, (b - 1) as nat);
    }
}

/// Splits the width of a group's columns equally.
pub fn apply_rebalance_group(g: &mut MjGroup)
    ensures
        final(g)@ == (SpecMjGroup { children: rebalanced_columns(old(g)@.children), ..old(g)@ }),
{
    let ghost cols0 = old(g)@.children;
    let n = g.children.len();
    let widths = rebalance_widths(n);
    let mut j: usize = 0;
    while j < n
        invariant
            j <= n,
            n == g.children@.len(),
            cols0 == old(g)@.children,
            cols0.len() == n,
            widths@.len() == n,
            forall|k: int| 0 <= k < n ==> (#[trigger] widths@[k])@ == width_text(n as nat, k as nat),
            g.width == old(g).width,
            g.background_color == old(g).background_color,
            forall|k: int| 0 <= k < j ==> (#[trigger] g.children@[k])@ == rebalanced_columns(cols0)[k],
            forall|k: int| j <= k < n ==> (#[trigger] g.children@[k])@ == cols0[k],
        decreases n - j,
    {
        let mut c = g.children.remove(j);
        c.width = Some(widths[j].clone());
        g.children.insert(j, c);
        j = j + 1;
    }
    assert(g@.children =~= rebalanced_columns(cols0));
}

/// Adding an empty column after the owner's columns and splitting the width
/// equally: the new template and the new column's path (`None` when the
/// owner is not there).
pub open spec fn column_inserted(t: SpecTemplate, o: SpecColOwner) -> Option<(SpecTemplate, Seq<Step>)> {
    match o.kind {
        ColOwnerKind::Section => match node_at(t, o.owner_path) {
            Some(SpecBodyNode::MjSection(s)) => Some((
                set_node_at(
                    t,
                    o.owner_path,
                    SpecBodyNode::MjSection(SpecMjSection {
                        children: rebalanced_children(s.children.push(SpecSectionChild::MjColumn(empty_column_view()))),
                        ..s
                    }),
                ),
                o.owner_path.push(Step::SectionChild(s.children.len() as usize)),
            )),
            _ => None,
        },
        ColOwnerKind::Group => match group_at_view(t, o.owner_path) {
            Some(g) => {
                let parent = o.owner_path.drop_last();
                let i = o.owner_path.last()->SectionChild_0;
                let s = node_at(t, parent)->0->MjSection_0;
                let g2 = SpecMjGroup { children: rebalanced_columns(g.children.push(empty_column_view())), ..g };
                Some((
                    set_node_at(
                        t,
                        parent,
                        SpecBodyNode::MjSection(SpecMjSection {
                            children: s.children.update(i as int, SpecSectionChild::MjGroup(g2)),
                            ..s
                        }),
                    ),
                    o.owner_path.push(Step::GroupCol(g.children.len() as usize)),
                ))
            },
            None => None,
        },
    }
}

/// Removing the owner's current column and splitting the width equally
/// (`None` when the owner is not there, the index is out of range, or it is
/// the only column).
pub open spec fn column_deleted(t: SpecTemplate, o: SpecColOwner) -> Option<SpecTemplate> {
    match o.kind {
        ColOwnerKind::Section => match node_at(t, o.owner_path) {
            Some(SpecBodyNode::MjSection(s)) => if o.col_index >= s.children.len() || s.children.len() <= 1 {
                None
            } else {
                Some(set_node_at(
                    t,
                    o.owner_path,
                    SpecBodyNode::MjSection(SpecMjSection {
                        children: rebalanced_children(s.children.remove(o.col_index as int)),
                        ..s
                    }),
                ))
            },
            _ => None,
        },
        ColOwnerKind::Group => match group_at_view(t, o.owner_path) {
            Some(g) => if o.col_index >= g.children.len() || g.children.len() <= 1 {
                None
            } else {
                let parent = o.owner_path.drop_last();
                let i = o.owner_path.last()->SectionChild_0;
                let s = node_at(t, parent)->0->MjSection_0;
                let g2 = SpecMjGroup { children: rebalanced_columns(g.children.remove(o.col_index as int)), ..g };
                Some(set_node_at(
                    t,
                    parent,
                    SpecBodyNode::MjSection(SpecMjSection {
                        children: s.children.update(i as int, SpecSectionChild::MjGroup(g2)),
                        ..s
                    }),
                ))
            },
            None => None,
        },
    }
}

fn path_with(p: &Vec<Step>, s: Step) -> (r: Vec<Step>)
    ensures
        r@ == p@.push(s),
{
    let mut q = crate::tree::copy_path(p.as_slice());
    q.push(s);
    q
}

/// Adds an empty column after the owner's columns and splits the width
/// equally; returns the new column's row.
pub fn insert_column(t: &mut Template, owner: &ColOwner) -> (r: Option<TreeId>)
    ensures
        match column_inserted(old(t)@, owner@) {
            Some((t2, q)) => final(t)@ == t2 && r is Some && r->0@ == SpecTreeId::Path(q),
            None => final(t)@ == old(t)@ && r is None,
        },
{
    let ghost t0 = t@;
    match owner.kind {
        ColOwnerKind::Section => {
            let p = owner.owner_path.as_slice();
            match take_node(t, p) {
                None => None,
                Some(BodyNode::MjSection(mut s)) => {
                    let ghost s0 = s@;
                    s.children.push(SectionChild::MjColumn(empty_column()));
                    assert(s@.children =~= s0.children.push(SpecSectionChild::MjColumn(empty_column_view())));
                    apply_rebalance_section(&mut s);
                    assert(s@.children.len() == s0.children.len() + 1);
                    assert(s.children@.len() == s@.children.len());
                    let idx = s.children.len() - 1;
                    let ghost sv = s@;
                    put_node(t, p, BodyNode::MjSection(s));
                    proof {
                        lemma_set_node_at(t0, p@, crate::nav::placeholder_view(), SpecBodyNode::MjSection(sv));
                    }
                    Some(TreeId::Path(path_with(&owner.owner_path, Step::SectionChild(idx))))
                },
                Some(other) => {
                    let ghost ov = other@;
                    put_node(t, p, other);
                    proof {
                        lemma_set_node_at(t0, p@, crate::nav::placeholder_view(), ov);
                    }
                    None
                },
            }
        },
        ColOwnerKind::Group => {
            let path = owner.owner_path.as_slice();
            if path.len() == 0 {
                return None;
            }
            let i = match path[path.len() - 1] {
                Step::SectionChild(i) => i,
                _ => return None,
            };
            let parent = without_last(path);
            let pp = parent.as_slice();
            match take_node(t, pp) {
                None => None,
                Some(BodyNode::MjSection(mut s)) => {
                    let ghost s0 = s@;
                    if i < s.children.len() {
                        let child = s.children.remove(i);
                        match child {
                            SectionChild::MjGroup(mut g) => {
                                let ghost g0 = g@;
                                g.children.push(empty_column());
                                assert(g@.children =~= g0.children.push(empty_column_view()));
                                apply_rebalance_group(&mut g);
                                assert(g@.children.len() == g0.children.len() + 1);
                                assert(g.children@.len() == g@.children.len());
                                let idx = g.children.len() - 1;
                                let ghost gv = g@;
                                s.children.insert(i, SectionChild::MjGroup(g));
                                assert(s@.children =~= s0.children.update(i as int, SpecSectionChild::MjGroup(gv)));
                                let ghost sv = s@;
                                put_node(t, pp, BodyNode::MjSection(s));
                                proof {
                                    lemma_set_node_at(t0, pp@, crate::nav::placeholder_view(), SpecBodyNode::MjSection(sv));
                                }
                                Some(TreeId::Path(path_with(&owner.owner_path, Step::GroupCol(idx))))
                            },
                            other => {
                                s.children.insert(i, other);
                                assert(s@.children =~= s0.children);
                                let ghost sv = s@;
                                put_node(t, pp, BodyNode::MjSection(s));
                                proof {
                                    lemma_set_node_at(t0, pp@, crate::nav::placeholder_view(), SpecBodyNode::MjSection(sv));
                                }
                                None
                            },
                        }
                    } else {
                        let ghost sv = s@;
                        put_node(t, pp, BodyNode::MjSection(s));
                        proof {
                            lemma_set_node_at(t0, pp@, crate::nav::placeholder_view(), SpecBodyNode::MjSection(sv));
                        }
                        None
                    }
                },
                Some(other) => {
                    let ghost ov = other@;
                    put_node(t, pp, other);
                    proof {
                        lemma_set_node_at(t0, pp@, crate::nav::placeholder_view(), ov);
                    }
                    None
                },
            }
        },
    }
}

/// Removes the owner's current column and splits the width equally; refuses
/// (returning `false`, nothing changed) when the owner is not there, the
/// index is out of range, or it is the only column.
pub fn delete_current_column(t: &mut Template, owner: &ColOwner) -> (ok: bool)
    ensures
        match column_deleted(old(t)@, owner@) {
            Some(t2) => ok && final(t)@ == t2,
            None => !ok && final(t)@ == old(t)@,
        },
{
    let ghost t0 = t@;
    match owner.kind {
        ColOwnerKind::Section => {
            let p = owner.owner_path.as_slice();
            match take_node(t, p) {
                None => false,
                Some(BodyNode::MjSection(mut s)) => {
                    let ghost s0 = s@;
                    if owner.col_index >= s.children.len() || s.children.len() <= 1 {
                        put_node(t, p, BodyNode::MjSection(s));
                        proof {
                            lemma_set_node_at(t0, p@, crate::nav::placeholder_view(), SpecBodyNode::MjSection(s0));
                        }
                        return false;
                    }
                    s.children.remove(owner.col_index);
                    assert(s@.children =~= s0.children.remove(owner.col_index as int));
                    apply_rebalance_section(&mut s);
                    let ghost sv = s@;
                    put_node(t, p, BodyNode::MjSection(s));
                    proof {
                        lemma_set_node_at(t0, p@, crate::nav::placeholder_view(), SpecBodyNode::MjSection(sv));
                    }
                    true
                },
                Some(other) => {
                    let ghost ov = other@;
                    put_node(t, p, other);
                    proof {
                        lemma_set_node_at(t0, p@, crate::nav::placeholder_view(), ov);
                    }
                    false
                },
            }
        },
        ColOwnerKind::Group => {
            let path = owner.owner_path.as_slice();
            if path.len() == 0 {
                return false;
            }
            let i = match path[path.len() - 1] {
                Step::SectionChild(i) => i,
                _ => return false,
            };
            let parent = without_last(path);
            let pp = parent.as_slice();
            match take_node(t, pp) {
                None => false,
                Some(BodyNode::MjSection(mut s)) => {
                    let ghost s0 = s@;
                    if i < s.children.len() {
                        let child = s.children.remove(i);
                        match child {
                            SectionChild::MjGroup(mut g) => {
                                let ghost g0 = g@;
                                if owner.col_index >= g.children.len() || g.children.len() <= 1 {
                                    s.children.insert(i, SectionChild::MjGroup(g));
                                    assert(s@.children =~= s0.children);
                                    put_node(t, pp, BodyNode::MjSection(s));
                                    proof {
                                        lemma_set_node_at(t0, pp@, crate::nav::placeholder_view(), SpecBodyNode::MjSection(s0));
                                    }
                                    return false;
                                }
                                g.children.remove(owner.col_index);
                                assert(g@.children =~= g0.children.remove(owner.col_index as int));
                                apply_rebalance_group(&mut g);
                                let ghost gv = g@;
                                s.children.insert(i, SectionChild::MjGroup(g));
                                assert(s@.children =~= s0.children.update(i as int, SpecSectionChild::MjGroup(gv)));
                                let ghost sv = s@;
                                put_node(t, pp, BodyNode::MjSection(s));
                                proof {
                                    lemma_set_node_at(t0, pp@, crate::nav::placeholder_view(), SpecBodyNode::MjSection(sv));
                                }
                                true
                            },
                            other => {
                                s.children.insert(i, other);
                                assert(s@.children =~= s0.children);
                                put_node(t, pp, BodyNode::MjSection(s));
                                proof {
                                    lemma_set_node_at(t0, pp@, crate::nav::placeholder_view(), SpecBodyNode::MjSection(s0));
                                }
                                false
                            },
                        }
                    } else {
                        put_node(t, pp, BodyNode::MjSection(s));
                        proof {
                            lemma_set_node_at(t0, pp@, crate::nav::placeholder_view(), SpecBodyNode::MjSection(s0));
                        }
                        false
                    }
                },
                Some(other) => {
                    let ghost ov = other@;
                    put_node(t, pp, other);
                    proof {
                        lemma_set_node_at(t0, pp@, crate::nav::placeholder_view(), ov);
                    }
                    false
                },
            }
        },
    }
}

// ---------------------------------------------------------------------------
// Laws of adding and removing a column
// ---------------------------------------------------------------------------

/// Rebalancing keeps each child a column or a group, so the column count
/// of every prefix stays the same.
proof fn lemma_rebalanced_kinds(ch: Seq<SpecSectionChild>, j: nat)
    requires
        j <= ch.len(),
    ensures
        cols_before(rebalanced_children(ch), j) == cols_before(ch, j),
    decreases j,
{
    if j > 0 {
        lemma_rebalanced_kinds(ch, (j - 1) as nat);
    }
}

/// Dropping the last child leaves the counts of the shorter prefixes alone.
proof fn lemma_cols_before_drop_last(ch: Seq<SpecSectionChild>, j: nat)
    requires
        ch.len() > 0,
        j < ch.len(),
    ensures
        cols_before(ch.drop_last(), j) == cols_before(ch, j),
    decreases j,
{
    if j > 0 {
        lemma_cols_before_drop_last(ch, (j - 1) as nat);
    }
}

/// Rebalancing twice is rebalancing once.
proof fn lemma_rebalance_twice(ch: Seq<SpecSectionChild>, x: Seq<SpecSectionChild>)
    requires
        x.len() == ch.len(),
        forall|j: int| 0 <= j < ch.len() ==> (#[trigger] x[j] is MjColumn) == (ch[j] is MjColumn),
        forall|j: int| 0 <= j < ch.len() ==> match (#[trigger] x[j], ch[j]) {
            (SpecSectionChild::MjColumn(a), SpecSectionChild::MjColumn(b)) => a.background_color == b.background_color
                && a.padding == b.padding && a.inner_background_color == b.inner_background_color
                && a.components == b.components,
            (SpecSectionChild::MjGroup(a), SpecSectionChild::MjGroup(b)) => a == b,
            _ => false,
        },
    ensures
        rebalanced_children(x) == rebalanced_children(ch),
{
    assert forall|j: nat| j <= ch.len() implies cols_before(x, j) == cols_before(ch, j) by {
        lemma_same_kinds_count(x, ch, j);
    }
    assert(rebalanced_children(x) =~= rebalanced_children(ch));
}

proof fn lemma_same_kinds_count(x: Seq<SpecSectionChild>, ch: Seq<SpecSectionChild>, j: nat)
    requires
        x.len() == ch.len(),
        j <= ch.len(),
        forall|k: int| 0 <= k < ch.len() ==> (#[trigger] x[k] is MjColumn) == (ch[k] is MjColumn),
    ensures
        cols_before(x, j) == cols_before(ch, j),
    decreases j,
{
    if j > 0 {
        lemma_same_kinds_count(x, ch, (j - 1) as nat);
        assert((x[j - 1] is MjColumn) == (ch[j - 1] is MjColumn));
    }
}

/// Adding a column gives its owner exactly one more column.
pub proof fn law_insert_adds_one_column(t: SpecTemplate, o: SpecColOwner)
    requires
        column_inserted(t, o) is Some,
    ensures
        column_count_view(column_inserted(t, o).unwrap().0, o) == Some((column_count_view(t, o)->0 + 1) as nat),
{
    match o.kind {
        ColOwnerKind::Section => {
            let s = node_at(t, o.owner_path)->0->MjSection_0;
            let x = SpecBodyNode::MjSection(SpecMjSection {
                children: rebalanced_children(s.children.push(SpecSectionChild::MjColumn(empty_column_view()))),
                ..s
            });
            lemma_set_node_at(t, o.owner_path, x, x);
        },
        ColOwnerKind::Group => {
            let g = group_at_view(t, o.owner_path)->0;
            let parent = o.owner_path.drop_last();
            let i = o.owner_path.last()->SectionChild_0;
            let s = node_at(t, parent)->0->MjSection_0;
            let g2 = SpecMjGroup { children: rebalanced_columns(g.children.push(empty_column_view())), ..g };
            let x = SpecBodyNode::MjSection(SpecMjSection {
                children: s.children.update(i as int, SpecSectionChild::MjGroup(g2)),
                ..s
            });
            lemma_set_node_at(t, parent, x, x);
            let t2 = column_inserted(t, o).unwrap().0;
            assert(o.owner_path.drop_last() == parent);
            assert(node_at(t2, parent) == Some(x));
        },
    }
}

/// Adding a column and then removing that new column leaves the template
/// as an equal width split of the owner's original columns would (an owner
/// that had no column at all keeps the added one: it is the only column).
pub proof fn law_delete_undoes_insert(t: SpecTemplate, o: SpecColOwner, k: usize)
    requires
        column_count_view(t, o) == Some(k as nat),
        k >= 1,
    ensures
        column_deleted(column_inserted(t, o).unwrap().0, SpecColOwner { col_index: k, ..o }) == Some(match o.kind {
            ColOwnerKind::Section => {
                let s = node_at(t, o.owner_path)->0->MjSection_0;
                set_node_at(t, o.owner_path, SpecBodyNode::MjSection(
                    SpecMjSection { children: rebalanced_children(s.children), ..s },
                ))
            },
            ColOwnerKind::Group => {
                let g = group_at_view(t, o.owner_path)->0;
                let parent = o.owner_path.drop_last();
                let i = o.owner_path.last()->SectionChild_0;
                let s = node_at(t, parent)->0->MjSection_0;
                set_node_at(t, parent, SpecBodyNode::MjSection(SpecMjSection {
                    children: s.children.update(
                        i as int,
                        SpecSectionChild::MjGroup(SpecMjGroup { children: rebalanced_columns(g.children), ..g }),
                    ),
                    ..s
                }))
            },
        }),
{
    let t2 = column_inserted(t, o).unwrap().0;
    let o2 = SpecColOwner { col_index: k, ..o };
    match o.kind {
        ColOwnerKind::Section => {
            let s = node_at(t, o.owner_path)->0->MjSection_0;
            let pushed = s.children.push(SpecSectionChild::MjColumn(empty_column_view()));
            let x = SpecBodyNode::MjSection(SpecMjSection { children: rebalanced_children(pushed), ..s });
            let y = SpecBodyNode::MjSection(SpecMjSection { children: rebalanced_children(s.children), ..s });
            lemma_set_node_at(t, o.owner_path, x, y);
            let removed = rebalanced_children(pushed).remove(s.children.len() as int);
            assert forall|j: int| 0 <= j < s.children.len() implies (#[trigger] removed[j] is MjColumn)
                == (s.children[j] is MjColumn) by {
                assert(removed[j] == rebalanced_children(pushed)[j]);
                assert(pushed[j] == s.children[j]);
            }
            assert forall|j: int| 0 <= j < s.children.len() implies match (#[trigger] removed[j], s.children[j]) {
                (SpecSectionChild::MjColumn(a), SpecSectionChild::MjColumn(b)) => a.background_color == b.background_color
                    && a.padding == b.padding && a.inner_background_color == b.inner_background_color
                    && a.components == b.components,
                (SpecSectionChild::MjGroup(a), SpecSectionChild::MjGroup(b)) => a == b,
                _ => false,
            } by {
                assert(removed[j] == rebalanced_children(pushed)[j]);
                assert(pushed[j] == s.children[j]);
            }
            lemma_rebalance_twice(s.children, removed);
            assert(column_deleted(t2, o2) == Some(set_node_at(t2, o.owner_path, y)));
        },
        ColOwnerKind::Group => {
            let g = group_at_view(t, o.owner_path)->0;
            let parent = o.owner_path.drop_last();
            let i = o.owner_path.last()->SectionChild_0;
            let s = node_at(t, parent)->0->MjSection_0;
            let g2 = SpecMjGroup { children: rebalanced_columns(g.children.push(empty_column_view())), ..g };
            let x = SpecBodyNode::MjSection(SpecMjSection {
                children: s.children.update(i as int, SpecSectionChild::MjGroup(g2)),
                ..s
            });
            let g3 = SpecMjGroup { children: rebalanced_columns(g.children), ..g };
            let y = SpecBodyNode::MjSection(SpecMjSection {
                children: s.children.update(i as int, SpecSectionChild::MjGroup(g3)),
                ..s
            });
            lemma_set_node_at(t, parent, x, y);
            assert(rebalanced_columns(g2.children.remove(g.children.len() as int)) =~= g3.children);
            assert(s.children.update(i as int, SpecSectionChild::MjGroup(g2)).update(
                i as int,
                SpecSectionChild::MjGroup(SpecMjGroup { children: rebalanced_columns(g2.children.remove(g.children.len() as int)), ..g2 }),
            ) =~= s.children.update(i as int, SpecSectionChild::MjGroup(g3)));
        },
    }
}

// ---------------------------------------------------------------------------
// Which column a removal takes out
// ---------------------------------------------------------------------------

/// Two section children that are the same but for a column's width.
pub open spec fn same_but_width(a: SpecSectionChild, b: SpecSectionChild) -> bool {
    match (a, b) {
        (SpecSectionChild::MjColumn(x), SpecSectionChild::MjColumn(y)) => x.background_color == y.background_color
            && x.padding == y.padding && x.inner_background_color == y.inner_background_color
            && x.components == y.components,
        (SpecSectionChild::MjGroup(x), SpecSectionChild::MjGroup(y)) => x == y,
        _ => false,
    }
}

/// Two columns that are the same but for their width.
pub open spec fn same_column_but_width(x: SpecMjColumn, y: SpecMjColumn) -> bool {
    x.background_color == y.background_color && x.padding == y.padding
        && x.inner_background_color == y.inner_background_color && x.components == y.components
}

/// Removing the selected column of a section takes out exactly the child at
/// the selected index: the children before it stay where they were, those
/// after it move up by one, and nothing but column widths changes in them;
/// the rest of the section and of the template is kept.
pub proof fn law_delete_removes_selected_section_column(t: SpecTemplate, o: SpecColOwner)
    requires
        o.kind == ColOwnerKind::Section,
        (node_at(t, o.owner_path) matches Some(SpecBodyNode::MjSection(s))
            && o.col_index < s.children.len() && s.children.len() > 1),
    ensures
        ({
            let s = node_at(t, o.owner_path)->0->MjSection_0;
            let n = s.children.len();
            &&& column_deleted(t, o) matches Some(t2)
            &&& node_at(t2, o.owner_path) matches Some(SpecBodyNode::MjSection(s2))
            &&& t2 == set_node_at(t, o.owner_path, SpecBodyNode::MjSection(s2))
            &&& s2.children.len() == n - 1
            &&& forall|k: int| 0 <= k < o.col_index ==> same_but_width(#[trigger] s2.children[k], s.children[k])
            &&& forall|k: int| o.col_index <= k < n - 1 ==> same_but_width(#[trigger] s2.children[k], s.children[k + 1])
            &&& s2.background_color == s.background_color
            &&& s2.padding == s.padding
            &&& s2.full_width == s.full_width
        }),
{
    let s = node_at(t, o.owner_path)->0->MjSection_0;
    let s2 = SpecMjSection { children: rebalanced_children(s.children.remove(o.col_index as int)), ..s };
    lemma_set_node_at(t, o.owner_path, SpecBodyNode::MjSection(s2), SpecBodyNode::MjSection(s2));
    let r = s.children.remove(o.col_index as int);
    assert forall|k: int| 0 <= k < r.len() implies same_but_width(#[trigger] s2.children[k], r[k]) by {
        match r[k] {
            SpecSectionChild::MjColumn(c) => {},
            SpecSectionChild::MjGroup(g) => {},
        }
    }
    assert forall|k: int| 0 <= k < o.col_index implies same_but_width(#[trigger] s2.children[k], s.children[k]) by {
        assert(r[k] == s.children[k]);
    }
    assert forall|k: int| o.col_index <= k < s.children.len() - 1 implies same_but_width(
        #[trigger] s2.children[k],
        s.children[k + 1],
    ) by {
        assert(r[k] == s.children[k + 1]);
    }
}

/// Removing the selected column of a group takes out exactly the column at
/// the selected index: the columns before it stay where they were, those
/// after it move up by one, and nothing but their widths changes; the rest
/// of the group, of its section and of the template is kept.
pub proof fn law_delete_removes_selected_group_column(t: SpecTemplate, o: SpecColOwner)
    requires
        o.kind == ColOwnerKind::Group,
        (group_at_view(t, o.owner_path) matches Some(g) && o.col_index < g.children.len() && g.children.len() > 1),
    ensures
        ({
            let g = group_at_view(t, o.owner_path)->0;
            let n = g.children.len();
            &&& column_deleted(t, o) matches Some(t2)
            &&& group_at_view(t2, o.owner_path) matches Some(g2)
            &&& g2.children.len() == n - 1
            &&& forall|k: int| 0 <= k < o.col_index ==> same_column_but_width(#[trigger] g2.children[k], g.children[k])
            &&& forall|k: int| o.col_index <= k < n - 1 ==> same_column_but_width(#[trigger] g2.children[k], g.children[k + 1])
            &&& g2.width == g.width
            &&& g2.background_color == g.background_color
        }),
{
    let g = group_at_view(t, o.owner_path)->0;
    let parent = o.owner_path.drop_last();
    let i = o.owner_path.last()->SectionChild_0;
    let s = node_at(t, parent)->0->MjSection_0;
    let g2 = SpecMjGroup { children: rebalanced_columns(g.children.remove(o.col_index as int)), ..g };
    let s2 = SpecMjSection { children: s.children.update(i as int, SpecSectionChild::MjGroup(g2)), ..s };
    lemma_set_node_at(t, parent, SpecBodyNode::MjSection(s2), SpecBodyNode::MjSection(s2));
    let t2 = set_node_at(t, parent, SpecBodyNode::MjSection(s2));
    assert(group_at_view(t2, o.owner_path) == Some(g2));
    let r = g.children.remove(o.col_index as int);
    assert forall|k: int| 0 <= k < o.col_index implies same_column_but_width(#[trigger] g2.children[k], g.children[k]) by {
        assert(r[k] == g.children[k]);
    }
    assert forall|k: int| o.col_index <= k < g.children.len() - 1 implies same_column_but_width(
        #[trigger] g2.children[k],
        g.children[k + 1],
    ) by {
        assert(r[k] == g.children[k + 1]);
    }
}

/// Adding a column to a section appends an empty column after its children,
/// keeps every child in place with nothing but column widths changed, keeps
/// the rest of the section and of the template, and selects the new column.
pub proof fn law_add_appends_section_column(t: SpecTemplate, o: SpecColOwner)
    requires
        o.kind == ColOwnerKind::Section,
        node_at(t, o.owner_path) is Some,
        node_at(t, o.owner_path)->0 is MjSection,
        node_at(t, o.owner_path)->0->MjSection_0.children.len() < usize::MAX,
    ensures
        ({
            let s = node_at(t, o.owner_path)->0->MjSection_0;
            let n = s.children.len();
            &&& column_inserted(t, o) matches Some((t2, q))
            &&& node_at(t2, o.owner_path) matches Some(SpecBodyNode::MjSection(s2))
            &&& t2 == set_node_at(t, o.owner_path, SpecBodyNode::MjSection(s2))
            &&& s2.children.len() == n + 1
            &&& forall|k: int| 0 <= k < n ==> same_but_width(#[trigger] s2.children[k], s.children[k])
            &&& same_but_width(s2.children[n as int], SpecSectionChild::MjColumn(empty_column_view()))
            &&& s2.background_color == s.background_color
            &&& s2.padding == s.padding
            &&& s2.full_width == s.full_width
            &&& q == o.owner_path.push(Step::SectionChild(n as usize))
        }),
{
    let s = node_at(t, o.owner_path)->0->MjSection_0;
    let r = s.children.push(SpecSectionChild::MjColumn(empty_column_view()));
    let s2 = SpecMjSection { children: rebalanced_children(r), ..s };
    lemma_set_node_at(t, o.owner_path, SpecBodyNode::MjSection(s2), SpecBodyNode::MjSection(s2));
    assert forall|k: int| 0 <= k < r.len() implies same_but_width(#[trigger] s2.children[k], r[k]) by {
        match r[k] {
            SpecSectionChild::MjColumn(c) => {},
            SpecSectionChild::MjGroup(g) => {},
        }
    }
    assert forall|k: int| 0 <= k < s.children.len() implies same_but_width(#[trigger] s2.children[k], s.children[k]) by {
        assert(r[k] == s.children[k]);
    }
    assert(same_but_width(s2.children[s.children.len() as int], r[s.children.len() as int]));
}

/// Adding a column to a group appends an empty column after its columns,
/// keeps every column in place with nothing but its width changed, keeps
/// the rest of the group, and selects the new column.
pub proof fn law_add_appends_group_column(t: SpecTemplate, o: SpecColOwner)
    requires
        o.kind == ColOwnerKind::Group,
        group_at_view(t, o.owner_path) is Some,
        group_at_view(t, o.owner_path)->0.children.len() < usize::MAX,
    ensures
        ({
            let g = group_at_view(t, o.owner_path)->0;
            let n = g.children.len();
            &&& column_inserted(t, o) matches Some((t2, q))
            &&& group_at_view(t2, o.owner_path) matches Some(g2)
            &&& g2.children.len() == n + 1
            &&& forall|k: int| 0 <= k < n ==> same_column_but_width(#[trigger] g2.children[k], g.children[k])
            &&& same_column_but_width(g2.children[n as int], empty_column_view())
            &&& g2.width == g.width
            &&& g2.background_color == g.background_color
            &&& q == o.owner_path.push(Step::GroupCol(n as usize))
        }),
{
    let g = group_at_view(t, o.owner_path)->0;
    let parent = o.owner_path.drop_last();
    let i = o.owner_path.last()->SectionChild_0;
    let s = node_at(t, parent)->0->MjSection_0;
    let r = g.children.push(empty_column_view());
    let g2 = SpecMjGroup { children: rebalanced_columns(r), ..g };
    let s2 = SpecMjSection { children: s.children.update(i as int, SpecSectionChild::MjGroup(g2)), ..s };
    lemma_set_node_at(t, parent, SpecBodyNode::MjSection(s2), SpecBodyNode::MjSection(s2));
    let t2 = set_node_at(t, parent, SpecBodyNode::MjSection(s2));
    assert(group_at_view(t2, o.owner_path) == Some(g2));
    assert forall|k: int| 0 <= k < g.children.len() implies same_column_but_width(#[trigger] g2.children[k], g.children[k]) by {
        assert(r[k] == g.children[k]);
    }
    assert(r[g.children.len() as int] == empty_column_view());
}

/// The columns a row of a top-level section belongs to: a column (or a
/// component in it) belongs to the section's columns at that column's
/// index; a group's column (or a component in it) belongs to the group's
/// columns at that column's index.
pub proof fn law_enclosing_in_top_level_section(t: SpecTemplate, b: usize, j: usize, i: usize, g: usize)
    requires
        b < t.body.nodes.len(),
        t.body.nodes[b as int] is MjSection,
        j < t.body.nodes[b as int]->MjSection_0.children.len(),
    ensures
        ({
            let ch = t.body.nodes[b as int]->MjSection_0.children[j as int];
            let sec = SpecColOwner { owner_path: seq![Step::BodyNode(b)], col_index: j, kind: ColOwnerKind::Section };
            let grp = SpecColOwner {
                owner_path: seq![Step::BodyNode(b), Step::SectionChild(j)],
                col_index: g,
                kind: ColOwnerKind::Group,
            };
            &&& ch is MjColumn ==> enclosing_view(t, seq![Step::BodyNode(b), Step::SectionChild(j)]) == Some(sec)
            &&& ch is MjColumn ==> enclosing_view(t, seq![Step::BodyNode(b), Step::SectionChild(j), Step::ColComp(i)])
                == Some(sec)
            &&& ch is MjGroup ==> enclosing_view(t, seq![Step::BodyNode(b), Step::SectionChild(j), Step::GroupCol(g)])
                == Some(grp)
            &&& ch is MjGroup ==> enclosing_view(
                t,
                seq![Step::BodyNode(b), Step::SectionChild(j), Step::GroupCol(g), Step::ColComp(i)],
            ) == Some(grp)
        }),
{
    let p2 = seq![Step::BodyNode(b), Step::SectionChild(j)];
    let p3 = seq![Step::BodyNode(b), Step::SectionChild(j), Step::ColComp(i)];
    let q3 = seq![Step::BodyNode(b), Step::SectionChild(j), Step::GroupCol(g)];
    let q4 = seq![Step::BodyNode(b), Step::SectionChild(j), Step::GroupCol(g), Step::ColComp(i)];
    assert(Seq::<Step>::empty().push(Step::BodyNode(b)) =~= seq![Step::BodyNode(b)]);
    assert(seq![Step::BodyNode(b)].push(Step::SectionChild(j)) =~= p2);
    assert(enc_fold(t, p2, 0) == enc_fold(t, p3, 0));
    assert(enc_fold(t, q3, 0) == enc_fold(t, q4, 0));
    assert(enc_fold(t, p2, 1) == enc_fold(t, p3, 1));
    assert(enc_fold(t, p2, 2) == enc_fold(t, p3, 2));
    assert(enc_fold(t, q3, 1) == enc_fold(t, q4, 1));
    assert(enc_fold(t, q3, 2) == enc_fold(t, q4, 2));
    assert(enc_fold(t, q3, 3) == enc_fold(t, q4, 3));
}

} // verus!
