//! Inserting new items next to or inside the selected row: body nodes,
//! wrapper and hero children, column components, columns, navbar links,
//! accordion elements and carousel images.  Each operation takes the new
//! item itself and says where it went.
use vstd::prelude::*;

use crate::columns::{
    same_but_width, same_column_but_width, apply_rebalance_group, apply_rebalance_section, empty_column, empty_column_view, group_at_view,
    rebalanced_children, rebalanced_columns,
};
use crate::model::{
    BodyNode, ColumnChild, MjColumn, MjSection, SectionChild, SpecBodyNode, SpecColumnChild, SpecMjColumn,
    SpecMjGroup, SpecMjHero, SpecMjSection, SpecMjWrapper, SpecSectionChild, SpecTemplate, Template,
    MjAccordionElement, MjCarouselImage, MjNavbarLink, MjSpacer, SpecMjAccordion, SpecMjAccordionElement,
    SpecMjCarousel, SpecMjCarouselImage, SpecMjNavbar, SpecMjNavbarLink, SpecMjSpacer,
    lemma_seq_view_body_node, lemma_seq_view_body_node_insert, seq_view_body_node, wrapper_view,
};
use crate::edits::{removed, removed_node};
use crate::nav::{
    lemma_set_node_at, node_at, node_in, placeholder_view, put_node, set_in, set_node_at, take_node, with_nodes,
};
use crate::tree::Step;

verus! {

/// Where a column sits in a section: a direct child, or a column of a
/// group child.
#[derive(Clone, Copy, Debug, PartialEq, Eq, Structural)]
pub enum ColAddr {
    Direct(usize),
    InGroup(usize, usize),
}

/// The column at an address of a section.
pub open spec fn col_of(s: SpecMjSection, a: ColAddr) -> Option<SpecMjColumn> {
    match a {
        ColAddr::Direct(i) => if i < s.children.len() {
            match s.children[i as int] {
                SpecSectionChild::MjColumn(c) => Some(c),
                _ => None,
            }
        } else {
            None
        },
        ColAddr::InGroup(j, i) => if j < s.children.len() {
            match s.children[j as int] {
                SpecSectionChild::MjGroup(g) => if i < g.children.len() {
                    Some(g.children[i as int])
                } else {
                    None
                },
                _ => None,
            }
        } else {
            None
        },
    }
}

/// The section with the column at an address replaced.
pub open spec fn set_col(s: SpecMjSection, a: ColAddr, c: SpecMjColumn) -> SpecMjSection {
    match a {
        ColAddr::Direct(i) => SpecMjSection {
            children: s.children.update(i as int, SpecSectionChild::MjColumn(c)),
            ..s
        },
        ColAddr::InGroup(j, i) => {
            let g = s.children[j as int]->MjGroup_0;
            SpecMjSection {
                children: s.children.update(
                    j as int,
                    SpecSectionChild::MjGroup(SpecMjGroup { children: g.children.update(i as int, c), ..g }),
                ),
                ..s
            }
        },
    }
}

/// Replacing twice keeps the second column; replacing a column by itself
/// changes nothing; what was put there is found there.
pub proof fn lemma_set_col(s: SpecMjSection, a: ColAddr, x: SpecMjColumn, y: SpecMjColumn)
    requires
        col_of(s, a) is Some,
    ensures
        col_of(set_col(s, a, x), a) == Some(x),
        set_col(set_col(s, a, x), a, y) == set_col(s, a, y),
        set_col(s, a, col_of(s, a)->0) == s,
{
    match a {
        ColAddr::Direct(i) => {
            assert(s.children.update(i as int, SpecSectionChild::MjColumn(x)).update(
                i as int,
                SpecSectionChild::MjColumn(y),
            ) =~= s.children.update(i as int, SpecSectionChild::MjColumn(y)));
            assert(s.children.update(i as int, s.children[i as int]) =~= s.children);
        },
        ColAddr::InGroup(j, i) => {
            let g = s.children[j as int]->MjGroup_0;
            let gx = SpecMjGroup { children: g.children.update(i as int, x), ..g };
            assert(gx.children.update(i as int, y) =~= g.children.update(i as int, y));
            assert(s.children.update(j as int, SpecSectionChild::MjGroup(gx)).update(
                j as int,
                SpecSectionChild::MjGroup(SpecMjGroup { children: g.children.update(i as int, y), ..g }),
            ) =~= s.children.update(
                j as int,
                SpecSectionChild::MjGroup(SpecMjGroup { children: g.children.update(i as int, y), ..g }),
            ));
            assert(g.children.update(i as int, g.children[i as int]) =~= g.children);
            assert(s.children.update(j as int, s.children[j as int]) =~= s.children);
        },
    }
}

/// Takes the column at an address out of a section, leaving an empty one.
fn take_col(s: &mut MjSection, a: ColAddr) -> (r: Option<MjColumn>)
    ensures
        match col_of(old(s)@, a) {
            Some(c) => r is Some && r->0@ == c && final(s)@ == set_col(old(s)@, a, empty_column_view()),
            None => r is None && final(s)@ == old(s)@,
        },
{
    let ghost s0 = s@;
    match a {
        ColAddr::Direct(i) => {
            if i >= s.children.len() {
                return None;
            }
            let child = s.children.remove(i);
            match child {
                SectionChild::MjColumn(c) => {
                    s.children.insert(i, SectionChild::MjColumn(empty_column()));
                    assert(s@.children =~= s0.children.update(i as int, SpecSectionChild::MjColumn(empty_column_view())));
                    Some(c)
                },
                other => {
                    s.children.insert(i, other);
                    assert(s@.children =~= s0.children);
                    None
                },
            }
        },
        ColAddr::InGroup(j, i) => {
            if j >= s.children.len() {
                return None;
            }
            let child = s.children.remove(j);
            match child {
                SectionChild::MjGroup(mut g) => {
                    let ghost g0 = g@;
                    if i >= g.children.len() {
                        s.children.insert(j, SectionChild::MjGroup(g));
                        assert(s@.children =~= s0.children);
                        return None;
                    }
                    let c = g.children.remove(i);
                    g.children.insert(i, empty_column());
                    assert(g@.children =~= g0.children.update(i as int, empty_column_view()));
                    let ghost gv = g@;
                    s.children.insert(j, SectionChild::MjGroup(g));
                    assert(s@.children =~= s0.children.update(j as int, SpecSectionChild::MjGroup(gv)));
                    Some(c)
                },
                other => {
                    s.children.insert(j, other);
                    assert(s@.children =~= s0.children);
                    None
                },
            }
        },
    }
}

/// Puts a column at an address of a section.
fn put_col(s: &mut MjSection, a: ColAddr, c: MjColumn)
    requires
        col_of(old(s)@, a) is Some,
    ensures
        final(s)@ == set_col(old(s)@, a, c@),
{
    let ghost s0 = s@;
    let ghost cv = c@;
    match a {
        ColAddr::Direct(i) => {
            let _ = s.children.remove(i);
            s.children.insert(i, SectionChild::MjColumn(c));
            assert(s@.children =~= s0.children.update(i as int, SpecSectionChild::MjColumn(cv)));
        },
        ColAddr::InGroup(j, i) => {
            let child = s.children.remove(j);
            match child {
                SectionChild::MjGroup(mut g) => {
                    let ghost g0 = g@;
                    let _ = g.children.remove(i);
                    g.children.insert(i, c);
                    assert(g@.children =~= g0.children.update(i as int, cv));
                    let ghost gv = g@;
                    s.children.insert(j, SectionChild::MjGroup(g));
                    assert(s@.children =~= s0.children.update(j as int, SpecSectionChild::MjGroup(gv)));
                },
                other => {
                    s.children.insert(j, other);
                },
            }
        },
    }
}

// ---------------------------------------------------------------------------
// Columns addressed by path
// ---------------------------------------------------------------------------

/// How a column path splits: the section's node path and the column's
/// address in it (`…, SectionChild(i)` or `…, SectionChild(j), GroupCol(i)`).
pub open spec fn col_addr(p: Seq<Step>) -> Option<(Seq<Step>, ColAddr)> {
    if p.len() >= 1 && p.last() is SectionChild {
        Some((p.drop_last(), ColAddr::Direct(p.last()->SectionChild_0)))
    } else if p.len() >= 2 && p.last() is GroupCol && p[p.len() - 2] is SectionChild {
        Some((p.take(p.len() - 2), ColAddr::InGroup(p[p.len() - 2]->SectionChild_0, p.last()->GroupCol_0)))
    } else {
        None
    }
}

/// The column a path addresses.
pub open spec fn column_at(t: SpecTemplate, p: Seq<Step>) -> Option<SpecMjColumn> {
    match col_addr(p) {
        Some((np, a)) => match node_at(t, np) {
            Some(SpecBodyNode::MjSection(s)) => col_of(s, a),
            _ => None,
        },
        None => None,
    }
}

/// The template with the column at `p` replaced (meaningful where
/// [`column_at`] finds one).
pub open spec fn with_column(t: SpecTemplate, p: Seq<Step>, c: SpecMjColumn) -> SpecTemplate {
    match col_addr(p) {
        Some((np, a)) => set_node_at(t, np, SpecBodyNode::MjSection(set_col(node_at(t, np)->0->MjSection_0, a, c))),
        None => t,
    }
}

/// Replacing a column twice keeps the second; replacing it by itself changes
/// nothing; what was put there is found there.
pub proof fn lemma_with_column(t: SpecTemplate, p: Seq<Step>, x: SpecMjColumn, y: SpecMjColumn)
    requires
        column_at(t, p) is Some,
    ensures
        column_at(with_column(t, p, x), p) == Some(x),
        with_column(with_column(t, p, x), p, y) == with_column(t, p, y),
        with_column(t, p, column_at(t, p)->0) == t,
{
    let (np, a) = col_addr(p)->0;
    let s = node_at(t, np)->0->MjSection_0;
    lemma_set_col(s, a, x, y);
    let sx = SpecBodyNode::MjSection(set_col(s, a, x));
    let sy = SpecBodyNode::MjSection(set_col(s, a, y));
    lemma_set_node_at(t, np, sx, sy);
    lemma_set_node_at(t, np, sx, node_at(t, np)->0);
}

fn split_col_path(p: &[Step]) -> (r: Option<(Vec<Step>, ColAddr)>)
    ensures
        match (r, col_addr(p@)) {
            (Some((np, a)), Some((snp, sa))) => np@ == snp && a == sa,
            (None, None) => true,
            _ => false,
        },
{
    let n = p.len();
    if n >= 1 {
        if let Step::SectionChild(i) = p[n - 1] {
            return Some((prefix(p, n - 1), ColAddr::Direct(i)));
        }
    }
    if n >= 2 {
        if let Step::GroupCol(i) = p[n - 1] {
            if let Step::SectionChild(j) = p[n - 2] {
                return Some((prefix(p, n - 2), ColAddr::InGroup(j, i)));
            }
        }
    }
    None
}

/// The first `k` steps of a path.
fn prefix(p: &[Step], k: usize) -> (r: Vec<Step>)
    requires
        k <= p@.len(),
    ensures
        r@ == p@.take(k as int),
{
    let mut r: Vec<Step> = Vec::new();
    let mut i: usize = 0;
    while i < k
        invariant
            i <= k,
            k <= p@.len(),
            r@ == p@.take(i as int),
        decreases k - i,
    {
        r.push(p[i]);
        i = i + 1;
        assert(r@ =~= p@.take(i as int));
    }
    r
}

/// Takes the column at `p` out of the template, leaving an empty column.
fn take_column(t: &mut Template, p: &[Step]) -> (r: Option<MjColumn>)
    ensures
        match column_at(old(t)@, p@) {
            Some(c) => r is Some && r->0@ == c && final(t)@ == with_column(old(t)@, p@, empty_column_view()),
            None => r is None && final(t)@ == old(t)@,
        },
{
    let ghost t0 = t@;
    let (np, a) = match split_col_path(p) {
        Some(x) => x,
        None => return None,
    };
    match take_node(t, np.as_slice()) {
        None => None,
        Some(BodyNode::MjSection(mut s)) => {
            let ghost s0 = s@;
            let got = take_col(&mut s, a);
            let ghost sv = s@;
            put_node(t, np.as_slice(), BodyNode::MjSection(s));
            proof {
                lemma_set_node_at(t0, np@, placeholder_view(), SpecBodyNode::MjSection(sv));
            }
            got
        },
        Some(other) => {
            let ghost ov = other@;
            put_node(t, np.as_slice(), other);
            proof {
                lemma_set_node_at(t0, np@, placeholder_view(), ov);
            }
            None
        },
    }
}

/// Puts a column at `p`, where the template has one.
fn put_column(t: &mut Template, p: &[Step], c: MjColumn)
    requires
        column_at(old(t)@, p@) is Some,
    ensures
        final(t)@ == with_column(old(t)@, p@, c@),
{
    let ghost t0 = t@;
    let (np, a) = match split_col_path(p) {
        Some(x) => x,
        None => return,
    };
    match take_node(t, np.as_slice()) {
        Some(BodyNode::MjSection(mut s)) => {
            put_col(&mut s, a, c);
            let ghost sv = s@;
            put_node(t, np.as_slice(), BodyNode::MjSection(s));
            proof {
                lemma_set_node_at(t0, np@, placeholder_view(), SpecBodyNode::MjSection(sv));
            }
        },
        Some(other) => {
            put_node(t, np.as_slice(), other);
        },
        None => {},
    }
}

// ---------------------------------------------------------------------------
// Body nodes, wrapper and hero children
// ---------------------------------------------------------------------------

/// `i + 1`, but at most `len` (the place right after item `i`).
pub open spec fn after(i: usize, len: nat) -> usize {
    if i < len {
        (i + 1) as usize
    } else {
        len as usize
    }
}

fn after_exec(i: usize, len: usize) -> (r: usize)
    ensures
        r == after(i, len as nat),
{
    if i < len {
        i + 1
    } else {
        len
    }
}

/// `at`, but at most `len`.
pub open spec fn capped(at: usize, len: nat) -> usize {
    if at < len {
        at
    } else {
        len as usize
    }
}

/// Inserting a body node at position `at` (at most the end): the template
/// and the new node's path.
pub open spec fn body_inserted(t: SpecTemplate, at: usize, x: SpecBodyNode) -> (SpecTemplate, Seq<Step>) {
    let k = capped(at, t.body.nodes.len());
    (with_nodes(t, t.body.nodes.insert(k as int, x)), seq![Step::BodyNode(k)])
}

/// Inserts a body node at position `at` (at most the end).
pub fn insert_body(t: &mut Template, at: usize, node: BodyNode) -> (r: Vec<Step>)
    ensures
        (final(t)@, r@) == body_inserted(old(t)@, at, node@),
{
    let ghost t0 = t@;
    let ghost nv = node@;
    proof {
        lemma_seq_view_body_node(t.body.nodes@);
    }
    let len = t.body.nodes.len();
    let k = if at < len {
        at
    } else {
        len
    };
    proof {
        lemma_seq_view_body_node_insert(t.body.nodes@, k as int, node);
    }
    t.body.nodes.insert(k, node);
    assert(t@.body.nodes == t0.body.nodes.insert(k as int, nv));
    let mut r: Vec<Step> = Vec::new();
    r.push(Step::BodyNode(k));
    assert(r@ =~= seq![Step::BodyNode(k)]);
    r
}

/// Whether a node can stand inside a wrapper.
pub open spec fn wrappable(x: SpecBodyNode) -> bool {
    x is MjSection || x is MjHero
}

/// A wrapper with a child inserted at `at` (at most the end).
pub open spec fn wrapper_inserted(w: SpecMjWrapper, at: usize, x: SpecBodyNode) -> SpecMjWrapper {
    SpecMjWrapper { children: w.children.insert(capped(at, w.children.len()) as int, x), ..w }
}

/// Inserting a node into the wrapper at `wp` at position `at`: the template
/// and the new node's path (`None` when `wp` is no wrapper or the node
/// cannot stand in one).
pub open spec fn into_wrapper(t: SpecTemplate, wp: Seq<Step>, at: usize, x: SpecBodyNode) -> Option<(SpecTemplate, Seq<Step>)> {
    match node_at(t, wp) {
        Some(SpecBodyNode::MjWrapper(w)) => if wrappable(x) {
            Some((
                set_node_at(t, wp, SpecBodyNode::MjWrapper(wrapper_inserted(w, at, x))),
                wp.push(Step::WrapperChild(capped(at, w.children.len()))),
            ))
        } else {
            None
        },
        _ => None,
    }
}

fn path_with(p: &[Step], s: Step) -> (r: Vec<Step>)
    ensures
        r@ == p@.push(s),
{
    let mut q = crate::tree::copy_path(p);
    q.push(s);
    q
}

fn is_wrappable(x: &BodyNode) -> (r: bool)
    ensures
        r == wrappable(x@),
{
    match x {
        BodyNode::MjSection(_) | BodyNode::MjHero(_) => true,
        _ => false,
    }
}

/// Inserts a node into the wrapper at `wp` at position `at` (at most the
/// end); only sections and heroes go into a wrapper.
fn insert_into_wrapper(t: &mut Template, wp: &[Step], at: usize, node: BodyNode) -> (r: Option<Vec<Step>>)
    ensures
        match into_wrapper(old(t)@, wp@, at, node@) {
            Some((t2, q)) => r is Some && r->0@ == q && final(t)@ == t2,
            None => r is None && final(t)@ == old(t)@,
        },
{
    let ghost t0 = t@;
    if !is_wrappable(&node) {
        return None;
    }
    match take_node(t, wp) {
        None => None,
        Some(BodyNode::MjWrapper(mut w)) => {
            let ghost w0 = wrapper_view(w);
            let ghost nv = node@;
            proof {
                lemma_seq_view_body_node(w.children@);
            }
            let len = w.children.len();
            let k = if at < len {
                at
            } else {
                len
            };
            proof {
                lemma_seq_view_body_node_insert(w.children@, k as int, node);
            }
            w.children.insert(k, node);
            assert(wrapper_view(w) == wrapper_inserted(w0, at, nv));
            let ghost wv = wrapper_view(w);
            put_node(t, wp, BodyNode::MjWrapper(w));
            proof {
                lemma_set_node_at(t0, wp@, placeholder_view(), SpecBodyNode::MjWrapper(wv));
            }
            Some(path_with(wp, Step::WrapperChild(k)))
        },
        Some(other) => {
            let ghost ov = other@;
            put_node(t, wp, other);
            proof {
                lemma_set_node_at(t0, wp@, placeholder_view(), ov);
            }
            None
        },
    }
}

/// Appends a node to the wrapper at `p`: the template and the new node's
/// path, or `None` (nothing changed) when `p` is no wrapper or the node is
/// neither a section nor a hero.
pub fn insert_on_wrapper(t: &mut Template, p: &[Step], node: BodyNode) -> (r: Option<Vec<Step>>)
    ensures
        match into_wrapper(old(t)@, p@, usize::MAX, node@) {
            Some((t2, q)) => r is Some && r->0@ == q && final(t)@ == t2,
            None => r is None && final(t)@ == old(t)@,
        },
{
    insert_into_wrapper(t, p, usize::MAX, node)
}

/// Inserting a node right after the body node at `p`: after a top-level
/// node in the body, after a wrapper child inside its wrapper.
pub open spec fn after_body_node(t: SpecTemplate, p: Seq<Step>, x: SpecBodyNode) -> Option<(SpecTemplate, Seq<Step>)> {
    if p.len() == 1 && p[0] is BodyNode {
        Some(body_inserted(t, after(p[0]->BodyNode_0, t.body.nodes.len()), x))
    } else if p.len() >= 1 && p.last() is WrapperChild {
        let wp = p.drop_last();
        match node_at(t, wp) {
            Some(SpecBodyNode::MjWrapper(w)) => into_wrapper(t, wp, after(p.last()->WrapperChild_0, w.children.len()), x),
            _ => None,
        }
    } else {
        None
    }
}

/// Inserts a node right after the body node at `p`.
pub fn insert_after_body_node(t: &mut Template, p: &[Step], node: BodyNode) -> (r: Option<Vec<Step>>)
    ensures
        match after_body_node(old(t)@, p@, node@) {
            Some((t2, q)) => r is Some && r->0@ == q && final(t)@ == t2,
            None => r is None && final(t)@ == old(t)@,
        },
{
    let n = p.len();
    if n == 1 {
        if let Step::BodyNode(i) = p[0] {
            proof {
                lemma_seq_view_body_node(t.body.nodes@);
            }
            let at = after_exec(i, t.body.nodes.len());
            return Some(insert_body(t, at, node));
        }
    }
    if n >= 1 {
        if let Step::WrapperChild(j) = p[n - 1] {
            let wp = prefix(p, n - 1);
            assert(wp@ == p@.drop_last());
            let wlen = match crate::nav::node_at_ref(t, wp.as_slice()) {
                Some(BodyNode::MjWrapper(w)) => {
                    proof {
                        lemma_seq_view_body_node(w.children@);
                    }
                    w.children.len()
                },
                _ => return None,
            };
            return insert_into_wrapper(t, wp.as_slice(), after_exec(j, wlen), node);
        }
    }
    None
}

// ---------------------------------------------------------------------------
// Column components and hero children
// ---------------------------------------------------------------------------

/// Inserting a component into the column at `cp` at position `at` (at most
/// the end): the template and the component's path.
pub open spec fn into_column(t: SpecTemplate, cp: Seq<Step>, at: usize, x: SpecColumnChild) -> Option<(SpecTemplate, Seq<Step>)> {
    match column_at(t, cp) {
        Some(c) => {
            let k = capped(at, c.components.len());
            Some((
                with_column(t, cp, SpecMjColumn { components: c.components.insert(k as int, x), ..c }),
                cp.push(Step::ColComp(k)),
            ))
        },
        None => None,
    }
}

fn insert_into_column(t: &mut Template, cp: &[Step], at: usize, leaf: ColumnChild) -> (r: Option<Vec<Step>>)
    ensures
        match into_column(old(t)@, cp@, at, leaf@) {
            Some((t2, q)) => r is Some && r->0@ == q && final(t)@ == t2,
            None => r is None && final(t)@ == old(t)@,
        },
{
    let ghost t0 = t@;
    let ghost lv = leaf@;
    match take_column(t, cp) {
        None => None,
        Some(mut c) => {
            let ghost c0 = c@;
            let len = c.components.len();
            let k = if at < len {
                at
            } else {
                len
            };
            c.components.insert(k, leaf);
            assert(c@.components =~= c0.components.insert(k as int, lv));
            let ghost cv = c@;
            proof {
                lemma_with_column(t0, cp@, empty_column_view(), cv);
            }
            put_column(t, cp, c);
            Some(path_with(cp, Step::ColComp(k)))
        },
    }
}

/// Appends a component to the column at `p`.
pub fn insert_on_column(t: &mut Template, p: &[Step], leaf: ColumnChild) -> (r: Option<Vec<Step>>)
    ensures
        match into_column(old(t)@, p@, usize::MAX, leaf@) {
            Some((t2, q)) => r is Some && r->0@ == q && final(t)@ == t2,
            None => r is None && final(t)@ == old(t)@,
        },
{
    insert_into_column(t, p, usize::MAX, leaf)
}

/// Inserting a child into the hero at `hp` at position `at` (at most the
/// end): the template and the child's path.
pub open spec fn into_hero(t: SpecTemplate, hp: Seq<Step>, at: usize, x: SpecColumnChild) -> Option<(SpecTemplate, Seq<Step>)> {
    match node_at(t, hp) {
        Some(SpecBodyNode::MjHero(h)) => {
            let k = capped(at, h.children.len());
            Some((
                set_node_at(t, hp, SpecBodyNode::MjHero(SpecMjHero { children: h.children.insert(k as int, x), ..h })),
                hp.push(Step::HeroChild(k)),
            ))
        },
        _ => None,
    }
}

fn insert_into_hero(t: &mut Template, hp: &[Step], at: usize, leaf: ColumnChild) -> (r: Option<Vec<Step>>)
    ensures
        match into_hero(old(t)@, hp@, at, leaf@) {
            Some((t2, q)) => r is Some && r->0@ == q && final(t)@ == t2,
            None => r is None && final(t)@ == old(t)@,
        },
{
    let ghost t0 = t@;
    let ghost lv = leaf@;
    match take_node(t, hp) {
        None => None,
        Some(BodyNode::MjHero(mut h)) => {
            let ghost h0 = h@;
            let len = h.children.len();
            let k = if at < len {
                at
            } else {
                len
            };
            h.children.insert(k, leaf);
            assert(h@.children =~= h0.children.insert(k as int, lv));
            let ghost hv = h@;
            put_node(t, hp, BodyNode::MjHero(h));
            proof {
                lemma_set_node_at(t0, hp@, placeholder_view(), SpecBodyNode::MjHero(hv));
            }
            Some(path_with(hp, Step::HeroChild(k)))
        },
        Some(other) => {
            let ghost ov = other@;
            put_node(t, hp, other);
            proof {
                lemma_set_node_at(t0, hp@, placeholder_view(), ov);
            }
            None
        },
    }
}

/// Appends a child to the hero at `p`.
pub fn insert_on_hero(t: &mut Template, p: &[Step], leaf: ColumnChild) -> (r: Option<Vec<Step>>)
    ensures
        match into_hero(old(t)@, p@, usize::MAX, leaf@) {
            Some((t2, q)) => r is Some && r->0@ == q && final(t)@ == t2,
            None => r is None && final(t)@ == old(t)@,
        },
{
    insert_into_hero(t, p, usize::MAX, leaf)
}

/// Inserting a component right after the one at `p` (in a column or a
/// hero).
pub open spec fn after_leaf(t: SpecTemplate, p: Seq<Step>, x: SpecColumnChild) -> Option<(SpecTemplate, Seq<Step>)> {
    if p.len() == 0 {
        None
    } else {
        let parent = p.drop_last();
        match p.last() {
            Step::ColComp(i) => match column_at(t, parent) {
                Some(c) => into_column(t, parent, after(i, c.components.len()), x),
                None => None,
            },
            Step::HeroChild(i) => match node_at(t, parent) {
                Some(SpecBodyNode::MjHero(h)) => into_hero(t, parent, after(i, h.children.len()), x),
                _ => None,
            },
            _ => None,
        }
    }
}

/// Inserts a component right after the one at `p`.
pub fn insert_after_leaf(t: &mut Template, p: &[Step], leaf: ColumnChild) -> (r: Option<Vec<Step>>)
    ensures
        match after_leaf(old(t)@, p@, leaf@) {
            Some((t2, q)) => r is Some && r->0@ == q && final(t)@ == t2,
            None => r is None && final(t)@ == old(t)@,
        },
{
    let n = p.len();
    if n == 0 {
        return None;
    }
    let parent = prefix(p, n - 1);
    assert(parent@ == p@.drop_last());
    let last = p[n - 1];
    assert(last == p@.last());
    match last {
        Step::ColComp(i) => {
            let len = match column_len(t, parent.as_slice()) {
                Some(l) => l,
                None => return None,
            };
            insert_into_column(t, parent.as_slice(), after_exec(i, len), leaf)
        },
        Step::HeroChild(i) => {
            let len = match crate::nav::node_at_ref(t, parent.as_slice()) {
                Some(BodyNode::MjHero(h)) => {
                    assert(h@.children.len() == h.children@.len());
                    h.children.len()
                },
                _ => return None,
            };
            insert_into_hero(t, parent.as_slice(), after_exec(i, len), leaf)
        },
        _ => None,
    }
}

/// How many components the column at `p` has.
fn column_len(t: &Template, p: &[Step]) -> (r: Option<usize>)
    ensures
        match column_at(t@, p@) {
            Some(c) => r is Some && r->0 == c.components.len(),
            None => r is None,
        },
{
    let (np, a) = match split_col_path(p) {
        Some(x) => x,
        None => return None,
    };
    match crate::nav::node_at_ref(t, np.as_slice()) {
        Some(BodyNode::MjSection(s)) => match a {
            ColAddr::Direct(i) => if i < s.children.len() {
                match &s.children[i] {
                    SectionChild::MjColumn(c) => Some(c.components.len()),
                    _ => None,
                }
            } else {
                None
            },
            ColAddr::InGroup(j, i) => if j < s.children.len() {
                match &s.children[j] {
                    SectionChild::MjGroup(g) => if i < g.children.len() {
                        Some(g.children[i].components.len())
                    } else {
                        None
                    },
                    _ => None,
                }
            } else {
                None
            },
        },
        _ => None,
    }
}

// ---------------------------------------------------------------------------
// A column after the selected one
// ---------------------------------------------------------------------------

/// Adding an empty column right after the column at `p` (of a section or a
/// group) and splitting the width equally: the template and the new
/// column's path.
pub open spec fn column_after(t: SpecTemplate, p: Seq<Step>) -> Option<(SpecTemplate, Seq<Step>)> {
    if p.len() == 0 {
        None
    } else {
        let parent = p.drop_last();
        match p.last() {
            Step::SectionChild(i) => match node_at(t, parent) {
                Some(SpecBodyNode::MjSection(s)) => {
                    let k = after(i, s.children.len());
                    Some((
                        set_node_at(t, parent, SpecBodyNode::MjSection(SpecMjSection {
                            children: rebalanced_children(
                                s.children.insert(k as int, SpecSectionChild::MjColumn(empty_column_view())),
                            ),
                            ..s
                        })),
                        parent.push(Step::SectionChild(k)),
                    ))
                },
                _ => None,
            },
            Step::GroupCol(i) => match group_at_view(t, parent) {
                Some(g) => {
                    let k = after(i, g.children.len());
                    let sp = parent.drop_last();
                    let j = parent.last()->SectionChild_0;
                    let s = node_at(t, sp)->0->MjSection_0;
                    let g2 = SpecMjGroup {
                        children: rebalanced_columns(g.children.insert(k as int, empty_column_view())),
                        ..g
                    };
                    Some((
                        set_node_at(t, sp, SpecBodyNode::MjSection(SpecMjSection {
                            children: s.children.update(j as int, SpecSectionChild::MjGroup(g2)),
                            ..s
                        })),
                        parent.push(Step::GroupCol(k)),
                    ))
                },
                None => None,
            },
            _ => None,
        }
    }
}

/// Adds an empty column right after the column at `p` and splits the width
/// equally.
pub fn insert_column_after(t: &mut Template, p: &[Step]) -> (r: Option<Vec<Step>>)
    ensures
        match column_after(old(t)@, p@) {
            Some((t2, q)) => r is Some && r->0@ == q && final(t)@ == t2,
            None => r is None && final(t)@ == old(t)@,
        },
{
    let ghost t0 = t@;
    let n = p.len();
    if n == 0 {
        return None;
    }
    let parent = prefix(p, n - 1);
    assert(parent@ == p@.drop_last());
    let last = p[n - 1];
    assert(last == p@.last());
    match last {
        Step::SectionChild(i) => match take_node(t, parent.as_slice()) {
            None => None,
            Some(BodyNode::MjSection(mut s)) => {
                let ghost s0 = s@;
                let k = after_exec(i, s.children.len());
                s.children.insert(k, SectionChild::MjColumn(empty_column()));
                assert(s@.children =~= s0.children.insert(k as int, SpecSectionChild::MjColumn(empty_column_view())));
                apply_rebalance_section(&mut s);
                let ghost sv = s@;
                put_node(t, parent.as_slice(), BodyNode::MjSection(s));
                proof {
                    lemma_set_node_at(t0, parent@, placeholder_view(), SpecBodyNode::MjSection(sv));
                }
                Some(path_with(parent.as_slice(), Step::SectionChild(k)))
            },
            Some(other) => {
                let ghost ov = other@;
                put_node(t, parent.as_slice(), other);
                proof {
                    lemma_set_node_at(t0, parent@, placeholder_view(), ov);
                }
                None
            },
        },
        Step::GroupCol(i) => {
            let m = parent.len();
            if m == 0 {
                return None;
            }
            let j = match parent[m - 1] {
                Step::SectionChild(j) => j,
                _ => return None,
            };
            let sp = prefix(parent.as_slice(), m - 1);
            assert(sp@ == parent@.drop_last());
            match take_node(t, sp.as_slice()) {
                None => None,
                Some(BodyNode::MjSection(mut s)) => {
                    let ghost s0 = s@;
                    if j >= s.children.len() {
                        put_node(t, sp.as_slice(), BodyNode::MjSection(s));
                        proof {
                            lemma_set_node_at(t0, sp@, placeholder_view(), SpecBodyNode::MjSection(s0));
                        }
                        return None;
                    }
                    let child = s.children.remove(j);
                    match child {
                        SectionChild::MjGroup(mut g) => {
                            let ghost g0 = g@;
                            let k = after_exec(i, g.children.len());
                            g.children.insert(k, empty_column());
                            assert(g@.children =~= g0.children.insert(k as int, empty_column_view()));
                            apply_rebalance_group(&mut g);
                            let ghost gv = g@;
                            s.children.insert(j, SectionChild::MjGroup(g));
                            assert(s@.children =~= s0.children.update(j as int, SpecSectionChild::MjGroup(gv)));
                            let ghost sv = s@;
                            put_node(t, sp.as_slice(), BodyNode::MjSection(s));
                            proof {
                                lemma_set_node_at(t0, sp@, placeholder_view(), SpecBodyNode::MjSection(sv));
                            }
                            Some(path_with(parent.as_slice(), Step::GroupCol(k)))
                        },
                        other => {
                            s.children.insert(j, other);
                            assert(s@.children =~= s0.children);
                            put_node(t, sp.as_slice(), BodyNode::MjSection(s));
                            proof {
                                lemma_set_node_at(t0, sp@, placeholder_view(), SpecBodyNode::MjSection(s0));
                            }
                            None
                        },
                    }
                },
                Some(other) => {
                    let ghost ov = other@;
                    put_node(t, sp.as_slice(), other);
                    proof {
                        lemma_set_node_at(t0, sp@, placeholder_view(), ov);
                    }
                    None
                },
            }
        },
        _ => None,
    }
}

// ---------------------------------------------------------------------------
// A component into a section
// ---------------------------------------------------------------------------

/// A full-width column holding just `x`.
pub open spec fn full_column(x: SpecColumnChild) -> SpecMjColumn {
    SpecMjColumn { width: Some("100%"@), components: seq![x], ..empty_column_view() }
}

/// A column with `x` appended.
pub open spec fn with_leaf(c: SpecMjColumn, x: SpecColumnChild) -> SpecMjColumn {
    SpecMjColumn { components: c.components.push(x), ..c }
}

/// Inserting a component into the section at `p`: an empty section gets a
/// full-width column holding it; otherwise it goes to the end of the last
/// column (the last column of a last group, which gets an empty column
/// first when it has none).  The template and the component's path.
pub open spec fn leaf_in_section(t: SpecTemplate, p: Seq<Step>, x: SpecColumnChild) -> Option<(SpecTemplate, Seq<Step>)> {
    match node_at(t, p) {
        Some(SpecBodyNode::MjSection(s)) => if s.children.len() == 0 {
            Some((
                set_node_at(t, p, SpecBodyNode::MjSection(SpecMjSection {
                    children: seq![SpecSectionChild::MjColumn(full_column(x))],
                    ..s
                })),
                p.push(Step::SectionChild(0)).push(Step::ColComp(0)),
            ))
        } else {
            let li = (s.children.len() - 1) as int;
            match s.children[li] {
                SpecSectionChild::MjColumn(c) => Some((
                    set_node_at(t, p, SpecBodyNode::MjSection(SpecMjSection {
                        children: s.children.update(li, SpecSectionChild::MjColumn(with_leaf(c, x))),
                        ..s
                    })),
                    p.push(Step::SectionChild(li as usize)).push(Step::ColComp(c.components.len() as usize)),
                )),
                SpecSectionChild::MjGroup(g) => {
                    let cols = if g.children.len() == 0 {
                        seq![empty_column_view()]
                    } else {
                        g.children
                    };
                    let ci = (cols.len() - 1) as int;
                    let c = cols[ci];
                    let g2 = SpecMjGroup { children: cols.update(ci, with_leaf(c, x)), ..g };
                    Some((
                        set_node_at(t, p, SpecBodyNode::MjSection(SpecMjSection {
                            children: s.children.update(li, SpecSectionChild::MjGroup(g2)),
                            ..s
                        })),
                        p.push(Step::SectionChild(li as usize)).push(Step::GroupCol(ci as usize)).push(
                            Step::ColComp(c.components.len() as usize),
                        ),
                    ))
                },
            }
        },
        _ => None,
    }
}

/// Inserts a component into the section at `p`.
pub fn insert_leaf_in_section(t: &mut Template, p: &[Step], leaf: ColumnChild) -> (r: Option<Vec<Step>>)
    ensures
        match leaf_in_section(old(t)@, p@, leaf@) {
            Some((t2, q)) => r is Some && r->0@ == q && final(t)@ == t2,
            None => r is None && final(t)@ == old(t)@,
        },
{
    let ghost t0 = t@;
    let ghost lv = leaf@;
    match take_node(t, p) {
        None => None,
        Some(BodyNode::MjSection(mut s)) => {
            let ghost s0 = s@;
            let path = if s.children.len() == 0 {
                let mut c = empty_column();
                c.width = Some(crate::text::owned("100%"));
                c.components.push(leaf);
                assert(c@.components =~= seq![lv]);
                assert(c@ == full_column(lv));
                s.children.push(SectionChild::MjColumn(c));
                assert(s@.children =~= seq![SpecSectionChild::MjColumn(full_column(lv))]);
                let q = path_with(p, Step::SectionChild(0));
                path_with(q.as_slice(), Step::ColComp(0))
            } else {
                let li = s.children.len() - 1;
                let child = s.children.remove(li);
                match child {
                    SectionChild::MjColumn(mut c) => {
                        let ghost c0 = c@;
                        let k = c.components.len();
                        c.components.push(leaf);
                        assert(c@.components =~= c0.components.push(lv));
                        assert(c@ == with_leaf(c0, lv));
                        s.children.insert(li, SectionChild::MjColumn(c));
                        assert(s@.children =~= s0.children.update(li as int, SpecSectionChild::MjColumn(with_leaf(c0, lv))));
                        let q = path_with(p, Step::SectionChild(li));
                        path_with(q.as_slice(), Step::ColComp(k))
                    },
                    SectionChild::MjGroup(mut g) => {
                        let ghost g0 = g@;
                        if g.children.len() == 0 {
                            g.children.push(empty_column());
                        }
                        let ghost cols = g@.children;
                        assert(cols =~= (if g0.children.len() == 0 {
                            seq![empty_column_view()]
                        } else {
                            g0.children
                        }));
                        let ci = g.children.len() - 1;
                        let mut c = g.children.remove(ci);
                        let ghost c0 = c@;
                        let k = c.components.len();
                        c.components.push(leaf);
                        assert(c@.components =~= c0.components.push(lv));
                        assert(c@ == with_leaf(c0, lv));
                        assert(c0 == cols[ci as int]);
                        g.children.insert(ci, c);
                        assert(g@.children =~= cols.update(ci as int, with_leaf(c0, lv)));
                        let ghost gv = g@;
                        s.children.insert(li, SectionChild::MjGroup(g));
                        assert(s@.children =~= s0.children.update(li as int, SpecSectionChild::MjGroup(gv)));
                        let q = path_with(p, Step::SectionChild(li));
                        let q2 = path_with(q.as_slice(), Step::GroupCol(ci));
                        path_with(q2.as_slice(), Step::ColComp(k))
                    },
                }
            };
            let ghost sv = s@;
            put_node(t, p, BodyNode::MjSection(s));
            proof {
                lemma_set_node_at(t0, p@, placeholder_view(), SpecBodyNode::MjSection(sv));
            }
            Some(path)
        },
        Some(other) => {
            let ghost ov = other@;
            put_node(t, p, other);
            proof {
                lemma_set_node_at(t0, p@, placeholder_view(), ov);
            }
            None
        },
    }
}

// ---------------------------------------------------------------------------
// Components addressed by path
// ---------------------------------------------------------------------------

/// The component a path addresses (in a column or a hero).
pub open spec fn leaf_at(t: SpecTemplate, p: Seq<Step>) -> Option<SpecColumnChild> {
    if p.len() == 0 {
        None
    } else {
        let parent = p.drop_last();
        match p.last() {
            Step::ColComp(i) => match column_at(t, parent) {
                Some(c) => if i < c.components.len() {
                    Some(c.components[i as int])
                } else {
                    None
                },
                None => None,
            },
            Step::HeroChild(i) => match node_at(t, parent) {
                Some(SpecBodyNode::MjHero(h)) => if i < h.children.len() {
                    Some(h.children[i as int])
                } else {
                    None
                },
                _ => None,
            },
            _ => None,
        }
    }
}

/// The template with the component at `p` replaced (meaningful where
/// [`leaf_at`] finds one).
pub open spec fn set_leaf(t: SpecTemplate, p: Seq<Step>, x: SpecColumnChild) -> SpecTemplate {
    let parent = p.drop_last();
    match p.last() {
        Step::ColComp(i) => {
            let c = column_at(t, parent)->0;
            with_column(t, parent, SpecMjColumn { components: c.components.update(i as int, x), ..c })
        },
        Step::HeroChild(i) => {
            let h = node_at(t, parent)->0->MjHero_0;
            set_node_at(t, parent, SpecBodyNode::MjHero(SpecMjHero { children: h.children.update(i as int, x), ..h }))
        },
        _ => t,
    }
}

/// Replacing a component twice keeps the second; replacing it by itself
/// changes nothing; what was put there is found there.
pub proof fn lemma_set_leaf(t: SpecTemplate, p: Seq<Step>, x: SpecColumnChild, y: SpecColumnChild)
    requires
        leaf_at(t, p) is Some,
    ensures
        leaf_at(set_leaf(t, p, x), p) == Some(x),
        set_leaf(set_leaf(t, p, x), p, y) == set_leaf(t, p, y),
        set_leaf(t, p, leaf_at(t, p)->0) == t,
{
    let parent = p.drop_last();
    match p.last() {
        Step::ColComp(i) => {
            let c = column_at(t, parent)->0;
            let cx = SpecMjColumn { components: c.components.update(i as int, x), ..c };
            let cy = SpecMjColumn { components: c.components.update(i as int, y), ..c };
            lemma_with_column(t, parent, cx, cy);
            assert(cx.components.update(i as int, y) =~= cy.components);
            assert(c.components.update(i as int, c.components[i as int]) =~= c.components);
            lemma_with_column(t, parent, c, c);
        },
        Step::HeroChild(i) => {
            let h = node_at(t, parent)->0->MjHero_0;
            let hx = SpecBodyNode::MjHero(SpecMjHero { children: h.children.update(i as int, x), ..h });
            let hy = SpecBodyNode::MjHero(SpecMjHero { children: h.children.update(i as int, y), ..h });
            lemma_set_node_at(t, parent, hx, hy);
            assert(h.children.update(i as int, x).update(i as int, y) =~= h.children.update(i as int, y));
            assert(h.children.update(i as int, h.children[i as int]) =~= h.children);
            lemma_set_node_at(t, parent, hx, node_at(t, parent)->0);
        },
        _ => {},
    }
}

/// The stand-in left where a component was taken out.
pub open spec fn leaf_stand_in() -> SpecColumnChild {
    SpecColumnChild::MjSpacer(SpecMjSpacer { height: Seq::empty() })
}

/// Takes the component at `p` out of the template, leaving a stand-in.
fn take_leaf(t: &mut Template, p: &[Step]) -> (r: Option<ColumnChild>)
    ensures
        match leaf_at(old(t)@, p@) {
            Some(x) => r is Some && r->0@ == x && final(t)@ == set_leaf(old(t)@, p@, leaf_stand_in()),
            None => r is None && final(t)@ == old(t)@,
        },
{
    let ghost t0 = t@;
    let n = p.len();
    if n == 0 {
        return None;
    }
    let parent = prefix(p, n - 1);
    assert(parent@ == p@.drop_last());
    let last = p[n - 1];
    assert(last == p@.last());
    match last {
        Step::ColComp(i) => match take_column(t, parent.as_slice()) {
            None => None,
            Some(mut c) => {
                let ghost c0 = c@;
                if i >= c.components.len() {
                    proof {
                        lemma_with_column(t0, parent@, empty_column_view(), c0);
                    }
                    put_column(t, parent.as_slice(), c);
                    return None;
                }
                let x = c.components.remove(i);
                c.components.insert(i, ColumnChild::MjSpacer(MjSpacer { height: String::new() }));
                assert(c@.components =~= c0.components.update(i as int, leaf_stand_in()));
                let ghost cv = c@;
                proof {
                    lemma_with_column(t0, parent@, empty_column_view(), cv);
                }
                put_column(t, parent.as_slice(), c);
                Some(x)
            },
        },
        Step::HeroChild(i) => match take_node(t, parent.as_slice()) {
            None => None,
            Some(BodyNode::MjHero(mut h)) => {
                let ghost h0 = h@;
                if i >= h.children.len() {
                    put_node(t, parent.as_slice(), BodyNode::MjHero(h));
                    proof {
                        lemma_set_node_at(t0, parent@, placeholder_view(), SpecBodyNode::MjHero(h0));
                    }
                    return None;
                }
                let x = h.children.remove(i);
                h.children.insert(i, ColumnChild::MjSpacer(MjSpacer { height: String::new() }));
                assert(h@.children =~= h0.children.update(i as int, leaf_stand_in()));
                let ghost hv = h@;
                put_node(t, parent.as_slice(), BodyNode::MjHero(h));
                proof {
                    lemma_set_node_at(t0, parent@, placeholder_view(), SpecBodyNode::MjHero(hv));
                }
                Some(x)
            },
            Some(other) => {
                let ghost ov = other@;
                put_node(t, parent.as_slice(), other);
                proof {
                    lemma_set_node_at(t0, parent@, placeholder_view(), ov);
                }
                None
            },
        },
        _ => None,
    }
}

/// Puts a component at `p`, where the template has one.
fn put_leaf(t: &mut Template, p: &[Step], x: ColumnChild)
    requires
        leaf_at(old(t)@, p@) is Some,
    ensures
        final(t)@ == set_leaf(old(t)@, p@, x@),
{
    let ghost t0 = t@;
    let ghost xv = x@;
    let n = p.len();
    let parent = prefix(p, n - 1);
    assert(parent@ == p@.drop_last());
    let last = p[n - 1];
    assert(last == p@.last());
    match last {
        Step::ColComp(i) => match take_column(t, parent.as_slice()) {
            None => {},
            Some(mut c) => {
                let ghost c0 = c@;
                let _ = c.components.remove(i);
                c.components.insert(i, x);
                assert(c@.components =~= c0.components.update(i as int, xv));
                let ghost cv = c@;
                proof {
                    lemma_with_column(t0, parent@, empty_column_view(), cv);
                }
                put_column(t, parent.as_slice(), c);
            },
        },
        Step::HeroChild(i) => match take_node(t, parent.as_slice()) {
            Some(BodyNode::MjHero(mut h)) => {
                let ghost h0 = h@;
                let _ = h.children.remove(i);
                h.children.insert(i, x);
                assert(h@.children =~= h0.children.update(i as int, xv));
                let ghost hv = h@;
                put_node(t, parent.as_slice(), BodyNode::MjHero(h));
                proof {
                    lemma_set_node_at(t0, parent@, placeholder_view(), SpecBodyNode::MjHero(hv));
                }
            },
            Some(other) => {
                put_node(t, parent.as_slice(), other);
            },
            None => {},
        },
        _ => {},
    }
}

/// Inserting a link into the navbar at `np` at position `at` (at most the
/// end): the template and the new link's path.
pub open spec fn into_navbar(t: SpecTemplate, np: Seq<Step>, at: usize, x: SpecMjNavbarLink) -> Option<(SpecTemplate, Seq<Step>)> {
    match leaf_at(t, np) {
        Some(SpecColumnChild::MjNavbar(n)) => {
            let k = capped(at, n.links.len());
            Some((
                set_leaf(t, np, SpecColumnChild::MjNavbar(SpecMjNavbar { links: n.links.insert(k as int, x), ..n })),
                np.push(Step::NavbarLink(k)),
            ))
        },
        _ => None,
    }
}

fn insert_into_navbar(t: &mut Template, np: &[Step], at: usize, x: MjNavbarLink) -> (r: Option<Vec<Step>>)
    ensures
        match into_navbar(old(t)@, np@, at, x@) {
            Some((t2, q)) => r is Some && r->0@ == q && final(t)@ == t2,
            None => r is None && final(t)@ == old(t)@,
        },
{
    let ghost t0 = t@;
    let ghost xv = x@;
    match take_leaf(t, np) {
        None => None,
        Some(ColumnChild::MjNavbar(mut n)) => {
            let ghost n0 = n@;
            let len = n.links.len();
            let k = if at < len {
                at
            } else {
                len
            };
            n.links.insert(k, x);
            assert(n@.links =~= n0.links.insert(k as int, xv));
            let ghost nv = n@;
            proof {
                lemma_set_leaf(t0, np@, leaf_stand_in(), SpecColumnChild::MjNavbar(nv));
            }
            put_leaf(t, np, ColumnChild::MjNavbar(n));
            Some(path_with(np, Step::NavbarLink(k)))
        },
        Some(other) => {
            let ghost ov = other@;
            proof {
                lemma_set_leaf(t0, np@, leaf_stand_in(), ov);
            }
            put_leaf(t, np, other);
            None
        },
    }
}

/// Appends a link to the navbar at `p`.
pub fn insert_on_navbar(t: &mut Template, p: &[Step], x: MjNavbarLink) -> (r: Option<Vec<Step>>)
    ensures
        match into_navbar(old(t)@, p@, usize::MAX, x@) {
            Some((t2, q)) => r is Some && r->0@ == q && final(t)@ == t2,
            None => r is None && final(t)@ == old(t)@,
        },
{
    insert_into_navbar(t, p, usize::MAX, x)
}

/// Inserting a link right after the one at `p`.
pub open spec fn after_navbar_link(t: SpecTemplate, p: Seq<Step>, x: SpecMjNavbarLink) -> Option<(SpecTemplate, Seq<Step>)> {
    if p.len() >= 1 && p.last() is NavbarLink {
        match leaf_at(t, p.drop_last()) {
            Some(SpecColumnChild::MjNavbar(n)) => into_navbar(t, p.drop_last(), after(p.last()->NavbarLink_0, n.links.len()), x),
            _ => None,
        }
    } else {
        None
    }
}

/// Inserts a link right after the one at `p`.
pub fn insert_after_navbar_link(t: &mut Template, p: &[Step], x: MjNavbarLink) -> (r: Option<Vec<Step>>)
    ensures
        match after_navbar_link(old(t)@, p@, x@) {
            Some((t2, q)) => r is Some && r->0@ == q && final(t)@ == t2,
            None => r is None && final(t)@ == old(t)@,
        },
{
    let ghost t0 = t@;
    let n = p.len();
    if n == 0 {
        return None;
    }
    let last = p[n - 1];
    assert(last == p@.last());
    let i = match last {
        Step::NavbarLink(i) => i,
        _ => return None,
    };
    let parent = prefix(p, n - 1);
    assert(parent@ == p@.drop_last());
    let len = match take_leaf(t, parent.as_slice()) {
        None => return None,
        Some(leaf) => {
            let ghost lv = leaf@;
            let len = match &leaf {
                ColumnChild::MjNavbar(v) => Some(v.links.len()),
                _ => None,
            };
            proof {
                lemma_set_leaf(t0, parent@, leaf_stand_in(), lv);
            }
            put_leaf(t, parent.as_slice(), leaf);
            match len {
                Some(l) => l,
                None => return None,
            }
        },
    };
    insert_into_navbar(t, parent.as_slice(), after_exec(i, len), x)
}

/// Inserting an element into the accordion at `np` at position `at` (at most the
/// end): the template and the new element's path.
pub open spec fn into_accordion(t: SpecTemplate, np: Seq<Step>, at: usize, x: SpecMjAccordionElement) -> Option<(SpecTemplate, Seq<Step>)> {
    match leaf_at(t, np) {
        Some(SpecColumnChild::MjAccordion(n)) => {
            let k = capped(at, n.elements.len());
            Some((
                set_leaf(t, np, SpecColumnChild::MjAccordion(SpecMjAccordion { elements: n.elements.insert(k as int, x), ..n })),
                np.push(Step::AccordionEl(k)),
            ))
        },
        _ => None,
    }
}

fn insert_into_accordion(t: &mut Template, np: &[Step], at: usize, x: MjAccordionElement) -> (r: Option<Vec<Step>>)
    ensures
        match into_accordion(old(t)@, np@, at, x@) {
            Some((t2, q)) => r is Some && r->0@ == q && final(t)@ == t2,
            None => r is None && final(t)@ == old(t)@,
        },
{
    let ghost t0 = t@;
    let ghost xv = x@;
    match take_leaf(t, np) {
        None => None,
        Some(ColumnChild::MjAccordion(mut n)) => {
            let ghost n0 = n@;
            let len = n.elements.len();
            let k = if at < len {
                at
            } else {
                len
            };
            n.elements.insert(k, x);
            assert(n@.elements =~= n0.elements.insert(k as int, xv));
            let ghost nv = n@;
            proof {
                lemma_set_leaf(t0, np@, leaf_stand_in(), SpecColumnChild::MjAccordion(nv));
            }
            put_leaf(t, np, ColumnChild::MjAccordion(n));
            Some(path_with(np, Step::AccordionEl(k)))
        },
        Some(other) => {
            let ghost ov = other@;
            proof {
                lemma_set_leaf(t0, np@, leaf_stand_in(), ov);
            }
            put_leaf(t, np, other);
            None
        },
    }
}

/// Appends an element to the accordion at `p`.
pub fn insert_on_accordion(t: &mut Template, p: &[Step], x: MjAccordionElement) -> (r: Option<Vec<Step>>)
    ensures
        match into_accordion(old(t)@, p@, usize::MAX, x@) {
            Some((t2, q)) => r is Some && r->0@ == q && final(t)@ == t2,
            None => r is None && final(t)@ == old(t)@,
        },
{
    insert_into_accordion(t, p, usize::MAX, x)
}

/// Inserting an element right after the one at `p`.
pub open spec fn after_accordion_el(t: SpecTemplate, p: Seq<Step>, x: SpecMjAccordionElement) -> Option<(SpecTemplate, Seq<Step>)> {
    if p.len() >= 1 && p.last() is AccordionEl {
        match leaf_at(t, p.drop_last()) {
            Some(SpecColumnChild::MjAccordion(n)) => into_accordion(t, p.drop_last(), after(p.last()->AccordionEl_0, n.elements.len()), x),
            _ => None,
        }
    } else {
        None
    }
}

/// Inserts an element right after the one at `p`.
pub fn insert_after_accordion_el(t: &mut Template, p: &[Step], x: MjAccordionElement) -> (r: Option<Vec<Step>>)
    ensures
        match after_accordion_el(old(t)@, p@, x@) {
            Some((t2, q)) => r is Some && r->0@ == q && final(t)@ == t2,
            None => r is None && final(t)@ == old(t)@,
        },
{
    let ghost t0 = t@;
    let n = p.len();
    if n == 0 {
        return None;
    }
    let last = p[n - 1];
    assert(last == p@.last());
    let i = match last {
        Step::AccordionEl(i) => i,
        _ => return None,
    };
    let parent = prefix(p, n - 1);
    assert(parent@ == p@.drop_last());
    let len = match take_leaf(t, parent.as_slice()) {
        None => return None,
        Some(leaf) => {
            let ghost lv = leaf@;
            let len = match &leaf {
                ColumnChild::MjAccordion(v) => Some(v.elements.len()),
                _ => None,
            };
            proof {
                lemma_set_leaf(t0, parent@, leaf_stand_in(), lv);
            }
            put_leaf(t, parent.as_slice(), leaf);
            match len {
                Some(l) => l,
                None => return None,
            }
        },
    };
    insert_into_accordion(t, parent.as_slice(), after_exec(i, len), x)
}

/// Inserting an image into the carousel at `np` at position `at` (at most the
/// end): the template and the new image's path.
pub open spec fn into_carousel(t: SpecTemplate, np: Seq<Step>, at: usize, x: SpecMjCarouselImage) -> Option<(SpecTemplate, Seq<Step>)> {
    match leaf_at(t, np) {
        Some(SpecColumnChild::MjCarousel(n)) => {
            let k = capped(at, n.images.len());
            Some((
                set_leaf(t, np, SpecColumnChild::MjCarousel(SpecMjCarousel { images: n.images.insert(k as int, x), ..n })),
                np.push(Step::CarouselImg(k)),
            ))
        },
        _ => None,
    }
}

fn insert_into_carousel(t: &mut Template, np: &[Step], at: usize, x: MjCarouselImage) -> (r: Option<Vec<Step>>)
    ensures
        match into_carousel(old(t)@, np@, at, x@) {
            Some((t2, q)) => r is Some && r->0@ == q && final(t)@ == t2,
            None => r is None && final(t)@ == old(t)@,
        },
{
    let ghost t0 = t@;
    let ghost xv = x@;
    match take_leaf(t, np) {
        None => None,
        Some(ColumnChild::MjCarousel(mut n)) => {
            let ghost n0 = n@;
            let len = n.images.len();
            let k = if at < len {
                at
            } else {
                len
            };
            n.images.insert(k, x);
            assert(n@.images =~= n0.images.insert(k as int, xv));
            let ghost nv = n@;
            proof {
                lemma_set_leaf(t0, np@, leaf_stand_in(), SpecColumnChild::MjCarousel(nv));
            }
            put_leaf(t, np, ColumnChild::MjCarousel(n));
            Some(path_with(np, Step::CarouselImg(k)))
        },
        Some(other) => {
            let ghost ov = other@;
            proof {
                lemma_set_leaf(t0, np@, leaf_stand_in(), ov);
            }
            put_leaf(t, np, other);
            None
        },
    }
}

/// Appends an image to the carousel at `p`.
pub fn insert_on_carousel(t: &mut Template, p: &[Step], x: MjCarouselImage) -> (r: Option<Vec<Step>>)
    ensures
        match into_carousel(old(t)@, p@, usize::MAX, x@) {
            Some((t2, q)) => r is Some && r->0@ == q && final(t)@ == t2,
            None => r is None && final(t)@ == old(t)@,
        },
{
    insert_into_carousel(t, p, usize::MAX, x)
}

/// Inserting an image right after the one at `p`.
pub open spec fn after_carousel_img(t: SpecTemplate, p: Seq<Step>, x: SpecMjCarouselImage) -> Option<(SpecTemplate, Seq<Step>)> {
    if p.len() >= 1 && p.last() is CarouselImg {
        match leaf_at(t, p.drop_last()) {
            Some(SpecColumnChild::MjCarousel(n)) => into_carousel(t, p.drop_last(), after(p.last()->CarouselImg_0, n.images.len()), x),
            _ => None,
        }
    } else {
        None
    }
}

/// Inserts an image right after the one at `p`.
pub fn insert_after_carousel_img(t: &mut Template, p: &[Step], x: MjCarouselImage) -> (r: Option<Vec<Step>>)
    ensures
        match after_carousel_img(old(t)@, p@, x@) {
            Some((t2, q)) => r is Some && r->0@ == q && final(t)@ == t2,
            None => r is None && final(t)@ == old(t)@,
        },
{
    let ghost t0 = t@;
    let n = p.len();
    if n == 0 {
        return None;
    }
    let last = p[n - 1];
    assert(last == p@.last());
    let i = match last {
        Step::CarouselImg(i) => i,
        _ => return None,
    };
    let parent = prefix(p, n - 1);
    assert(parent@ == p@.drop_last());
    let len = match take_leaf(t, parent.as_slice()) {
        None => return None,
        Some(leaf) => {
            let ghost lv = leaf@;
            let len = match &leaf {
                ColumnChild::MjCarousel(v) => Some(v.images.len()),
                _ => None,
            };
            proof {
                lemma_set_leaf(t0, parent@, leaf_stand_in(), lv);
            }
            put_leaf(t, parent.as_slice(), leaf);
            match len {
                Some(l) => l,
                None => return None,
            }
        },
    };
    insert_into_carousel(t, parent.as_slice(), after_exec(i, len), x)
}

// ---------------------------------------------------------------------------
// Laws: a delete takes an insert back
// ---------------------------------------------------------------------------

/// Deleting below a node reached through wrappers changes just that node.
proof fn lemma_removed_in(n: SpecBodyNode, p: Seq<Step>, r: Seq<Step>, k: int, m2: SpecBodyNode)
    requires
        1 <= k <= p.len(),
        r.len() >= 1,
        node_in(n, p, k) is Some,
        removed_node(node_in(n, p, k)->0, r) == Some(m2),
    ensures
        removed_node(n, (p + r).skip(k)) == Some(set_in(n, p, k, m2)),
    decreases p.len() - k,
{
    let q = p + r;
    if k == p.len() {
        assert(q.skip(k) =~= r);
    } else {
        let w = n->MjWrapper_0;
        let j = p[k]->WrapperChild_0;
        lemma_removed_in(w.children[j as int], p, r, k + 1, m2);
        assert(q.skip(k).drop_first() =~= q.skip(k + 1));
        assert(q.skip(k)[0] == p[k]);
    }
}

/// Deleting a row below the node at `p` is setting that node to the node
/// without the row.
pub proof fn lemma_removed_below(t: SpecTemplate, p: Seq<Step>, r: Seq<Step>)
    requires
        node_at(t, p) is Some,
        r.len() >= 1,
        removed_node(node_at(t, p)->0, r) is Some,
    ensures
        removed(t, p + r) == Some(set_node_at(t, p, removed_node(node_at(t, p)->0, r)->0)),
{
    let q = p + r;
    let i = p[0]->BodyNode_0;
    let m2 = removed_node(node_at(t, p)->0, r)->0;
    lemma_removed_in(t.body.nodes[i as int], p, r, 1, m2);
    assert(q.drop_first() =~= q.skip(1));
    assert(q[0] == p[0]);
}

/// Inserting a body node and deleting the new row gives the template back.
pub proof fn law_delete_undoes_body_insert(t: SpecTemplate, at: usize, x: SpecBodyNode)
    ensures
        removed(body_inserted(t, at, x).0, body_inserted(t, at, x).1) == Some(t),
{
    let k = capped(at, t.body.nodes.len());
    assert(t.body.nodes.insert(k as int, x).remove(k as int) =~= t.body.nodes);
}

/// Inserting into a wrapper and deleting the new row gives the template
/// back.
pub proof fn law_delete_undoes_wrapper_insert(t: SpecTemplate, wp: Seq<Step>, at: usize, x: SpecBodyNode)
    requires
        into_wrapper(t, wp, at, x) is Some,
    ensures
        removed(into_wrapper(t, wp, at, x).unwrap().0, into_wrapper(t, wp, at, x).unwrap().1) == Some(t),
{
    let w = node_at(t, wp)->0->MjWrapper_0;
    let k = capped(at, w.children.len());
    let w2 = SpecBodyNode::MjWrapper(wrapper_inserted(w, at, x));
    let t2 = set_node_at(t, wp, w2);
    lemma_set_node_at(t, wp, w2, node_at(t, wp)->0);
    assert(w.children.insert(k as int, x).remove(k as int) =~= w.children);
    let r = seq![Step::WrapperChild(k)];
    assert(wp.push(Step::WrapperChild(k)) =~= wp + r);
    lemma_removed_below(t2, wp, r);
}

/// Inserting a component into a column and deleting the new row gives the
/// template back.
pub proof fn law_delete_undoes_column_insert(t: SpecTemplate, cp: Seq<Step>, at: usize, x: SpecColumnChild)
    requires
        into_column(t, cp, at, x) is Some,
    ensures
        removed(into_column(t, cp, at, x).unwrap().0, into_column(t, cp, at, x).unwrap().1) == Some(t),
{
    let (np, a) = col_addr(cp)->0;
    let s = node_at(t, np)->0->MjSection_0;
    let c = col_of(s, a)->0;
    let k = capped(at, c.components.len());
    let c2 = SpecMjColumn { components: c.components.insert(k as int, x), ..c };
    let s2 = set_col(s, a, c2);
    let t2 = set_node_at(t, np, SpecBodyNode::MjSection(s2));
    lemma_set_col(s, a, c2, c);
    lemma_set_node_at(t, np, SpecBodyNode::MjSection(s2), SpecBodyNode::MjSection(s));
    assert(c2.components.remove(k as int) =~= c.components);
    let r = match a {
        ColAddr::Direct(i) => seq![Step::SectionChild(i), Step::ColComp(k)],
        ColAddr::InGroup(j, i) => seq![Step::SectionChild(j), Step::GroupCol(i), Step::ColComp(k)],
    };
    assert(cp.push(Step::ColComp(k)) =~= np + r);
    match a {
        ColAddr::Direct(i) => {
            assert(r.drop_first() =~= seq![Step::ColComp(k)]);
        },
        ColAddr::InGroup(j, i) => {
            assert(r.drop_first() =~= seq![Step::GroupCol(i), Step::ColComp(k)]);
            assert(r.drop_first().drop_first() =~= seq![Step::ColComp(k)]);
        },
    }
    assert(removed_node(SpecBodyNode::MjSection(s2), r) == Some(SpecBodyNode::MjSection(set_col(s2, a, c))));
    lemma_removed_below(t2, np, r);
}

/// Inserting a child into a hero and deleting the new row gives the
/// template back.
pub proof fn law_delete_undoes_hero_insert(t: SpecTemplate, hp: Seq<Step>, at: usize, x: SpecColumnChild)
    requires
        into_hero(t, hp, at, x) is Some,
    ensures
        removed(into_hero(t, hp, at, x).unwrap().0, into_hero(t, hp, at, x).unwrap().1) == Some(t),
{
    let h = node_at(t, hp)->0->MjHero_0;
    let k = capped(at, h.children.len());
    let h2 = SpecBodyNode::MjHero(SpecMjHero { children: h.children.insert(k as int, x), ..h });
    let t2 = set_node_at(t, hp, h2);
    lemma_set_node_at(t, hp, h2, node_at(t, hp)->0);
    assert(h.children.insert(k as int, x).remove(k as int) =~= h.children);
    let r = seq![Step::HeroChild(k)];
    assert(hp.push(Step::HeroChild(k)) =~= hp + r);
    lemma_removed_below(t2, hp, r);
}

// ---------------------------------------------------------------------------
// Where an inserted item lands
// ---------------------------------------------------------------------------

/// Inserting after the top-level node `i` puts the new node at `i + 1`,
/// keeps every other node in order, and selects the new node.
pub proof fn law_insert_after_top_level_node(t: SpecTemplate, i: usize, x: SpecBodyNode)
    requires
        i < t.body.nodes.len() <= usize::MAX,
    ensures
        after_body_node(t, seq![Step::BodyNode(i)], x) == Some((
            with_nodes(t, t.body.nodes.insert(i + 1, x)),
            seq![Step::BodyNode((i + 1) as usize)],
        )),
{
    assert(seq![Step::BodyNode(i)].len() == 1);
    assert(capped(after(i, t.body.nodes.len()), t.body.nodes.len()) == i + 1);
}

/// Inserting after child `j` of a wrapper puts the new section or hero at
/// `j + 1` in that wrapper, keeps the other children in order, changes
/// nothing outside the wrapper, and selects the new child.
pub proof fn law_insert_after_wrapper_child(t: SpecTemplate, wp: Seq<Step>, j: usize, x: SpecBodyNode)
    requires
        (node_at(t, wp) matches Some(SpecBodyNode::MjWrapper(w)) && j < w.children.len() <= usize::MAX),
        wrappable(x),
    ensures
        ({
            let w = node_at(t, wp)->0->MjWrapper_0;
            after_body_node(t, wp.push(Step::WrapperChild(j)), x) == Some((
                set_node_at(t, wp, SpecBodyNode::MjWrapper(SpecMjWrapper { children: w.children.insert(j + 1, x), ..w })),
                wp.push(Step::WrapperChild((j + 1) as usize)),
            ))
        }),
{
    let p = wp.push(Step::WrapperChild(j));
    assert(p.drop_last() =~= wp);
    assert(p.len() != 1 || !(p[0] is BodyNode)) by {
        if p.len() == 1 {
            assert(wp.len() == 0);
            assert(node_at(t, wp) is None);
        }
    }
    let w = node_at(t, wp)->0->MjWrapper_0;
    assert(p.last() == Step::WrapperChild(j));
    assert(capped(after(j, w.children.len()), w.children.len()) == j + 1);
}

/// Inserting after component `i` of a column puts the new component at
/// `i + 1` in that column, keeps the others in order, changes nothing
/// outside the column, and selects the new component.
pub proof fn law_insert_after_column_component(t: SpecTemplate, cp: Seq<Step>, i: usize, x: SpecColumnChild)
    requires
        (column_at(t, cp) matches Some(c) && i < c.components.len() <= usize::MAX),
    ensures
        ({
            let c = column_at(t, cp)->0;
            after_leaf(t, cp.push(Step::ColComp(i)), x) == Some((
                with_column(t, cp, SpecMjColumn { components: c.components.insert(i + 1, x), ..c }),
                cp.push(Step::ColComp((i + 1) as usize)),
            ))
        }),
{
    let p = cp.push(Step::ColComp(i));
    assert(p.drop_last() =~= cp);
    assert(p.last() == Step::ColComp(i));
    let c = column_at(t, cp)->0;
    assert(capped(after(i, c.components.len()), c.components.len()) == i + 1);
}

/// Inserting after child `i` of a hero puts the new component at `i + 1` in
/// that hero, keeps the others in order, changes nothing outside the hero,
/// and selects the new child.
pub proof fn law_insert_after_hero_child(t: SpecTemplate, hp: Seq<Step>, i: usize, x: SpecColumnChild)
    requires
        (node_at(t, hp) matches Some(SpecBodyNode::MjHero(h)) && i < h.children.len() <= usize::MAX),
    ensures
        ({
            let h = node_at(t, hp)->0->MjHero_0;
            after_leaf(t, hp.push(Step::HeroChild(i)), x) == Some((
                set_node_at(t, hp, SpecBodyNode::MjHero(SpecMjHero { children: h.children.insert(i + 1, x), ..h })),
                hp.push(Step::HeroChild((i + 1) as usize)),
            ))
        }),
{
    let p = hp.push(Step::HeroChild(i));
    assert(p.drop_last() =~= hp);
    assert(p.last() == Step::HeroChild(i));
    let h = node_at(t, hp)->0->MjHero_0;
    assert(capped(after(i, h.children.len()), h.children.len()) == i + 1);
}

/// Inserting after link `i` of a navbar puts the new link at `i + 1`,
/// keeps the others in order, changes nothing outside a navbar, and selects
/// the new link.
pub proof fn law_insert_after_navbar_link(t: SpecTemplate, np: Seq<Step>, i: usize, x: SpecMjNavbarLink)
    requires
        leaf_at(t, np) is Some,
        leaf_at(t, np)->0 is MjNavbar,
        i < leaf_at(t, np)->0->MjNavbar_0.links.len() <= usize::MAX,
    ensures
        ({
            let n = leaf_at(t, np)->0->MjNavbar_0;
            after_navbar_link(t, np.push(Step::NavbarLink(i)), x) == Some((
                set_leaf(t, np, SpecColumnChild::MjNavbar(SpecMjNavbar { links: n.links.insert(i + 1, x), ..n })),
                np.push(Step::NavbarLink((i + 1) as usize)),
            ))
        }),
{
    let p = np.push(Step::NavbarLink(i));
    assert(p.drop_last() =~= np);
    assert(p.last() == Step::NavbarLink(i));
    let n = leaf_at(t, np)->0->MjNavbar_0;
    assert(capped(after(i, n.links.len()), n.links.len()) == i + 1);
}

/// Adding link to a navbar appends it after the others, changes nothing
/// outside a navbar, and selects it.
pub proof fn law_append_navbar_link(t: SpecTemplate, np: Seq<Step>, x: SpecMjNavbarLink)
    requires
        leaf_at(t, np) is Some,
        leaf_at(t, np)->0 is MjNavbar,
        leaf_at(t, np)->0->MjNavbar_0.links.len() < usize::MAX,
    ensures
        ({
            let n = leaf_at(t, np)->0->MjNavbar_0;
            into_navbar(t, np, usize::MAX, x) == Some((
                set_leaf(t, np, SpecColumnChild::MjNavbar(SpecMjNavbar { links: n.links.push(x), ..n })),
                np.push(Step::NavbarLink(n.links.len() as usize)),
            ))
        }),
{
    let n = leaf_at(t, np)->0->MjNavbar_0;
    assert(n.links.insert(n.links.len() as int, x) =~= n.links.push(x));
}

/// Inserting after element `i` of an accordion puts the new element at `i + 1`,
/// keeps the others in order, changes nothing outside an accordion, and selects
/// the new element.
pub proof fn law_insert_after_accordion_element(t: SpecTemplate, np: Seq<Step>, i: usize, x: SpecMjAccordionElement)
    requires
        leaf_at(t, np) is Some,
        leaf_at(t, np)->0 is MjAccordion,
        i < leaf_at(t, np)->0->MjAccordion_0.elements.len() <= usize::MAX,
    ensures
        ({
            let n = leaf_at(t, np)->0->MjAccordion_0;
            after_accordion_el(t, np.push(Step::AccordionEl(i)), x) == Some((
                set_leaf(t, np, SpecColumnChild::MjAccordion(SpecMjAccordion { elements: n.elements.insert(i + 1, x), ..n })),
                np.push(Step::AccordionEl((i + 1) as usize)),
            ))
        }),
{
    let p = np.push(Step::AccordionEl(i));
    assert(p.drop_last() =~= np);
    assert(p.last() == Step::AccordionEl(i));
    let n = leaf_at(t, np)->0->MjAccordion_0;
    assert(capped(after(i, n.elements.len()), n.elements.len()) == i + 1);
}

/// Adding element to an accordion appends it after the others, changes nothing
/// outside an accordion, and selects it.
pub proof fn law_append_accordion_element(t: SpecTemplate, np: Seq<Step>, x: SpecMjAccordionElement)
    requires
        leaf_at(t, np) is Some,
        leaf_at(t, np)->0 is MjAccordion,
        leaf_at(t, np)->0->MjAccordion_0.elements.len() < usize::MAX,
    ensures
        ({
            let n = leaf_at(t, np)->0->MjAccordion_0;
            into_accordion(t, np, usize::MAX, x) == Some((
                set_leaf(t, np, SpecColumnChild::MjAccordion(SpecMjAccordion { elements: n.elements.push(x), ..n })),
                np.push(Step::AccordionEl(n.elements.len() as usize)),
            ))
        }),
{
    let n = leaf_at(t, np)->0->MjAccordion_0;
    assert(n.elements.insert(n.elements.len() as int, x) =~= n.elements.push(x));
}

/// Inserting after image `i` of a carousel puts the new image at `i + 1`,
/// keeps the others in order, changes nothing outside a carousel, and selects
/// the new image.
pub proof fn law_insert_after_carousel_image(t: SpecTemplate, np: Seq<Step>, i: usize, x: SpecMjCarouselImage)
    requires
        leaf_at(t, np) is Some,
        leaf_at(t, np)->0 is MjCarousel,
        i < leaf_at(t, np)->0->MjCarousel_0.images.len() <= usize::MAX,
    ensures
        ({
            let n = leaf_at(t, np)->0->MjCarousel_0;
            after_carousel_img(t, np.push(Step::CarouselImg(i)), x) == Some((
                set_leaf(t, np, SpecColumnChild::MjCarousel(SpecMjCarousel { images: n.images.insert(i + 1, x), ..n })),
                np.push(Step::CarouselImg((i + 1) as usize)),
            ))
        }),
{
    let p = np.push(Step::CarouselImg(i));
    assert(p.drop_last() =~= np);
    assert(p.last() == Step::CarouselImg(i));
    let n = leaf_at(t, np)->0->MjCarousel_0;
    assert(capped(after(i, n.images.len()), n.images.len()) == i + 1);
}

/// Adding image to a carousel appends it after the others, changes nothing
/// outside a carousel, and selects it.
pub proof fn law_append_carousel_image(t: SpecTemplate, np: Seq<Step>, x: SpecMjCarouselImage)
    requires
        leaf_at(t, np) is Some,
        leaf_at(t, np)->0 is MjCarousel,
        leaf_at(t, np)->0->MjCarousel_0.images.len() < usize::MAX,
    ensures
        ({
            let n = leaf_at(t, np)->0->MjCarousel_0;
            into_carousel(t, np, usize::MAX, x) == Some((
                set_leaf(t, np, SpecColumnChild::MjCarousel(SpecMjCarousel { images: n.images.push(x), ..n })),
                np.push(Step::CarouselImg(n.images.len() as usize)),
            ))
        }),
{
    let n = leaf_at(t, np)->0->MjCarousel_0;
    assert(n.images.insert(n.images.len() as int, x) =~= n.images.push(x));
}

/// Adding a section or hero to a wrapper appends it after the other
/// children, changes nothing outside the wrapper, and selects it.
pub proof fn law_append_wrapper_child(t: SpecTemplate, wp: Seq<Step>, x: SpecBodyNode)
    requires
        node_at(t, wp) is Some,
        node_at(t, wp)->0 is MjWrapper,
        node_at(t, wp)->0->MjWrapper_0.children.len() < usize::MAX,
        wrappable(x),
    ensures
        ({
            let w = node_at(t, wp)->0->MjWrapper_0;
            into_wrapper(t, wp, usize::MAX, x) == Some((
                set_node_at(t, wp, SpecBodyNode::MjWrapper(SpecMjWrapper { children: w.children.push(x), ..w })),
                wp.push(Step::WrapperChild(w.children.len() as usize)),
            ))
        }),
{
    let w = node_at(t, wp)->0->MjWrapper_0;
    assert(w.children.insert(w.children.len() as int, x) =~= w.children.push(x));
}

/// Adding a component to a column appends it after the others, changes
/// nothing outside the column, and selects it.
pub proof fn law_append_column_component(t: SpecTemplate, cp: Seq<Step>, x: SpecColumnChild)
    requires
        column_at(t, cp) is Some,
        column_at(t, cp)->0.components.len() < usize::MAX,
    ensures
        ({
            let c = column_at(t, cp)->0;
            into_column(t, cp, usize::MAX, x) == Some((
                with_column(t, cp, SpecMjColumn { components: c.components.push(x), ..c }),
                cp.push(Step::ColComp(c.components.len() as usize)),
            ))
        }),
{
    let c = column_at(t, cp)->0;
    assert(c.components.insert(c.components.len() as int, x) =~= c.components.push(x));
}

/// Adding a component to a hero appends it after the other children,
/// changes nothing outside the hero, and selects it.
pub proof fn law_append_hero_child(t: SpecTemplate, hp: Seq<Step>, x: SpecColumnChild)
    requires
        node_at(t, hp) is Some,
        node_at(t, hp)->0 is MjHero,
        node_at(t, hp)->0->MjHero_0.children.len() < usize::MAX,
    ensures
        ({
            let h = node_at(t, hp)->0->MjHero_0;
            into_hero(t, hp, usize::MAX, x) == Some((
                set_node_at(t, hp, SpecBodyNode::MjHero(SpecMjHero { children: h.children.push(x), ..h })),
                hp.push(Step::HeroChild(h.children.len() as usize)),
            ))
        }),
{
    let h = node_at(t, hp)->0->MjHero_0;
    assert(h.children.insert(h.children.len() as int, x) =~= h.children.push(x));
}

/// Adding a column after child `i` of a section puts an empty column at
/// `i + 1`, keeps the children before it in place and those after it one
/// place later (nothing but column widths changes in them), keeps the rest
/// of the section and of the template, and selects the new column.
pub proof fn law_column_after_section_child(t: SpecTemplate, sp: Seq<Step>, i: usize)
    requires
        node_at(t, sp) is Some,
        node_at(t, sp)->0 is MjSection,
        i < node_at(t, sp)->0->MjSection_0.children.len() < usize::MAX,
    ensures
        ({
            let s = node_at(t, sp)->0->MjSection_0;
            let n = s.children.len();
            &&& column_after(t, sp.push(Step::SectionChild(i))) matches Some((t2, q))
            &&& node_at(t2, sp) matches Some(SpecBodyNode::MjSection(s2))
            &&& t2 == set_node_at(t, sp, SpecBodyNode::MjSection(s2))
            &&& s2.children.len() == n + 1
            &&& forall|k: int| 0 <= k <= i ==> same_but_width(#[trigger] s2.children[k], s.children[k])
            &&& same_but_width(s2.children[i + 1], SpecSectionChild::MjColumn(empty_column_view()))
            &&& forall|k: int| i + 1 < k <= n ==> same_but_width(#[trigger] s2.children[k], s.children[k - 1])
            &&& s2.background_color == s.background_color
            &&& s2.padding == s.padding
            &&& s2.full_width == s.full_width
            &&& q == sp.push(Step::SectionChild((i + 1) as usize))
        }),
{
    let p = sp.push(Step::SectionChild(i));
    assert(p.drop_last() =~= sp);
    assert(p.last() == Step::SectionChild(i));
    let s = node_at(t, sp)->0->MjSection_0;
    let r = s.children.insert(i + 1, SpecSectionChild::MjColumn(empty_column_view()));
    let s2 = SpecMjSection { children: rebalanced_children(r), ..s };
    lemma_set_node_at(t, sp, SpecBodyNode::MjSection(s2), SpecBodyNode::MjSection(s2));
    assert forall|k: int| 0 <= k < r.len() implies same_but_width(#[trigger] s2.children[k], r[k]) by {
        match r[k] {
            SpecSectionChild::MjColumn(c) => {},
            SpecSectionChild::MjGroup(g) => {},
        }
    }
    assert forall|k: int| 0 <= k <= i implies same_but_width(#[trigger] s2.children[k], s.children[k]) by {
        assert(r[k] == s.children[k]);
    }
    assert(same_but_width(s2.children[i + 1], r[i + 1]));
    assert forall|k: int| i + 1 < k <= s.children.len() implies same_but_width(#[trigger] s2.children[k], s.children[k - 1]) by {
        assert(r[k] == s.children[k - 1]);
    }
}

/// Adding a column after column `i` of a group puts an empty column at
/// `i + 1`, keeps the columns before it in place and those after it one
/// place later (nothing but their widths changes), keeps the rest of the
/// group, and selects the new column.
pub proof fn law_column_after_group_column(t: SpecTemplate, gp: Seq<Step>, i: usize)
    requires
        group_at_view(t, gp) is Some,
        i < group_at_view(t, gp)->0.children.len() < usize::MAX,
    ensures
        ({
            let g = group_at_view(t, gp)->0;
            let n = g.children.len();
            &&& column_after(t, gp.push(Step::GroupCol(i))) matches Some((t2, q))
            &&& group_at_view(t2, gp) matches Some(g2)
            &&& g2.children.len() == n + 1
            &&& forall|k: int| 0 <= k <= i ==> same_column_but_width(#[trigger] g2.children[k], g.children[k])
            &&& same_column_but_width(g2.children[i + 1], empty_column_view())
            &&& forall|k: int| i + 1 < k <= n ==> same_column_but_width(#[trigger] g2.children[k], g.children[k - 1])
            &&& g2.width == g.width
            &&& g2.background_color == g.background_color
            &&& q == gp.push(Step::GroupCol((i + 1) as usize))
        }),
{
    let p = gp.push(Step::GroupCol(i));
    assert(p.drop_last() =~= gp);
    assert(p.last() == Step::GroupCol(i));
    let g = group_at_view(t, gp)->0;
    let sp = gp.drop_last();
    let j = gp.last()->SectionChild_0;
    let s = node_at(t, sp)->0->MjSection_0;
    let r = g.children.insert(i + 1, empty_column_view());
    let g2 = SpecMjGroup { children: rebalanced_columns(r), ..g };
    let s2 = SpecMjSection { children: s.children.update(j as int, SpecSectionChild::MjGroup(g2)), ..s };
    lemma_set_node_at(t, sp, SpecBodyNode::MjSection(s2), SpecBodyNode::MjSection(s2));
    let t2 = set_node_at(t, sp, SpecBodyNode::MjSection(s2));
    assert(group_at_view(t2, gp) == Some(g2));
    assert forall|k: int| 0 <= k <= i implies same_column_but_width(#[trigger] g2.children[k], g.children[k]) by {
        assert(r[k] == g.children[k]);
    }
    assert(r[i + 1] == empty_column_view());
    assert forall|k: int| i + 1 < k <= g.children.len() implies same_column_but_width(#[trigger] g2.children[k], g.children[k - 1]) by {
        assert(r[k] == g.children[k - 1]);
    }
}

/// Adding a component to a section whose last child is a column appends it
/// to that column, keeps everything else, and selects it; an empty section
/// gets one full-width column holding just the component.
pub proof fn law_leaf_into_section(t: SpecTemplate, sp: Seq<Step>, x: SpecColumnChild)
    requires
        node_at(t, sp) is Some,
        node_at(t, sp)->0 is MjSection,
        node_at(t, sp)->0->MjSection_0.children.len() < usize::MAX,
    ensures
        ({
            let s = node_at(t, sp)->0->MjSection_0;
            let n = s.children.len();
            &&& n == 0 ==> leaf_in_section(t, sp, x) == Some((
                set_node_at(t, sp, SpecBodyNode::MjSection(SpecMjSection {
                    children: seq![SpecSectionChild::MjColumn(SpecMjColumn { width: Some("100%"@), components: seq![x], ..empty_column_view() })],
                    ..s
                })),
                sp.push(Step::SectionChild(0)).push(Step::ColComp(0)),
            ))
            &&& (n > 0 && s.children[n - 1] is MjColumn) ==> {
                let c = s.children[n - 1]->MjColumn_0;
                leaf_in_section(t, sp, x) == Some((
                    set_node_at(t, sp, SpecBodyNode::MjSection(SpecMjSection {
                        children: s.children.update(n - 1, SpecSectionChild::MjColumn(SpecMjColumn { components: c.components.push(x), ..c })),
                        ..s
                    })),
                    sp.push(Step::SectionChild((n - 1) as usize)).push(Step::ColComp(c.components.len() as usize)),
                ))
            }
        }),
{
}

} // verus!
