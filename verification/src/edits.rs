//! Structural edits on the body tree: delete, duplicate, reorder, and the
//! column operations (add, remove, rebalance).
use vstd::prelude::*;

use crate::model::{
    lemma_seq_view_body_node, lemma_seq_view_body_node_insert, lemma_seq_view_body_node_remove,
    lemma_seq_view_body_node_update, seq_view_body_node, wrapper_view, BodyNode, MjColumn,
    MjGroup, MjHero, MjSection, MjWrapper, SectionChild, SpecBodyNode, SpecMjColumn, SpecMjGroup, SpecMjHero,
    SpecMjSection, SpecMjWrapper, SpecSectionChild, SpecTemplate, Template,
};
use crate::nav::with_nodes;
use crate::tree::Step;

verus! {

broadcast use lemma_seq_view_body_node;

// ---------------------------------------------------------------------------
// Delete
// ---------------------------------------------------------------------------

/// A column without the component that `rest` (a single `ColComp`) addresses.
pub open spec fn removed_column(c: SpecMjColumn, rest: Seq<Step>) -> Option<SpecMjColumn> {
    if rest.len() == 1 {
        match rest[0] {
            Step::ColComp(i) => if i < c.components.len() {
                Some(SpecMjColumn { components: c.components.remove(i as int), ..c })
            } else {
                None
            },
            _ => None,
        }
    } else {
        None
    }
}

/// A group without the column, or the column's component, that `rest` addresses.
pub open spec fn removed_group(g: SpecMjGroup, rest: Seq<Step>) -> Option<SpecMjGroup> {
    if rest.len() >= 1 {
        match rest[0] {
            Step::GroupCol(i) => if i < g.children.len() {
                if rest.len() == 1 {
                    Some(SpecMjGroup { children: g.children.remove(i as int), ..g })
                } else {
                    match removed_column(g.children[i as int], rest.drop_first()) {
                        Some(c) => Some(SpecMjGroup { children: g.children.update(i as int, c), ..g }),
                        None => None,
                    }
                }
            } else {
                None
            },
            _ => None,
        }
    } else {
        None
    }
}

/// A body node without the descendant that `rest` addresses.
pub open spec fn removed_node(n: SpecBodyNode, rest: Seq<Step>) -> Option<SpecBodyNode>
    decreases rest.len(),
{
    if rest.len() == 0 {
        None
    } else {
        match (n, rest[0]) {
            (SpecBodyNode::MjWrapper(w), Step::WrapperChild(j)) => if j < w.children.len() {
                if rest.len() == 1 {
                    Some(SpecBodyNode::MjWrapper(SpecMjWrapper { children: w.children.remove(j as int), ..w }))
                } else {
                    match removed_node(w.children[j as int], rest.drop_first()) {
                        Some(c) => Some(
                            SpecBodyNode::MjWrapper(SpecMjWrapper { children: w.children.update(j as int, c), ..w }),
                        ),
                        None => None,
                    }
                }
            } else {
                None
            },
            (SpecBodyNode::MjSection(s), Step::SectionChild(j)) => if j < s.children.len() {
                if rest.len() == 1 {
                    Some(SpecBodyNode::MjSection(SpecMjSection { children: s.children.remove(j as int), ..s }))
                } else {
                    match s.children[j as int] {
                        SpecSectionChild::MjColumn(c) => match removed_column(c, rest.drop_first()) {
                            Some(c2) => Some(
                                SpecBodyNode::MjSection(
                                    SpecMjSection {
                                        children: s.children.update(j as int, SpecSectionChild::MjColumn(c2)),
                                        ..s
                                    },
                                ),
                            ),
                            None => None,
                        },
                        SpecSectionChild::MjGroup(g) => match removed_group(g, rest.drop_first()) {
                            Some(g2) => Some(
                                SpecBodyNode::MjSection(
                                    SpecMjSection {
                                        children: s.children.update(j as int, SpecSectionChild::MjGroup(g2)),
                                        ..s
                                    },
                                ),
                            ),
                            None => None,
                        },
                    }
                }
            } else {
                None
            },
            (SpecBodyNode::MjHero(h), Step::HeroChild(j)) => if rest.len() == 1 && j < h.children.len() {
                Some(SpecBodyNode::MjHero(SpecMjHero { children: h.children.remove(j as int), ..h }))
            } else {
                None
            },
            _ => None,
        }
    }
}

/// The template without the row that `p` addresses, or `None` when `p`
/// addresses no deletable row.
pub open spec fn removed(t: SpecTemplate, p: Seq<Step>) -> Option<SpecTemplate> {
    if p.len() >= 1 {
        match p[0] {
            Step::BodyNode(i) => if i < t.body.nodes.len() {
                if p.len() == 1 {
                    Some(with_nodes(t, t.body.nodes.remove(i as int)))
                } else {
                    match removed_node(t.body.nodes[i as int], p.drop_first()) {
                        Some(n) => Some(with_nodes(t, t.body.nodes.update(i as int, n))),
                        None => None,
                    }
                }
            } else {
                None
            },
            _ => None,
        }
    } else {
        None
    }
}

fn remove_from_column(c: MjColumn, p: &[Step], k: usize) -> (r: (MjColumn, bool))
    requires
        k <= p.len(),
    ensures
        match removed_column(c@, p@.skip(k as int)) {
            Some(c2) => r.1 && r.0@ == c2,
            None => !r.1 && r.0@ == c@,
        },
{
    let mut c = c;
    if k < p.len() && p.len() - k == 1 {
        if let Step::ColComp(i) = p[k] {
            if i < c.components.len() {
                let ghost old_c = c@;
                c.components.remove(i);
                assert(c@.components =~= old_c.components.remove(i as int));
                return (c, true);
            }
        }
    }
    (c, false)
}

fn remove_from_group(g: MjGroup, p: &[Step], k: usize) -> (r: (MjGroup, bool))
    requires
        k <= p.len(),
    ensures
        match removed_group(g@, p@.skip(k as int)) {
            Some(g2) => r.1 && r.0@ == g2,
            None => !r.1 && r.0@ == g@,
        },
{
    let mut g = g;
    if k < p.len() {
        if let Step::GroupCol(i) = p[k] {
            if i < g.children.len() {
                let ghost old_g = g@;
                if k + 1 == p.len() {
                    g.children.remove(i);
                    assert(g@.children =~= old_g.children.remove(i as int));
                    return (g, true);
                }
                let c = g.children.remove(i);
                assert(p@.skip(k as int).drop_first() =~= p@.skip(k + 1));
                let (c2, ok) = remove_from_column(c, p, k + 1);
                g.children.insert(i, c2);
                assert(g@.children =~= old_g.children.update(i as int, c2@));
                if !ok {
                    assert(old_g.children.update(i as int, c@) =~= old_g.children);
                }
                return (g, ok);
            }
        }
    }
    (g, false)
}

fn remove_in_wrapper(w: MjWrapper, p: &[Step], k: usize) -> (r: (BodyNode, bool))
    requires
        k < p.len(),
    ensures
        match removed_node(SpecBodyNode::MjWrapper(wrapper_view(w)), p@.skip(k as int)) {
            Some(n2) => r.1 && r.0@ == n2,
            None => !r.1 && r.0@ == SpecBodyNode::MjWrapper(wrapper_view(w)),
        },
    decreases p.len() - k, 1int,
{
    let mut w = w;
    let ghost old_w = wrapper_view(w);
    assert(p@.skip(k as int).drop_first() =~= p@.skip(k + 1));
    if let Step::WrapperChild(j) = p[k] {
        if j < w.children.len() {
            let ghost old_children = w.children@;
            if p.len() - k == 1 {
                w.children.remove(j);
                proof {
                    lemma_seq_view_body_node_remove(old_children, j as int);
                }
                assert(wrapper_view(w) == SpecMjWrapper { children: old_w.children.remove(j as int), ..old_w });
                return (BodyNode::MjWrapper(w), true);
            }
            let c = w.children.remove(j);
            let (c2, ok) = remove_from_body_node(c, p, k + 1);
            w.children.insert(j, c2);
            proof {
                assert(w.children@ =~= old_children.update(j as int, c2));
                lemma_seq_view_body_node_update(old_children, j as int, c2);
                assert(old_w.children.update(j as int, old_w.children[j as int]) =~= old_w.children);
            }
            assert(wrapper_view(w) == SpecMjWrapper { children: old_w.children.update(j as int, c2@), ..old_w });
            return (BodyNode::MjWrapper(w), ok);
        }
    }
    assert(wrapper_view(w).children == seq_view_body_node(w.children@));
    (BodyNode::MjWrapper(w), false)
}

fn remove_in_section(s: MjSection, p: &[Step], k: usize) -> (r: (BodyNode, bool))
    requires
        k < p.len(),
    ensures
        match removed_node(SpecBodyNode::MjSection(s@), p@.skip(k as int)) {
            Some(n2) => r.1 && r.0@ == n2,
            None => !r.1 && r.0@ == SpecBodyNode::MjSection(s@),
        },
{
    let mut s = s;
    let ghost old_s = s@;
    assert(p@.skip(k as int).drop_first() =~= p@.skip(k + 1));
    if let Step::SectionChild(j) = p[k] {
        if j < s.children.len() {
            if p.len() - k == 1 {
                s.children.remove(j);
                assert(s@.children =~= old_s.children.remove(j as int));
                return (BodyNode::MjSection(s), true);
            }
            let child = s.children.remove(j);
            match child {
                SectionChild::MjColumn(c) => {
                    let (c2, ok) = remove_from_column(c, p, k + 1);
                    s.children.insert(j, SectionChild::MjColumn(c2));
                    assert(s@.children =~= old_s.children.update(j as int, SpecSectionChild::MjColumn(c2@)));
                    if !ok {
                        assert(old_s.children.update(j as int, old_s.children[j as int]) =~= old_s.children);
                    }
                    return (BodyNode::MjSection(s), ok);
                },
                SectionChild::MjGroup(g) => {
                    let (g2, ok) = remove_from_group(g, p, k + 1);
                    s.children.insert(j, SectionChild::MjGroup(g2));
                    assert(s@.children =~= old_s.children.update(j as int, SpecSectionChild::MjGroup(g2@)));
                    if !ok {
                        assert(old_s.children.update(j as int, old_s.children[j as int]) =~= old_s.children);
                    }
                    return (BodyNode::MjSection(s), ok);
                },
            }
        }
    }
    (BodyNode::MjSection(s), false)
}

fn remove_in_hero(h: MjHero, p: &[Step], k: usize) -> (r: (BodyNode, bool))
    requires
        k < p.len(),
    ensures
        match removed_node(SpecBodyNode::MjHero(h@), p@.skip(k as int)) {
            Some(n2) => r.1 && r.0@ == n2,
            None => !r.1 && r.0@ == SpecBodyNode::MjHero(h@),
        },
{
    let mut h = h;
    let ghost old_h = h@;
    if let Step::HeroChild(j) = p[k] {
        if p.len() - k == 1 && j < h.children.len() {
            h.children.remove(j);
            assert(h@.children =~= old_h.children.remove(j as int));
            return (BodyNode::MjHero(h), true);
        }
    }
    (BodyNode::MjHero(h), false)
}

fn remove_from_body_node(n: BodyNode, p: &[Step], k: usize) -> (r: (BodyNode, bool))
    requires
        k <= p.len(),
    ensures
        match removed_node(n@, p@.skip(k as int)) {
            Some(n2) => r.1 && r.0@ == n2,
            None => !r.1 && r.0@ == n@,
        },
    decreases p.len() - k, 2int,
{
    if k >= p.len() {
        return (n, false);
    }
    match n {
        BodyNode::MjWrapper(w) => remove_in_wrapper(w, p, k),
        BodyNode::MjSection(s) => remove_in_section(s, p, k),
        BodyNode::MjHero(h) => remove_in_hero(h, p, k),
        other => (other, false),
    }
}

/// Deletes the row that `path` addresses; `false` (and no change) when the
/// path addresses no deletable row.
pub fn remove_path(t: &mut Template, path: &[Step]) -> (ok: bool)
    ensures
        match removed(old(t)@, path@) {
            Some(t2) => ok && final(t)@ == t2,
            None => !ok && final(t)@ == old(t)@,
        },
{
    if path.len() == 0 {
        return false;
    }
    if let Step::BodyNode(i) = path[0] {
        if i < t.body.nodes.len() {
            let ghost old_nodes = t.body.nodes@;
            let ghost old_view = seq_view_body_node(old_nodes);
            if path.len() == 1 {
                t.body.nodes.remove(i);
                proof {
                    lemma_seq_view_body_node_remove(old_nodes, i as int);
                }
                return true;
            }
            let n = t.body.nodes.remove(i);
            assert(path@.drop_first() =~= path@.skip(1));
            let (n2, ok) = remove_from_body_node(n, path, 1);
            t.body.nodes.insert(i, n2);
            proof {
                assert(t.body.nodes@ =~= old_nodes.update(i as int, n2));
                lemma_seq_view_body_node_update(old_nodes, i as int, n2);
                assert(old_view.update(i as int, old_view[i as int]) =~= old_view);
            }
            return ok;
        }
    }
    false
}

// ---------------------------------------------------------------------------
// Duplicate
// ---------------------------------------------------------------------------

/// A column with the component that `rest` addresses copied right after it,
/// and the path (relative to the column) of the copy.
pub open spec fn duplicated_column(c: SpecMjColumn, rest: Seq<Step>) -> Option<(SpecMjColumn, Seq<Step>)> {
    if rest.len() == 1 {
        match rest[0] {
            Step::ColComp(i) => if i < c.components.len() && i < usize::MAX {
                Some((
                    SpecMjColumn {
                        components: c.components.insert(i + 1, c.components[i as int]),
                        ..c
                    },
                    seq![Step::ColComp((i + 1) as usize)],
                ))
            } else {
                None
            },
            _ => None,
        }
    } else {
        None
    }
}

/// A group with the addressed column (or component) copied right after it.
pub open spec fn duplicated_group(g: SpecMjGroup, rest: Seq<Step>) -> Option<(SpecMjGroup, Seq<Step>)> {
    if rest.len() >= 1 {
        match rest[0] {
            Step::GroupCol(i) => if i < g.children.len() {
                if rest.len() == 1 && i < usize::MAX {
                    Some((
                        SpecMjGroup { children: g.children.insert(i + 1, g.children[i as int]), ..g },
                        seq![Step::GroupCol((i + 1) as usize)],
                    ))
                } else {
                    match duplicated_column(g.children[i as int], rest.drop_first()) {
                        Some((c, r)) => Some((
                            SpecMjGroup { children: g.children.update(i as int, c), ..g },
                            seq![Step::GroupCol(i)] + r,
                        )),
                        None => None,
                    }
                }
            } else {
                None
            },
            _ => None,
        }
    } else {
        None
    }
}

/// A body node with the addressed descendant copied right after it.
pub open spec fn duplicated_node(n: SpecBodyNode, rest: Seq<Step>) -> Option<(SpecBodyNode, Seq<Step>)>
    decreases rest.len(),
{
    if rest.len() == 0 {
        None
    } else {
        match (n, rest[0]) {
            (SpecBodyNode::MjWrapper(w), Step::WrapperChild(j)) => if j < w.children.len() {
                if rest.len() == 1 && j < usize::MAX {
                    Some((
                        SpecBodyNode::MjWrapper(
                            SpecMjWrapper { children: w.children.insert(j + 1, w.children[j as int]), ..w },
                        ),
                        seq![Step::WrapperChild((j + 1) as usize)],
                    ))
                } else {
                    match duplicated_node(w.children[j as int], rest.drop_first()) {
                        Some((c, r)) => Some((
                            SpecBodyNode::MjWrapper(SpecMjWrapper { children: w.children.update(j as int, c), ..w }),
                            seq![Step::WrapperChild(j)] + r,
                        )),
                        None => None,
                    }
                }
            } else {
                None
            },
            (SpecBodyNode::MjSection(s), Step::SectionChild(j)) => if j < s.children.len() {
                if rest.len() == 1 && j < usize::MAX {
                    Some((
                        SpecBodyNode::MjSection(
                            SpecMjSection { children: s.children.insert(j + 1, s.children[j as int]), ..s },
                        ),
                        seq![Step::SectionChild((j + 1) as usize)],
                    ))
                } else {
                    match s.children[j as int] {
                        SpecSectionChild::MjColumn(c) => match duplicated_column(c, rest.drop_first()) {
                            Some((c2, r)) => Some((
                                SpecBodyNode::MjSection(
                                    SpecMjSection {
                                        children: s.children.update(j as int, SpecSectionChild::MjColumn(c2)),
                                        ..s
                                    },
                                ),
                                seq![Step::SectionChild(j)] + r,
                            )),
                            None => None,
                        },
                        SpecSectionChild::MjGroup(g) => match duplicated_group(g, rest.drop_first()) {
                            Some((g2, r)) => Some((
                                SpecBodyNode::MjSection(
                                    SpecMjSection {
                                        children: s.children.update(j as int, SpecSectionChild::MjGroup(g2)),
                                        ..s
                                    },
                                ),
                                seq![Step::SectionChild(j)] + r,
                            )),
                            None => None,
                        },
                    }
                }
            } else {
                None
            },
            (SpecBodyNode::MjHero(h), Step::HeroChild(j)) => if rest.len() == 1 && j < h.children.len() && j < usize::MAX {
                Some((
                    SpecBodyNode::MjHero(
                        SpecMjHero { children: h.children.insert(j + 1, h.children[j as int]), ..h },
                    ),
                    seq![Step::HeroChild((j + 1) as usize)],
                ))
            } else {
                None
            },
            _ => None,
        }
    }
}

/// The template with the row at `p` copied right after itself, and the path
/// of the copy; `None` when `p` addresses no row that can be copied.
pub open spec fn duplicated(t: SpecTemplate, p: Seq<Step>) -> Option<(SpecTemplate, Seq<Step>)> {
    if p.len() >= 1 {
        match p[0] {
            Step::BodyNode(i) => if i < t.body.nodes.len() {
                if p.len() == 1 && i < usize::MAX {
                    Some((
                        with_nodes(t, t.body.nodes.insert(i + 1, t.body.nodes[i as int])),
                        seq![Step::BodyNode((i + 1) as usize)],
                    ))
                } else {
                    match duplicated_node(t.body.nodes[i as int], p.drop_first()) {
                        Some((n, r)) => Some((
                            with_nodes(t, t.body.nodes.update(i as int, n)),
                            seq![Step::BodyNode(i)] + r,
                        )),
                        None => None,
                    }
                }
            } else {
                None
            },
            _ => None,
        }
    } else {
        None
    }
}

fn prepend_step(s: Step, mut rest: Vec<Step>) -> (r: Vec<Step>)
    ensures
        r@ == seq![s] + rest@,
{
    let mut out = vec![s];
    out.append(&mut rest);
    out
}

fn duplicate_in_column(c: MjColumn, p: &[Step], k: usize) -> (r: (MjColumn, Option<Vec<Step>>))
    requires
        k <= p.len(),
    ensures
        match duplicated_column(c@, p@.skip(k as int)) {
            Some((c2, q)) => r.1 is Some && r.1->0@ == q && r.0@ == c2,
            None => r.1 is None && r.0@ == c@,
        },
{
    let mut c = c;
    if k < p.len() && p.len() - k == 1 {
        if let Step::ColComp(i) = p[k] {
            if i < c.components.len() {
                let ghost old_c = c@;
                let copy = c.components[i].clone();
                c.components.insert(i + 1, copy);
                assert(c@.components =~= old_c.components.insert(i + 1, old_c.components[i as int]));
                return (c, Some(vec![Step::ColComp(i + 1)]));
            }
        }
    }
    (c, None)
}

fn duplicate_in_group(g: MjGroup, p: &[Step], k: usize) -> (r: (MjGroup, Option<Vec<Step>>))
    requires
        k <= p.len(),
    ensures
        match duplicated_group(g@, p@.skip(k as int)) {
            Some((g2, q)) => r.1 is Some && r.1->0@ == q && r.0@ == g2,
            None => r.1 is None && r.0@ == g@,
        },
{
    let mut g = g;
    if k < p.len() {
        if let Step::GroupCol(i) = p[k] {
            if i < g.children.len() {
                let ghost old_g = g@;
                if p.len() - k == 1 {
                    let copy = g.children[i].clone();
                    g.children.insert(i + 1, copy);
                    assert(g@.children =~= old_g.children.insert(i + 1, old_g.children[i as int]));
                    return (g, Some(vec![Step::GroupCol(i + 1)]));
                }
                let c = g.children.remove(i);
                assert(p@.skip(k as int).drop_first() =~= p@.skip(k + 1));
                let (c2, q) = duplicate_in_column(c, p, k + 1);
                g.children.insert(i, c2);
                assert(g@.children =~= old_g.children.update(i as int, c2@));
                match q {
                    Some(q) => {
                        return (g, Some(prepend_step(Step::GroupCol(i), q)));
                    },
                    None => {
                        assert(old_g.children.update(i as int, c@) =~= old_g.children);
                        return (g, None);
                    },
                }
            }
        }
    }
    (g, None)
}

fn duplicate_in_wrapper(w: MjWrapper, p: &[Step], k: usize) -> (r: (BodyNode, Option<Vec<Step>>))
    requires
        k < p.len(),
    ensures
        match duplicated_node(SpecBodyNode::MjWrapper(wrapper_view(w)), p@.skip(k as int)) {
            Some((n2, q)) => r.1 is Some && r.1->0@ == q && r.0@ == n2,
            None => r.1 is None && r.0@ == SpecBodyNode::MjWrapper(wrapper_view(w)),
        },
    decreases p.len() - k, 1int,
{
    let mut w = w;
    let ghost old_w = wrapper_view(w);
    assert(p@.skip(k as int).drop_first() =~= p@.skip(k + 1));
    if let Step::WrapperChild(j) = p[k] {
        if j < w.children.len() {
            let ghost old_children = w.children@;
            if p.len() - k == 1 {
                let copy = w.children[j].clone();
                w.children.insert(j + 1, copy);
                proof {
                    lemma_seq_view_body_node_insert(old_children, j + 1, copy);
                }
                assert(wrapper_view(w) == SpecMjWrapper {
                    children: old_w.children.insert(j + 1, old_w.children[j as int]),
                    ..old_w
                });
                return (BodyNode::MjWrapper(w), Some(vec![Step::WrapperChild(j + 1)]));
            }
            let c = w.children.remove(j);
            let (c2, q) = duplicate_in_body_node(c, p, k + 1);
            w.children.insert(j, c2);
            proof {
                assert(w.children@ =~= old_children.update(j as int, c2));
                lemma_seq_view_body_node_update(old_children, j as int, c2);
                assert(old_w.children.update(j as int, old_w.children[j as int]) =~= old_w.children);
            }
            assert(wrapper_view(w) == SpecMjWrapper { children: old_w.children.update(j as int, c2@), ..old_w });
            match q {
                Some(q) => {
                    return (BodyNode::MjWrapper(w), Some(prepend_step(Step::WrapperChild(j), q)));
                },
                None => {
                    return (BodyNode::MjWrapper(w), None);
                },
            }
        }
    }
    assert(wrapper_view(w).children == seq_view_body_node(w.children@));
    (BodyNode::MjWrapper(w), None)
}

fn duplicate_in_section(s: MjSection, p: &[Step], k: usize) -> (r: (BodyNode, Option<Vec<Step>>))
    requires
        k < p.len(),
    ensures
        match duplicated_node(SpecBodyNode::MjSection(s@), p@.skip(k as int)) {
            Some((n2, q)) => r.1 is Some && r.1->0@ == q && r.0@ == n2,
            None => r.1 is None && r.0@ == SpecBodyNode::MjSection(s@),
        },
{
    let mut s = s;
    let ghost old_s = s@;
    assert(p@.skip(k as int).drop_first() =~= p@.skip(k + 1));
    if let Step::SectionChild(j) = p[k] {
        if j < s.children.len() {
            if p.len() - k == 1 {
                let copy = s.children[j].clone();
                s.children.insert(j + 1, copy);
                assert(s@.children =~= old_s.children.insert(j + 1, old_s.children[j as int]));
                return (BodyNode::MjSection(s), Some(vec![Step::SectionChild(j + 1)]));
            }
            let child = s.children.remove(j);
            let (new_child, q) = match child {
                SectionChild::MjColumn(c) => {
                    let (c2, q) = duplicate_in_column(c, p, k + 1);
                    (SectionChild::MjColumn(c2), q)
                },
                SectionChild::MjGroup(g) => {
                    let (g2, q) = duplicate_in_group(g, p, k + 1);
                    (SectionChild::MjGroup(g2), q)
                },
            };
            s.children.insert(j, new_child);
            assert(s@.children =~= old_s.children.update(j as int, new_child@));
            match q {
                Some(q) => {
                    return (BodyNode::MjSection(s), Some(prepend_step(Step::SectionChild(j), q)));
                },
                None => {
                    assert(old_s.children.update(j as int, old_s.children[j as int]) =~= old_s.children);
                    return (BodyNode::MjSection(s), None);
                },
            }
        }
    }
    (BodyNode::MjSection(s), None)
}

fn duplicate_in_hero(h: MjHero, p: &[Step], k: usize) -> (r: (BodyNode, Option<Vec<Step>>))
    requires
        k < p.len(),
    ensures
        match duplicated_node(SpecBodyNode::MjHero(h@), p@.skip(k as int)) {
            Some((n2, q)) => r.1 is Some && r.1->0@ == q && r.0@ == n2,
            None => r.1 is None && r.0@ == SpecBodyNode::MjHero(h@),
        },
{
    let mut h = h;
    let ghost old_h = h@;
    if let Step::HeroChild(j) = p[k] {
        if p.len() - k == 1 && j < h.children.len() {
            let copy = h.children[j].clone();
            h.children.insert(j + 1, copy);
            assert(h@.children =~= old_h.children.insert(j + 1, old_h.children[j as int]));
            return (BodyNode::MjHero(h), Some(vec![Step::HeroChild(j + 1)]));
        }
    }
    (BodyNode::MjHero(h), None)
}

fn duplicate_in_body_node(n: BodyNode, p: &[Step], k: usize) -> (r: (BodyNode, Option<Vec<Step>>))
    requires
        k <= p.len(),
    ensures
        match duplicated_node(n@, p@.skip(k as int)) {
            Some((n2, q)) => r.1 is Some && r.1->0@ == q && r.0@ == n2,
            None => r.1 is None && r.0@ == n@,
        },
    decreases p.len() - k, 2int,
{
    if k >= p.len() {
        return (n, None);
    }
    match n {
        BodyNode::MjWrapper(w) => duplicate_in_wrapper(w, p, k),
        BodyNode::MjSection(s) => duplicate_in_section(s, p, k),
        BodyNode::MjHero(h) => duplicate_in_hero(h, p, k),
        other => (other, None),
    }
}

/// Copies the row at `path` right after itself and returns the copy's path;
/// `None` (and no change) when the path addresses no row that can be copied.
pub fn duplicate_path(t: &mut Template, path: &[Step]) -> (r: Option<Vec<Step>>)
    ensures
        match duplicated(old(t)@, path@) {
            Some((t2, q)) => r is Some && r->0@ == q && final(t)@ == t2,
            None => r is None && final(t)@ == old(t)@,
        },
{
    if path.len() == 0 {
        return None;
    }
    if let Step::BodyNode(i) = path[0] {
        if i < t.body.nodes.len() {
            let ghost old_nodes = t.body.nodes@;
            let ghost old_view = seq_view_body_node(old_nodes);
            if path.len() == 1 {
                let copy = t.body.nodes[i].clone();
                t.body.nodes.insert(i + 1, copy);
                proof {
                    lemma_seq_view_body_node_insert(old_nodes, i + 1, copy);
                }
                return Some(vec![Step::BodyNode(i + 1)]);
            }
            let n = t.body.nodes.remove(i);
            assert(path@.drop_first() =~= path@.skip(1));
            let (n2, q) = duplicate_in_body_node(n, path, 1);
            t.body.nodes.insert(i, n2);
            proof {
                assert(t.body.nodes@ =~= old_nodes.update(i as int, n2));
                lemma_seq_view_body_node_update(old_nodes, i as int, n2);
                assert(old_view.update(i as int, old_view[i as int]) =~= old_view);
            }
            return match q {
                Some(q) => Some(prepend_step(Step::BodyNode(i), q)),
                None => None,
            };
        }
    }
    None
}

// ---------------------------------------------------------------------------
// Reorder
// ---------------------------------------------------------------------------

/// What moving an item by `delta` within its list does.
pub enum Reorder<X> {
    /// The item moved; the new value and the item's new path.
    Applied(X, Seq<Step>),
    /// Nothing moves (fewer than two items, or the target is out of range).
    Refused,
    /// The addressed index is past the end of a list whose target index is
    /// in range: the exchange would index out of bounds.
    Fault,
}

/// Where `delta` moves index `i` of a list of `len` items, if anywhere.
pub open spec fn swap_target(len: nat, i: int, delta: int) -> Option<int> {
    if len < 2 || i + delta < 0 || i + delta >= len || i + delta > usize::MAX {
        None
    } else {
        Some(i + delta)
    }
}

/// `s` with the items at `i` and `j` exchanged.
pub open spec fn swapped<A>(s: Seq<A>, i: int, j: int) -> Seq<A> {
    s.update(i, s[j]).update(j, s[i])
}

/// Moving item `i` of `s` by `delta`, with `wrap` building the result and the
/// step that addresses the moved item.
pub open spec fn reorder_seq<A>(s: Seq<A>, i: usize, delta: isize) -> Reorder<Seq<A>> {
    match swap_target(s.len(), i as int, delta as int) {
        Some(j) => if i < s.len() {
            Reorder::Applied(swapped(s, i as int, j), Seq::empty())
        } else {
            Reorder::Fault
        },
        None => Reorder::Refused,
    }
}

/// The new index of the moved item (meaningful when [`reorder_seq`] applies).
pub open spec fn moved_to(i: usize, delta: isize) -> usize {
    (i as int + delta as int) as usize
}

/// Prefixes the path of an applied outcome with `s`, and rebuilds the value with `f`.
pub open spec fn lift<X, Y>(r: Reorder<X>, s: Step, f: spec_fn(X) -> Y) -> Reorder<Y> {
    match r {
        Reorder::Applied(x, q) => Reorder::Applied(f(x), seq![s] + q),
        Reorder::Refused => Reorder::Refused,
        Reorder::Fault => Reorder::Fault,
    }
}

/// Moving a component of a column.
pub open spec fn reordered_column(c: SpecMjColumn, rest: Seq<Step>, delta: isize) -> Reorder<SpecMjColumn> {
    if rest.len() == 1 {
        match rest[0] {
            Step::ColComp(i) => match reorder_seq(c.components, i, delta) {
                Reorder::Applied(cs, _) => Reorder::Applied(
                    SpecMjColumn { components: cs, ..c },
                    seq![Step::ColComp(moved_to(i, delta))],
                ),
                Reorder::Refused => Reorder::Refused,
                Reorder::Fault => Reorder::Fault,
            },
            _ => Reorder::Refused,
        }
    } else {
        Reorder::Refused
    }
}

/// Moving a column of a group, or a component of one of its columns.
pub open spec fn reordered_group(g: SpecMjGroup, rest: Seq<Step>, delta: isize) -> Reorder<SpecMjGroup> {
    if rest.len() == 1 {
        match rest[0] {
            Step::GroupCol(i) => match reorder_seq(g.children, i, delta) {
                Reorder::Applied(cs, _) => Reorder::Applied(
                    SpecMjGroup { children: cs, ..g },
                    seq![Step::GroupCol(moved_to(i, delta))],
                ),
                Reorder::Refused => Reorder::Refused,
                Reorder::Fault => Reorder::Fault,
            },
            _ => Reorder::Refused,
        }
    } else if rest.len() == 2 {
        match rest[0] {
            Step::GroupCol(i) => if i < g.children.len() {
                lift(
                    reordered_column(g.children[i as int], rest.drop_first(), delta),
                    Step::GroupCol(i),
                    |c: SpecMjColumn| SpecMjGroup { children: g.children.update(i as int, c), ..g },
                )
            } else {
                Reorder::Refused
            },
            _ => Reorder::Refused,
        }
    } else {
        Reorder::Refused
    }
}

/// Moving a descendant of a body node within its list.
pub open spec fn reordered_node(n: SpecBodyNode, rest: Seq<Step>, delta: isize) -> Reorder<SpecBodyNode>
    decreases rest.len(),
{
    if rest.len() == 0 {
        Reorder::Refused
    } else if rest.len() == 1 {
        match (n, rest[0]) {
            (SpecBodyNode::MjWrapper(w), Step::WrapperChild(j)) => match reorder_seq(w.children, j, delta) {
                Reorder::Applied(cs, _) => Reorder::Applied(
                    SpecBodyNode::MjWrapper(SpecMjWrapper { children: cs, ..w }),
                    seq![Step::WrapperChild(moved_to(j, delta))],
                ),
                Reorder::Refused => Reorder::Refused,
                Reorder::Fault => Reorder::Fault,
            },
            (SpecBodyNode::MjSection(s), Step::SectionChild(j)) => match reorder_seq(s.children, j, delta) {
                Reorder::Applied(cs, _) => Reorder::Applied(
                    SpecBodyNode::MjSection(SpecMjSection { children: cs, ..s }),
                    seq![Step::SectionChild(moved_to(j, delta))],
                ),
                Reorder::Refused => Reorder::Refused,
                Reorder::Fault => Reorder::Fault,
            },
            (SpecBodyNode::MjHero(h), Step::HeroChild(j)) => match reorder_seq(h.children, j, delta) {
                Reorder::Applied(cs, _) => Reorder::Applied(
                    SpecBodyNode::MjHero(SpecMjHero { children: cs, ..h }),
                    seq![Step::HeroChild(moved_to(j, delta))],
                ),
                Reorder::Refused => Reorder::Refused,
                Reorder::Fault => Reorder::Fault,
            },
            _ => Reorder::Refused,
        }
    } else {
        match (n, rest[0]) {
            (SpecBodyNode::MjWrapper(w), Step::WrapperChild(j)) => if j < w.children.len() {
                lift(
                    reordered_node(w.children[j as int], rest.drop_first(), delta),
                    Step::WrapperChild(j),
                    |c: SpecBodyNode| SpecBodyNode::MjWrapper(
                        SpecMjWrapper { children: w.children.update(j as int, c), ..w },
                    ),
                )
            } else {
                Reorder::Refused
            },
            (SpecBodyNode::MjSection(s), Step::SectionChild(j)) => if j < s.children.len() {
                match s.children[j as int] {
                    SpecSectionChild::MjColumn(c) => lift(
                        reordered_column(c, rest.drop_first(), delta),
                        Step::SectionChild(j),
                        |c2: SpecMjColumn| SpecBodyNode::MjSection(
                            SpecMjSection {
                                children: s.children.update(j as int, SpecSectionChild::MjColumn(c2)),
                                ..s
                            },
                        ),
                    ),
                    SpecSectionChild::MjGroup(g) => lift(
                        reordered_group(g, rest.drop_first(), delta),
                        Step::SectionChild(j),
                        |g2: SpecMjGroup| SpecBodyNode::MjSection(
                            SpecMjSection {
                                children: s.children.update(j as int, SpecSectionChild::MjGroup(g2)),
                                ..s
                            },
                        ),
                    ),
                }
            } else {
                Reorder::Refused
            },
            _ => Reorder::Refused,
        }
    }
}

/// Moving the row at `p` by `delta` among its siblings.
pub open spec fn reordered(t: SpecTemplate, p: Seq<Step>, delta: isize) -> Reorder<SpecTemplate> {
    if p.len() == 1 {
        match p[0] {
            Step::BodyNode(i) => match reorder_seq(t.body.nodes, i, delta) {
                Reorder::Applied(ns, _) => Reorder::Applied(
                    with_nodes(t, ns),
                    seq![Step::BodyNode(moved_to(i, delta))],
                ),
                Reorder::Refused => Reorder::Refused,
                Reorder::Fault => Reorder::Fault,
            },
            _ => Reorder::Refused,
        }
    } else if p.len() >= 2 {
        match p[0] {
            Step::BodyNode(i) => if i < t.body.nodes.len() {
                lift(
                    reordered_node(t.body.nodes[i as int], p.drop_first(), delta),
                    Step::BodyNode(i),
                    |n: SpecBodyNode| with_nodes(t, t.body.nodes.update(i as int, n)),
                )
            } else {
                Reorder::Refused
            },
            _ => Reorder::Refused,
        }
    } else {
        Reorder::Refused
    }
}

/// Exchanges `items[i]` with `items[i + delta]`; `None` when the list has
/// fewer than two items or the target is out of range.
pub fn swap_index<T>(items: &mut Vec<T>, i: usize, delta: isize) -> (r: Option<usize>)
    requires
        swap_target(old(items)@.len(), i as int, delta as int) is Some ==> i < old(items)@.len(),
    ensures
        swap_target(old(items)@.len(), i as int, delta as int) is None ==> r is None && final(items)@
            == old(items)@,
        swap_target(old(items)@.len(), i as int, delta as int) is Some ==> r is Some && r->0 as int
            == swap_target(old(items)@.len(), i as int, delta as int)->0 && final(items)@ == swapped(
            old(items)@,
            i as int,
            r->0 as int,
        ),
{
    if items.len() < 2 {
        return None;
    }
    let j: i128 = i as i128 + delta as i128;
    if j < 0 || j >= items.len() as i128 {
        return None;
    }
    let j = j as usize;
    let ghost old_items = items@;
    if i != j {
        let (lo, hi) = if i < j { (i, j) } else { (j, i) };
        let b = items.remove(hi);
        let a = items.remove(lo);
        items.insert(lo, b);
        items.insert(hi, a);
        assert(items@ =~= swapped(old_items, i as int, j as int));
    } else {
        assert(old_items =~= swapped(old_items, i as int, j as int));
    }
    Some(j)
}

proof fn lemma_seq_view_body_node_swapped(s: Seq<BodyNode>, i: int, j: int)
    requires
        0 <= i < s.len(),
        0 <= j < s.len(),
    ensures
        seq_view_body_node(swapped(s, i, j)) == swapped(seq_view_body_node(s), i, j),
{
    lemma_seq_view_body_node_update(s, i, s[j]);
    lemma_seq_view_body_node_update(s.update(i, s[j]), j, s[i]);
}

fn reorder_in_column(c: MjColumn, p: &[Step], k: usize, delta: isize) -> (r: (MjColumn, Option<Vec<Step>>))
    requires
        k <= p.len(),
        !(reordered_column(c@, p@.skip(k as int), delta) is Fault),
    ensures
        match reordered_column(c@, p@.skip(k as int), delta) {
            Reorder::Applied(c2, q) => r.1 is Some && r.1->0@ == q && r.0@ == c2,
            _ => r.1 is None && r.0@ == c@,
        },
{
    let mut c = c;
    if k < p.len() && p.len() - k == 1 {
        if let Step::ColComp(i) = p[k] {
            let ghost old_c = c@;
            let ghost old_items = c.components@;
            match swap_index(&mut c.components, i, delta) {
                Some(j) => {
                    assert(swap_target(old_items.len(), i as int, delta as int) == Some(j as int));
                    assert(c.components@ == swapped(old_items, i as int, j as int));
                    assert forall|m: int| 0 <= m < old_c.components.len() implies #[trigger] c@.components[m] == swapped(old_c.components, i as int, j as int)[m] by {
                        assert(c.components@[m] == swapped(old_items, i as int, j as int)[m]);
                    }
                    assert(c@.components =~= swapped(old_c.components, i as int, j as int));
                    return (c, Some(vec![Step::ColComp(j)]));
                },
                None => {
                    return (c, None);
                },
            }
        }
    }
    (c, None)
}

fn reorder_in_group(g: MjGroup, p: &[Step], k: usize, delta: isize) -> (r: (MjGroup, Option<Vec<Step>>))
    requires
        k <= p.len(),
        !(reordered_group(g@, p@.skip(k as int), delta) is Fault),
    ensures
        match reordered_group(g@, p@.skip(k as int), delta) {
            Reorder::Applied(g2, q) => r.1 is Some && r.1->0@ == q && r.0@ == g2,
            _ => r.1 is None && r.0@ == g@,
        },
{
    let mut g = g;
    let ghost old_g = g@;
    if k < p.len() && p.len() - k == 1 {
        if let Step::GroupCol(i) = p[k] {
            let ghost old_gc = g.children@;
            match swap_index(&mut g.children, i, delta) {
                Some(j) => {
                    assert forall|m: int| 0 <= m < old_g.children.len() implies #[trigger] g@.children[m] == swapped(old_g.children, i as int, j as int)[m] by {
                        assert(g.children@[m] == swapped(old_gc, i as int, j as int)[m]);
                    }
                    assert(g@.children =~= swapped(old_g.children, i as int, j as int));
                    return (g, Some(vec![Step::GroupCol(j)]));
                },
                None => {
                    return (g, None);
                },
            }
        }
    }
    if k < p.len() && p.len() - k == 2 {
        if let Step::GroupCol(i) = p[k] {
            if i < g.children.len() {
                let c = g.children.remove(i);
                assert(p@.skip(k as int).drop_first() =~= p@.skip(k + 1));
                let (c2, q) = reorder_in_column(c, p, k + 1, delta);
                g.children.insert(i, c2);
                assert(g@.children =~= old_g.children.update(i as int, c2@));
                match q {
                    Some(q) => {
                        return (g, Some(prepend_step(Step::GroupCol(i), q)));
                    },
                    None => {
                        assert(old_g.children.update(i as int, c@) =~= old_g.children);
                        return (g, None);
                    },
                }
            }
        }
    }
    (g, None)
}

fn reorder_in_wrapper(w: MjWrapper, p: &[Step], k: usize, delta: isize) -> (r: (BodyNode, Option<Vec<Step>>))
    requires
        k < p.len(),
        !(reordered_node(SpecBodyNode::MjWrapper(wrapper_view(w)), p@.skip(k as int), delta) is Fault),
    ensures
        match reordered_node(SpecBodyNode::MjWrapper(wrapper_view(w)), p@.skip(k as int), delta) {
            Reorder::Applied(n2, q) => r.1 is Some && r.1->0@ == q && r.0@ == n2,
            _ => r.1 is None && r.0@ == SpecBodyNode::MjWrapper(wrapper_view(w)),
        },
    decreases p.len() - k, 1int,
{
    let mut w = w;
    let ghost old_w = wrapper_view(w);
    let ghost old_children = w.children@;
    assert(old_w.children == seq_view_body_node(old_children));
    assert(old_w.children.len() == old_children.len());
    assert(p@.skip(k as int).drop_first() =~= p@.skip(k + 1));
    if let Step::WrapperChild(j) = p[k] {
        if p.len() - k == 1 {
            match swap_index(&mut w.children, j, delta) {
                Some(nj) => {
                    proof {
                        lemma_seq_view_body_node_swapped(old_children, j as int, nj as int);
                    }
                    assert(wrapper_view(w) == SpecMjWrapper {
                        children: swapped(old_w.children, j as int, nj as int),
                        ..old_w
                    });
                    return (BodyNode::MjWrapper(w), Some(vec![Step::WrapperChild(nj)]));
                },
                None => {
                    return (BodyNode::MjWrapper(w), None);
                },
            }
        }
        if j < w.children.len() {
            let c = w.children.remove(j);
            let (c2, q) = reorder_in_body_node(c, p, k + 1, delta);
            w.children.insert(j, c2);
            proof {
                assert(w.children@ =~= old_children.update(j as int, c2));
                lemma_seq_view_body_node_update(old_children, j as int, c2);
                assert(old_w.children.update(j as int, old_w.children[j as int]) =~= old_w.children);
            }
            assert(wrapper_view(w) == SpecMjWrapper { children: old_w.children.update(j as int, c2@), ..old_w });
            match q {
                Some(q) => {
                    return (BodyNode::MjWrapper(w), Some(prepend_step(Step::WrapperChild(j), q)));
                },
                None => {
                    return (BodyNode::MjWrapper(w), None);
                },
            }
        }
    }
    assert(wrapper_view(w).children == seq_view_body_node(w.children@));
    (BodyNode::MjWrapper(w), None)
}

fn reorder_in_section(s: MjSection, p: &[Step], k: usize, delta: isize) -> (r: (BodyNode, Option<Vec<Step>>))
    requires
        k < p.len(),
        !(reordered_node(SpecBodyNode::MjSection(s@), p@.skip(k as int), delta) is Fault),
    ensures
        match reordered_node(SpecBodyNode::MjSection(s@), p@.skip(k as int), delta) {
            Reorder::Applied(n2, q) => r.1 is Some && r.1->0@ == q && r.0@ == n2,
            _ => r.1 is None && r.0@ == SpecBodyNode::MjSection(s@),
        },
{
    let mut s = s;
    let ghost old_s = s@;
    assert(p@.skip(k as int).drop_first() =~= p@.skip(k + 1));
    if let Step::SectionChild(j) = p[k] {
        if p.len() - k == 1 {
            let ghost old_sc = s.children@;
            match swap_index(&mut s.children, j, delta) {
                Some(nj) => {
                    assert forall|m: int| 0 <= m < old_s.children.len() implies #[trigger] s@.children[m] == swapped(old_s.children, j as int, nj as int)[m] by {
                        assert(s.children@[m] == swapped(old_sc, j as int, nj as int)[m]);
                    }
                    assert(s@.children =~= swapped(old_s.children, j as int, nj as int));
                    return (BodyNode::MjSection(s), Some(vec![Step::SectionChild(nj)]));
                },
                None => {
                    return (BodyNode::MjSection(s), None);
                },
            }
        }
        if j < s.children.len() {
            let child = s.children.remove(j);
            let (new_child, q) = match child {
                SectionChild::MjColumn(c) => {
                    let (c2, q) = reorder_in_column(c, p, k + 1, delta);
                    (SectionChild::MjColumn(c2), q)
                },
                SectionChild::MjGroup(g) => {
                    let (g2, q) = reorder_in_group(g, p, k + 1, delta);
                    (SectionChild::MjGroup(g2), q)
                },
            };
            s.children.insert(j, new_child);
            assert(s@.children =~= old_s.children.update(j as int, new_child@));
            match q {
                Some(q) => {
                    return (BodyNode::MjSection(s), Some(prepend_step(Step::SectionChild(j), q)));
                },
                None => {
                    assert(old_s.children.update(j as int, old_s.children[j as int]) =~= old_s.children);
                    return (BodyNode::MjSection(s), None);
                },
            }
        }
    }
    (BodyNode::MjSection(s), None)
}

fn reorder_in_hero(h: MjHero, p: &[Step], k: usize, delta: isize) -> (r: (BodyNode, Option<Vec<Step>>))
    requires
        k < p.len(),
        !(reordered_node(SpecBodyNode::MjHero(h@), p@.skip(k as int), delta) is Fault),
    ensures
        match reordered_node(SpecBodyNode::MjHero(h@), p@.skip(k as int), delta) {
            Reorder::Applied(n2, q) => r.1 is Some && r.1->0@ == q && r.0@ == n2,
            _ => r.1 is None && r.0@ == SpecBodyNode::MjHero(h@),
        },
{
    let mut h = h;
    let ghost old_h = h@;
    if p.len() - k == 1 {
        if let Step::HeroChild(j) = p[k] {
            let ghost old_hc = h.children@;
            match swap_index(&mut h.children, j, delta) {
                Some(nj) => {
                    assert forall|m: int| 0 <= m < old_h.children.len() implies #[trigger] h@.children[m] == swapped(old_h.children, j as int, nj as int)[m] by {
                        assert(h.children@[m] == swapped(old_hc, j as int, nj as int)[m]);
                    }
                    assert(h@.children =~= swapped(old_h.children, j as int, nj as int));
                    return (BodyNode::MjHero(h), Some(vec![Step::HeroChild(nj)]));
                },
                None => {
                    return (BodyNode::MjHero(h), None);
                },
            }
        }
    }
    (BodyNode::MjHero(h), None)
}

fn reorder_in_body_node(n: BodyNode, p: &[Step], k: usize, delta: isize) -> (r: (BodyNode, Option<Vec<Step>>))
    requires
        k <= p.len(),
        !(reordered_node(n@, p@.skip(k as int), delta) is Fault),
    ensures
        match reordered_node(n@, p@.skip(k as int), delta) {
            Reorder::Applied(n2, q) => r.1 is Some && r.1->0@ == q && r.0@ == n2,
            _ => r.1 is None && r.0@ == n@,
        },
    decreases p.len() - k, 2int,
{
    if k >= p.len() {
        return (n, None);
    }
    match n {
        BodyNode::MjWrapper(w) => reorder_in_wrapper(w, p, k, delta),
        BodyNode::MjSection(s) => reorder_in_section(s, p, k, delta),
        BodyNode::MjHero(h) => reorder_in_hero(h, p, k, delta),
        other => (other, None),
    }
}

/// Moves the row at `path` by `delta` among its siblings and returns its new
/// path; `None` (and no change) when it cannot move.
pub fn reorder_path(t: &mut Template, path: &[Step], delta: isize) -> (r: Option<Vec<Step>>)
    requires
        !(reordered(old(t)@, path@, delta) is Fault),
    ensures
        match reordered(old(t)@, path@, delta) {
            Reorder::Applied(t2, q) => r is Some && r->0@ == q && final(t)@ == t2,
            _ => r is None && final(t)@ == old(t)@,
        },
{
    if path.len() == 0 {
        return None;
    }
    if let Step::BodyNode(i) = path[0] {
        let ghost old_nodes = t.body.nodes@;
        let ghost old_view = seq_view_body_node(old_nodes);
        if path.len() == 1 {
            return match swap_index(&mut t.body.nodes, i, delta) {
                Some(j) => {
                    proof {
                        lemma_seq_view_body_node_swapped(old_nodes, i as int, j as int);
                    }
                    Some(vec![Step::BodyNode(j)])
                },
                None => None,
            };
        }
        if i < t.body.nodes.len() {
            let n = t.body.nodes.remove(i);
            assert(path@.drop_first() =~= path@.skip(1));
            let (n2, q) = reorder_in_body_node(n, path, 1, delta);
            t.body.nodes.insert(i, n2);
            proof {
                assert(t.body.nodes@ =~= old_nodes.update(i as int, n2));
                lemma_seq_view_body_node_update(old_nodes, i as int, n2);
                assert(old_view.update(i as int, old_view[i as int]) =~= old_view);
            }
            return match q {
                Some(q) => Some(prepend_step(Step::BodyNode(i), q)),
                None => None,
            };
        }
    }
    None
}

// ---------------------------------------------------------------------------
// Laws
// ---------------------------------------------------------------------------

proof fn lemma_dup_remove_column(c: SpecMjColumn, rest: Seq<Step>)
    requires
        duplicated_column(c, rest) is Some,
    ensures
        removed_column(duplicated_column(c, rest).unwrap().0, duplicated_column(c, rest).unwrap().1) == Some(c),
{
    if let Step::ColComp(i) = rest[0] {
        let c2 = duplicated_column(c, rest).unwrap().0;
        assert(c2.components.remove(i + 1) =~= c.components);
        assert(SpecMjColumn { components: c2.components.remove(i + 1), ..c2 } == c);
    }
}

proof fn lemma_dup_remove_group(g: SpecMjGroup, rest: Seq<Step>)
    requires
        duplicated_group(g, rest) is Some,
    ensures
        removed_group(duplicated_group(g, rest).unwrap().0, duplicated_group(g, rest).unwrap().1) == Some(g),
{
    if let Step::GroupCol(i) = rest[0] {
        let (g2, q) = duplicated_group(g, rest).unwrap();
        if rest.len() == 1 && i < usize::MAX {
            assert(g2.children.remove(i + 1) =~= g.children);
            assert(SpecMjGroup { children: g2.children.remove(i + 1), ..g2 } == g);
        } else {
            let (c2, r) = duplicated_column(g.children[i as int], rest.drop_first()).unwrap();
            lemma_dup_remove_column(g.children[i as int], rest.drop_first());
            assert(q.drop_first() =~= r);
            assert(g2.children.update(i as int, g.children[i as int]) =~= g.children);
            assert(SpecMjGroup { children: g2.children.update(i as int, g.children[i as int]), ..g2 } == g);
        }
    }
}

proof fn lemma_dup_remove_node(n: SpecBodyNode, rest: Seq<Step>)
    requires
        duplicated_node(n, rest) is Some,
    ensures
        removed_node(duplicated_node(n, rest).unwrap().0, duplicated_node(n, rest).unwrap().1) == Some(n),
    decreases rest.len(),
{
    let (n2, q) = duplicated_node(n, rest).unwrap();
    match (n, rest[0]) {
        (SpecBodyNode::MjWrapper(w), Step::WrapperChild(j)) => {
            if rest.len() == 1 && j < usize::MAX {
                let ch = w.children.insert(j + 1, w.children[j as int]);
                assert(ch.remove(j + 1) =~= w.children);
                assert(SpecMjWrapper { children: ch.remove(j + 1), ..w } == w);
            } else {
                let (c2, r) = duplicated_node(w.children[j as int], rest.drop_first()).unwrap();
                lemma_dup_remove_node(w.children[j as int], rest.drop_first());
                assert(q.drop_first() =~= r);
                let ch = w.children.update(j as int, c2);
                assert(ch.update(j as int, w.children[j as int]) =~= w.children);
                assert(SpecMjWrapper { children: ch.update(j as int, w.children[j as int]), ..w } == w);
            }
        },
        (SpecBodyNode::MjSection(s), Step::SectionChild(j)) => {
            if rest.len() == 1 && j < usize::MAX {
                let ch = s.children.insert(j + 1, s.children[j as int]);
                assert(ch.remove(j + 1) =~= s.children);
                assert(SpecMjSection { children: ch.remove(j + 1), ..s } == s);
            } else {
                match s.children[j as int] {
                    SpecSectionChild::MjColumn(c) => {
                        let (c2, r) = duplicated_column(c, rest.drop_first()).unwrap();
                        lemma_dup_remove_column(c, rest.drop_first());
                        assert(q.drop_first() =~= r);
                        let ch = s.children.update(j as int, SpecSectionChild::MjColumn(c2));
                        assert(ch.update(j as int, SpecSectionChild::MjColumn(c)) =~= s.children);
                        assert(SpecMjSection { children: ch.update(j as int, SpecSectionChild::MjColumn(c)), ..s } == s);
                    },
                    SpecSectionChild::MjGroup(g) => {
                        let (g2, r) = duplicated_group(g, rest.drop_first()).unwrap();
                        lemma_dup_remove_group(g, rest.drop_first());
                        assert(q.drop_first() =~= r);
                        let ch = s.children.update(j as int, SpecSectionChild::MjGroup(g2));
                        assert(ch.update(j as int, SpecSectionChild::MjGroup(g)) =~= s.children);
                        assert(SpecMjSection { children: ch.update(j as int, SpecSectionChild::MjGroup(g)), ..s } == s);
                    },
                }
            }
        },
        (SpecBodyNode::MjHero(h), Step::HeroChild(j)) => {
            let ch = h.children.insert(j + 1, h.children[j as int]);
            assert(ch.remove(j + 1) =~= h.children);
            assert(SpecMjHero { children: ch.remove(j + 1), ..h } == h);
        },
        _ => {},
    }
}

/// Deleting the copy that duplicating a row made gives back the template as it
/// was before the copy.
pub proof fn law_delete_undoes_duplicate(t: SpecTemplate, p: Seq<Step>)
    requires
        duplicated(t, p) is Some,
    ensures
        removed(duplicated(t, p).unwrap().0, duplicated(t, p).unwrap().1) == Some(t),
{
    let (t2, q) = duplicated(t, p).unwrap();
    if let Step::BodyNode(i) = p[0] {
        if p.len() == 1 && i < usize::MAX {
            let ns = t.body.nodes.insert(i + 1, t.body.nodes[i as int]);
            assert(ns.remove(i + 1) =~= t.body.nodes);
            assert(with_nodes(t2, ns.remove(i + 1)) == t);
        } else {
            let (n2, r) = duplicated_node(t.body.nodes[i as int], p.drop_first()).unwrap();
            lemma_dup_remove_node(t.body.nodes[i as int], p.drop_first());
            assert(q.drop_first() =~= r);
            let ns = t.body.nodes.update(i as int, n2);
            assert(ns.update(i as int, t.body.nodes[i as int]) =~= t.body.nodes);
            assert(with_nodes(t2, ns.update(i as int, t.body.nodes[i as int])) == t);
        }
    }
}

proof fn lemma_reorder_seq_back<A>(s: Seq<A>, i: usize, delta: isize)
    requires
        reorder_seq(s, i, delta) is Applied,
        delta != isize::MIN,
    ensures
        ({
            let j = moved_to(i, delta);
            let s2 = reorder_seq(s, i, delta)->Applied_0;
            &&& reorder_seq(s2, j, (-delta) as isize) == Reorder::Applied(s, Seq::<Step>::empty())
            &&& moved_to(j, (-delta) as isize) == i
            &&& j < s.len()
        }),
{
    let j = moved_to(i, delta);
    assert(j == i + delta);
    let s2 = swapped(s, i as int, j as int);
    assert(s2.len() == s.len());
    assert(((-delta) as isize) as int == -(delta as int));
    assert(swap_target(s2.len(), j as int, ((-delta) as isize) as int) == Some(i as int));
    assert(swapped(s2, j as int, i as int) =~= s);
}

proof fn lemma_reorder_column_back(c: SpecMjColumn, rest: Seq<Step>, delta: isize)
    requires
        reordered_column(c, rest, delta) is Applied,
        delta != isize::MIN,
    ensures
        reordered_column(
            reordered_column(c, rest, delta)->Applied_0,
            reordered_column(c, rest, delta)->Applied_1,
            (-delta) as isize,
        ) == Reorder::Applied(c, rest),
{
    if let Step::ColComp(i) = rest[0] {
        lemma_reorder_seq_back(c.components, i, delta);
        let c2 = reordered_column(c, rest, delta)->Applied_0;
        assert(SpecMjColumn { components: c.components, ..c2 } == c);
        assert(seq![Step::ColComp(i)] =~= rest);
    }
}

proof fn lemma_reorder_group_back(g: SpecMjGroup, rest: Seq<Step>, delta: isize)
    requires
        reordered_group(g, rest, delta) is Applied,
        delta != isize::MIN,
    ensures
        reordered_group(
            reordered_group(g, rest, delta)->Applied_0,
            reordered_group(g, rest, delta)->Applied_1,
            (-delta) as isize,
        ) == Reorder::Applied(g, rest),
{
    let g2 = reordered_group(g, rest, delta)->Applied_0;
    let q = reordered_group(g, rest, delta)->Applied_1;
    if let Step::GroupCol(i) = rest[0] {
        if rest.len() == 1 {
            lemma_reorder_seq_back(g.children, i, delta);
            assert(SpecMjGroup { children: g.children, ..g2 } == g);
            assert(seq![Step::GroupCol(i)] =~= rest);
        } else {
            let c = g.children[i as int];
            lemma_reorder_column_back(c, rest.drop_first(), delta);
            let r = reordered_column(c, rest.drop_first(), delta)->Applied_1;
            assert(q.drop_first() =~= r);
            assert(g2.children.update(i as int, c) =~= g.children);
            assert(SpecMjGroup { children: g2.children.update(i as int, c), ..g2 } == g);
            assert(seq![Step::GroupCol(i)] + rest.drop_first() =~= rest);
        }
    }
}

proof fn lemma_reorder_node_back(n: SpecBodyNode, rest: Seq<Step>, delta: isize)
    requires
        reordered_node(n, rest, delta) is Applied,
        delta != isize::MIN,
    ensures
        reordered_node(
            reordered_node(n, rest, delta)->Applied_0,
            reordered_node(n, rest, delta)->Applied_1,
            (-delta) as isize,
        ) == Reorder::Applied(n, rest),
    decreases rest.len(),
{
    let n2 = reordered_node(n, rest, delta)->Applied_0;
    let q = reordered_node(n, rest, delta)->Applied_1;
    if rest.len() == 1 {
        match (n, rest[0]) {
            (SpecBodyNode::MjWrapper(w), Step::WrapperChild(j)) => {
                lemma_reorder_seq_back(w.children, j, delta);
                assert(seq![Step::WrapperChild(j)] =~= rest);
            },
            (SpecBodyNode::MjSection(s), Step::SectionChild(j)) => {
                lemma_reorder_seq_back(s.children, j, delta);
                assert(seq![Step::SectionChild(j)] =~= rest);
            },
            (SpecBodyNode::MjHero(h), Step::HeroChild(j)) => {
                lemma_reorder_seq_back(h.children, j, delta);
                assert(seq![Step::HeroChild(j)] =~= rest);
            },
            _ => {},
        }
    } else {
        match (n, rest[0]) {
            (SpecBodyNode::MjWrapper(w), Step::WrapperChild(j)) => {
                let c = w.children[j as int];
                lemma_reorder_node_back(c, rest.drop_first(), delta);
                let r = reordered_node(c, rest.drop_first(), delta)->Applied_1;
                let c2 = reordered_node(c, rest.drop_first(), delta)->Applied_0;
                assert(q.drop_first() =~= r);
                assert(w.children.update(j as int, c2).update(j as int, c) =~= w.children);
                assert(seq![Step::WrapperChild(j)] + rest.drop_first() =~= rest);
            },
            (SpecBodyNode::MjSection(s), Step::SectionChild(j)) => {
                match s.children[j as int] {
                    SpecSectionChild::MjColumn(c) => {
                        lemma_reorder_column_back(c, rest.drop_first(), delta);
                        let r = reordered_column(c, rest.drop_first(), delta)->Applied_1;
                        let c2 = reordered_column(c, rest.drop_first(), delta)->Applied_0;
                        assert(q.drop_first() =~= r);
                        assert(s.children.update(j as int, SpecSectionChild::MjColumn(c2)).update(
                            j as int,
                            SpecSectionChild::MjColumn(c),
                        ) =~= s.children);
                        assert(seq![Step::SectionChild(j)] + rest.drop_first() =~= rest);
                    },
                    SpecSectionChild::MjGroup(g) => {
                        lemma_reorder_group_back(g, rest.drop_first(), delta);
                        let r = reordered_group(g, rest.drop_first(), delta)->Applied_1;
                        let g2 = reordered_group(g, rest.drop_first(), delta)->Applied_0;
                        assert(q.drop_first() =~= r);
                        assert(s.children.update(j as int, SpecSectionChild::MjGroup(g2)).update(
                            j as int,
                            SpecSectionChild::MjGroup(g),
                        ) =~= s.children);
                        assert(seq![Step::SectionChild(j)] + rest.drop_first() =~= rest);
                    },
                }
            },
            _ => {},
        }
    }
}

/// Moving a row by `delta` and then moving it back by `-delta` (from where it
/// landed) restores the template and the row's path.
pub proof fn law_reorder_back_restores(t: SpecTemplate, p: Seq<Step>, delta: isize)
    requires
        reordered(t, p, delta) is Applied,
        delta != isize::MIN,
    ensures
        reordered(
            reordered(t, p, delta)->Applied_0,
            reordered(t, p, delta)->Applied_1,
            (-delta) as isize,
        ) == Reorder::Applied(t, p),
{
    let t2 = reordered(t, p, delta)->Applied_0;
    let q = reordered(t, p, delta)->Applied_1;
    if let Step::BodyNode(i) = p[0] {
        if p.len() == 1 {
            lemma_reorder_seq_back(t.body.nodes, i, delta);
            assert(with_nodes(t2, t.body.nodes) == t);
            assert(seq![Step::BodyNode(i)] =~= p);
        } else {
            let n = t.body.nodes[i as int];
            lemma_reorder_node_back(n, p.drop_first(), delta);
            let r = reordered_node(n, p.drop_first(), delta)->Applied_1;
            let n2 = reordered_node(n, p.drop_first(), delta)->Applied_0;
            assert(q.drop_first() =~= r);
            assert(t.body.nodes.update(i as int, n2).update(i as int, n) =~= t.body.nodes);
            assert(with_nodes(t2, t.body.nodes.update(i as int, n2).update(i as int, n)) == t);
            assert(seq![Step::BodyNode(i)] + p.drop_first() =~= p);
        }
    }
}

// ---------------------------------------------------------------------------
// What a move does
// ---------------------------------------------------------------------------

/// `r` is `s` with the items at `i` and `j` exchanged and every other item
/// in its place.
pub open spec fn exchanged<A>(s: Seq<A>, i: int, j: int, r: Seq<A>) -> bool {
    &&& r.len() == s.len()
    &&& r[i] == s[j]
    &&& r[j] == s[i]
    &&& forall|k: int| 0 <= k < s.len() && k != i && k != j ==> #[trigger] r[k] == s[k]
}

/// A move of item `i` by `delta` that stays within a list of at least two
/// items.
pub open spec fn move_in_range(len: nat, i: usize, delta: isize) -> bool {
    2 <= len <= usize::MAX && i < len && 0 <= i + delta < len
}

proof fn lemma_reorder_seq_applied<A>(s: Seq<A>, i: usize, delta: isize)
    requires
        move_in_range(s.len(), i, delta),
    ensures
        reorder_seq(s, i, delta) matches Reorder::Applied(r, _) && exchanged(s, i as int, i + delta, r),
        moved_to(i, delta) == i + delta,
{
}

/// Moving top-level node `i` by `delta` within range exchanges it with the
/// node `delta` places away, keeps every other node, and selects it at its
/// new index.
pub proof fn law_move_body_node(t: SpecTemplate, i: usize, delta: isize)
    requires
        move_in_range(t.body.nodes.len(), i, delta),
    ensures
        reordered(t, seq![Step::BodyNode(i)], delta) matches Reorder::Applied(t2, q) && {
            &&& exchanged(t.body.nodes, i as int, i + delta, t2.body.nodes)
            &&& t2 == with_nodes(t, t2.body.nodes)
            &&& q == seq![Step::BodyNode((i + delta) as usize)]
        },
{
    lemma_reorder_seq_applied(t.body.nodes, i, delta);
}

/// Moving component `i` of a column by `delta` within range exchanges it
/// with the component `delta` places away, keeps every other component and
/// the column's own values, and selects it at its new index.
pub proof fn law_move_column_component(c: SpecMjColumn, i: usize, delta: isize)
    requires
        move_in_range(c.components.len(), i, delta),
    ensures
        reordered_column(c, seq![Step::ColComp(i)], delta) matches Reorder::Applied(c2, q) && {
            &&& exchanged(c.components, i as int, i + delta, c2.components)
            &&& c2 == (SpecMjColumn { components: c2.components, ..c })
            &&& q == seq![Step::ColComp((i + delta) as usize)]
        },
{
    lemma_reorder_seq_applied(c.components, i, delta);
}

/// Moving column `i` of a group by `delta` within range exchanges it with
/// the column `delta` places away, keeps every other column and the group's
/// own values, and selects it at its new index.
pub proof fn law_move_group_column(g: SpecMjGroup, i: usize, delta: isize)
    requires
        move_in_range(g.children.len(), i, delta),
    ensures
        reordered_group(g, seq![Step::GroupCol(i)], delta) matches Reorder::Applied(g2, q) && {
            &&& exchanged(g.children, i as int, i + delta, g2.children)
            &&& g2 == (SpecMjGroup { children: g2.children, ..g })
            &&& q == seq![Step::GroupCol((i + delta) as usize)]
        },
{
    lemma_reorder_seq_applied(g.children, i, delta);
}

/// Moving child `i` of a wrapper by `delta` within range exchanges it with
/// the child `delta` places away, keeps every other child and the wrapper's
/// own values, and selects it at its new index.
pub proof fn law_move_wrapper_child(w: SpecMjWrapper, i: usize, delta: isize)
    requires
        move_in_range(w.children.len(), i, delta),
    ensures
        reordered_node(SpecBodyNode::MjWrapper(w), seq![Step::WrapperChild(i)], delta) matches Reorder::Applied(
            SpecBodyNode::MjWrapper(w2),
            q,
        ) && {
            &&& exchanged(w.children, i as int, i + delta, w2.children)
            &&& w2 == (SpecMjWrapper { children: w2.children, ..w })
            &&& q == seq![Step::WrapperChild((i + delta) as usize)]
        },
{
    lemma_reorder_seq_applied(w.children, i, delta);
}

/// Moving child `i` of a section by `delta` within range exchanges it with
/// the child `delta` places away, keeps every other child and the section's
/// own values, and selects it at its new index.
pub proof fn law_move_section_child(s: SpecMjSection, i: usize, delta: isize)
    requires
        move_in_range(s.children.len(), i, delta),
    ensures
        reordered_node(SpecBodyNode::MjSection(s), seq![Step::SectionChild(i)], delta) matches Reorder::Applied(
            SpecBodyNode::MjSection(s2),
            q,
        ) && {
            &&& exchanged(s.children, i as int, i + delta, s2.children)
            &&& s2 == (SpecMjSection { children: s2.children, ..s })
            &&& q == seq![Step::SectionChild((i + delta) as usize)]
        },
{
    lemma_reorder_seq_applied(s.children, i, delta);
}

/// Moving child `i` of a hero by `delta` within range exchanges it with the
/// child `delta` places away, keeps every other child and the hero's own
/// values, and selects it at its new index.
pub proof fn law_move_hero_child(h: SpecMjHero, i: usize, delta: isize)
    requires
        move_in_range(h.children.len(), i, delta),
    ensures
        reordered_node(SpecBodyNode::MjHero(h), seq![Step::HeroChild(i)], delta) matches Reorder::Applied(
            SpecBodyNode::MjHero(h2),
            q,
        ) && {
            &&& exchanged(h.children, i as int, i + delta, h2.children)
            &&& h2 == (SpecMjHero { children: h2.children, ..h })
            &&& q == seq![Step::HeroChild((i + delta) as usize)]
        },
{
    lemma_reorder_seq_applied(h.children, i, delta);
}

/// Moving a component of a column that is a child of a top-level section,
/// within range, exchanges it with its neighbour in that column, changes
/// nothing else in the template, and selects it at its new index.
pub proof fn law_move_component_in_section_column(t: SpecTemplate, b: usize, j: usize, i: usize, delta: isize)
    requires
        b < t.body.nodes.len(),
        t.body.nodes[b as int] is MjSection,
        j < t.body.nodes[b as int]->MjSection_0.children.len(),
        t.body.nodes[b as int]->MjSection_0.children[j as int] is MjColumn,
        move_in_range(t.body.nodes[b as int]->MjSection_0.children[j as int]->MjColumn_0.components.len(), i, delta),
    ensures
        ({
            let s = t.body.nodes[b as int]->MjSection_0;
            let c = s.children[j as int]->MjColumn_0;
            reordered(t, seq![Step::BodyNode(b), Step::SectionChild(j), Step::ColComp(i)], delta) matches Reorder::Applied(t2, q)
                && {
                let s2 = t2.body.nodes[b as int]->MjSection_0;
                let c2 = s2.children[j as int]->MjColumn_0;
                &&& t2.body.nodes[b as int] is MjSection
                &&& s2.children[j as int] is MjColumn
                &&& exchanged(c.components, i as int, i + delta, c2.components)
                &&& c2 == (SpecMjColumn { components: c2.components, ..c })
                &&& s2 == (SpecMjSection { children: s.children.update(j as int, SpecSectionChild::MjColumn(c2)), ..s })
                &&& t2 == with_nodes(t, t.body.nodes.update(b as int, SpecBodyNode::MjSection(s2)))
                &&& q == seq![Step::BodyNode(b), Step::SectionChild(j), Step::ColComp((i + delta) as usize)]
            }
        }),
{
    let p = seq![Step::BodyNode(b), Step::SectionChild(j), Step::ColComp(i)];
    let s = t.body.nodes[b as int]->MjSection_0;
    let c = s.children[j as int]->MjColumn_0;
    law_move_column_component(c, i, delta);
    assert(p.drop_first() =~= seq![Step::SectionChild(j), Step::ColComp(i)]);
    assert(p.drop_first().drop_first() =~= seq![Step::ColComp(i)]);
    assert(seq![Step::BodyNode(b)] + (seq![Step::SectionChild(j)] + seq![Step::ColComp((i + delta) as usize)])
        =~= seq![Step::BodyNode(b), Step::SectionChild(j), Step::ColComp((i + delta) as usize)]);
}

// ---------------------------------------------------------------------------
// What a delete and a duplicate do
// ---------------------------------------------------------------------------

/// `r` is `s` without the item at `i`: the items before it in place, those
/// after it one place earlier.
pub open spec fn without_item<A>(s: Seq<A>, i: int, r: Seq<A>) -> bool {
    &&& r.len() + 1 == s.len()
    &&& forall|k: int| 0 <= k < i ==> #[trigger] r[k] == s[k]
    &&& forall|k: int| i <= k < r.len() ==> #[trigger] r[k] == s[k + 1]
}

/// `r` is `s` with a copy of the item at `i` right after it: the items up
/// to `i` in place, the copy at `i + 1`, the rest one place later.
pub open spec fn with_copy_after<A>(s: Seq<A>, i: int, r: Seq<A>) -> bool {
    &&& r.len() == s.len() + 1
    &&& forall|k: int| 0 <= k <= i ==> #[trigger] r[k] == s[k]
    &&& r[i + 1] == s[i]
    &&& forall|k: int| i + 1 < k < r.len() ==> #[trigger] r[k] == s[k - 1]
}

proof fn lemma_remove_is_without<A>(s: Seq<A>, i: int)
    requires
        0 <= i < s.len(),
    ensures
        without_item(s, i, s.remove(i)),
{
}

proof fn lemma_insert_is_copy<A>(s: Seq<A>, i: int)
    requires
        0 <= i < s.len(),
    ensures
        with_copy_after(s, i, s.insert(i + 1, s[i])),
{
}

/// Deleting component `i` of a column takes out exactly that item and keeps the
/// others in order, and everything else.
pub proof fn law_delete_column_component(c: SpecMjColumn, i: usize)
    requires
        i < c.components.len(),
    ensures
        removed_column(c, seq![Step::ColComp(i)]) matches Some(x2) && without_item(c.components, i as int, x2.components) && (x2 == (SpecMjColumn { components: x2.components, ..c })),
{
    lemma_remove_is_without(c.components, i as int);
}

/// Duplicating component `i` of a column puts a copy right after it, keeps the others in
/// order and everything else, and selects the copy.
pub proof fn law_duplicate_column_component(c: SpecMjColumn, i: usize)
    requires
        i < c.components.len() <= usize::MAX,
    ensures
        duplicated_column(c, seq![Step::ColComp(i)]) matches Some((x2, q)) && with_copy_after(c.components, i as int, x2.components) && (x2 == (SpecMjColumn { components: x2.components, ..c }))
            && q == seq![Step::ColComp((i + 1) as usize)],
{
    lemma_insert_is_copy(c.components, i as int);
}

/// Deleting column `i` of a group takes out exactly that item and keeps the
/// others in order, and everything else.
pub proof fn law_delete_group_column(g: SpecMjGroup, i: usize)
    requires
        i < g.children.len(),
    ensures
        removed_group(g, seq![Step::GroupCol(i)]) matches Some(x2) && without_item(g.children, i as int, x2.children) && (x2 == (SpecMjGroup { children: x2.children, ..g })),
{
    lemma_remove_is_without(g.children, i as int);
}

/// Duplicating column `i` of a group puts a copy right after it, keeps the others in
/// order and everything else, and selects the copy.
pub proof fn law_duplicate_group_column(g: SpecMjGroup, i: usize)
    requires
        i < g.children.len() <= usize::MAX,
    ensures
        duplicated_group(g, seq![Step::GroupCol(i)]) matches Some((x2, q)) && with_copy_after(g.children, i as int, x2.children) && (x2 == (SpecMjGroup { children: x2.children, ..g }))
            && q == seq![Step::GroupCol((i + 1) as usize)],
{
    lemma_insert_is_copy(g.children, i as int);
}

/// Deleting child `i` of a wrapper takes out exactly that item and keeps the
/// others in order, and everything else.
pub proof fn law_delete_wrapper_child(w: SpecMjWrapper, i: usize)
    requires
        i < w.children.len(),
    ensures
        removed_node(SpecBodyNode::MjWrapper(w), seq![Step::WrapperChild(i)]) matches Some(SpecBodyNode::MjWrapper(x2)) && without_item(w.children, i as int, x2.children) && (x2 == (SpecMjWrapper { children: x2.children, ..w })),
{
    lemma_remove_is_without(w.children, i as int);
}

/// Duplicating child `i` of a wrapper puts a copy right after it, keeps the others in
/// order and everything else, and selects the copy.
pub proof fn law_duplicate_wrapper_child(w: SpecMjWrapper, i: usize)
    requires
        i < w.children.len() <= usize::MAX,
    ensures
        duplicated_node(SpecBodyNode::MjWrapper(w), seq![Step::WrapperChild(i)]) matches Some((SpecBodyNode::MjWrapper(x2), q)) && with_copy_after(w.children, i as int, x2.children) && (x2 == (SpecMjWrapper { children: x2.children, ..w }))
            && q == seq![Step::WrapperChild((i + 1) as usize)],
{
    lemma_insert_is_copy(w.children, i as int);
}

/// Deleting child `i` of a section takes out exactly that item and keeps the
/// others in order, and everything else.
pub proof fn law_delete_section_child(s: SpecMjSection, i: usize)
    requires
        i < s.children.len(),
    ensures
        removed_node(SpecBodyNode::MjSection(s), seq![Step::SectionChild(i)]) matches Some(SpecBodyNode::MjSection(x2)) && without_item(s.children, i as int, x2.children) && (x2 == (SpecMjSection { children: x2.children, ..s })),
{
    lemma_remove_is_without(s.children, i as int);
}

/// Duplicating child `i` of a section puts a copy right after it, keeps the others in
/// order and everything else, and selects the copy.
pub proof fn law_duplicate_section_child(s: SpecMjSection, i: usize)
    requires
        i < s.children.len() <= usize::MAX,
    ensures
        duplicated_node(SpecBodyNode::MjSection(s), seq![Step::SectionChild(i)]) matches Some((SpecBodyNode::MjSection(x2), q)) && with_copy_after(s.children, i as int, x2.children) && (x2 == (SpecMjSection { children: x2.children, ..s }))
            && q == seq![Step::SectionChild((i + 1) as usize)],
{
    lemma_insert_is_copy(s.children, i as int);
}

/// Deleting child `i` of a hero takes out exactly that item and keeps the
/// others in order, and everything else.
pub proof fn law_delete_hero_child(h: SpecMjHero, i: usize)
    requires
        i < h.children.len(),
    ensures
        removed_node(SpecBodyNode::MjHero(h), seq![Step::HeroChild(i)]) matches Some(SpecBodyNode::MjHero(x2)) && without_item(h.children, i as int, x2.children) && (x2 == (SpecMjHero { children: x2.children, ..h })),
{
    lemma_remove_is_without(h.children, i as int);
}

/// Duplicating child `i` of a hero puts a copy right after it, keeps the others in
/// order and everything else, and selects the copy.
pub proof fn law_duplicate_hero_child(h: SpecMjHero, i: usize)
    requires
        i < h.children.len() <= usize::MAX,
    ensures
        duplicated_node(SpecBodyNode::MjHero(h), seq![Step::HeroChild(i)]) matches Some((SpecBodyNode::MjHero(x2), q)) && with_copy_after(h.children, i as int, x2.children) && (x2 == (SpecMjHero { children: x2.children, ..h }))
            && q == seq![Step::HeroChild((i + 1) as usize)],
{
    lemma_insert_is_copy(h.children, i as int);
}

/// Deleting top-level node `i` takes out exactly that item and keeps the
/// others in order, and everything else.
pub proof fn law_delete_body_node(t: SpecTemplate, i: usize)
    requires
        i < t.body.nodes.len(),
    ensures
        removed(t, seq![Step::BodyNode(i)]) matches Some(x2) && without_item(t.body.nodes, i as int, x2.body.nodes) && (x2 == with_nodes(t, x2.body.nodes)),
{
    lemma_remove_is_without(t.body.nodes, i as int);
}

/// Duplicating top-level node `i` puts a copy right after it, keeps the others in
/// order and everything else, and selects the copy.
pub proof fn law_duplicate_body_node(t: SpecTemplate, i: usize)
    requires
        i < t.body.nodes.len() <= usize::MAX,
    ensures
        duplicated(t, seq![Step::BodyNode(i)]) matches Some((x2, q)) && with_copy_after(t.body.nodes, i as int, x2.body.nodes) && (x2 == with_nodes(t, x2.body.nodes))
            && q == seq![Step::BodyNode((i + 1) as usize)],
{
    lemma_insert_is_copy(t.body.nodes, i as int);
}

} // verus!
