//! Finding and replacing body nodes addressed by a path of
//! `[BodyNode(i), WrapperChild(j), ...]` steps.
use vstd::prelude::*;

use crate::model::{
    lemma_seq_view_body_node, lemma_seq_view_body_node_update, BodyNode, MjSection, SpecBodyNode,
    SpecBody, SpecMjSection, SpecMjWrapper, SpecSectionChild, SpecTemplate, Template, wrapper_view,
    seq_view_body_node,
};
use crate::tree::Step;

verus! {

broadcast use lemma_seq_view_body_node;

/// The node that `p[k..]` reaches from `n`, walking only through wrapper children.
pub open spec fn node_in(n: SpecBodyNode, p: Seq<Step>, k: int) -> Option<SpecBodyNode>
    decreases p.len() - k,
{
    if k >= p.len() {
        Some(n)
    } else {
        match n {
            SpecBodyNode::MjWrapper(w) => match p[k] {
                Step::WrapperChild(j) => if j < w.children.len() {
                    node_in(w.children[j as int], p, k + 1)
                } else {
                    None
                },
                _ => None,
            },
            _ => None,
        }
    }
}

/// The body node a path addresses: a top-level node, then wrapper children.
pub open spec fn node_at(t: SpecTemplate, p: Seq<Step>) -> Option<SpecBodyNode> {
    if p.len() >= 1 {
        match p[0] {
            Step::BodyNode(i) => if i < t.body.nodes.len() {
                node_in(t.body.nodes[i as int], p, 1)
            } else {
                None
            },
            _ => None,
        }
    } else {
        None
    }
}

/// `n` with the node that `p[k..]` reaches replaced by `x` (unchanged when nothing is reached).
pub open spec fn set_in(n: SpecBodyNode, p: Seq<Step>, k: int, x: SpecBodyNode) -> SpecBodyNode
    decreases p.len() - k,
{
    if k >= p.len() {
        x
    } else {
        match n {
            SpecBodyNode::MjWrapper(w) => match p[k] {
                Step::WrapperChild(j) => if j < w.children.len() {
                    SpecBodyNode::MjWrapper(
                        SpecMjWrapper {
                            children: w.children.update(
                                j as int,
                                set_in(w.children[j as int], p, k + 1, x),
                            ),
                            ..w
                        },
                    )
                } else {
                    n
                },
                _ => n,
            },
            _ => n,
        }
    }
}

/// The template with the body nodes replaced.
pub open spec fn with_nodes(t: SpecTemplate, nodes: Seq<SpecBodyNode>) -> SpecTemplate {
    SpecTemplate { body: SpecBody { nodes: nodes, ..t.body }, ..t }
}

/// `t` with the node at `p` replaced by `x` (unchanged when `p` addresses nothing).
pub open spec fn set_node_at(t: SpecTemplate, p: Seq<Step>, x: SpecBodyNode) -> SpecTemplate {
    if p.len() >= 1 {
        match p[0] {
            Step::BodyNode(i) => if i < t.body.nodes.len() {
                with_nodes(
                    t,
                    t.body.nodes.update(i as int, set_in(t.body.nodes[i as int], p, 1, x)),
                )
            } else {
                t
            },
            _ => t,
        }
    } else {
        t
    }
}

/// The stand-in node left behind while a node is taken out for editing.
pub open spec fn placeholder_view() -> SpecBodyNode {
    SpecBodyNode::MjSection(
        SpecMjSection {
            background_color: None,
            padding: None,
            full_width: false,
            children: Seq::empty(),
        },
    )
}

/// Replacing a reached node and reading it back gives the new node; replacing twice
/// keeps only the second; putting the reached node back changes nothing.
pub proof fn lemma_set_in(n: SpecBodyNode, p: Seq<Step>, k: int, x: SpecBodyNode, z: SpecBodyNode)
    requires
        0 <= k <= p.len(),
        node_in(n, p, k) is Some,
    ensures
        node_in(set_in(n, p, k, x), p, k) == Some(x),
        set_in(set_in(n, p, k, x), p, k, z) == set_in(n, p, k, z),
        set_in(n, p, k, node_in(n, p, k)->0) == n,
    decreases p.len() - k,
{
    if k < p.len() {
        if let SpecBodyNode::MjWrapper(w) = n {
            if let Step::WrapperChild(j) = p[k] {
                lemma_set_in(w.children[j as int], p, k + 1, x, z);
                assert(w.children.update(j as int, w.children[j as int]) =~= w.children);
                let w1 = SpecMjWrapper {
                    children: w.children.update(j as int, set_in(w.children[j as int], p, k + 1, x)),
                    ..w
                };
                assert(w1.children.update(j as int, set_in(w1.children[j as int], p, k + 1, z))
                    =~= w.children.update(j as int, set_in(w.children[j as int], p, k + 1, z)));
            }
        }
    }
}

/// [`lemma_set_in`] lifted to whole templates.
pub proof fn lemma_set_node_at(t: SpecTemplate, p: Seq<Step>, x: SpecBodyNode, z: SpecBodyNode)
    requires
        node_at(t, p) is Some,
    ensures
        node_at(set_node_at(t, p, x), p) == Some(x),
        set_node_at(set_node_at(t, p, x), p, z) == set_node_at(t, p, z),
        set_node_at(t, p, node_at(t, p)->0) == t,
{
    if let Step::BodyNode(i) = p[0] {
        let n = t.body.nodes[i as int];
        lemma_set_in(n, p, 1, x, z);
        assert(t.body.nodes.update(i as int, n) =~= t.body.nodes);
        let t1 = set_node_at(t, p, x);
        assert(t1.body.nodes.update(i as int, set_in(t1.body.nodes[i as int], p, 1, z))
            =~= t.body.nodes.update(i as int, set_in(n, p, 1, z)));
    }
}

/// The stand-in node used by [`take_node`].
pub fn placeholder() -> (r: BodyNode)
    ensures
        r@ == placeholder_view(),
{
    let s = MjSection {
        background_color: None,
        padding: None,
        full_width: false,
        children: Vec::new(),
    };
    assert(s@.children =~= Seq::<SpecSectionChild>::empty());
    BodyNode::MjSection(s)
}

fn take_in(n: BodyNode, p: &[Step], k: usize) -> (r: (BodyNode, Option<BodyNode>))
    requires
        k <= p.len(),
    ensures
        match node_in(n@, p@, k as int) {
            Some(x) => r.1 is Some && r.1->0@ == x && r.0@ == set_in(n@, p@, k as int, placeholder_view()),
            None => r.1 is None && r.0@ == n@,
        },
    decreases p.len() - k,
{
    if k == p.len() {
        return (placeholder(), Some(n));
    }
    let ghost nv = n@;
    match n {
        BodyNode::MjWrapper(mut w) => match p[k] {
            Step::WrapperChild(j) => {
                if j < w.children.len() {
                    proof {
                        lemma_seq_view_body_node(w.children@);
                    }
                    let ghost old_children = w.children@;
                    let ghost old_w = wrapper_view(w);
                    let c = w.children.remove(j);
                    let (c2, got) = take_in(c, p, k + 1);
                    w.children.insert(j, c2);
                    proof {
                        assert(w.children@ =~= old_children.update(j as int, c2));
                        lemma_seq_view_body_node_update(old_children, j as int, c2);
                        assert(old_w.children[j as int] == c@);
                        assert(wrapper_view(w) == SpecMjWrapper {
                            children: old_w.children.update(j as int, c2@),
                            ..old_w
                        });
                    }
                    let r = (BodyNode::MjWrapper(w), got);
                    assert(set_in(nv, p@, k as int, placeholder_view()) == SpecBodyNode::MjWrapper(SpecMjWrapper {
                            children: old_w.children.update(j as int, set_in(c@, p@, k + 1, placeholder_view())),
                            ..old_w
                        }));
                    assert(old_w.children.update(j as int, old_w.children[j as int]) =~= old_w.children);
                    r
                } else {
                    assert(wrapper_view(w).children == seq_view_body_node(w.children@));
                    (BodyNode::MjWrapper(w), None)
                }
            },
            _ => (BodyNode::MjWrapper(w), None),
        },
        other => (other, None),
    }
}

fn put_in(n: BodyNode, p: &[Step], k: usize, x: BodyNode) -> (r: BodyNode)
    requires
        k <= p.len(),
    ensures
        r@ == set_in(n@, p@, k as int, x@),
    decreases p.len() - k,
{
    if k == p.len() {
        return x;
    }
    match n {
        BodyNode::MjWrapper(mut w) => match p[k] {
            Step::WrapperChild(j) => {
                if j < w.children.len() {
                    proof {
                        lemma_seq_view_body_node(w.children@);
                    }
                    let ghost old_children = w.children@;
                    let ghost old_w = wrapper_view(w);
                    let c = w.children.remove(j);
                    let c2 = put_in(c, p, k + 1, x);
                    w.children.insert(j, c2);
                    proof {
                        assert(w.children@ =~= old_children.update(j as int, c2));
                        lemma_seq_view_body_node_update(old_children, j as int, c2);
                        assert(old_w.children[j as int] == c@);
                        assert(wrapper_view(w) == SpecMjWrapper {
                            children: old_w.children.update(j as int, c2@),
                            ..old_w
                        });
                    }
                    BodyNode::MjWrapper(w)
                } else {
                    assert(wrapper_view(w).children == seq_view_body_node(w.children@));
                    BodyNode::MjWrapper(w)
                }
            },
            _ => BodyNode::MjWrapper(w),
        },
        other => other,
    }
}

/// Takes the node at `p` out of the template, leaving [`placeholder`] in its place.
pub fn take_node(t: &mut Template, p: &[Step]) -> (r: Option<BodyNode>)
    ensures
        match node_at(old(t)@, p@) {
            Some(x) => r is Some && r->0@ == x && final(t)@ == set_node_at(
                old(t)@,
                p@,
                placeholder_view(),
            ),
            None => r is None && final(t)@ == old(t)@,
        },
{
    if p.len() == 0 {
        return None;
    }
    match p[0] {
        Step::BodyNode(i) => {
            if i < t.body.nodes.len() {
                proof {
                    lemma_seq_view_body_node(t.body.nodes@);
                }
                let ghost old_nodes = t.body.nodes@;
                let ghost old_view = seq_view_body_node(old_nodes);
                let n = t.body.nodes.remove(i);
                let (n2, got) = take_in(n, p, 1);
                t.body.nodes.insert(i, n2);
                proof {
                    assert(t.body.nodes@ =~= old_nodes.update(i as int, n2));
                    lemma_seq_view_body_node_update(old_nodes, i as int, n2);
                    assert(old_view[i as int] == n@);
                    assert(old_view.update(i as int, old_view[i as int]) =~= old_view);
                }
                got
            } else {
                None
            }
        },
        _ => None,
    }
}

/// Puts `x` at `p` (the template is unchanged when `p` addresses nothing).
pub fn put_node(t: &mut Template, p: &[Step], x: BodyNode)
    ensures
        final(t)@ == set_node_at(old(t)@, p@, x@),
{
    if p.len() == 0 {
        return;
    }
    match p[0] {
        Step::BodyNode(i) => {
            if i < t.body.nodes.len() {
                proof {
                    lemma_seq_view_body_node(t.body.nodes@);
                }
                let ghost old_nodes = t.body.nodes@;
                let n = t.body.nodes.remove(i);
                let n2 = put_in(n, p, 1, x);
                t.body.nodes.insert(i, n2);
                proof {
                    assert(t.body.nodes@ =~= old_nodes.update(i as int, n2));
                    lemma_seq_view_body_node_update(old_nodes, i as int, n2);
                }
            }
        },
        _ => {},
    }
}

/// The node at `p`, if `p` addresses one.
pub fn node_at_ref<'a>(t: &'a Template, p: &[Step]) -> (r: Option<&'a BodyNode>)
    ensures
        match node_at(t@, p@) {
            Some(x) => r is Some && r->0@ == x,
            None => r is None,
        },
{
    if p.len() == 0 {
        return None;
    }
    let i = match p[0] {
        Step::BodyNode(i) => i,
        _ => return None,
    };
    if i >= t.body.nodes.len() {
        return None;
    }
    proof {
        lemma_seq_view_body_node(t.body.nodes@);
    }
    let mut node: &BodyNode = &t.body.nodes[i];
    let mut k: usize = 1;
    while k < p.len()
        invariant
            1 <= k <= p.len(),
            node_at(t@, p@) == node_in(node@, p@, k as int),
        decreases p.len() - k,
    {
        match node {
            BodyNode::MjWrapper(w) => match p[k] {
                Step::WrapperChild(j) => {
                    if j < w.children.len() {
                        proof {
                            lemma_seq_view_body_node(w.children@);
                        }
                        node = &w.children[j];
                    } else {
                        assert(wrapper_view(*w).children == seq_view_body_node(w.children@));
                        return None;
                    }
                },
                _ => return None,
            },
            _ => {
                assert(node@ !is MjWrapper);
                return None;
            },
        }
        k = k + 1;
    }
    Some(node)
}

} // verus!
