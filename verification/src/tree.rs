//! Addresses of rows in the structure tree.
use vstd::prelude::*;

verus! {

/// One step of a path from the body root down to a node.
#[derive(Clone, Copy, Debug, PartialEq, Eq, Hash, Structural)]
pub enum Step {
    /// Index into the top-level body nodes (only as the first step).
    BodyNode(usize),
    /// Index into the children of an `<mj-wrapper>`.
    WrapperChild(usize),
    /// Index into the children of an `<mj-section>`.
    SectionChild(usize),
    /// Index into the children of an `<mj-hero>`.
    HeroChild(usize),
    /// Index into the columns of an `<mj-group>`.
    GroupCol(usize),
    /// Index into the components of a column.
    ColComp(usize),
    /// Index into the links of a navbar.
    NavbarLink(usize),
    /// Index into the elements of an accordion.
    AccordionEl(usize),
    /// Index into the images of a carousel.
    CarouselImg(usize),
}

/// A row of the structure tree.
#[derive(Debug, PartialEq, Eq, Hash)]
pub enum TreeId {
    /// The `<mj-head>` row.
    Head,
    /// The brand row.
    Brand,
    /// The `<mj-body>` row.
    Body,
    /// A node inside the body.
    Path(Vec<Step>),
}

/// The view of a [`TreeId`].
pub enum SpecTreeId {
    Head,
    Brand,
    Body,
    Path(Seq<Step>),
}

impl View for TreeId {
    type V = SpecTreeId;

    open spec fn view(&self) -> SpecTreeId {
        match self {
            TreeId::Head => SpecTreeId::Head,
            TreeId::Brand => SpecTreeId::Brand,
            TreeId::Body => SpecTreeId::Body,
            TreeId::Path(p) => SpecTreeId::Path(p@),
        }
    }
}

/// A copy of a path.
pub fn copy_path(p: &[Step]) -> (r: Vec<Step>)
    ensures
        r@ == p@,
{
    let mut r: Vec<Step> = Vec::new();
    let mut i: usize = 0;
    while i < p.len()
        invariant
            i <= p.len(),
            r@ == p@.take(i as int),
        decreases p.len() - i,
    {
        r.push(p[i]);
        i = i + 1;
        assert(r@ =~= p@.take(i as int));
    }
    assert(p@.take(p@.len() as int) =~= p@);
    r
}

impl Clone for TreeId {
    fn clone(&self) -> (r: Self)
        ensures
            r@ == self@,
    {
        match self {
            TreeId::Head => TreeId::Head,
            TreeId::Brand => TreeId::Brand,
            TreeId::Body => TreeId::Body,
            TreeId::Path(p) => TreeId::Path(copy_path(p.as_slice())),
        }
    }
}

} // verus!
