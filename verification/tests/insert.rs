use dd_emailforge::columns::empty_column;
use dd_emailforge::edits::remove_path;
use dd_emailforge::insert::{
    insert_after_accordion_el, insert_after_body_node, insert_after_carousel_img, insert_after_leaf,
    insert_after_navbar_link, insert_body, insert_column_after, insert_leaf_in_section, insert_on_accordion,
    insert_on_carousel, insert_on_column, insert_on_hero, insert_on_navbar, insert_on_wrapper,
};
use dd_emailforge::model::{
    BodyNode, ColumnChild, HeroMode, MjAccordion, MjAccordionElement, MjCarousel, MjCarouselImage, MjGroup, MjHero,
    MjNavbar, MjNavbarLink, MjSection, MjText, MjWrapper, SectionChild, Template, Thumbnails,
};
use dd_emailforge::starters::StarterKind;
use dd_emailforge::tree::Step;

fn text(s: &str) -> ColumnChild {
    ColumnChild::MjText(MjText {
        content: s.to_string(),
        align: None,
        font_size: None,
        font_family: None,
        color: None,
        padding: None,
    })
}

fn section(children: Vec<SectionChild>) -> MjSection {
    MjSection { background_color: None, padding: None, full_width: false, children }
}

fn hero() -> MjHero {
    MjHero {
        mode: HeroMode::FluidHeight,
        background_url: None,
        background_color: None,
        background_height: None,
        width: None,
        height: None,
        children: vec![text("h")],
    }
}

fn link(s: &str) -> MjNavbarLink {
    MjNavbarLink { href: s.to_string(), content: s.to_string(), color: None, padding: None }
}

fn element(s: &str) -> MjAccordionElement {
    MjAccordionElement { title: s.to_string(), content: s.to_string(), background_color: None }
}

fn image(s: &str) -> MjCarouselImage {
    MjCarouselImage { src: s.to_string(), alt: s.to_string(), href: None, thumbnails_src: None }
}

fn with_nodes(nodes: Vec<BodyNode>) -> Template {
    let mut t = Template::minimal();
    t.body.nodes = nodes;
    t
}

#[test]
fn body_insert_then_delete_restores() {
    let original = Template::starter(StarterKind::Welcome, "w");
    let mut t = Template::starter(StarterKind::Welcome, "w");
    let q = insert_body(&mut t, 99, BodyNode::MjSection(section(vec![])));
    assert_eq!(q, vec![Step::BodyNode(5)]);
    assert!(remove_path(&mut t, &q));
    assert_eq!(t, original);
    let q = insert_after_body_node(&mut t, &[Step::BodyNode(1)], BodyNode::MjHero(hero())).unwrap();
    assert_eq!(q, vec![Step::BodyNode(2)]);
    assert!(matches!(t.body.nodes[2], BodyNode::MjHero(_)));
    assert!(insert_after_body_node(&mut t, &[], BodyNode::MjHero(hero())).is_none());
}

#[test]
fn wrapper_takes_sections_and_heroes_only() {
    let w = MjWrapper {
        background_color: None,
        padding: None,
        full_width: false,
        children: vec![BodyNode::MjSection(section(vec![]))],
    };
    let mut t = with_nodes(vec![BodyNode::MjWrapper(w)]);
    let before = with_nodes(t.body.nodes.iter().map(|n| n.clone()).collect());
    let q = insert_after_body_node(&mut t, &[Step::BodyNode(0), Step::WrapperChild(0)], BodyNode::MjHero(hero()))
        .unwrap();
    assert_eq!(q, vec![Step::BodyNode(0), Step::WrapperChild(1)]);
    let q2 = insert_on_wrapper(&mut t, &[Step::BodyNode(0)], BodyNode::MjSection(section(vec![]))).unwrap();
    assert_eq!(q2, vec![Step::BodyNode(0), Step::WrapperChild(2)]);
    let refused = Template::starter(StarterKind::Welcome, "w").body.nodes.remove(3);
    assert!(insert_on_wrapper(&mut t, &[Step::BodyNode(0)], refused).is_none());
    assert!(remove_path(&mut t, &q2));
    assert!(remove_path(&mut t, &q));
    assert_eq!(t, before);
}

#[test]
fn components_into_columns() {
    let mut t = Template::minimal();
    let col = [Step::BodyNode(0), Step::SectionChild(0)];
    let q = insert_on_column(&mut t, &col, text("end")).unwrap();
    assert_eq!(q, vec![Step::BodyNode(0), Step::SectionChild(0), Step::ColComp(1)]);
    let q2 = insert_after_leaf(&mut t, &[Step::BodyNode(0), Step::SectionChild(0), Step::ColComp(0)], text("mid"))
        .unwrap();
    assert_eq!(q2, vec![Step::BodyNode(0), Step::SectionChild(0), Step::ColComp(1)]);
    if let BodyNode::MjSection(s) = &t.body.nodes[0] {
        if let SectionChild::MjColumn(c) = &s.children[0] {
            assert_eq!(c.components.len(), 3);
            assert_eq!(c.components[1], text("mid"));
            assert_eq!(c.components[2], text("end"));
        }
    }
    assert!(remove_path(&mut t, &q2));
    assert!(remove_path(&mut t, &q));
    assert_eq!(t, Template::minimal());
    assert!(insert_on_column(&mut t, &[Step::BodyNode(0)], text("x")).is_none());
    assert!(insert_after_leaf(&mut t, &[Step::BodyNode(0)], text("x")).is_none());
}

#[test]
fn components_into_sections() {
    let mut t = Template::minimal();
    let q = insert_leaf_in_section(&mut t, &[Step::BodyNode(0)], text("x")).unwrap();
    assert_eq!(q, vec![Step::BodyNode(0), Step::SectionChild(0), Step::ColComp(1)]);

    let mut e = with_nodes(vec![BodyNode::MjSection(section(vec![]))]);
    let q = insert_leaf_in_section(&mut e, &[Step::BodyNode(0)], text("x")).unwrap();
    assert_eq!(q, vec![Step::BodyNode(0), Step::SectionChild(0), Step::ColComp(0)]);
    if let BodyNode::MjSection(s) = &e.body.nodes[0] {
        if let SectionChild::MjColumn(c) = &s.children[0] {
            assert_eq!(c.width.as_deref(), Some("100%"));
            assert_eq!(c.components, vec![text("x")]);
        }
    }

    let g = MjGroup { width: None, background_color: None, children: vec![] };
    let mut gt = with_nodes(vec![BodyNode::MjSection(section(vec![SectionChild::MjGroup(g)]))]);
    let q = insert_leaf_in_section(&mut gt, &[Step::BodyNode(0)], text("x")).unwrap();
    assert_eq!(
        q,
        vec![Step::BodyNode(0), Step::SectionChild(0), Step::GroupCol(0), Step::ColComp(0)]
    );
    assert!(insert_leaf_in_section(&mut gt, &[Step::BodyNode(7)], text("x")).is_none());
}

#[test]
fn column_after_rebalances() {
    let mut t = Template::starter(StarterKind::Welcome, "w");
    let q = insert_column_after(&mut t, &[Step::BodyNode(2), Step::SectionChild(0)]).unwrap();
    assert_eq!(q, vec![Step::BodyNode(2), Step::SectionChild(1)]);
    if let BodyNode::MjSection(s) = &t.body.nodes[2] {
        let widths: Vec<_> = s
            .children
            .iter()
            .map(|c| match c {
                SectionChild::MjColumn(c) => c.width.clone().unwrap(),
                SectionChild::MjGroup(_) => String::new(),
            })
            .collect();
        assert_eq!(widths, vec!["33%", "33%", "34%"]);
        if let SectionChild::MjColumn(c) = &s.children[1] {
            assert!(c.components.is_empty());
        }
    }
    let g = MjGroup { width: None, background_color: None, children: vec![empty_column(), empty_column()] };
    let mut gt = with_nodes(vec![BodyNode::MjSection(section(vec![SectionChild::MjGroup(g)]))]);
    let q = insert_column_after(&mut gt, &[Step::BodyNode(0), Step::SectionChild(0), Step::GroupCol(0)]).unwrap();
    assert_eq!(q, vec![Step::BodyNode(0), Step::SectionChild(0), Step::GroupCol(1)]);
    assert!(insert_column_after(&mut gt, &[Step::BodyNode(0)]).is_none());
}

#[test]
fn hero_children() {
    let mut t = with_nodes(vec![BodyNode::MjHero(hero())]);
    let q = insert_on_hero(&mut t, &[Step::BodyNode(0)], text("b")).unwrap();
    assert_eq!(q, vec![Step::BodyNode(0), Step::HeroChild(1)]);
    let q2 = insert_after_leaf(&mut t, &[Step::BodyNode(0), Step::HeroChild(0)], text("a")).unwrap();
    assert_eq!(q2, vec![Step::BodyNode(0), Step::HeroChild(1)]);
    assert!(remove_path(&mut t, &q2));
    assert!(remove_path(&mut t, &q));
    assert_eq!(t, with_nodes(vec![BodyNode::MjHero(hero())]));
}

#[test]
fn links_elements_and_images() {
    let nav = ColumnChild::MjNavbar(MjNavbar {
        hamburger: false,
        ico_color: None,
        base_url: None,
        align: None,
        padding: None,
        links: vec![link("a")],
    });
    let acc = ColumnChild::MjAccordion(MjAccordion { border: None, padding: None, elements: vec![element("a")] });
    let car = ColumnChild::MjCarousel(MjCarousel {
        align: None,
        padding: None,
        thumbnails: Thumbnails::Visible,
        images: vec![image("a")],
    });
    let mut col = empty_column();
    col.components = vec![nav, acc, car];
    let mut t = with_nodes(vec![BodyNode::MjSection(section(vec![SectionChild::MjColumn(col)]))]);
    let at = |i: usize| vec![Step::BodyNode(0), Step::SectionChild(0), Step::ColComp(i)];
    let mut p = at(0);
    assert_eq!(insert_on_navbar(&mut t, &p, link("c")).unwrap(), [p.clone(), vec![Step::NavbarLink(1)]].concat());
    p.push(Step::NavbarLink(0));
    assert_eq!(
        insert_after_navbar_link(&mut t, &p, link("b")).unwrap(),
        [at(0), vec![Step::NavbarLink(1)]].concat()
    );
    let p = at(1);
    assert_eq!(insert_on_accordion(&mut t, &p, element("c")).unwrap(), [p.clone(), vec![Step::AccordionEl(1)]].concat());
    let q = [p.clone(), vec![Step::AccordionEl(0)]].concat();
    assert_eq!(insert_after_accordion_el(&mut t, &q, element("b")).unwrap(), [p, vec![Step::AccordionEl(1)]].concat());
    let p = at(2);
    assert_eq!(insert_on_carousel(&mut t, &p, image("c")).unwrap(), [p.clone(), vec![Step::CarouselImg(1)]].concat());
    let q = [p.clone(), vec![Step::CarouselImg(0)]].concat();
    assert_eq!(insert_after_carousel_img(&mut t, &q, image("b")).unwrap(), [p, vec![Step::CarouselImg(1)]].concat());
    if let BodyNode::MjSection(s) = &t.body.nodes[0] {
        if let SectionChild::MjColumn(c) = &s.children[0] {
            match &c.components[0] {
                ColumnChild::MjNavbar(n) => {
                    let names: Vec<_> = n.links.iter().map(|l| l.href.clone()).collect();
                    assert_eq!(names, vec!["a", "b", "c"]);
                }
                _ => panic!("navbar expected"),
            }
            match &c.components[2] {
                ColumnChild::MjCarousel(k) => assert_eq!(k.images.len(), 3),
                _ => panic!("carousel expected"),
            }
        }
    }
    assert!(insert_on_navbar(&mut t, &at(1), link("x")).is_none());
    assert!(insert_after_navbar_link(&mut t, &at(0), link("x")).is_none());
}
