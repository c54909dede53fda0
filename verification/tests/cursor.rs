use dd_emailforge::cursor::values::FormError;
use dd_emailforge::cursor::{apply_form, form_for};
use dd_emailforge::model::{BodyNode, ColumnChild, SectionChild, Template};
use dd_emailforge::starters::StarterKind;
use dd_emailforge::tree::{Step, TreeId};

#[test]
fn head_form_round_trip() {
    let original = Template::starter(StarterKind::Welcome, "w");
    let mut t = Template::starter(StarterKind::Welcome, "w");
    let st = form_for(&t, &TreeId::Head).unwrap();
    assert_eq!(st.get("subject"), "You're in.");
    assert_eq!(st.get("css_inline"), "false");
    assert!(apply_form(&mut t, &TreeId::Head, &st).is_ok());
    assert_eq!(t, original);
}

#[test]
fn brand_form_reads_width() {
    let mut t = Template::starter(StarterKind::Promo, "p");
    let mut st = form_for(&t, &TreeId::Brand).unwrap();
    assert_eq!(st.get("content_width"), "600");
    st.set("content_width", " 640 ");
    st.set("text_color", "  #000 ");
    assert!(apply_form(&mut t, &TreeId::Brand, &st).is_ok());
    assert_eq!(t.brand.content_width, 640);
    assert_eq!(t.brand.text_color, "#000");
    st.set("content_width", "wide");
    match apply_form(&mut t, &TreeId::Brand, &st) {
        Err(e) => assert_eq!(e.message(), "content_width must be a number"),
        Ok(()) => panic!("expected an error"),
    }
}

#[test]
fn text_leaf_edit() {
    let mut t = Template::starter(StarterKind::Transactional, "t");
    let id = TreeId::Path(vec![Step::BodyNode(1), Step::SectionChild(0), Step::ColComp(0)]);
    let mut st = form_for(&t, &id).unwrap();
    assert_eq!(st.get("content"), "Thanks — your order is confirmed.");
    st.set("content", "Paid.");
    st.set("align", " center ");
    st.set("color", "   ");
    assert!(apply_form(&mut t, &id, &st).is_ok());
    match &t.body.nodes[1] {
        BodyNode::MjSection(s) => match &s.children[0] {
            SectionChild::MjColumn(c) => match &c.components[0] {
                ColumnChild::MjText(x) => {
                    assert_eq!(x.content, "Paid.");
                    assert_eq!(x.align, Some(dd_emailforge::model::Align::Center));
                    assert_eq!(x.color, None);
                }
                other => panic!("unexpected {other:?}"),
            },
            other => panic!("unexpected {other:?}"),
        },
        other => panic!("unexpected {other:?}"),
    }
}

#[test]
fn invalid_align_stops_the_write() {
    let mut t = Template::starter(StarterKind::Transactional, "t");
    let id = TreeId::Path(vec![Step::BodyNode(1), Step::SectionChild(0), Step::ColComp(0)]);
    let mut st = form_for(&t, &id).unwrap();
    st.set("content", "New");
    st.set("align", "middle");
    match apply_form(&mut t, &id, &st) {
        Err(FormError::InvalidAlign(v)) => assert_eq!(v, "middle"),
        _ => panic!("expected InvalidAlign"),
    }
    let e = apply_form(&mut t, &id, &st).unwrap_err();
    assert_eq!(e.message(), "invalid align: middle");
}

#[test]
fn missing_path_is_reported() {
    let mut t = Template::starter(StarterKind::Transactional, "t");
    let id = TreeId::Path(vec![Step::BodyNode(7)]);
    assert!(form_for(&t, &id).is_none());
    let st = form_for(&t, &TreeId::Body).unwrap();
    assert!(matches!(apply_form(&mut t, &id, &st), Err(FormError::MissingNode)));
    assert_eq!(t, Template::starter(StarterKind::Transactional, "t"));
}

#[test]
fn footer_lines_and_bools() {
    let mut t = Template::starter(StarterKind::Welcome, "w");
    let id = TreeId::Path(vec![Step::BodyNode(4)]);
    let mut st = form_for(&t, &id).unwrap();
    assert_eq!(st.get("address_lines"), "123 Main St\nSpringfield, IL 62701");
    st.set("address_lines", "One\n  \nTwo\n");
    assert!(apply_form(&mut t, &id, &st).is_ok());
    match &t.body.nodes[4] {
        BodyNode::EmailFooter(f) => assert_eq!(f.address_lines, vec!["One", "Two"]),
        other => panic!("unexpected {other:?}"),
    }
    let sec = TreeId::Path(vec![Step::BodyNode(2)]);
    let mut st = form_for(&t, &sec).unwrap();
    st.set("full_width", "maybe");
    let e = apply_form(&mut t, &sec, &st).unwrap_err();
    assert_eq!(e.message(), "expected true/false, got maybe");
}

fn paths_of(t: &Template) -> Vec<Vec<Step>> {
    let mut out = Vec::new();
    for (i, n) in t.body.nodes.iter().enumerate() {
        let p = vec![Step::BodyNode(i)];
        out.push(p.clone());
        if let BodyNode::MjSection(s) = n {
            for (j, c) in s.children.iter().enumerate() {
                let q = [p.clone(), vec![Step::SectionChild(j)]].concat();
                out.push(q.clone());
                if let SectionChild::MjColumn(col) = c {
                    for k in 0..col.components.len() {
                        out.push([q.clone(), vec![Step::ColComp(k)]].concat());
                    }
                }
            }
        }
    }
    out
}

#[test]
fn unedited_forms_write_back_unchanged() {
    for kind in [StarterKind::Welcome, StarterKind::Newsletter, StarterKind::Promo, StarterKind::Transactional] {
        let original = Template::starter(kind, "s");
        for p in paths_of(&original) {
            let mut t = Template::starter(kind, "s");
            let id = TreeId::Path(p.clone());
            let st = form_for(&t, &id).unwrap();
            assert!(apply_form(&mut t, &id, &st).is_ok(), "{p:?}");
            assert_eq!(t, original, "{p:?}");
        }
    }
}

#[test]
fn footer_form_drops_blank_address_lines() {
    let mut t = Template::starter(StarterKind::Welcome, "w");
    let i = t
        .body
        .nodes
        .iter()
        .position(|n| matches!(n, BodyNode::EmailFooter(_)))
        .unwrap();
    if let BodyNode::EmailFooter(f) = &mut t.body.nodes[i] {
        f.address_lines = vec!["1 Main St".to_string(), "   ".to_string(), "Springfield".to_string()];
    }
    let id = TreeId::Path(vec![Step::BodyNode(i)]);
    let st = form_for(&t, &id).unwrap();
    assert_eq!(st.get("address_lines"), "1 Main St\n   \nSpringfield");
    assert!(apply_form(&mut t, &id, &st).is_ok());
    match &t.body.nodes[i] {
        BodyNode::EmailFooter(f) => assert_eq!(f.address_lines, vec!["1 Main St".to_string(), "Springfield".to_string()]),
        _ => panic!("footer moved"),
    }
}
