use dd_emailforge::columns::{
    column_count, delete_current_column, empty_column, enclosing_columns, insert_column, is_last_column,
    ColOwnerKind,
};
use dd_emailforge::model::{BodyNode, MjGroup, MjSection, SectionChild, Template};
use dd_emailforge::starters::StarterKind;
use dd_emailforge::tree::{Step, TreeId};

fn widths_of_section(t: &Template, i: usize) -> Vec<Option<String>> {
    match &t.body.nodes[i] {
        BodyNode::MjSection(s) => s
            .children
            .iter()
            .map(|c| match c {
                SectionChild::MjColumn(c) => c.width.clone(),
                SectionChild::MjGroup(g) => g.width.clone(),
            })
            .collect(),
        _ => panic!("not a section"),
    }
}

fn group_template() -> Template {
    let mut t = Template::minimal();
    let g = MjGroup { width: None, background_color: None, children: vec![empty_column(), empty_column()] };
    let s = MjSection {
        background_color: None,
        padding: None,
        full_width: false,
        children: vec![SectionChild::MjGroup(g)],
    };
    t.body.nodes = vec![BodyNode::MjSection(s)];
    t
}

#[test]
fn section_owner_of_a_column() {
    let t = Template::starter(StarterKind::Welcome, "w");
    let id = TreeId::Path(vec![Step::BodyNode(2), Step::SectionChild(1)]);
    let owner = enclosing_columns(Some(&t), &id).unwrap();
    assert_eq!(owner.kind, ColOwnerKind::Section);
    assert_eq!(owner.owner_path, vec![Step::BodyNode(2)]);
    assert_eq!(owner.col_index, 1);
    assert_eq!(column_count(Some(&t), &owner), Some(2));
    assert!(enclosing_columns(Some(&t), &TreeId::Head).is_none());
    assert!(enclosing_columns(None, &id).is_none());
}

#[test]
fn insert_then_delete_column_rebalances() {
    let mut t = Template::starter(StarterKind::Welcome, "w");
    let id = TreeId::Path(vec![Step::BodyNode(2), Step::SectionChild(0)]);
    let owner = enclosing_columns(Some(&t), &id).unwrap();
    let new_id = insert_column(&mut t, &owner).unwrap();
    assert_eq!(new_id, TreeId::Path(vec![Step::BodyNode(2), Step::SectionChild(2)]));
    assert_eq!(column_count(Some(&t), &owner), Some(3));
    assert_eq!(
        widths_of_section(&t, 2),
        vec![Some("33%".to_string()), Some("33%".to_string()), Some("34%".to_string())]
    );
    let mut last = enclosing_columns(Some(&t), &new_id).unwrap();
    assert_eq!(last.col_index, 2);
    assert!(delete_current_column(&mut t, &last));
    assert_eq!(column_count(Some(&t), &owner), Some(2));
    assert_eq!(widths_of_section(&t, 2), vec![Some("50%".to_string()), Some("50%".to_string())]);
    last.col_index = 7;
    assert!(!delete_current_column(&mut t, &last));
}

#[test]
fn group_columns_insert_and_remove() {
    let mut t = group_template();
    let id = TreeId::Path(vec![Step::BodyNode(0), Step::SectionChild(0), Step::GroupCol(1)]);
    let owner = enclosing_columns(Some(&t), &id).unwrap();
    assert_eq!(owner.kind, ColOwnerKind::Group);
    assert_eq!(owner.owner_path, vec![Step::BodyNode(0), Step::SectionChild(0)]);
    assert_eq!(owner.col_index, 1);
    let new_id = insert_column(&mut t, &owner).unwrap();
    assert_eq!(
        new_id,
        TreeId::Path(vec![Step::BodyNode(0), Step::SectionChild(0), Step::GroupCol(2)])
    );
    assert_eq!(column_count(Some(&t), &owner), Some(3));
    assert!(delete_current_column(&mut t, &owner));
    assert_eq!(column_count(Some(&t), &owner), Some(2));
    if let BodyNode::MjSection(s) = &t.body.nodes[0] {
        if let SectionChild::MjGroup(g) = &s.children[0] {
            let w: Vec<_> = g.children.iter().map(|c| c.width.clone().unwrap()).collect();
            assert_eq!(w, vec!["50%", "50%"]);
        } else {
            panic!("group expected");
        }
    }
}

#[test]
fn only_column_cannot_go() {
    let mut t = Template::minimal();
    let path = [Step::BodyNode(0), Step::SectionChild(0)];
    assert!(is_last_column(Some(&t), &path));
    let owner = enclosing_columns(Some(&t), &TreeId::Path(path.to_vec())).unwrap();
    assert!(!delete_current_column(&mut t, &owner));
    assert_eq!(t, Template::minimal());
    let w = Template::starter(StarterKind::Welcome, "w");
    assert!(!is_last_column(Some(&w), &[Step::BodyNode(2), Step::SectionChild(0)]));
    assert!(!is_last_column(None, &path));
}
