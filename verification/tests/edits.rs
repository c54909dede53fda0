use dd_emailforge::columns::rebalance_widths;
use dd_emailforge::edits::{duplicate_path, remove_path, reorder_path, swap_index};
use dd_emailforge::model::{BodyNode, Template};
use dd_emailforge::starters::StarterKind;
use dd_emailforge::tree::Step;

#[test]
fn rebalance_examples() {
    assert_eq!(rebalance_widths(2), vec!["50%", "50%"]);
    assert_eq!(rebalance_widths(3), vec!["33%", "33%", "34%"]);
    assert_eq!(rebalance_widths(4), vec!["25%", "25%", "25%", "25%"]);
}

#[test]
fn rebalance_edges_and_total() {
    assert!(rebalance_widths(0).is_empty());
    assert_eq!(rebalance_widths(1), vec!["100%"]);
    assert_eq!(rebalance_widths(7), vec!["14%", "14%", "14%", "14%", "14%", "14%", "16%"]);
    for n in 1..=12usize {
        let total: u32 = rebalance_widths(n)
            .iter()
            .map(|w| w.trim_end_matches('%').parse::<u32>().unwrap())
            .sum();
        assert_eq!(total, 100, "n = {n}");
    }
}

#[test]
fn delete_undoes_duplicate() {
    let original = Template::starter(StarterKind::Welcome, "w");
    let mut t = Template::starter(StarterKind::Welcome, "w");
    let new_path = duplicate_path(&mut t, &[Step::BodyNode(1)]).unwrap();
    assert_eq!(new_path, vec![Step::BodyNode(2)]);
    assert_eq!(t.body.nodes.len(), 6);
    assert!(remove_path(&mut t, &new_path));
    assert_eq!(t, original);
}

#[test]
fn duplicate_and_delete_column_component() {
    let original = Template::starter(StarterKind::Transactional, "t");
    let mut t = Template::starter(StarterKind::Transactional, "t");
    let p = [Step::BodyNode(1), Step::SectionChild(0), Step::ColComp(1)];
    let q = duplicate_path(&mut t, &p).unwrap();
    assert_eq!(q, vec![Step::BodyNode(1), Step::SectionChild(0), Step::ColComp(2)]);
    assert!(remove_path(&mut t, &q));
    assert_eq!(t, original);
}

#[test]
fn remove_refuses_missing_rows() {
    let mut t = Template::starter(StarterKind::Transactional, "t");
    assert!(!remove_path(&mut t, &[Step::BodyNode(9)]));
    assert!(!remove_path(&mut t, &[]));
    assert_eq!(t, Template::starter(StarterKind::Transactional, "t"));
    assert!(remove_path(&mut t, &[Step::BodyNode(0)]));
    assert_eq!(t.body.nodes.len(), 2);
}

#[test]
fn reorder_back_restores() {
    let original = Template::starter(StarterKind::Newsletter, "n");
    let mut t = Template::starter(StarterKind::Newsletter, "n");
    let moved = reorder_path(&mut t, &[Step::BodyNode(2)], 1).unwrap();
    assert_eq!(moved, vec![Step::BodyNode(3)]);
    assert!(matches!(t.body.nodes[3], BodyNode::EmailArticle(_)));
    let back = reorder_path(&mut t, &moved, -1).unwrap();
    assert_eq!(back, vec![Step::BodyNode(2)]);
    assert_eq!(t, original);
}

#[test]
fn reorder_refuses_out_of_range() {
    let mut t = Template::starter(StarterKind::Newsletter, "n");
    assert!(reorder_path(&mut t, &[Step::BodyNode(0)], -1).is_none());
    assert!(reorder_path(&mut t, &[Step::BodyNode(5)], 1).is_none());
    assert_eq!(t, Template::starter(StarterKind::Newsletter, "n"));
}

#[test]
fn swap_index_moves_and_refuses() {
    let mut v = vec![1, 2, 3];
    assert_eq!(swap_index(&mut v, 0, 2), Some(2));
    assert_eq!(v, vec![3, 2, 1]);
    assert_eq!(swap_index(&mut v, 1, 5), None);
    let mut one = vec![7];
    assert_eq!(swap_index(&mut one, 0, 0), None);
}
