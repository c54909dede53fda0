use dd_emailforge::editor::{EditOutcome, Editor, ToastLevel, UNDO_CAP};
use dd_emailforge::model::Template;
use dd_emailforge::starters::StarterKind;
use dd_emailforge::tree::{Step, TreeId};

fn welcome() -> Template {
    Template::starter(StarterKind::Welcome, "w")
}

fn message(o: &EditOutcome) -> (ToastLevel, String) {
    let n = o.notice.as_ref().expect("a notice");
    (n.level, n.message.clone())
}

#[test]
fn delete_then_undo_restores() {
    let mut e = Editor::new(Some(welcome()));
    let id = TreeId::Path(vec![Step::BodyNode(3)]);
    let o = e.delete_selected_row(Some(&id));
    assert_eq!(message(&o), (ToastLevel::Info, "Deleted.".to_string()));
    assert!(o.clamp_selection);
    assert_eq!(e.template.as_ref().unwrap().body.nodes.len(), 4);
    assert_eq!(e.undo_stack.len(), 1);
    let u = e.undo_last();
    assert_eq!(message(&u), (ToastLevel::Success, "Undid last change.".to_string()));
    assert_eq!(e.template, Some(welcome()));
    assert!(e.undo_stack.is_empty());
    let again = e.undo_last();
    assert_eq!(message(&again), (ToastLevel::Warning, "Nothing to undo.".to_string()));
    assert_eq!(e.template, Some(welcome()));
}

#[test]
fn delete_refusals() {
    let mut e = Editor::new(Some(welcome()));
    let o = e.delete_selected_row(None);
    assert_eq!(message(&o), (ToastLevel::Warning, "Nothing selected to delete.".to_string()));
    let o = e.delete_selected_row(Some(&TreeId::Head));
    assert_eq!(message(&o), (ToastLevel::Warning, "Cannot delete this row.".to_string()));
    let o = e.delete_selected_row(Some(&TreeId::Path(vec![Step::BodyNode(9)])));
    assert_eq!(message(&o), (ToastLevel::Warning, "Could not delete that row.".to_string()));
    assert!(e.undo_stack.is_empty());
    assert_eq!(e.template, Some(welcome()));

    let mut m = Editor::new(Some(Template::minimal()));
    let only = TreeId::Path(vec![Step::BodyNode(0), Step::SectionChild(0)]);
    let o = m.delete_selected_row(Some(&only));
    assert_eq!(message(&o), (ToastLevel::Info, "A section needs at least one column".to_string()));
    assert_eq!(m.template, Some(Template::minimal()));
}

#[test]
fn duplicate_selects_copy_and_undoes() {
    let mut e = Editor::new(Some(welcome()));
    let o = e.duplicate_selected_row(Some(&TreeId::Path(vec![Step::BodyNode(1)])));
    assert_eq!(message(&o), (ToastLevel::Success, "Duplicated.".to_string()));
    assert_eq!(o.select, Some(TreeId::Path(vec![Step::BodyNode(2)])));
    assert_eq!(e.template.as_ref().unwrap().body.nodes.len(), 6);
    e.undo_last();
    assert_eq!(e.template, Some(welcome()));
    let o = e.duplicate_selected_row(Some(&TreeId::Brand));
    assert_eq!(message(&o), (ToastLevel::Warning, "Cannot duplicate this row.".to_string()));
    let o = e.duplicate_selected_row(None);
    assert_eq!(message(&o), (ToastLevel::Warning, "Nothing selected to duplicate.".to_string()));
}

#[test]
fn reorder_moves_and_refuses() {
    let mut e = Editor::new(Some(welcome()));
    let o = e.reorder_selected(Some(&TreeId::Path(vec![Step::BodyNode(1)])), 1);
    assert_eq!(message(&o), (ToastLevel::Success, "Reordered.".to_string()));
    assert_eq!(o.select, Some(TreeId::Path(vec![Step::BodyNode(2)])));
    let o = e.reorder_selected(Some(&TreeId::Path(vec![Step::BodyNode(0)])), -1);
    assert!(o.notice.is_none());
    assert_eq!(e.undo_stack.len(), 1);
    e.undo_last();
    assert_eq!(e.template, Some(welcome()));
    let o = e.reorder_selected(Some(&TreeId::Body), 1);
    assert_eq!(message(&o), (ToastLevel::Info, "Cannot reorder this row.".to_string()));
}

#[test]
fn history_is_capped() {
    let mut e = Editor::new(Some(welcome()));
    for _ in 0..(UNDO_CAP + 5) {
        e.duplicate_selected_row(Some(&TreeId::Path(vec![Step::BodyNode(0)])));
    }
    assert_eq!(e.undo_stack.len(), UNDO_CAP);
    assert_eq!(e.template.as_ref().unwrap().body.nodes.len(), 5 + UNDO_CAP + 5);
}

#[test]
fn columns_add_remove_and_hop() {
    let mut e = Editor::new(Some(welcome()));
    let col = TreeId::Path(vec![Step::BodyNode(2), Step::SectionChild(1)]);
    let o = e.add_column(Some(&col));
    assert_eq!(message(&o), (ToastLevel::Success, "Added column.".to_string()));
    let new_col = TreeId::Path(vec![Step::BodyNode(2), Step::SectionChild(2)]);
    assert_eq!(o.select, Some(new_col.clone()));
    assert_eq!(o.expand, Some(vec![Step::BodyNode(2)]));
    assert!(o.expand_body);

    let h = e.hop_column(Some(&new_col), true);
    assert_eq!(h.select, Some(TreeId::Path(vec![Step::BodyNode(2), Step::SectionChild(0)])));
    let h = e.hop_column(Some(&col), false);
    assert_eq!(h.select, Some(TreeId::Path(vec![Step::BodyNode(2), Step::SectionChild(0)])));
    let h = e.hop_column(Some(&TreeId::Path(vec![Step::BodyNode(2), Step::SectionChild(0)])), false);
    assert_eq!(h.select, Some(new_col.clone()));

    let o = e.remove_column(Some(&new_col));
    assert_eq!(message(&o), (ToastLevel::Info, "Removed column.".to_string()));
    e.undo_last();
    e.undo_last();
    assert_eq!(e.template, Some(welcome()));

    let o = e.add_column(Some(&TreeId::Path(vec![Step::BodyNode(0)])));
    assert_eq!(message(&o), (ToastLevel::Info, "No columns on this selection".to_string()));
    let mut m = Editor::new(Some(Template::minimal()));
    let o = m.remove_column(Some(&TreeId::Path(vec![Step::BodyNode(0), Step::SectionChild(0)])));
    assert_eq!(message(&o), (ToastLevel::Info, "A section needs at least one column".to_string()));
}
