use dd_emailforge::details::{details_lines, details_title};
use dd_emailforge::model::Template;
use dd_emailforge::starters::StarterKind;
use dd_emailforge::tree::{Step, TreeId};

#[test]
fn title_names_the_row() {
    assert_eq!(details_title("mj-text"), "Details — mj-text");
}

#[test]
fn notices_without_template_or_row() {
    assert_eq!(details_lines(None, Some(&TreeId::Head), 40), vec!["No template open."]);
    let t = Template::minimal();
    assert_eq!(details_lines(Some(&t), None, 40), vec!["Nothing selected."]);
}

#[test]
fn head_lines_show_fonts_and_json_ld() {
    let mut t = Template::starter(StarterKind::Welcome, "w");
    t.head.json_ld = " {\"@type\": \"Organization\"} ".to_string();
    t.head.css = "a{}\nb{}\n".to_string();
    let lines = details_lines(Some(&t), Some(&TreeId::Head), 40);
    assert_eq!(lines[0], "subject:     You're in.");
    assert_eq!(lines[1], "preheader:   Here's what happens next.");
    assert_eq!(lines[6], "fonts:       Raleway (fonts.googleapis.com)");
    assert_eq!(lines[7], "json_ld:     Organization");
    assert_eq!(lines[8], "css:         2 lines");
    assert_eq!(lines[9], "css_inline:  false");
    t.head.json_ld = "[{\"x\":1},{\"@type\":\"Event\"}]".to_string();
    assert_eq!(details_lines(Some(&t), Some(&TreeId::Head), 40)[7], "json_ld:     Event");
    t.head.json_ld = "{oops".to_string();
    assert_eq!(details_lines(Some(&t), Some(&TreeId::Head), 40)[7], "json_ld:     (invalid JSON)");
    t.head.json_ld = "  ".to_string();
    assert_eq!(details_lines(Some(&t), Some(&TreeId::Head), 40)[7], "json_ld:     (empty)");
}

#[test]
fn body_drawing() {
    let t = Template::starter(StarterKind::Transactional, "t");
    let lines = details_lines(Some(&t), Some(&TreeId::Body), 20);
    assert_eq!(lines[0], "nodes: 3");
    assert_eq!(lines[1], "");
    assert_eq!(lines[2], "+------------------+");
    assert_eq!(lines[3], "| 600px canvas     |");
    assert_eq!(lines[4], "| 1. email-header  |");
    assert_eq!(lines[6], "| 3. email-footer  |");
    assert_eq!(lines[7], "+------------------+");
}

#[test]
fn section_and_leaf_lines() {
    let t = Template::starter(StarterKind::Welcome, "w");
    let lines = details_lines(Some(&t), Some(&TreeId::Path(vec![Step::BodyNode(2)])), 20);
    assert_eq!(lines[0], "children: 2");
    assert_eq!(lines[1], "");
    assert_eq!(lines[2], "+--------+--------+");
    assert_eq!(lines[3], "| 50%    | 50%    |");
    let leaf = details_lines(
        Some(&t),
        Some(&TreeId::Path(vec![Step::BodyNode(2), Step::SectionChild(0), Step::ColComp(0)])),
        20,
    );
    assert_eq!(leaf, vec!["mj-text  What you get: a weekly note, no spam."]);
    let missing = details_lines(Some(&t), Some(&TreeId::Path(vec![Step::BodyNode(9)])), 20);
    assert_eq!(missing, vec!["(missing node)"]);
    let footer = details_lines(Some(&t), Some(&TreeId::Path(vec![Step::BodyNode(4)])), 20);
    assert_eq!(footer[1], "address: 123 Main St / Springfield, IL 62701");
}
