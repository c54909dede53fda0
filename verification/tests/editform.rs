use dd_emailforge::editform::forms::{head_form, social_form, text_form};
use dd_emailforge::editform::{EditForm, EditFormState, FieldKind, FieldPredicate, FormField};

fn text_field(id: &str, default: &str) -> FormField {
    FormField {
        id: id.to_string(),
        label: id.to_string(),
        kind: FieldKind::Text { default: default.to_string() },
        required: false,
        visible_when: None,
        hint: None,
        placeholder: None,
    }
}

fn conditional_form() -> EditForm {
    let mut shown_when_on = text_field("detail", "");
    shown_when_on.visible_when = Some(FieldPredicate::FieldEquals {
        other_id: "mode".to_string(),
        value: "on".to_string(),
    });
    EditForm {
        title: "cond".to_string(),
        fields: vec![
            FormField {
                id: "mode".to_string(),
                label: "Mode".to_string(),
                kind: FieldKind::Enum {
                    options: vec!["off".to_string(), "on".to_string()],
                    default: "off".to_string(),
                },
                required: true,
                visible_when: None,
                hint: None,
                placeholder: None,
            },
            shown_when_on,
            text_field("tail", "t"),
        ],
    }
}

#[test]
fn new_state_holds_defaults() {
    let s = EditFormState::new(head_form());
    assert_eq!(s.get("lang"), "en");
    assert_eq!(s.get("breakpoint"), "480px");
    assert_eq!(s.get("css_inline"), "false");
    assert_eq!(s.get("missing"), "");
    assert_eq!(s.focused_field, 0);
    assert_eq!(s.textarea_cursor, (0, 0));
    assert!(s.sub_state.iter().any(|(k, v)| k == "fonts" && v.is_empty()));
}

#[test]
fn get_after_set() {
    let mut s = EditFormState::new(text_form());
    s.set("content", "Hello");
    assert_eq!(s.get("content"), "Hello");
    s.set("content", "Bye");
    assert_eq!(s.get("content"), "Bye");
    s.set("extra", "x");
    assert_eq!(s.get("extra"), "x");
}

#[test]
fn visibility_follows_predicates() {
    let mut s = EditFormState::new(conditional_form());
    assert_eq!(s.visible_field_indices(), vec![0, 2]);
    assert!(!s.field_visible(&s.form.fields[1]));
    s.set("mode", "on");
    assert_eq!(s.visible_field_indices(), vec![0, 1, 2]);
}

#[test]
fn focus_round_trip_and_wrap() {
    let mut s = EditFormState::new(conditional_form());
    s.focus_next();
    assert_eq!(s.focused_field, 2);
    s.focus_next();
    assert_eq!(s.focused_field, 0);
    s.focus_prev();
    assert_eq!(s.focused_field, 2);
    s.focus_next();
    assert_eq!(s.focused_field, 0);
    assert_eq!(s.focused().unwrap().id, "mode");
}

#[test]
fn cycle_enum_round_trip() {
    let mut s = EditFormState::new(conditional_form());
    s.cycle_enum(true);
    assert_eq!(s.get("mode"), "on");
    s.cycle_enum(true);
    assert_eq!(s.get("mode"), "off");
    s.cycle_enum(false);
    assert_eq!(s.get("mode"), "on");
    s.cycle_enum(true);
    assert_eq!(s.get("mode"), "off");
    s.focused_field = 2;
    s.cycle_enum(true);
    assert_eq!(s.get("tail"), "t");
}

#[test]
fn field_index_and_sub_items() {
    let s = EditFormState::new(social_form());
    assert_eq!(s.field_index("icon_size"), Some(2));
    assert_eq!(s.field_index("nope"), None);
    let item = s.new_sub_item("elements").unwrap();
    assert_eq!(item.form.title, "social icon");
    assert_eq!(item.get("name"), "x");
    assert_eq!(item.get("href"), "https://example.com");
    assert!(s.new_sub_item("mode").is_none());
}
