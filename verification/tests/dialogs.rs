use dd_emailforge::chrome::{Chrome, Input, KeyCode, KeyInput, MouseInput, MouseKind, Overlay, PaneFocus};
use dd_emailforge::editor::ToastLevel;
use dd_emailforge::mjml::{CompileResult, MjmlError};
use dd_emailforge::modal::{handle_modal_event, Modal, ModalEffect, ModalResult};
use dd_emailforge::picker::{
    filter_entries, image_picker_key, is_image_url_field, open_picker, order_entries, DirEntryRow, ImagePicker,
    PickerOutcome,
};
use dd_emailforge::workflow::{
    answer_validation, browser_opened, check_report, compile_failure, discovery_failure, export_finished,
    preview_origin,
};

fn chrome() -> Chrome {
    let o = Overlay { open: false, scroll: 0, scroll_max: 0 };
    Chrome { help: o, theme: o, pane: PaneFocus::Structure, details_visible: false, dirty: false, should_quit: false }
}

fn key(code: KeyCode) -> Input {
    Input::Key(KeyInput { code, ctrl: false, shift: false })
}

fn typed(s: &str) -> Vec<Input> {
    s.chars().map(|c| key(KeyCode::Char(c))).collect()
}

#[test]
fn save_prompt_typing_and_confirming() {
    let mut c = chrome();
    let mut m = Some(Modal::SavePrompt { path: String::new() });
    for i in typed(" out.json") {
        handle_modal_event(&mut c, &mut m, i);
    }
    handle_modal_event(&mut c, &mut m, key(KeyCode::Char('x')));
    handle_modal_event(&mut c, &mut m, key(KeyCode::Backspace));
    match &m {
        Some(Modal::SavePrompt { path }) => assert_eq!(path, " out.json"),
        other => panic!("expected SavePrompt, got {other:?}"),
    }
    let (r, e) = handle_modal_event(&mut c, &mut m, key(KeyCode::Enter));
    assert_eq!(r, Some(ModalResult::CloseSuccess));
    assert!(m.is_none());
    match e {
        ModalEffect::Save { target, prompt } => {
            assert_eq!(target, "out.json");
            assert_eq!(prompt, " out.json");
        }
        other => panic!("expected Save, got {other:?}"),
    }
}

#[test]
fn save_prompt_refuses_blank_and_cancels() {
    let mut c = chrome();
    let mut m = Some(Modal::SavePrompt { path: "  ".to_string() });
    let (r, e) = handle_modal_event(&mut c, &mut m, key(KeyCode::Enter));
    assert_eq!(r, Some(ModalResult::Continue));
    match e {
        ModalEffect::Toast(n) => {
            assert_eq!(n.level, ToastLevel::Warning);
            assert_eq!(n.message, "Save path cannot be empty.");
        }
        other => panic!("expected a warning, got {other:?}"),
    }
    assert!(m.is_some());
    let (r, e) = handle_modal_event(&mut c, &mut m, key(KeyCode::Esc));
    assert_eq!(r, Some(ModalResult::CloseCancel));
    assert!(matches!(e, ModalEffect::Toast(ref n) if n.message == "Save cancelled."));
    assert!(m.is_none());
    let (r, _) = handle_modal_event(&mut c, &mut m, key(KeyCode::Enter));
    assert_eq!(r, None);
}

#[test]
fn modal_f1_and_ctrl_q() {
    let mut c = chrome();
    let mut m = Some(Modal::LoadError { message: "bad".to_string() });
    let (r, _) = handle_modal_event(&mut c, &mut m, key(KeyCode::F(1)));
    assert_eq!(r, Some(ModalResult::Continue));
    assert!(c.help.open);
    c.help.open = false;
    c.dirty = true;
    handle_modal_event(&mut c, &mut m, Input::Key(KeyInput { code: KeyCode::Char('q'), ctrl: true, shift: false }));
    assert!(matches!(m, Some(Modal::ConfirmPrompt { .. })));
    let (r, e) = handle_modal_event(&mut c, &mut m, key(KeyCode::Char('n')));
    assert_eq!(r, Some(ModalResult::CloseCancel));
    assert!(matches!(e, ModalEffect::Toast(ref n) if n.message == "Cancelled."));
    assert!(!c.should_quit);
    let mut l = Some(Modal::LoadError { message: "bad".to_string() });
    let wheel = Input::Mouse(MouseInput { kind: MouseKind::ScrollDown, column: 1, row: 1 });
    assert_eq!(handle_modal_event(&mut c, &mut l, wheel).0, Some(ModalResult::Continue));
    assert!(l.is_some());
    assert_eq!(handle_modal_event(&mut c, &mut l, key(KeyCode::Enter)).0, Some(ModalResult::CloseSuccess));
    assert!(l.is_none());
}

#[test]
fn validation_list_scrolls_within_errors() {
    let mut c = chrome();
    let errors = vec!["a".to_string(), "b".to_string(), "c".to_string()];
    let mut m = Some(Modal::ValidationErrors { errors, scroll_offset: 0 });
    let offset = |m: &Option<Modal>| match m {
        Some(Modal::ValidationErrors { scroll_offset, .. }) => *scroll_offset,
        _ => panic!("closed"),
    };
    handle_modal_event(&mut c, &mut m, key(KeyCode::Down));
    handle_modal_event(&mut c, &mut m, key(KeyCode::Char('j')));
    handle_modal_event(&mut c, &mut m, key(KeyCode::Down));
    assert_eq!(offset(&m), 2);
    handle_modal_event(&mut c, &mut m, key(KeyCode::PageUp));
    assert_eq!(offset(&m), 0);
    handle_modal_event(&mut c, &mut m, key(KeyCode::PageDown));
    assert_eq!(offset(&m), 2);
    handle_modal_event(&mut c, &mut m, key(KeyCode::Char('k')));
    assert_eq!(offset(&m), 1);
    handle_modal_event(&mut c, &mut m, key(KeyCode::Esc));
    assert!(m.is_none());

    let mut e = Some(Modal::MjmlCompileError { stderr: "x".to_string(), scroll: 0 });
    handle_modal_event(&mut c, &mut e, key(KeyCode::Down));
    handle_modal_event(&mut c, &mut e, key(KeyCode::Down));
    handle_modal_event(&mut c, &mut e, key(KeyCode::Up));
    assert!(matches!(e, Some(Modal::MjmlCompileError { scroll: 1, .. })));
}

fn entries() -> Vec<DirEntryRow> {
    vec![
        DirEntryRow { name: "Icons".to_string(), is_dir: true },
        DirEntryRow { name: "hero.PNG".to_string(), is_dir: false },
        DirEntryRow { name: "logo.png".to_string(), is_dir: false },
    ]
}

#[test]
fn filter_is_case_insensitive_and_ordered() {
    let f = filter_entries(&entries(), "PNG");
    let names: Vec<_> = f.iter().map(|e| e.name.clone()).collect();
    assert_eq!(names, vec!["hero.PNG", "logo.png"]);
    assert_eq!(filter_entries(&entries(), "").len(), 3);
    assert!(filter_entries(&entries(), "gif").is_empty());
}

#[test]
fn picker_browses_and_picks_relative_paths() {
    let mut p = open_picker("/tmp/site");
    assert_eq!(p.cwd, "/tmp/site/images");
    let es = entries();
    let down = KeyInput { code: KeyCode::Down, ctrl: false, shift: false };
    assert!(matches!(image_picker_key(&mut p, down, &es), PickerOutcome::Continue));
    image_picker_key(&mut p, down, &es);
    image_picker_key(&mut p, down, &es);
    assert_eq!(p.selected, 2);
    let enter = KeyInput { code: KeyCode::Enter, ctrl: false, shift: false };
    match image_picker_key(&mut p, enter, &es) {
        PickerOutcome::Picked(v) => assert_eq!(v, "images/logo.png"),
        other => panic!("expected a pick, got {other:?}"),
    }
    p.selected = 0;
    image_picker_key(&mut p, enter, &es);
    assert_eq!(p.cwd, "/tmp/site/images/Icons");
    let left = KeyInput { code: KeyCode::Left, ctrl: false, shift: false };
    image_picker_key(&mut p, left, &es);
    assert_eq!(p.cwd, "/tmp/site/images");
    image_picker_key(&mut p, left, &es);
    assert_eq!(p.cwd, "/tmp/site");
    image_picker_key(&mut p, left, &es);
    assert_eq!(p.cwd, "/tmp/site");
}

#[test]
fn picker_filter_keys() {
    let mut p = ImagePicker {
        root: "/r".to_string(),
        cwd: "/r/images".to_string(),
        filter: String::new(),
        selected: 1,
    };
    let es = entries();
    for c in ['o', 'g', '!', 'l'] {
        image_picker_key(&mut p, KeyInput { code: KeyCode::Char(c), ctrl: false, shift: false }, &es);
    }
    assert_eq!(p.filter, "ogl");
    assert_eq!(p.selected, 0);
    image_picker_key(&mut p, KeyInput { code: KeyCode::Backspace, ctrl: false, shift: false }, &es);
    assert_eq!(p.filter, "og");
    let esc = KeyInput { code: KeyCode::Esc, ctrl: false, shift: false };
    assert!(matches!(image_picker_key(&mut p, esc, &es), PickerOutcome::Cancelled));
    assert!(is_image_url_field("src"));
    assert!(is_image_url_field("hero_src"));
    assert!(is_image_url_field("background_url"));
    assert!(!is_image_url_field("href"));
}

#[test]
fn reports_become_notices_or_modals() {
    let ok = answer_validation(vec![], vec!["w1".to_string()]).unwrap();
    assert_eq!(ok.len(), 2);
    assert_eq!(ok[0].message, "Validation passed");
    assert_eq!(ok[1].level, ToastLevel::Warning);
    assert_eq!(ok[1].message, "w1");
    match answer_validation(vec!["name is empty".to_string()], vec![]) {
        Err(Modal::ValidationErrors { errors, scroll_offset }) => {
            assert_eq!(errors, vec!["name is empty"]);
            assert_eq!(scroll_offset, 0);
        }
        other => panic!("expected ValidationErrors, got {other:?}"),
    }
    let go = check_report(vec![], vec!["a".to_string(), "b".to_string()]).unwrap();
    assert_eq!(go.len(), 2);
    assert!(check_report(vec!["e".to_string()], vec![]).is_err());
}

#[test]
fn compile_outcomes() {
    let done = export_finished(Ok(CompileResult { html_bytes: 120_000 }), "/t/template.html").unwrap();
    assert_eq!(done[0].message, "Exported /t/template.html");
    assert_eq!(done[1].level, ToastLevel::Warning);
    assert!(done[1].message.contains("120000"));
    let small = export_finished(Ok(CompileResult { html_bytes: 10 }), "x.html").unwrap();
    assert_eq!(small.len(), 1);
    match export_finished(Err(MjmlError::Compile { stderr: "boom".to_string() }), "x") {
        Err(Modal::MjmlCompileError { stderr, scroll }) => {
            assert_eq!(stderr, "boom");
            assert_eq!(scroll, 0);
        }
        other => panic!("unexpected {other:?}"),
    }
    match compile_failure(MjmlError::NotFound { searched: vec!["a".to_string()] }) {
        Modal::MjmlMissing { searched } => assert_eq!(searched, vec!["a"]),
        other => panic!("unexpected {other:?}"),
    }
    match discovery_failure(MjmlError::Timeout) {
        Modal::MjmlCompileError { stderr, .. } => assert!(!stderr.is_empty()),
        other => panic!("unexpected {other:?}"),
    }
    assert_eq!(preview_origin(8123), "http://127.0.0.1:8123");
    assert_eq!(browser_opened("u", Ok(())).message, "Preview u");
    let failed = browser_opened("u", Err("no opener".to_string()));
    assert_eq!(failed.level, ToastLevel::Warning);
    assert_eq!(failed.message, "Open browser failed: no opener");
}

#[test]
fn listing_hides_dotfiles_and_puts_folders_first() {
    let raw = vec![
        DirEntryRow { name: "zeta.png".to_string(), is_dir: false },
        DirEntryRow { name: ".gitkeep".to_string(), is_dir: false },
        DirEntryRow { name: "Beta".to_string(), is_dir: true },
        DirEntryRow { name: "alpha.PNG".to_string(), is_dir: false },
        DirEntryRow { name: "alpha".to_string(), is_dir: true },
        DirEntryRow { name: ".cache".to_string(), is_dir: true },
        DirEntryRow { name: "Alpha.png".to_string(), is_dir: false },
    ];
    let names: Vec<(String, bool)> = order_entries(&raw).into_iter().map(|e| (e.name, e.is_dir)).collect();
    assert_eq!(
        names,
        vec![
            ("alpha".to_string(), true),
            ("Beta".to_string(), true),
            ("alpha.PNG".to_string(), false),
            ("Alpha.png".to_string(), false),
            ("zeta.png".to_string(), false),
        ]
    );
}
