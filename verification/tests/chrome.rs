use dd_emailforge::chrome::{
    default_save_name, fit_overlay, footer_hint, handle_event, save_step, Autosave, Chrome, Command,
    Input, KeyCode, KeyInput, MouseInput, MouseKind, Overlay, PaneFocus, SaveStep,
    AUTOSAVE_DEBOUNCE_MS,
};
use dd_emailforge::editor::ToastLevel;
use dd_emailforge::modal::{handle_modal_event, quit_prompt_modal, Modal, ModalResult};
use dd_emailforge::workflow::{no_template_notice, start_task, Task};

fn closed() -> Overlay {
    Overlay { open: false, scroll: 0, scroll_max: 0 }
}

fn chrome_app() -> Chrome {
    Chrome {
        help: closed(),
        theme: closed(),
        pane: PaneFocus::Structure,
        details_visible: false,
        dirty: false,
        should_quit: false,
    }
}

fn key(code: KeyCode) -> Input {
    Input::Key(KeyInput { code, ctrl: false, shift: false })
}

fn ctrl(c: char) -> Input {
    Input::Key(KeyInput { code: KeyCode::Char(c), ctrl: true, shift: false })
}

fn send_key(app: &mut Chrome, code: KeyCode) -> Command {
    handle_event(app, key(code), false)
}

#[test]
fn f1_opens_and_closes() {
    let mut app = chrome_app();
    send_key(&mut app, KeyCode::F(1));
    assert!(app.help.open);
    send_key(&mut app, KeyCode::F(1));
    assert!(!app.help.open);
}

#[test]
fn f2_opens_and_closes_with_f2_and_esc() {
    let mut app = chrome_app();
    send_key(&mut app, KeyCode::F(2));
    assert!(app.theme.open);
    assert_eq!(app.theme.scroll, 0);
    send_key(&mut app, KeyCode::Esc);
    assert!(!app.theme.open);
}

#[test]
fn f2_scroll_keys_update_theme_scroll() {
    let mut app = chrome_app();
    send_key(&mut app, KeyCode::F(2));
    app.theme.scroll_max = 5;
    send_key(&mut app, KeyCode::Down);
    assert_eq!(app.theme.scroll, 1);
    send_key(&mut app, KeyCode::Char('g'));
    assert_eq!(app.theme.scroll, 0);
}

#[test]
fn overlay_scroll_is_bounded_and_swallows_keys() {
    let mut app = chrome_app();
    send_key(&mut app, KeyCode::F(1));
    app.help.scroll_max = 12;
    assert_eq!(send_key(&mut app, KeyCode::PageDown), Command::Nothing);
    assert_eq!(app.help.scroll, 10);
    send_key(&mut app, KeyCode::PageDown);
    assert_eq!(app.help.scroll, 12);
    send_key(&mut app, KeyCode::Up);
    assert_eq!(app.help.scroll, 11);
    let wheel = Input::Mouse(MouseInput { kind: MouseKind::ScrollUp, column: 0, row: 0 });
    assert_eq!(handle_event(&mut app, wheel, false), Command::Nothing);
    assert_eq!(app.help.scroll, 8);
    assert_eq!(send_key(&mut app, KeyCode::Char('d')), Command::Nothing);
    send_key(&mut app, KeyCode::End);
    assert_eq!(app.help.scroll, 12);
    handle_event(&mut app, ctrl('q'), false);
    assert!(!app.should_quit);
    send_key(&mut app, KeyCode::Esc);
    assert!(!app.help.open);
    assert_eq!(app.help.scroll, 0);
}

#[test]
fn ctrl_q_quits() {
    let mut app = chrome_app();
    handle_event(&mut app, ctrl('q'), false);
    assert!(app.should_quit);
}

#[test]
fn q_without_modifiers_does_not_quit() {
    let mut app = chrome_app();
    send_key(&mut app, KeyCode::Char('q'));
    assert!(!app.should_quit);
}

#[test]
fn footer_hint_starts_with_f1_help_and_ctrl_q() {
    for width in [40u16, 80, 160] {
        let hint = footer_hint(false, false, width);
        assert!(
            hint.starts_with("F1:Help") || hint.starts_with("F1: Help"),
            "width {width}: {hint}"
        );
        assert!(
            hint.contains("C-q:Quit") || hint.contains("Ctrl+Q"),
            "width {width}: {hint}"
        );
        assert!(
            !hint.contains("q:Quit") || hint.contains("C-q:Quit") || hint.contains("Ctrl+Q:Quit") || hint.contains("Ctrl+Q: Quit"),
            "bare q:Quit must not appear, width {width}: {hint}"
        );
        let stripped = hint.replace("C-q:Quit", "").replace("Ctrl+Q: Quit", "").replace("Ctrl+Q:Quit", "");
        assert!(!stripped.contains("q:Quit"), "width {width}: {hint}");
        assert!(!hint.to_lowercase().contains("error"), "{hint}");
        assert!(!hint.to_lowercase().contains("warning"), "{hint}");
    }
}

#[test]
fn footer_hint_wide_mentions_mouse() {
    let hint = footer_hint(false, false, 160);
    assert!(hint.contains("mouse"), "{hint}");
}

#[test]
fn footer_marks_dirty() {
    let hint = footer_hint(true, false, 80);
    assert!(hint.starts_with("*  "), "{hint}");
    assert!(hint.contains("F3"), "{hint}");
}

#[test]
fn footer_exact_layouts() {
    assert_eq!(footer_hint(false, false, 79), "F1:Help  F2:Theme  F3:Val  s:Save  C-q:Quit");
    assert_eq!(
        footer_hint(false, false, 119),
        "F1: Help  F2: Theme  F3: Validate  s: Save  Ctrl+Q: Quit"
    );
    assert_eq!(footer_hint(false, true, 40), "F1:Help  Esc:Close  C-q:Quit");
    assert_eq!(footer_hint(true, true, 100), "*  F1:Help  Esc:Close  Ctrl+Q:Quit");
}

#[test]
fn p_without_template_toasts_warning() {
    let mut app = chrome_app();
    assert_eq!(send_key(&mut app, KeyCode::Char('p')), Command::Preview);
    let n = start_task(Task::Preview, false, false).unwrap();
    assert_eq!(n.level, ToastLevel::Warning);
    assert!(n.message.contains("No template open"));
}

#[test]
fn shift_e_without_template_toasts_warning() {
    let mut app = chrome_app();
    let cmd = handle_event(
        &mut app,
        Input::Key(KeyInput { code: KeyCode::Char('E'), ctrl: false, shift: true }),
        false,
    );
    assert_eq!(cmd, Command::Export);
    let n = start_task(Task::Export, false, false).unwrap();
    assert!(n.message.contains("No template open"));
    let n = start_task(Task::Export, true, false).unwrap();
    assert_eq!(n.message, "Save the template before exporting.");
    assert!(start_task(Task::Export, true, true).is_none());
}

#[test]
fn f3_without_template_toasts_warning() {
    let mut app = chrome_app();
    assert_eq!(send_key(&mut app, KeyCode::F(3)), Command::Validate);
    let n = no_template_notice();
    assert_eq!(n.level, ToastLevel::Warning);
    assert!(n.message.contains("No template open"));
}

#[test]
fn dirty_ctrl_q_opens_confirm() {
    let mut app = chrome_app();
    let mut saved = Autosave::new();
    saved.note_change(true, 1000);
    app.dirty = saved.dirty;
    assert!(app.dirty);
    assert_eq!(handle_event(&mut app, ctrl('q'), false), Command::ConfirmQuit);
    assert!(!app.should_quit);
    let mut modal = Some(quit_prompt_modal());
    match &modal {
        Some(Modal::ConfirmPrompt { .. }) => {}
        other => panic!("expected ConfirmPrompt, got {other:?}"),
    }
    assert_eq!(handle_event(&mut app, key(KeyCode::Char('y')), true), Command::Modal);
    let (r, _) = handle_modal_event(&mut app, &mut modal, key(KeyCode::Char('y')));
    assert_eq!(r, Some(ModalResult::CloseSuccess));
    assert!(app.should_quit);
    assert!(modal.is_none());
}

#[test]
fn save_without_path_opens_prompt() {
    let mut app = chrome_app();
    assert_eq!(send_key(&mut app, KeyCode::Char('s')), Command::Save);
    assert_eq!(save_step(true, false), SaveStep::Prompt);
    assert_eq!(default_save_name(), "template.json");
    assert_eq!(save_step(true, true), SaveStep::SaveToPath);
    assert_eq!(save_step(false, true), SaveStep::NoTemplate);
}

#[test]
fn shortcuts_map_to_commands() {
    let mut app = chrome_app();
    assert_eq!(send_key(&mut app, KeyCode::Char('d')), Command::DeleteRow);
    assert_eq!(send_key(&mut app, KeyCode::Char('y')), Command::DuplicateRow);
    assert_eq!(send_key(&mut app, KeyCode::Char('u')), Command::Undo);
    assert_eq!(send_key(&mut app, KeyCode::Char('J')), Command::Reorder(true));
    assert_eq!(send_key(&mut app, KeyCode::Char('K')), Command::Reorder(false));
    assert_eq!(send_key(&mut app, KeyCode::Char('C')), Command::AddColumn);
    assert_eq!(send_key(&mut app, KeyCode::Char('V')), Command::RemoveColumn);
    assert_eq!(send_key(&mut app, KeyCode::Char('c')), Command::HopColumn(false));
    assert_eq!(send_key(&mut app, KeyCode::Char('v')), Command::HopColumn(true));
    assert_eq!(send_key(&mut app, KeyCode::Char('/')), Command::OpenInsertPicker);
    assert_eq!(send_key(&mut app, KeyCode::Enter), Command::TreeEnter);
    let j = KeyInput { code: KeyCode::Char('j'), ctrl: false, shift: false };
    assert_eq!(send_key(&mut app, KeyCode::Char('j')), Command::TreeNav(j));
    assert_eq!(handle_event(&mut app, key(KeyCode::Char('x')), true), Command::Modal);
    assert_eq!(handle_event(&mut app, Input::Other, false), Command::Nothing);
}

#[test]
fn tab_switches_pane_only_with_details() {
    let mut app = chrome_app();
    send_key(&mut app, KeyCode::Tab);
    assert_eq!(app.pane, PaneFocus::Structure);
    app.details_visible = true;
    send_key(&mut app, KeyCode::Tab);
    assert_eq!(app.pane, PaneFocus::Details);
    send_key(&mut app, KeyCode::BackTab);
    assert_eq!(app.pane, PaneFocus::Structure);
}

#[test]
fn overlay_fits_to_text() {
    let mut o = Overlay { open: true, scroll: 30, scroll_max: 0 };
    fit_overlay(&mut o, 40, 15);
    assert_eq!(o.scroll_max, 25);
    assert_eq!(o.scroll, 25);
    fit_overlay(&mut o, 10, 15);
    assert_eq!(o.scroll_max, 0);
    assert_eq!(o.scroll, 0);
}

#[test]
fn autosave_waits_for_the_debounce() {
    let mut a = Autosave::new();
    assert!(!a.tick(10_000, true, true));
    a.note_change(true, 1_000);
    assert_eq!(a.dirty_since, Some(1_000));
    a.note_change(true, 1_500);
    assert_eq!(a.dirty_since, Some(1_000));
    assert!(!a.tick(1_000 + AUTOSAVE_DEBOUNCE_MS - 1, true, true));
    assert!(!a.tick(1_000 + AUTOSAVE_DEBOUNCE_MS, false, true));
    assert!(a.tick(1_000 + AUTOSAVE_DEBOUNCE_MS, true, true));
    a.saved();
    assert!(!a.dirty);
    assert!(!a.tick(99_000, true, true));
    let mut b = Autosave { dirty: true, dirty_since: None };
    assert!(!b.tick(5_000, true, true));
    assert_eq!(b.dirty_since, Some(5_000));
}
