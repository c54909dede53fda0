use dd_emailforge::chrome::{Chrome, KeyCode, KeyInput, MouseInput, MouseKind, Overlay, PaneFocus};
use dd_emailforge::panes::{
    clamp_tree_scroll, contains, fit_details, follow_selection, scrollbar_thumb, tree_mouse, tree_nav, Area,
    MouseAction, PaneGeometry, Panes, TreeMove,
};

fn chrome(details: bool, pane: PaneFocus) -> Chrome {
    let o = Overlay { open: false, scroll: 0, scroll_max: 0 };
    Chrome { help: o, theme: o, pane, details_visible: details, dirty: false, should_quit: false }
}

fn panes() -> Panes {
    Panes { details_scroll: 0, details_scroll_max: 4, tree_scroll: 0, selected_row: 0 }
}

fn k(code: KeyCode) -> KeyInput {
    KeyInput { code, ctrl: false, shift: false }
}

fn geometry() -> PaneGeometry {
    PaneGeometry {
        tree_area: Area { x: 0, y: 3, width: 30, height: 12 },
        details_area: Area { x: 30, y: 3, width: 50, height: 12 },
        rows: 25,
    }
}

fn mouse(kind: MouseKind, column: u16, row: u16) -> MouseInput {
    MouseInput { kind, column, row }
}

#[test]
fn nav_moves_tree_or_scrolls_details() {
    let tree = chrome(true, PaneFocus::Structure);
    let mut p = panes();
    assert_eq!(tree_nav(&tree, &mut p, k(KeyCode::Down)), TreeMove::By(1));
    assert_eq!(tree_nav(&tree, &mut p, k(KeyCode::Char('k'))), TreeMove::By(-1));
    assert_eq!(tree_nav(&tree, &mut p, k(KeyCode::PageDown)), TreeMove::By(10));
    assert_eq!(tree_nav(&tree, &mut p, k(KeyCode::Home)), TreeMove::First);
    assert_eq!(tree_nav(&tree, &mut p, k(KeyCode::Char('G'))), TreeMove::Last);
    assert_eq!(tree_nav(&tree, &mut p, k(KeyCode::Char('h'))), TreeMove::Collapse);
    assert_eq!(tree_nav(&tree, &mut p, k(KeyCode::Right)), TreeMove::Expand);
    assert_eq!(tree_nav(&tree, &mut p, k(KeyCode::Char(' '))), TreeMove::Toggle);
    let shifted_g = KeyInput { code: KeyCode::Char('g'), ctrl: false, shift: true };
    assert_eq!(tree_nav(&tree, &mut p, shifted_g), TreeMove::Nothing);
    assert_eq!(p, panes());

    let details = chrome(true, PaneFocus::Details);
    assert_eq!(tree_nav(&details, &mut p, k(KeyCode::Down)), TreeMove::Nothing);
    assert_eq!(p.details_scroll, 1);
    tree_nav(&details, &mut p, k(KeyCode::PageDown));
    assert_eq!(p.details_scroll, 4);
    tree_nav(&details, &mut p, k(KeyCode::Up));
    assert_eq!(p.details_scroll, 3);
    tree_nav(&details, &mut p, k(KeyCode::Home));
    assert_eq!(p.details_scroll, 0);
    tree_nav(&details, &mut p, k(KeyCode::End));
    assert_eq!(p.details_scroll, 4);
    assert_eq!(tree_nav(&details, &mut p, k(KeyCode::Left)), TreeMove::Nothing);

    let hidden = chrome(false, PaneFocus::Details);
    assert_eq!(tree_nav(&hidden, &mut p, k(KeyCode::Down)), TreeMove::By(1));
}

#[test]
fn mouse_clicks_select_rows_and_links() {
    let g = geometry();
    let mut c = chrome(true, PaneFocus::Details);
    let mut p = panes();
    p.tree_scroll = 2;
    let hits = vec![Area { x: 30, y: 5, width: 50, height: 1 }, Area { x: 30, y: 5, width: 10, height: 1 }];
    let r = tree_mouse(&mut c, &mut p, &g, mouse(MouseKind::LeftDown, 10, 6), None, &hits);
    assert_eq!(r, MouseAction::RowClick { toggle: false, open: false });
    assert_eq!(p.selected_row, 4);
    assert_eq!(c.pane, PaneFocus::Structure);
    let r = tree_mouse(&mut c, &mut p, &g, mouse(MouseKind::LeftDown, 2, 6), Some((2, 6)), &hits);
    assert_eq!(r, MouseAction::RowClick { toggle: true, open: true });
    let r = tree_mouse(&mut c, &mut p, &g, mouse(MouseKind::LeftDown, 10, 3), None, &hits);
    assert_eq!(r, MouseAction::Nothing);
    let r = tree_mouse(&mut c, &mut p, &g, mouse(MouseKind::LeftDown, 35, 5), None, &hits);
    assert_eq!(r, MouseAction::DetailsLink(1));
    assert_eq!(c.pane, PaneFocus::Details);
    let r = tree_mouse(&mut c, &mut p, &g, mouse(MouseKind::LeftDown, 60, 5), None, &hits);
    assert_eq!(r, MouseAction::DetailsLink(0));
    let r = tree_mouse(&mut c, &mut p, &g, mouse(MouseKind::LeftDown, 60, 9), None, &hits);
    assert_eq!(r, MouseAction::Nothing);
}

#[test]
fn mouse_wheel_scrolls_the_pane_under_it() {
    let g = geometry();
    let mut c = chrome(true, PaneFocus::Structure);
    let mut p = panes();
    tree_mouse(&mut c, &mut p, &g, mouse(MouseKind::ScrollDown, 40, 5), None, &vec![]);
    assert_eq!(p.details_scroll, 3);
    tree_mouse(&mut c, &mut p, &g, mouse(MouseKind::ScrollDown, 40, 5), None, &vec![]);
    assert_eq!(p.details_scroll, 4);
    for _ in 0..10 {
        tree_mouse(&mut c, &mut p, &g, mouse(MouseKind::ScrollDown, 5, 5), None, &vec![]);
    }
    assert_eq!(p.tree_scroll, 15);
    tree_mouse(&mut c, &mut p, &g, mouse(MouseKind::ScrollUp, 5, 5), None, &vec![]);
    assert_eq!(p.tree_scroll, 12);
    tree_mouse(&mut c, &mut p, &g, mouse(MouseKind::ScrollUp, 100, 100), None, &vec![]);
    assert_eq!(p.tree_scroll, 12);
}

#[test]
fn area_edges() {
    let a = Area { x: 2, y: 2, width: 3, height: 1 };
    assert!(contains(a, 2, 2));
    assert!(contains(a, 4, 2));
    assert!(!contains(a, 5, 2));
    assert!(!contains(a, 3, 3));
    let wide = Area { x: 65530, y: 0, width: 100, height: 1 };
    assert!(contains(wide, 65534, 0));
    assert!(!contains(wide, 65535, 0));
}

#[test]
fn selection_stays_visible_and_scrolls_clamp() {
    let mut p = panes();
    p.selected_row = 20;
    follow_selection(&mut p, 10);
    assert_eq!(p.tree_scroll, 11);
    p.selected_row = 3;
    follow_selection(&mut p, 10);
    assert_eq!(p.tree_scroll, 3);
    p.tree_scroll = 40;
    clamp_tree_scroll(&mut p, 25, 10);
    assert_eq!(p.tree_scroll, 15);
    p.details_scroll = 9;
    fit_details(&mut p, 12, 5);
    assert_eq!(p.details_scroll_max, 7);
    assert_eq!(p.details_scroll, 7);
    fit_details(&mut p, 3, 5);
    assert_eq!(p.details_scroll, 0);
}

#[test]
fn scrollbar_thumb_examples() {
    assert_eq!(scrollbar_thumb(10, 40, 0), (0, 2));
    assert_eq!(scrollbar_thumb(10, 40, 30), (8, 2));
    assert_eq!(scrollbar_thumb(10, 1000, 0), (0, 1));
    assert_eq!(scrollbar_thumb(10, 20, 5), (2, 5));
}
