use dd_emailforge::paths::{config_dir_from, join, library_dir, theme_candidates_from, theme_global};

#[test]
fn theme_candidates_honors_xdg_when_set() {
    let c = theme_candidates_from("dd_emailforge_theme.yml", Some("/tmp/xdg-config"), Some("/home/user"));
    assert_eq!(c.len(), 2);
    assert_eq!(c[0], ("dd_emailforge_theme.yml".to_string(), "local"));
    assert_eq!(
        c[1],
        ("/tmp/xdg-config/ldnddev/dd_emailforge_theme.yml".to_string(), "global")
    );
}

#[test]
fn theme_candidates_uses_home_when_xdg_unset() {
    let c = theme_candidates_from("dd_emailforge_theme.yml", None, Some("/home/user"));
    assert_eq!(
        c[1],
        ("/home/user/.config/ldnddev/dd_emailforge_theme.yml".to_string(), "global")
    );
}

#[test]
fn theme_candidates_ignores_empty_xdg() {
    let c = theme_candidates_from("dd_emailforge_theme.yml", Some(""), Some("/home/user"));
    assert_eq!(c[1].0, "/home/user/.config/ldnddev/dd_emailforge_theme.yml");
}

#[test]
fn config_dir_honors_xdg() {
    let dir = config_dir_from(Some("/tmp/xdg-config"), Some("/home/user"));
    assert_eq!(dir, "/tmp/xdg-config/ldnddev");
}

#[test]
fn config_helpers_point_at_ldnddev() {
    let dir = config_dir_from(None, Some("/home/user"));
    assert!(dir.ends_with("ldnddev"));
    assert!(theme_global(&dir).ends_with("dd_emailforge_theme.yml"));
    assert!(library_dir(&dir).ends_with("dd_emailforge/templates"));
}

#[test]
fn candidates_without_any_home() {
    let c = theme_candidates_from("local.yml", None, None);
    assert_eq!(c, vec![("local.yml".to_string(), "local")]);
}

#[test]
fn join_adds_one_separator() {
    assert_eq!(join("a", "b"), "a/b");
    assert_eq!(join("a/", "b"), "a/b");
    assert_eq!(join("", "b"), "b");
    assert_eq!(join("a", "/b"), "/b");
}
