use dd_emailforge::storage::{
    backup_path_for, check_version, resolve_template_path, template_json_in, template_root,
    temp_path_for, with_trailing_newline, LoadError, ResolveError,
};

#[test]
fn resolve_missing_path_errors() {
    let err = resolve_template_path("/no/such/template.json", false, false, false).unwrap_err();
    assert!(err.message().contains("not found"));
}

#[test]
fn resolve_directory_finds_template_json() {
    let dir = "/tmp/some-dir";
    let json = template_json_in(dir);
    assert_eq!(json, "/tmp/some-dir/template.json");
    assert_eq!(resolve_template_path(dir, true, true, false).unwrap(), json);
}

#[test]
fn resolve_directory_without_json_errors() {
    match resolve_template_path("/tmp/d", true, false, false) {
        Err(ResolveError::NoTemplateJson(p)) => assert_eq!(p, "/tmp/d"),
        _ => panic!("expected NoTemplateJson"),
    }
    let e = resolve_template_path("/tmp/d", true, false, false).unwrap_err();
    assert_eq!(e.message(), "no template.json in directory '/tmp/d'");
    assert_eq!(resolve_template_path("a.json", false, false, true).unwrap(), "a.json");
}

#[test]
fn backup_path_appends_backup() {
    let p = "/tmp/template.json";
    assert_eq!(backup_path_for(p), "/tmp/template.json.backup");
}

#[test]
fn load_missing_version() {
    match check_version(None) {
        Err(LoadError::MissingVersion) => {}
        _ => panic!("expected MissingVersion"),
    }
}

#[test]
fn load_unsupported_version() {
    match check_version(Some(2)) {
        Err(LoadError::UnsupportedVersion(2)) => {}
        _ => panic!("expected UnsupportedVersion(2)"),
    }
    assert!(check_version(Some(1)).is_ok());
    assert_eq!(
        LoadError::UnsupportedVersion(2).message(),
        "unsupported template.json version 2 (expected 1)"
    );
    assert_eq!(LoadError::MissingVersion.message(), "missing template.json version (expected 1)");
}

#[test]
fn template_root_and_temp_paths() {
    assert_eq!(template_root("/tmp/x/template.json"), "/tmp/x");
    assert_eq!(template_root("template.json"), ".");
    assert_eq!(temp_path_for("/tmp/x/template.json"), "/tmp/x/template.json.tmp");
    assert_eq!(temp_path_for("template.json"), "./template.json.tmp");
}

#[test]
fn trailing_newline_added_once() {
    assert_eq!(with_trailing_newline("{}".to_string()), "{}\n");
    assert_eq!(with_trailing_newline("{}\n".to_string()), "{}\n");
    assert_eq!(with_trailing_newline(String::new()), "\n");
}
