use dd_emailforge::mjml::{
    discover_mjml, gmail_clip_warning, line_looks_like_error, local_mjml_path, mjml_flags,
    not_found_message, path_candidates, MjmlError,
};

#[test]
fn discover_prefers_local_node_modules() {
    let found = discover_mjml("/tmp/tpl", true, Some("/usr/bin/mjml".to_string())).unwrap();
    assert_eq!(found, "/tmp/tpl/node_modules/.bin/mjml");
    assert_eq!(found, local_mjml_path("/tmp/tpl"));
}

#[test]
fn discover_not_found_lists_searched() {
    match discover_mjml("/tmp/tpl", false, None) {
        Err(MjmlError::NotFound { searched }) => {
            assert!(searched.iter().any(|s| s.contains("node_modules/.bin/mjml")));
            assert!(searched.iter().any(|s| s == "$PATH"));
        }
        _ => panic!("expected NotFound"),
    }
    assert_eq!(discover_mjml("/t", false, Some("/bin/mjml".into())).unwrap(), "/bin/mjml");
}

#[test]
fn flags_do_not_include_allow_includes_or_dash_l() {
    let args = mjml_flags();
    let joined = args.join(" ");
    assert!(joined.contains("validationLevel"));
    assert!(joined.contains("strict"));
    assert!(!joined.contains("allowIncludes"));
    assert!(!args.iter().any(|a| a == "-l"));
    assert!(joined.contains("allowMixedSyntax"));
    assert!(joined.contains("templateSyntax"));
}

#[test]
fn not_found_message_lists_places() {
    let m = not_found_message(&["a".to_string(), "$PATH".to_string()]);
    assert_eq!(
        m,
        "mjml CLI not found. Install the pin from this template:\n  cd <template-dir> && npm install\nLooked in:\n  a\n  $PATH\n"
    );
    let e = MjmlError::NotFound { searched: vec!["a".to_string(), "$PATH".to_string()] };
    assert_eq!(e.message(), m);
    assert_eq!(MjmlError::Timeout.message(), "mjml compile timed out after 30s");
    assert_eq!(MjmlError::Compile { stderr: "bad".into() }.message(), "mjml compile failed:\nbad");
    assert_eq!(MjmlError::Io("gone".into()).message(), "mjml io error: gone");
}

#[test]
fn gmail_clip_threshold() {
    assert_eq!(gmail_clip_warning(99_999), None);
    assert_eq!(
        gmail_clip_warning(100_000),
        Some("Compiled HTML is 100000 bytes. Gmail clips near 100KB.".to_string())
    );
}

#[test]
fn watch_lines_classified() {
    assert!(line_looks_like_error("Line 3 of x.mjml: ERROR something"));
    assert!(line_looks_like_error("ValidationError: bad attr"));
    assert!(!line_looks_like_error("File written"));
}

#[test]
fn path_candidates_split_at_colons() {
    assert_eq!(path_candidates("/usr/bin:/bin"), vec!["/usr/bin/mjml", "/bin/mjml"]);
    assert_eq!(path_candidates(""), vec!["mjml"]);
    assert_eq!(path_candidates("/a/:"), vec!["/a/mjml", "mjml"]);
}
