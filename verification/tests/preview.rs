use dd_emailforge::preview::{
    compiling_page, html_contains_wrapper_markers, html_escape, mime_for, parse_path,
    response_header, route_for, wrapper_html, wrapper_markers, PreviewMeta, Route,
};

#[test]
fn wrapper_html_contains_markers_emit_does_not() {
    let html = wrapper_html(&PreviewMeta {
        subject: "s".into(),
        preheader: "p".into(),
    });
    assert!(html_contains_wrapper_markers(&html));
}

#[test]
fn wrapper_escapes_subject_on_get_slash() {
    let body = wrapper_html(&PreviewMeta {
        subject: "Hello <b>&\"x".into(),
        preheader: "pre <em>".into(),
    });
    assert!(body.contains("Hello &lt;b&gt;&amp;&quot;x"));
    assert!(body.contains("pre &lt;em&gt;"));
    assert!(!body.contains("Hello <b>"));
    assert!(matches!(route_for("/"), Route::Wrapper));
}

#[test]
fn blocks_parent_dir() {
    assert!(matches!(route_for("/../Cargo.toml"), Route::NotFound));
    assert!(matches!(route_for("/images/../x.png"), Route::NotFound));
}

#[test]
fn compiled_missing_is_compiling_page() {
    assert!(matches!(route_for("/compiled.html"), Route::Compiled));
    assert!(compiling_page().contains("compiling"));
}

#[test]
fn routes_by_path() {
    assert!(matches!(route_for("/__mtime"), Route::Mtime));
    assert!(matches!(route_for("/__meta"), Route::Meta));
    match route_for("/images/logo.png") {
        Route::Image(rel) => assert_eq!(rel, "images/logo.png"),
        _ => panic!("expected an image route"),
    }
    assert!(matches!(route_for("/other"), Route::NotFound));
}

#[test]
fn parse_path_reads_request_line() {
    assert_eq!(parse_path("GET /x?y=1 HTTP/1.1\r\nHost: a\r\n\r\n"), Some("/x".to_string()));
    assert_eq!(parse_path("HEAD / HTTP/1.1\r\n"), Some("/".to_string()));
    assert_eq!(parse_path("POST / HTTP/1.1\r\n"), None);
    assert_eq!(parse_path("GET\r\n"), None);
    assert_eq!(parse_path(""), None);
}

#[test]
fn mime_types_by_extension() {
    assert_eq!(mime_for("a/b.PNG"), "image/png");
    assert_eq!(mime_for("x.htm"), "text/html; charset=utf-8");
    assert_eq!(mime_for("x.jpeg"), "image/jpeg");
    assert_eq!(mime_for(".hidden"), "application/octet-stream");
    assert_eq!(mime_for("noext"), "application/octet-stream");
    assert_eq!(mime_for("images/icon.svg"), "image/svg+xml");
}

#[test]
fn escape_and_markers() {
    assert_eq!(html_escape("a&b<c>\"d"), "a&amp;b&lt;c&gt;&quot;d");
    assert_eq!(wrapper_markers(), vec!["/__mtime", "compiled.html?t=", "iframe"]);
    assert!(!html_contains_wrapper_markers("<mjml><mj-body></mj-body></mjml>"));
    assert!(html_contains_wrapper_markers("<iframe>"));
}

#[test]
fn response_header_formats_length() {
    assert_eq!(
        response_header("200 OK", "text/plain; charset=utf-8", 9),
        "HTTP/1.1 200 OK\r\nContent-Type: text/plain; charset=utf-8\r\nContent-Length: 9\r\nCache-Control: no-store\r\nConnection: close\r\n\r\n"
    );
}
