use dd_emailforge::model::{BodyNode, Template};
use dd_emailforge::starters::{folder_slug, package_json, slug_from_name, template_gitignore, StarterKind};

const SYSTEM_FONT: &str = "Arial, Helvetica, sans-serif";

#[test]
fn transactional_is_f3_clean() {
    let t = Template::starter(StarterKind::Transactional, "receipt");
    match t.body.nodes.last() {
        Some(BodyNode::EmailFooter(f)) => {
            assert!(f.unsubscribe_label.is_empty());
            assert!(f.unsubscribe_href.is_empty());
            assert!(!f.address_lines.is_empty());
        }
        other => panic!("expected footer, got {other:?}"),
    }
}

#[test]
fn welcome_uses_raleway() {
    let t = Template::starter(StarterKind::Welcome, "welcome");
    assert_eq!(t.head.fonts.len(), 1);
    assert_eq!(t.head.fonts[0].name, "Raleway");
    assert!(t.brand.font_family.contains("Raleway"));
    let n = Template::starter(StarterKind::Newsletter, "n");
    assert!(n.head.fonts.is_empty());
    assert_eq!(n.brand.font_family, SYSTEM_FONT);
}

#[test]
fn starter_node_shapes() {
    let w = Template::starter(StarterKind::Welcome, "w");
    assert!(matches!(w.body.nodes[0], BodyNode::EmailHeader(_)));
    assert!(matches!(w.body.nodes[1], BodyNode::EmailHero(_)));
    assert!(matches!(w.body.nodes[2], BodyNode::MjSection(_)));
    assert!(matches!(w.body.nodes[3], BodyNode::EmailCta(_)));
    assert!(matches!(w.body.nodes[4], BodyNode::EmailFooter(_)));
    if let BodyNode::MjSection(s) = &w.body.nodes[2] {
        assert_eq!(s.children.len(), 2);
    }

    let n = Template::starter(StarterKind::Newsletter, "n");
    assert_eq!(n.body.nodes.len(), 6);
    assert!(matches!(n.body.nodes[2], BodyNode::EmailArticle(_)));
    assert!(matches!(n.body.nodes[3], BodyNode::EmailArticle(_)));

    let p = Template::starter(StarterKind::Promo, "p");
    if let BodyNode::EmailHero(h) = &p.body.nodes[1] {
        assert!(h.heading.contains("30%"));
    }

    let tx = Template::starter(StarterKind::Transactional, "t");
    assert!(matches!(tx.body.nodes[1], BodyNode::MjSection(_)));
    assert_eq!(tx.body.nodes.len(), 3);
}

#[test]
fn init_writes_expected_files() {
    let slug = folder_slug("/tmp/some/place/welcome-email");
    assert_eq!(slug, "welcome-email");
    let pkg = package_json(&slug);
    assert!(pkg.contains("\"mjml\": \"^5.4.0\""));
    assert!(pkg.contains("\"name\": \"welcome-email\""));
    let gi = template_gitignore();
    assert!(gi.contains(".preview/"));
    assert!(gi.contains("node_modules/"));
    assert!(gi.contains("template.json.backup"));
    let t = Template::starter(StarterKind::Welcome, &slug);
    assert_eq!(t.name, "welcome-email");
    assert_eq!(t.version, 1);
    assert!(t.head.json_ld.is_empty());
    assert!(t.head.css.is_empty());
}

#[test]
fn starter_kind_names() {
    assert_eq!(StarterKind::Welcome.as_str(), "welcome");
    assert_eq!(StarterKind::Newsletter.as_str(), "newsletter");
    assert_eq!(StarterKind::Promo.as_str(), "promo");
    assert_eq!(StarterKind::Transactional.as_str(), "transactional");
    assert_eq!(StarterKind::default(), StarterKind::Welcome);
}

#[test]
fn starter_headers_and_subjects() {
    let t = Template::starter(StarterKind::Promo, "sale");
    assert_eq!(t.subject, "30% off this week");
    assert_eq!(t.preheader, "A short window. That's the point.");
    assert_eq!(t.head.title, "30% off this week");
    assert_eq!(t.name, "sale");
    match &t.body.nodes[0] {
        BodyNode::EmailHeader(h) => {
            assert_eq!(h.logo_alt, "Logo");
            assert_eq!(h.logo_href.as_deref(), Some("https://example.com"));
        }
        other => panic!("expected header, got {other:?}"),
    }
}

#[test]
fn slug_maps_and_trims() {
    assert_eq!(slug_from_name("My Email!"), "my-email");
    assert_eq!(slug_from_name("--A_b--"), "a_b");
    assert_eq!(slug_from_name("***"), "template");
    assert_eq!(slug_from_name(""), "template");
    assert_eq!(folder_slug("/"), "template");
    assert_eq!(folder_slug("news/Letter 2024/"), "letter-2024");
}

#[test]
fn minimal_template_shape() {
    let t = Template::minimal();
    assert_eq!(t.version, 1);
    assert_eq!(t.name, "welcome");
    assert_eq!(t.lang, "en");
    assert_eq!(t.head.breakpoint, "480px");
    assert_eq!(t.brand.content_width, 600);
    assert_eq!(t.body.nodes.len(), 1);
}

#[test]
fn normalize_base_url_appends_slash_once() {
    let mut t = Template::minimal();
    t.base_url = "https://cdn.example.com".to_string();
    t.normalize_base_url();
    assert_eq!(t.base_url, "https://cdn.example.com/");
    t.normalize_base_url();
    assert_eq!(t.base_url, "https://cdn.example.com/");
    t.base_url.clear();
    t.normalize_base_url();
    assert_eq!(t.base_url, "");
}
