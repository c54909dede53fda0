//! The starter templates for `init --from`, the minimal template, and the
//! files written next to `template.json`.
use vstd::prelude::*;

use crate::model::{
    Body, BodyNode, Brand, ColumnChild, EmailArticle, EmailCta, EmailFooter, EmailHeader,
    EmailHero, Head, ImagePosition, MjButton, MjColumn, MjSection, MjText, SectionChild,
    SpecBody, SpecBodyNode, SpecBrand, SpecColumnChild, SpecEmailArticle, SpecEmailCta,
    SpecEmailFooter, SpecEmailHeader, SpecEmailHero, SpecHead, SpecMjButton, SpecMjColumn,
    SpecMjSection, SpecMjText, SpecSectionChild, SpecTemplate, SpecWebFont, Template, WebFont,
    lemma_seq_view_body_node, seq_view_body_node,
};
use crate::paths::{path_file_name, file_name};
use crate::text::{ascii_lower, is_ascii_alnum, owned, push_str};

verus! {

broadcast use lemma_seq_view_body_node;

/// The starter a new template folder is created from.
#[derive(Clone, Copy, Debug, PartialEq, Eq, Structural)]
pub enum StarterKind {
    Welcome,
    Newsletter,
    Promo,
    Transactional,
}

impl Default for StarterKind {
    fn default() -> (r: Self)
        ensures
            r == StarterKind::Welcome,
    {
        StarterKind::Welcome
    }
}

/// The name of a starter kind.
pub open spec fn kind_name(k: StarterKind) -> Seq<char> {
    match k {
        StarterKind::Welcome => "welcome"@,
        StarterKind::Newsletter => "newsletter"@,
        StarterKind::Promo => "promo"@,
        StarterKind::Transactional => "transactional"@,
    }
}

impl StarterKind {
    /// The kind's name, as the command line spells it.
    pub fn as_str(self) -> (r: &'static str)
        ensures
            r@ == kind_name(self),
    {
        match self {
            StarterKind::Welcome => "welcome",
            StarterKind::Newsletter => "newsletter",
            StarterKind::Promo => "promo",
            StarterKind::Transactional => "transactional",
        }
    }
}

/// The placeholder image of the starters.
pub open spec fn dummy_view() -> Seq<char> {
    "https://dummyimage.com/600x240/0F1114/FFAF46"@
}

/// The placeholder logo of the starters.
pub open spec fn dummy_logo_view() -> Seq<char> {
    "https://dummyimage.com/320x80/0F1114/FFAF46"@
}

/// The system font stack.
pub open spec fn system_font_view() -> Seq<char> {
    "Arial, Helvetica, sans-serif"@
}

/// The Google Fonts link for Raleway.
pub open spec fn raleway_href_view() -> Seq<char> {
    "https://fonts.googleapis.com/css2?family=Raleway:wght@400;700&display=swap"@
}

/// The smallest useful template: one section with one column of text.
pub open spec fn minimal_view() -> SpecTemplate {
    SpecTemplate {
        version: 1,
        name: "welcome"@,
        subject: "Welcome"@,
        preheader: ""@,
        lang: "en"@,
        base_url: ""@,
        head: SpecHead {
            title: "Welcome"@,
            breakpoint: "480px"@,
            json_ld: ""@,
            css: ""@,
            css_inline: false,
            fonts: Seq::empty(),
        },
        brand: SpecBrand {
            font_family: system_font_view(),
            text_color: "#1a1a1a"@,
            background_color: "#f4f4f4"@,
            content_width: 600,
            button_background: "#FFAF46"@,
            button_color: "#0F1114"@,
        },
        body: SpecBody {
            background_color: "#f4f4f4"@,
            nodes: seq![SpecBodyNode::MjSection(SpecMjSection {
                background_color: None,
                padding: None,
                full_width: false,
                children: seq![text_col_view(None, "Hello"@)],
            })],
        },
    }
}

/// A base URL made to end in `/` (an empty one stays empty).
pub open spec fn normalized_base_url(u: Seq<char>) -> Seq<char> {
    if u.len() == 0 || u.last() == '/' {
        u
    } else {
        u.push('/')
    }
}

impl Template {
    /// The smallest useful template (see [`minimal_view`]).
    pub fn minimal() -> (r: Template)
        ensures
            r@ == minimal_view(),
    {
        let mut nodes: Vec<BodyNode> = Vec::new();
        let mut children: Vec<SectionChild> = Vec::new();
        children.push(text_col(None, "Hello"));
        let s = MjSection { background_color: None, padding: None, full_width: false, children };
        assert(s@.children =~= seq![text_col_view(None, "Hello"@)]);
        nodes.push(BodyNode::MjSection(s));
        let t = Template {
            version: 1,
            name: owned("welcome"),
            subject: owned("Welcome"),
            preheader: owned(""),
            lang: owned("en"),
            base_url: owned(""),
            head: Head {
                title: owned("Welcome"),
                breakpoint: owned("480px"),
                json_ld: owned(""),
                css: owned(""),
                css_inline: false,
                fonts: Vec::new(),
            },
            brand: Brand {
                font_family: owned("Arial, Helvetica, sans-serif"),
                text_color: owned("#1a1a1a"),
                background_color: owned("#f4f4f4"),
                content_width: 600,
                button_background: owned("#FFAF46"),
                button_color: owned("#0F1114"),
            },
            body: Body { background_color: owned("#f4f4f4"), nodes },
        };
        assert(t@.head.fonts =~= Seq::<SpecWebFont>::empty());
        assert(t@.body.nodes =~= minimal_view().body.nodes);
        t
    }

    /// Makes a non-empty base URL end in `/`.
    pub fn normalize_base_url(&mut self)
        ensures
            final(self)@ == (SpecTemplate { base_url: normalized_base_url(old(self)@.base_url), ..old(self)@ }),
    {
        let n = self.base_url.as_str().unicode_len();
        if n > 0 && self.base_url.as_str().get_char(n - 1) != '/' {
            push_str(&mut self.base_url, "/");
            proof {
                reveal_strlit("/");
            }
            assert(self.base_url@ =~= old(self)@.base_url.push('/'));
        }
    }
}

/// A column of the given width holding one text block.
pub open spec fn text_col_view(width: Option<Seq<char>>, content: Seq<char>) -> SpecSectionChild {
    SpecSectionChild::MjColumn(SpecMjColumn {
        width,
        background_color: None,
        padding: None,
        inner_background_color: None,
        components: seq![SpecColumnChild::MjText(SpecMjText {
            content,
            align: None,
            font_size: None,
            font_family: None,
            color: None,
            padding: None,
        })],
    })
}

fn text_col(width: Option<&str>, content: &str) -> (r: SectionChild)
    ensures
        r@ == text_col_view(
            match width {
                Some(w) => Some(w@),
                None => None,
            },
            content@,
        ),
{
    let mut components: Vec<ColumnChild> = Vec::new();
    components.push(ColumnChild::MjText(MjText {
        content: owned(content),
        align: None,
        font_size: None,
        font_family: None,
        color: None,
        padding: None,
    }));
    let w = match width {
        Some(w) => Some(owned(w)),
        None => None,
    };
    let c = MjColumn { width: w, background_color: None, padding: None, inner_background_color: None, components };
    assert(c@.components =~= seq![SpecColumnChild::MjText(SpecMjText {
        content: content@,
        align: None,
        font_size: None,
        font_family: None,
        color: None,
        padding: None,
    })]);
    SectionChild::MjColumn(c)
}

/// The logo header of the starters.
pub open spec fn header_view() -> SpecEmailHeader {
    SpecEmailHeader {
        logo_src: dummy_logo_view(),
        logo_alt: "Logo"@,
        logo_href: Some("https://example.com"@),
        logo_width: "160px"@,
        background_color: None,
    }
}

fn header() -> (r: EmailHeader)
    ensures
        r@ == header_view(),
{
    EmailHeader {
        logo_src: owned("https://dummyimage.com/320x80/0F1114/FFAF46"),
        logo_alt: owned("Logo"),
        logo_href: Some(owned("https://example.com")),
        logo_width: owned("160px"),
        background_color: None,
    }
}

/// A hero block with the placeholder image.
pub open spec fn hero_view(heading: Seq<char>, subheading: Seq<char>) -> SpecEmailHero {
    SpecEmailHero {
        image_src: dummy_view(),
        image_alt: heading,
        heading,
        subheading,
        background_color: None,
    }
}

fn hero(heading: &str, subheading: &str) -> (r: EmailHero)
    ensures
        r@ == hero_view(heading@, subheading@),
{
    EmailHero {
        image_src: owned("https://dummyimage.com/600x240/0F1114/FFAF46"),
        image_alt: owned(heading),
        heading: owned(heading),
        subheading: owned(subheading),
        background_color: None,
    }
}

/// A call-to-action block linking to the example site.
pub open spec fn cta_view(heading: Seq<char>, copy: Seq<char>, label: Seq<char>) -> SpecEmailCta {
    SpecEmailCta {
        heading,
        copy,
        button_label: label,
        button_href: "https://example.com"@,
        background_color: None,
    }
}

fn cta(heading: &str, copy: &str, label: &str) -> (r: EmailCta)
    ensures
        r@ == cta_view(heading@, copy@, label@),
{
    EmailCta {
        heading: owned(heading),
        copy: owned(copy),
        button_label: owned(label),
        button_href: owned("https://example.com"),
        background_color: None,
    }
}

/// An article block with the placeholder image on top.
pub open spec fn article_view(title: Seq<char>, copy: Seq<char>) -> SpecEmailArticle {
    SpecEmailArticle {
        image_src: dummy_view(),
        image_alt: title,
        title,
        copy,
        link_label: "Read more"@,
        link_href: "https://example.com"@,
        image_position: ImagePosition::Top,
    }
}

fn article(title: &str, copy: &str) -> (r: EmailArticle)
    ensures
        r@ == article_view(title@, copy@),
{
    EmailArticle {
        image_src: owned("https://dummyimage.com/600x240/0F1114/FFAF46"),
        image_alt: owned(title),
        title: owned(title),
        copy: owned(copy),
        link_label: owned("Read more"),
        link_href: owned("https://example.com"),
        image_position: ImagePosition::Top,
    }
}

/// The footer of the marketing starters, with an unsubscribe link.
pub open spec fn marketing_footer_view() -> SpecEmailFooter {
    SpecEmailFooter {
        company_name: "Example Co"@,
        address_lines: seq!["123 Main St"@, "Springfield, IL 62701"@],
        unsubscribe_label: "Unsubscribe"@,
        unsubscribe_href: "*|UNSUB|*"@,
        social: Seq::empty(),
        copyright: Some("© Example Co"@),
    }
}

/// The footer of the transactional starter, without an unsubscribe link.
pub open spec fn transactional_footer_view() -> SpecEmailFooter {
    SpecEmailFooter {
        unsubscribe_label: ""@,
        unsubscribe_href: ""@,
        ..marketing_footer_view()
    }
}

fn address_lines() -> (r: Vec<String>)
    ensures
        r@.map_values(|s: String| s@) == seq!["123 Main St"@, "Springfield, IL 62701"@],
{
    let mut r: Vec<String> = Vec::new();
    r.push(owned("123 Main St"));
    r.push(owned("Springfield, IL 62701"));
    assert(r@.map_values(|s: String| s@) =~= seq!["123 Main St"@, "Springfield, IL 62701"@]);
    r
}

fn marketing_footer() -> (r: EmailFooter)
    ensures
        r@ == marketing_footer_view(),
{
    let f = EmailFooter {
        company_name: owned("Example Co"),
        address_lines: address_lines(),
        unsubscribe_label: owned("Unsubscribe"),
        unsubscribe_href: owned("*|UNSUB|*"),
        social: Vec::new(),
        copyright: Some(owned("© Example Co")),
    };
    assert(f@.social =~= Seq::empty());
    f
}

fn transactional_footer() -> (r: EmailFooter)
    ensures
        r@ == transactional_footer_view(),
{
    let f = EmailFooter {
        company_name: owned("Example Co"),
        address_lines: address_lines(),
        unsubscribe_label: owned(""),
        unsubscribe_href: owned(""),
        social: Vec::new(),
        copyright: Some(owned("© Example Co")),
    };
    assert(f@.social =~= Seq::empty());
    f
}

/// The minimal template renamed, with a subject and preheader, no head
/// extras and the system font.
pub open spec fn base_view(name: Seq<char>, subject: Seq<char>, preheader: Seq<char>) -> SpecTemplate {
    let t = minimal_view();
    SpecTemplate {
        name,
        subject,
        preheader,
        head: SpecHead { title: subject, json_ld: Seq::empty(), css: Seq::empty(), css_inline: false, ..t.head },
        brand: SpecBrand { font_family: system_font_view(), ..t.brand },
        ..t
    }
}

fn base(name: &str, subject: &str, preheader: &str) -> (r: Template)
    ensures
        r@ == base_view(name@, subject@, preheader@),
{
    let mut t = Template::minimal();
    t.name = owned(name);
    t.subject = owned(subject);
    t.preheader = owned(preheader);
    t.head.title = owned(subject);
    t.head.json_ld = String::new();
    t.head.css = String::new();
    t.head.css_inline = false;
    t.brand.font_family = owned("Arial, Helvetica, sans-serif");
    t
}

/// The two-column section of the welcome starter.
pub open spec fn welcome_section_view() -> SpecMjSection {
    SpecMjSection {
        background_color: None,
        padding: None,
        full_width: false,
        children: seq![
            text_col_view(Some("50%"@), "What you get: a weekly note, no spam."@),
            text_col_view(Some("50%"@), "What we need: nothing else. You're set."@),
        ],
    }
}

fn welcome_section() -> (r: MjSection)
    ensures
        r@ == welcome_section_view(),
{
    let mut children: Vec<SectionChild> = Vec::new();
    children.push(text_col(Some("50%"), "What you get: a weekly note, no spam."));
    children.push(text_col(Some("50%"), "What we need: nothing else. You're set."));
    let s = MjSection { background_color: None, padding: None, full_width: false, children };
    assert(s@.children =~= welcome_section_view().children);
    s
}

/// The receipt section of the transactional starter.
pub open spec fn receipt_section_view() -> SpecMjSection {
    SpecMjSection {
        background_color: None,
        padding: None,
        full_width: false,
        children: seq![SpecSectionChild::MjColumn(SpecMjColumn {
            width: Some("100%"@),
            background_color: None,
            padding: None,
            inner_background_color: None,
            components: seq![
                SpecColumnChild::MjText(SpecMjText {
                    content: "Thanks — your order is confirmed."@,
                    align: None,
                    font_size: None,
                    font_family: None,
                    color: None,
                    padding: None,
                }),
                SpecColumnChild::MjButton(SpecMjButton {
                    content: "View order"@,
                    href: "https://example.com/orders/1"@,
                    background_color: None,
                    color: None,
                    align: None,
                    font_family: None,
                    border_radius: None,
                    width: None,
                    padding: None,
                }),
            ],
        })],
    }
}

fn receipt_section() -> (r: MjSection)
    ensures
        r@ == receipt_section_view(),
{
    let mut components: Vec<ColumnChild> = Vec::new();
    components.push(ColumnChild::MjText(MjText {
        content: owned("Thanks — your order is confirmed."),
        align: None,
        font_size: None,
        font_family: None,
        color: None,
        padding: None,
    }));
    components.push(ColumnChild::MjButton(MjButton {
        content: owned("View order"),
        href: owned("https://example.com/orders/1"),
        background_color: None,
        color: None,
        align: None,
        font_family: None,
        border_radius: None,
        width: None,
        padding: None,
    }));
    let c = MjColumn {
        width: Some(owned("100%")),
        background_color: None,
        padding: None,
        inner_background_color: None,
        components,
    };
    assert(c@.components =~= receipt_section_view().children[0]->MjColumn_0.components);
    let mut children: Vec<SectionChild> = Vec::new();
    children.push(SectionChild::MjColumn(c));
    let s = MjSection { background_color: None, padding: None, full_width: false, children };
    assert(s@.children =~= receipt_section_view().children);
    s
}

/// The `welcome` starter named `name`.
pub open spec fn welcome_view(name: Seq<char>) -> SpecTemplate {
    let t = base_view(name, "You're in."@, "Here's what happens next."@);
    SpecTemplate {
        head: SpecHead {
            fonts: seq![SpecWebFont { name: "Raleway"@, href: raleway_href_view() }],
            ..t.head
        },
        brand: SpecBrand { font_family: "Raleway, Arial, Helvetica, sans-serif"@, ..t.brand },
        body: SpecBody {
            nodes: seq![
            SpecBodyNode::EmailHeader(header_view()),
            SpecBodyNode::EmailHero(hero_view("You're in."@, "Thanks for joining us."@)),
            SpecBodyNode::MjSection(welcome_section_view()),
            SpecBodyNode::EmailCta(cta_view("Start here"@, "Open the app and pick a template."@, "Open the app"@)),
            SpecBodyNode::EmailFooter(marketing_footer_view()),
            ],
            ..t.body
        },
        ..t
    }
}

fn welcome(name: &str) -> (r: Template)
    ensures
        r@ == welcome_view(name@),
{
    let mut t = base(name, "You're in.", "Here's what happens next.");
    t.head.fonts.push(WebFont {
        name: owned("Raleway"),
        href: owned("https://fonts.googleapis.com/css2?family=Raleway:wght@400;700&display=swap"),
    });
    assert(t@.head.fonts =~= seq![SpecWebFont { name: "Raleway"@, href: raleway_href_view() }]);
    t.brand.font_family = owned("Raleway, Arial, Helvetica, sans-serif");
    let mut nodes: Vec<BodyNode> = Vec::new();
    nodes.push(BodyNode::EmailHeader(header()));
    nodes.push(BodyNode::EmailHero(hero("You're in.", "Thanks for joining us.")));
    nodes.push(BodyNode::MjSection(welcome_section()));
    nodes.push(BodyNode::EmailCta(cta("Start here", "Open the app and pick a template.", "Open the app")));
    nodes.push(BodyNode::EmailFooter(marketing_footer()));
    t.body.nodes = nodes;
    assert(t.body.nodes@[0]@ == welcome_view(name@).body.nodes[0]);
    assert(t.body.nodes@[1]@ == welcome_view(name@).body.nodes[1]);
    assert(t.body.nodes@[2]@ == welcome_view(name@).body.nodes[2]);
    assert(t.body.nodes@[3]@ == welcome_view(name@).body.nodes[3]);
    assert(t.body.nodes@[4]@ == welcome_view(name@).body.nodes[4]);
    assert(t@.body.nodes =~= welcome_view(name@).body.nodes);
    t
}

/// The `newsletter` starter named `name`.
pub open spec fn newsletter_view(name: Seq<char>) -> SpecTemplate {
    let t = base_view(name, "This week"@, "Two reads worth your time."@);
    SpecTemplate {
        body: SpecBody {
            nodes: seq![
            SpecBodyNode::EmailHeader(header_view()),
            SpecBodyNode::EmailHero(hero_view("This week"@, "A short digest."@)),
            SpecBodyNode::EmailArticle(article_view("Story one"@, "The first piece from this week's roundup."@)),
            SpecBodyNode::EmailArticle(article_view("Story two"@, "The second piece, same length, same dummyimage."@)),
            SpecBodyNode::EmailCta(cta_view("See all"@, "The full archive is on the site."@, "Archive"@)),
            SpecBodyNode::EmailFooter(marketing_footer_view()),
            ],
            ..t.body
        },
        ..t
    }
}

fn newsletter(name: &str) -> (r: Template)
    ensures
        r@ == newsletter_view(name@),
{
    let mut t = base(name, "This week", "Two reads worth your time.");
    let mut nodes: Vec<BodyNode> = Vec::new();
    nodes.push(BodyNode::EmailHeader(header()));
    nodes.push(BodyNode::EmailHero(hero("This week", "A short digest.")));
    nodes.push(BodyNode::EmailArticle(article("Story one", "The first piece from this week's roundup.")));
    nodes.push(BodyNode::EmailArticle(article("Story two", "The second piece, same length, same dummyimage.")));
    nodes.push(BodyNode::EmailCta(cta("See all", "The full archive is on the site.", "Archive")));
    nodes.push(BodyNode::EmailFooter(marketing_footer()));
    t.body.nodes = nodes;
    assert(t.body.nodes@[0]@ == newsletter_view(name@).body.nodes[0]);
    assert(t.body.nodes@[1]@ == newsletter_view(name@).body.nodes[1]);
    assert(t.body.nodes@[2]@ == newsletter_view(name@).body.nodes[2]);
    assert(t.body.nodes@[3]@ == newsletter_view(name@).body.nodes[3]);
    assert(t.body.nodes@[4]@ == newsletter_view(name@).body.nodes[4]);
    assert(t.body.nodes@[5]@ == newsletter_view(name@).body.nodes[5]);
    assert(t@.body.nodes =~= newsletter_view(name@).body.nodes);
    t
}

/// The `promo` starter named `name`.
pub open spec fn promo_view(name: Seq<char>) -> SpecTemplate {
    let t = base_view(name, "30% off this week"@, "A short window. That's the point."@);
    SpecTemplate {
        body: SpecBody {
            nodes: seq![
            SpecBodyNode::EmailHeader(header_view()),
            SpecBodyNode::EmailHero(hero_view("30% off"@, "This week only."@)),
            SpecBodyNode::EmailCta(cta_view("Shop the sale"@, "Discount applies at checkout."@, "Shop now"@)),
            SpecBodyNode::EmailArticle(article_view("Featured product"@, "One item. Dummyimage placeholder. Swap it in the TUI."@)),
            SpecBodyNode::EmailFooter(marketing_footer_view()),
            ],
            ..t.body
        },
        ..t
    }
}

fn promo(name: &str) -> (r: Template)
    ensures
        r@ == promo_view(name@),
{
    let mut t = base(name, "30% off this week", "A short window. That's the point.");
    let mut nodes: Vec<BodyNode> = Vec::new();
    nodes.push(BodyNode::EmailHeader(header()));
    nodes.push(BodyNode::EmailHero(hero("30% off", "This week only.")));
    nodes.push(BodyNode::EmailCta(cta("Shop the sale", "Discount applies at checkout.", "Shop now")));
    nodes.push(BodyNode::EmailArticle(article("Featured product", "One item. Dummyimage placeholder. Swap it in the TUI.")));
    nodes.push(BodyNode::EmailFooter(marketing_footer()));
    t.body.nodes = nodes;
    assert(t.body.nodes@[0]@ == promo_view(name@).body.nodes[0]);
    assert(t.body.nodes@[1]@ == promo_view(name@).body.nodes[1]);
    assert(t.body.nodes@[2]@ == promo_view(name@).body.nodes[2]);
    assert(t.body.nodes@[3]@ == promo_view(name@).body.nodes[3]);
    assert(t.body.nodes@[4]@ == promo_view(name@).body.nodes[4]);
    assert(t@.body.nodes =~= promo_view(name@).body.nodes);
    t
}

/// The `transactional` starter named `name`.
pub open spec fn transactional_view(name: Seq<char>) -> SpecTemplate {
    let t = base_view(name, "Your receipt"@, "Order confirmed."@);
    SpecTemplate {
        body: SpecBody {
            nodes: seq![
            SpecBodyNode::EmailHeader(header_view()),
            SpecBodyNode::MjSection(receipt_section_view()),
            SpecBodyNode::EmailFooter(transactional_footer_view()),
            ],
            ..t.body
        },
        ..t
    }
}

fn transactional(name: &str) -> (r: Template)
    ensures
        r@ == transactional_view(name@),
{
    let mut t = base(name, "Your receipt", "Order confirmed.");
    let mut nodes: Vec<BodyNode> = Vec::new();
    nodes.push(BodyNode::EmailHeader(header()));
    nodes.push(BodyNode::MjSection(receipt_section()));
    nodes.push(BodyNode::EmailFooter(transactional_footer()));
    t.body.nodes = nodes;
    assert(t.body.nodes@[0]@ == transactional_view(name@).body.nodes[0]);
    assert(t.body.nodes@[1]@ == transactional_view(name@).body.nodes[1]);
    assert(t.body.nodes@[2]@ == transactional_view(name@).body.nodes[2]);
    assert(t@.body.nodes =~= transactional_view(name@).body.nodes);
    t
}

/// The starter of kind `kind` named `name`.
pub open spec fn starter_view(kind: StarterKind, name: Seq<char>) -> SpecTemplate {
    match kind {
        StarterKind::Welcome => welcome_view(name),
        StarterKind::Newsletter => newsletter_view(name),
        StarterKind::Promo => promo_view(name),
        StarterKind::Transactional => transactional_view(name),
    }
}

impl Template {
    /// The starter template of kind `kind` named `name`.
    pub fn starter(kind: StarterKind, name: &str) -> (r: Template)
        ensures
            r@ == starter_view(kind, name@),
    {
        match kind {
            StarterKind::Welcome => welcome(name),
            StarterKind::Newsletter => newsletter(name),
            StarterKind::Promo => promo(name),
            StarterKind::Transactional => transactional(name),
        }
    }
}

/// How a character of a folder name appears in a package name.
pub open spec fn slug_char(c: char) -> char {
    if is_ascii_alnum(c) || c == '-' || c == '_' {
        ascii_lower(c)
    } else {
        '-'
    }
}

/// `s` without leading dashes.
pub open spec fn trim_dash_start(s: Seq<char>) -> Seq<char>
    decreases s.len(),
{
    if s.len() > 0 && s[0] == '-' {
        trim_dash_start(s.drop_first())
    } else {
        s
    }
}

/// `s` without trailing dashes.
pub open spec fn trim_dash_end(s: Seq<char>) -> Seq<char>
    decreases s.len(),
{
    if s.len() > 0 && s.last() == '-' {
        trim_dash_end(s.drop_last())
    } else {
        s
    }
}

/// The package name made from a folder name: letters and digits lowered,
/// `-` and `_` kept, anything else a `-`, dashes trimmed from both ends,
/// and `template` when nothing is left.
pub open spec fn slug_of(raw: Seq<char>) -> Seq<char> {
    let t = trim_dash_end(trim_dash_start(raw.map_values(|c: char| slug_char(c))));
    if t.len() == 0 {
        "template"@
    } else {
        t
    }
}

fn slug_char_of(c: char) -> (r: char)
    ensures
        r == slug_char(c),
{
    if ('0' <= c && c <= '9') || ('a' <= c && c <= 'z') || c == '-' || c == '_' {
        c
    } else if 'A' <= c && c <= 'Z' {
        crate::text::lower_char(c)
    } else {
        '-'
    }
}

proof fn lemma_trim_dash_start_skip(s: Seq<char>, i: int)
    requires
        0 <= i <= s.len(),
        forall|k: int| 0 <= k < i ==> #[trigger] s[k] == '-',
    ensures
        trim_dash_start(s) == trim_dash_start(s.skip(i)),
    decreases i,
{
    if i > 0 {
        assert(s.skip(1).skip(i - 1) =~= s.skip(i));
        assert forall|k: int| 0 <= k < i - 1 implies #[trigger] s.skip(1)[k] == '-' by {
            assert(s.skip(1)[k] == s[k + 1]);
        }
        lemma_trim_dash_start_skip(s.skip(1), i - 1);
        assert(s.drop_first() =~= s.skip(1));
    } else {
        assert(s.skip(0) =~= s);
    }
}

proof fn lemma_trim_dash_end_take(s: Seq<char>, j: int)
    requires
        0 <= j <= s.len(),
        forall|k: int| j <= k < s.len() ==> #[trigger] s[k] == '-',
    ensures
        trim_dash_end(s) == trim_dash_end(s.take(j)),
    decreases s.len() - j,
{
    if j < s.len() {
        assert forall|k: int| j <= k < s.drop_last().len() implies #[trigger] s.drop_last()[k] == '-' by {
            assert(s.drop_last()[k] == s[k]);
        }
        lemma_trim_dash_end_take(s.drop_last(), j);
        assert(s.drop_last().take(j) =~= s.take(j));
    } else {
        assert(s.take(j) =~= s);
    }
}

/// The package name made from a folder name (see [`slug_of`]).
pub fn slug_from_name(raw: &str) -> (r: String)
    ensures
        r@ == slug_of(raw@),
{
    let cs = crate::text::chars_of(raw);
    let ghost m = raw@.map_values(|c: char| slug_char(c));
    let mut mapped: Vec<char> = Vec::new();
    let mut i: usize = 0;
    while i < cs.len()
        invariant
            i <= cs@.len(),
            cs@ == raw@,
            m == raw@.map_values(|c: char| slug_char(c)),
            mapped@ == m.take(i as int),
        decreases cs@.len() - i,
    {
        mapped.push(slug_char_of(cs[i]));
        i = i + 1;
        assert(mapped@ =~= m.take(i as int));
    }
    assert(m.take(m.len() as int) =~= m);
    let n = mapped.len();
    let mut a: usize = 0;
    while a < n && mapped[a] == '-'
        invariant
            a <= n,
            n == m.len(),
            mapped@ == m,
            forall|k: int| 0 <= k < a ==> #[trigger] m[k] == '-',
        decreases n - a,
    {
        a = a + 1;
    }
    proof {
        lemma_trim_dash_start_skip(m, a as int);
    }
    let ghost u = m.skip(a as int);
    assert(trim_dash_start(u) == u);
    let mut b: usize = n;
    while b > a && mapped[b - 1] == '-'
        invariant
            a <= b <= n,
            n == m.len(),
            mapped@ == m,
            u == m.skip(a as int),
            forall|k: int| b - a <= k < u.len() ==> #[trigger] u[k] == '-',
        decreases b,
    {
        b = b - 1;
    }
    proof {
        lemma_trim_dash_end_take(u, (b - a) as int);
        assert(trim_dash_end(u.take((b - a) as int)) == u.take((b - a) as int));
    }
    if a == b {
        return owned("template");
    }
    let mut r = String::new();
    let mut k: usize = a;
    while k < b
        invariant
            a <= k <= b <= n,
            n == m.len(),
            mapped@ == m,
            r@ == m.subrange(a as int, k as int),
        decreases b - k,
    {
        crate::text::push_char(&mut r, mapped[k]);
        k = k + 1;
        assert(r@ =~= m.subrange(a as int, k as int));
    }
    assert(u.take((b - a) as int) =~= m.subrange(a as int, b as int));
    r
}

/// The package name for a template folder: made from the folder's last
/// component (`template` when it has none).
pub fn folder_slug(dir: &str) -> (r: String)
    ensures
        r@ == slug_of(
            match path_file_name(dir@) {
                Some(n) => n,
                None => "template"@,
            },
        ),
{
    match file_name(dir) {
        Some(n) => slug_from_name(n.as_str()),
        None => slug_from_name("template"),
    }
}

/// The `package.json` written next to a new template, pinning MJML 5.
pub open spec fn package_json_view(slug: Seq<char>) -> Seq<char> {
    "{\n  \"name\": \""@ + slug
        + "\",\n  \"private\": true,\n  \"description\": \"dd_emailforge template — official MJML 5 compiler pin\",\n  \"devDependencies\": {\n    \"mjml\": \"^5.4.0\"\n  }\n}\n"@
}

/// The `package.json` written next to a new template.
pub fn package_json(slug: &str) -> (r: String)
    ensures
        r@ == package_json_view(slug@),
{
    let mut r = owned("{\n  \"name\": \"");
    push_str(&mut r, slug);
    push_str(
        &mut r,
        "\",\n  \"private\": true,\n  \"description\": \"dd_emailforge template — official MJML 5 compiler pin\",\n  \"devDependencies\": {\n    \"mjml\": \"^5.4.0\"\n  }\n}\n",
    );
    r
}

/// The `.gitignore` written next to a new template.
pub fn template_gitignore() -> (r: &'static str)
    ensures
        r@ == ".preview/\nnode_modules/\ntemplate.json.backup\n"@,
{
    ".preview/\nnode_modules/\ntemplate.json.backup\n"
}

/// A character a package name may hold: a small ASCII letter, a digit,
/// `-` or `_`.
pub open spec fn slug_allowed(c: char) -> bool {
    ('a' <= c <= 'z') || ('0' <= c <= '9') || c == '-' || c == '_'
}

proof fn lemma_slug_char_allowed(c: char)
    ensures
        slug_allowed(slug_char(c)),
        slug_allowed(c) ==> slug_char(c) == c,
{
    if 'A' <= c <= 'Z' {
        assert(('a' <= ((c as u32) + 32) as char <= 'z'));
    }
}

proof fn lemma_trim_dash_start(s: Seq<char>)
    ensures
        trim_dash_start(s).len() <= s.len(),
        trim_dash_start(s) == s.skip(s.len() - trim_dash_start(s).len()),
        trim_dash_start(s).len() > 0 ==> trim_dash_start(s)[0] != '-',
        forall|i: int| 0 <= i < s.len() - trim_dash_start(s).len() ==> #[trigger] s[i] == '-',
    decreases s.len(),
{
    if s.len() > 0 && s[0] == '-' {
        lemma_trim_dash_start(s.drop_first());
        let r = trim_dash_start(s.drop_first());
        assert(s.drop_first().skip(s.drop_first().len() - r.len()) =~= s.skip(s.len() - r.len()));
        assert forall|i: int| 0 <= i < s.len() - r.len() implies #[trigger] s[i] == '-' by {
            if i > 0 {
                assert(s[i] == s.drop_first()[i - 1]);
            }
        }
    } else {
        assert(s.skip(0) =~= s);
    }
}

proof fn lemma_trim_dash_end(s: Seq<char>)
    ensures
        trim_dash_end(s).len() <= s.len(),
        trim_dash_end(s) == s.take(trim_dash_end(s).len() as int),
        trim_dash_end(s).len() > 0 ==> trim_dash_end(s).last() != '-',
        forall|i: int| trim_dash_end(s).len() <= i < s.len() ==> #[trigger] s[i] == '-',
    decreases s.len(),
{
    if s.len() > 0 && s.last() == '-' {
        lemma_trim_dash_end(s.drop_last());
        let r = trim_dash_end(s.drop_last());
        assert(s.drop_last().take(r.len() as int) =~= s.take(r.len() as int));
        assert forall|i: int| r.len() <= i < s.len() implies #[trigger] s[i] == '-' by {
            if i < s.len() - 1 {
                assert(s[i] == s.drop_last()[i]);
            }
        }
    } else {
        assert(s.take(s.len() as int) =~= s);
    }
}

/// A package name is never empty, holds only small ASCII letters, digits,
/// `-` and `_`, and neither starts nor ends with `-`; a name that already
/// is one is kept as it is.
pub proof fn law_slug_shape(raw: Seq<char>)
    ensures
        slug_of(raw).len() > 0,
        forall|i: int| 0 <= i < slug_of(raw).len() ==> slug_allowed(#[trigger] slug_of(raw)[i]),
        slug_of(raw)[0] != '-',
        slug_of(raw).last() != '-',
        (raw.len() > 0 && raw[0] != '-' && raw.last() != '-' && forall|i: int| 0 <= i < raw.len() ==> slug_allowed(
            #[trigger] raw[i],
        )) ==> slug_of(raw) == raw,
{
    reveal_strlit("template");
    let m = raw.map_values(|c: char| slug_char(c));
    assert forall|i: int| 0 <= i < m.len() implies slug_allowed(#[trigger] m[i]) by {
        lemma_slug_char_allowed(raw[i]);
    }
    lemma_trim_dash_start(m);
    let a = trim_dash_start(m);
    lemma_trim_dash_end(a);
    let t = trim_dash_end(a);
    assert forall|i: int| 0 <= i < t.len() implies slug_allowed(#[trigger] t[i]) by {
        assert(t[i] == a[i]);
        assert(a[i] == m[i + (m.len() - a.len())]);
    }
    if t.len() > 0 {
        assert(t[0] == a[0]);
    }
    if raw.len() > 0 && raw[0] != '-' && raw.last() != '-' && forall|i: int| 0 <= i < raw.len() ==> slug_allowed(
        #[trigger] raw[i],
    ) {
        assert forall|i: int| 0 <= i < raw.len() implies #[trigger] m[i] == raw[i] by {
            lemma_slug_char_allowed(raw[i]);
        }
        assert(m =~= raw);
        assert(m[0] != '-');
        assert(a.len() == m.len()) by {
            if a.len() < m.len() {
                assert(m[0] == '-');
            }
        }
        assert(a =~= m);
        assert(t.len() == a.len()) by {
            if t.len() < a.len() {
                assert(a[a.len() - 1] == '-');
            }
        }
        assert(t =~= a);
    }
}

} // verus!
