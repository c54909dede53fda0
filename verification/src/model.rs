//! The template data model (`template.json`) and its mathematical view.
use vstd::prelude::*;

verus! {

/// Horizontal alignment.
#[derive(Clone, Copy, Debug, PartialEq, Eq, Structural)]
pub enum Align {
    Left,
    Center,
    Right,
}

/// `mode` of `<mj-hero>`.
#[derive(Clone, Copy, Debug, PartialEq, Eq, Structural)]
pub enum HeroMode {
    FluidHeight,
    FixedHeight,
}

/// `mode` of `<mj-social>`.
#[derive(Clone, Copy, Debug, PartialEq, Eq, Structural)]
pub enum SocialMode {
    Horizontal,
    Vertical,
}

/// Where the article image sits.
#[derive(Clone, Copy, Debug, PartialEq, Eq, Structural)]
pub enum ImagePosition {
    Top,
    Left,
    Right,
}

/// `thumbnails` of `<mj-carousel>`.
#[derive(Clone, Copy, Debug, PartialEq, Eq, Structural)]
pub enum Thumbnails {
    Visible,
    Hidden,
    Supported,
}

/// Networks with built-in icons.
#[derive(Clone, Copy, Debug, PartialEq, Eq, Structural)]
pub enum SocialNetwork {
    Facebook,
    Instagram,
    Linkedin,
    X,
    Github,
    Web,
}

/// A child of `<mj-section>`.
#[derive(Debug, PartialEq, Eq)]
pub enum SectionChild {
    MjColumn(MjColumn),
    MjGroup(MjGroup),
}

/// The view of [`SectionChild`].
pub enum SpecSectionChild {
    MjColumn(SpecMjColumn),
    MjGroup(SpecMjGroup),
}

/// A content component inside a column or hero.
#[derive(Debug, PartialEq, Eq)]
pub enum ColumnChild {
    MjText(MjText),
    MjButton(MjButton),
    MjImage(MjImage),
    MjDivider(MjDivider),
    MjSpacer(MjSpacer),
    MjSocial(MjSocial),
    MjTable(MjTable),
    MjNavbar(MjNavbar),
    MjAccordion(MjAccordion),
    MjCarousel(MjCarousel),
}

/// The view of [`ColumnChild`].
pub enum SpecColumnChild {
    MjText(SpecMjText),
    MjButton(SpecMjButton),
    MjImage(SpecMjImage),
    MjDivider(SpecMjDivider),
    MjSpacer(SpecMjSpacer),
    MjSocial(SpecMjSocial),
    MjTable(SpecMjTable),
    MjNavbar(SpecMjNavbar),
    MjAccordion(SpecMjAccordion),
    MjCarousel(SpecMjCarousel),
}

/// A top-level (or wrapped) body node.
#[derive(Debug, PartialEq, Eq)]
pub enum BodyNode {
    MjSection(MjSection),
    MjWrapper(MjWrapper),
    MjHero(MjHero),
    EmailHeader(EmailHeader),
    EmailHero(EmailHero),
    EmailCta(EmailCta),
    EmailArticle(EmailArticle),
    EmailFooter(EmailFooter),
}

/// The view of [`BodyNode`].
pub enum SpecBodyNode {
    MjSection(SpecMjSection),
    MjWrapper(SpecMjWrapper),
    MjHero(SpecMjHero),
    EmailHeader(SpecEmailHeader),
    EmailHero(SpecEmailHero),
    EmailCta(SpecEmailCta),
    EmailArticle(SpecEmailArticle),
    EmailFooter(SpecEmailFooter),
}

/// A web font linked from the head.
#[derive(Debug, PartialEq, Eq)]
pub struct WebFont {
    pub name: String,
    pub href: String,
}

/// The view of [`WebFont`].
pub struct SpecWebFont {
    pub name: Seq<char>,
    pub href: Seq<char>,
}

/// The `<mj-head>` settings.
#[derive(Debug, PartialEq, Eq)]
pub struct Head {
    pub title: String,
    pub breakpoint: String,
    pub json_ld: String,
    pub css: String,
    pub css_inline: bool,
    pub fonts: Vec<WebFont>,
}

/// The view of [`Head`].
pub struct SpecHead {
    pub title: Seq<char>,
    pub breakpoint: Seq<char>,
    pub json_ld: Seq<char>,
    pub css: Seq<char>,
    pub css_inline: bool,
    pub fonts: Seq<SpecWebFont>,
}

/// Brand defaults applied through `<mj-attributes>`.
#[derive(Debug, PartialEq, Eq)]
pub struct Brand {
    pub font_family: String,
    pub text_color: String,
    pub background_color: String,
    pub content_width: u32,
    pub button_background: String,
    pub button_color: String,
}

/// The view of [`Brand`].
pub struct SpecBrand {
    pub font_family: Seq<char>,
    pub text_color: Seq<char>,
    pub background_color: Seq<char>,
    pub content_width: u32,
    pub button_background: Seq<char>,
    pub button_color: Seq<char>,
}

/// One icon of a social row.
#[derive(Debug, PartialEq, Eq)]
pub struct MjSocialElement {
    pub name: SocialNetwork,
    pub href: String,
    pub src: Option<String>,
}

/// The view of [`MjSocialElement`].
pub struct SpecMjSocialElement {
    pub name: SocialNetwork,
    pub href: Seq<char>,
    pub src: Option<Seq<char>>,
}

/// `<mj-text>`.
#[derive(Debug, PartialEq, Eq)]
pub struct MjText {
    pub content: String,
    pub align: Option<Align>,
    pub font_size: Option<String>,
    pub font_family: Option<String>,
    pub color: Option<String>,
    pub padding: Option<String>,
}

/// The view of [`MjText`].
pub struct SpecMjText {
    pub content: Seq<char>,
    pub align: Option<Align>,
    pub font_size: Option<Seq<char>>,
    pub font_family: Option<Seq<char>>,
    pub color: Option<Seq<char>>,
    pub padding: Option<Seq<char>>,
}

/// `<mj-button>`.
#[derive(Debug, PartialEq, Eq)]
pub struct MjButton {
    pub content: String,
    pub href: String,
    pub background_color: Option<String>,
    pub color: Option<String>,
    pub align: Option<Align>,
    pub font_family: Option<String>,
    pub border_radius: Option<String>,
    pub width: Option<String>,
    pub padding: Option<String>,
}

/// The view of [`MjButton`].
pub struct SpecMjButton {
    pub content: Seq<char>,
    pub href: Seq<char>,
    pub background_color: Option<Seq<char>>,
    pub color: Option<Seq<char>>,
    pub align: Option<Align>,
    pub font_family: Option<Seq<char>>,
    pub border_radius: Option<Seq<char>>,
    pub width: Option<Seq<char>>,
    pub padding: Option<Seq<char>>,
}

/// `<mj-image>`.
#[derive(Debug, PartialEq, Eq)]
pub struct MjImage {
    pub src: String,
    pub alt: String,
    pub href: Option<String>,
    pub width: Option<String>,
    pub align: Option<Align>,
    pub fluid_on_mobile: bool,
    pub padding: Option<String>,
}

/// The view of [`MjImage`].
pub struct SpecMjImage {
    pub src: Seq<char>,
    pub alt: Seq<char>,
    pub href: Option<Seq<char>>,
    pub width: Option<Seq<char>>,
    pub align: Option<Align>,
    pub fluid_on_mobile: bool,
    pub padding: Option<Seq<char>>,
}

/// `<mj-divider>`.
#[derive(Debug, PartialEq, Eq)]
pub struct MjDivider {
    pub border_color: Option<String>,
    pub border_width: Option<String>,
    pub padding: Option<String>,
}

/// The view of [`MjDivider`].
pub struct SpecMjDivider {
    pub border_color: Option<Seq<char>>,
    pub border_width: Option<Seq<char>>,
    pub padding: Option<Seq<char>>,
}

/// `<mj-spacer>`.
#[derive(Debug, PartialEq, Eq)]
pub struct MjSpacer {
    pub height: String,
}

/// The view of [`MjSpacer`].
pub struct SpecMjSpacer {
    pub height: Seq<char>,
}

/// `<mj-social>`.
#[derive(Debug, PartialEq, Eq)]
pub struct MjSocial {
    pub mode: SocialMode,
    pub align: Option<Align>,
    pub icon_size: String,
    pub elements: Vec<MjSocialElement>,
}

/// The view of [`MjSocial`].
pub struct SpecMjSocial {
    pub mode: SocialMode,
    pub align: Option<Align>,
    pub icon_size: Seq<char>,
    pub elements: Seq<SpecMjSocialElement>,
}

/// `<mj-table>` with raw row markup.
#[derive(Debug, PartialEq, Eq)]
pub struct MjTable {
    pub content: String,
    pub font_size: Option<String>,
    pub color: Option<String>,
    pub padding: Option<String>,
}

/// The view of [`MjTable`].
pub struct SpecMjTable {
    pub content: Seq<char>,
    pub font_size: Option<Seq<char>>,
    pub color: Option<Seq<char>>,
    pub padding: Option<Seq<char>>,
}

/// `<mj-navbar-link>`.
#[derive(Debug, PartialEq, Eq)]
pub struct MjNavbarLink {
    pub href: String,
    pub content: String,
    pub color: Option<String>,
    pub padding: Option<String>,
}

/// The view of [`MjNavbarLink`].
pub struct SpecMjNavbarLink {
    pub href: Seq<char>,
    pub content: Seq<char>,
    pub color: Option<Seq<char>>,
    pub padding: Option<Seq<char>>,
}

/// `<mj-navbar>`.
#[derive(Debug, PartialEq, Eq)]
pub struct MjNavbar {
    pub hamburger: bool,
    pub ico_color: Option<String>,
    pub base_url: Option<String>,
    pub align: Option<Align>,
    pub padding: Option<String>,
    pub links: Vec<MjNavbarLink>,
}

/// The view of [`MjNavbar`].
pub struct SpecMjNavbar {
    pub hamburger: bool,
    pub ico_color: Option<Seq<char>>,
    pub base_url: Option<Seq<char>>,
    pub align: Option<Align>,
    pub padding: Option<Seq<char>>,
    pub links: Seq<SpecMjNavbarLink>,
}

/// `<mj-accordion-element>`.
#[derive(Debug, PartialEq, Eq)]
pub struct MjAccordionElement {
    pub title: String,
    pub content: String,
    pub background_color: Option<String>,
}

/// The view of [`MjAccordionElement`].
pub struct SpecMjAccordionElement {
    pub title: Seq<char>,
    pub content: Seq<char>,
    pub background_color: Option<Seq<char>>,
}

/// `<mj-accordion>`.
#[derive(Debug, PartialEq, Eq)]
pub struct MjAccordion {
    pub border: Option<String>,
    pub padding: Option<String>,
    pub elements: Vec<MjAccordionElement>,
}

/// The view of [`MjAccordion`].
pub struct SpecMjAccordion {
    pub border: Option<Seq<char>>,
    pub padding: Option<Seq<char>>,
    pub elements: Seq<SpecMjAccordionElement>,
}

/// `<mj-carousel-image>`.
#[derive(Debug, PartialEq, Eq)]
pub struct MjCarouselImage {
    pub src: String,
    pub alt: String,
    pub href: Option<String>,
    pub thumbnails_src: Option<String>,
}

/// The view of [`MjCarouselImage`].
pub struct SpecMjCarouselImage {
    pub src: Seq<char>,
    pub alt: Seq<char>,
    pub href: Option<Seq<char>>,
    pub thumbnails_src: Option<Seq<char>>,
}

/// `<mj-carousel>`.
#[derive(Debug, PartialEq, Eq)]
pub struct MjCarousel {
    pub align: Option<Align>,
    pub padding: Option<String>,
    pub thumbnails: Thumbnails,
    pub images: Vec<MjCarouselImage>,
}

/// The view of [`MjCarousel`].
pub struct SpecMjCarousel {
    pub align: Option<Align>,
    pub padding: Option<Seq<char>>,
    pub thumbnails: Thumbnails,
    pub images: Seq<SpecMjCarouselImage>,
}

/// `<mj-column>`.
#[derive(Debug, PartialEq, Eq)]
pub struct MjColumn {
    pub width: Option<String>,
    pub background_color: Option<String>,
    pub padding: Option<String>,
    pub inner_background_color: Option<String>,
    pub components: Vec<ColumnChild>,
}

/// The view of [`MjColumn`].
pub struct SpecMjColumn {
    pub width: Option<Seq<char>>,
    pub background_color: Option<Seq<char>>,
    pub padding: Option<Seq<char>>,
    pub inner_background_color: Option<Seq<char>>,
    pub components: Seq<SpecColumnChild>,
}

/// `<mj-group>`: columns that never stack.
#[derive(Debug, PartialEq, Eq)]
pub struct MjGroup {
    pub width: Option<String>,
    pub background_color: Option<String>,
    pub children: Vec<MjColumn>,
}

/// The view of [`MjGroup`].
pub struct SpecMjGroup {
    pub width: Option<Seq<char>>,
    pub background_color: Option<Seq<char>>,
    pub children: Seq<SpecMjColumn>,
}

/// `<mj-section>`.
#[derive(Debug, PartialEq, Eq)]
pub struct MjSection {
    pub background_color: Option<String>,
    pub padding: Option<String>,
    pub full_width: bool,
    pub children: Vec<SectionChild>,
}

/// The view of [`MjSection`].
pub struct SpecMjSection {
    pub background_color: Option<Seq<char>>,
    pub padding: Option<Seq<char>>,
    pub full_width: bool,
    pub children: Seq<SpecSectionChild>,
}

/// `<mj-wrapper>` around sections and heroes.
#[derive(Debug, PartialEq, Eq)]
pub struct MjWrapper {
    pub background_color: Option<String>,
    pub padding: Option<String>,
    pub full_width: bool,
    pub children: Vec<BodyNode>,
}

/// The view of [`MjWrapper`].
pub struct SpecMjWrapper {
    pub background_color: Option<Seq<char>>,
    pub padding: Option<Seq<char>>,
    pub full_width: bool,
    pub children: Seq<SpecBodyNode>,
}

/// `<mj-hero>`.
#[derive(Debug, PartialEq, Eq)]
pub struct MjHero {
    pub mode: HeroMode,
    pub background_url: Option<String>,
    pub background_color: Option<String>,
    pub background_height: Option<String>,
    pub width: Option<String>,
    pub height: Option<String>,
    pub children: Vec<ColumnChild>,
}

/// The view of [`MjHero`].
pub struct SpecMjHero {
    pub mode: HeroMode,
    pub background_url: Option<Seq<char>>,
    pub background_color: Option<Seq<char>>,
    pub background_height: Option<Seq<char>>,
    pub width: Option<Seq<char>>,
    pub height: Option<Seq<char>>,
    pub children: Seq<SpecColumnChild>,
}

/// Logo header block.
#[derive(Debug, PartialEq, Eq)]
pub struct EmailHeader {
    pub logo_src: String,
    pub logo_alt: String,
    pub logo_href: Option<String>,
    pub logo_width: String,
    pub background_color: Option<String>,
}

/// The view of [`EmailHeader`].
pub struct SpecEmailHeader {
    pub logo_src: Seq<char>,
    pub logo_alt: Seq<char>,
    pub logo_href: Option<Seq<char>>,
    pub logo_width: Seq<char>,
    pub background_color: Option<Seq<char>>,
}

/// Image + heading hero block.
#[derive(Debug, PartialEq, Eq)]
pub struct EmailHero {
    pub image_src: String,
    pub image_alt: String,
    pub heading: String,
    pub subheading: String,
    pub background_color: Option<String>,
}

/// The view of [`EmailHero`].
pub struct SpecEmailHero {
    pub image_src: Seq<char>,
    pub image_alt: Seq<char>,
    pub heading: Seq<char>,
    pub subheading: Seq<char>,
    pub background_color: Option<Seq<char>>,
}

/// Call-to-action block.
#[derive(Debug, PartialEq, Eq)]
pub struct EmailCta {
    pub heading: String,
    pub copy: String,
    pub button_label: String,
    pub button_href: String,
    pub background_color: Option<String>,
}

/// The view of [`EmailCta`].
pub struct SpecEmailCta {
    pub heading: Seq<char>,
    pub copy: Seq<char>,
    pub button_label: Seq<char>,
    pub button_href: Seq<char>,
    pub background_color: Option<Seq<char>>,
}

/// Article teaser block.
#[derive(Debug, PartialEq, Eq)]
pub struct EmailArticle {
    pub image_src: String,
    pub image_alt: String,
    pub title: String,
    pub copy: String,
    pub link_label: String,
    pub link_href: String,
    pub image_position: ImagePosition,
}

/// The view of [`EmailArticle`].
pub struct SpecEmailArticle {
    pub image_src: Seq<char>,
    pub image_alt: Seq<char>,
    pub title: Seq<char>,
    pub copy: Seq<char>,
    pub link_label: Seq<char>,
    pub link_href: Seq<char>,
    pub image_position: ImagePosition,
}

/// Footer block with address, unsubscribe and social icons.
#[derive(Debug, PartialEq, Eq)]
pub struct EmailFooter {
    pub company_name: String,
    pub address_lines: Vec<String>,
    pub unsubscribe_label: String,
    pub unsubscribe_href: String,
    pub social: Vec<MjSocialElement>,
    pub copyright: Option<String>,
}

/// The view of [`EmailFooter`].
pub struct SpecEmailFooter {
    pub company_name: Seq<char>,
    pub address_lines: Seq<Seq<char>>,
    pub unsubscribe_label: Seq<char>,
    pub unsubscribe_href: Seq<char>,
    pub social: Seq<SpecMjSocialElement>,
    pub copyright: Option<Seq<char>>,
}

/// The `<mj-body>` settings and top-level nodes.
#[derive(Debug, PartialEq, Eq)]
pub struct Body {
    pub background_color: String,
    pub nodes: Vec<BodyNode>,
}

/// The view of [`Body`].
pub struct SpecBody {
    pub background_color: Seq<char>,
    pub nodes: Seq<SpecBodyNode>,
}

/// A whole email template (`template.json`).
#[derive(Debug, PartialEq, Eq)]
pub struct Template {
    pub version: u32,
    pub name: String,
    pub subject: String,
    pub preheader: String,
    pub lang: String,
    pub base_url: String,
    pub head: Head,
    pub brand: Brand,
    pub body: Body,
}

/// The view of [`Template`].
pub struct SpecTemplate {
    pub version: u32,
    pub name: Seq<char>,
    pub subject: Seq<char>,
    pub preheader: Seq<char>,
    pub lang: Seq<char>,
    pub base_url: Seq<char>,
    pub head: SpecHead,
    pub brand: SpecBrand,
    pub body: SpecBody,
}

/// The view of an optional string.
pub open spec fn opt_view(o: Option<String>) -> Option<Seq<char>> {
    match o {
        Some(s) => Some(s@),
        None => None,
    }
}

/// Element-wise view of a sequence of [`BodyNode`].
pub open spec fn seq_view_body_node(s: Seq<BodyNode>) -> Seq<SpecBodyNode>
    decreases s,
{
    if s.len() == 0 {
        Seq::empty()
    } else {
        seq_view_body_node(s.drop_last()).push(body_node_view(s.last()))
    }
}

/// The view of a sequence of body nodes has one view per node, in order.
pub broadcast proof fn lemma_seq_view_body_node(s: Seq<BodyNode>)
    ensures
        #[trigger] seq_view_body_node(s).len() == s.len(),
        forall|k: int| 0 <= k < s.len() ==> seq_view_body_node(s)[k] == body_node_view(#[trigger] s[k]),
    decreases s.len(),
{
    if s.len() > 0 {
        lemma_seq_view_body_node(s.drop_last());
        assert forall|k: int| 0 <= k < s.len() implies seq_view_body_node(s)[k] == body_node_view(
            #[trigger] s[k],
        ) by {
            if k < s.len() - 1 {
                assert(s.drop_last()[k] == s[k]);
            }
        }
    }
}

/// The view of one body node (recursive through wrappers).
pub open spec fn body_node_view(n: BodyNode) -> SpecBodyNode
    decreases n,
{
    match n {
        BodyNode::MjSection(x) => SpecBodyNode::MjSection(x@),
        BodyNode::MjWrapper(x) => SpecBodyNode::MjWrapper(wrapper_view(x)),
        BodyNode::MjHero(x) => SpecBodyNode::MjHero(x@),
        BodyNode::EmailHeader(x) => SpecBodyNode::EmailHeader(x@),
        BodyNode::EmailHero(x) => SpecBodyNode::EmailHero(x@),
        BodyNode::EmailCta(x) => SpecBodyNode::EmailCta(x@),
        BodyNode::EmailArticle(x) => SpecBodyNode::EmailArticle(x@),
        BodyNode::EmailFooter(x) => SpecBodyNode::EmailFooter(x@),
    }
}

/// The view of a wrapper (recursive through its children).
pub open spec fn wrapper_view(w: MjWrapper) -> SpecMjWrapper
    decreases w,
{
    SpecMjWrapper {
        background_color: opt_view(w.background_color),
        padding: opt_view(w.padding),
        full_width: w.full_width,
        children: seq_view_body_node(w.children@),
    }
}

/// Element-wise view of a sequence of [`ColumnChild`].
pub open spec fn seq_view_column_child(s: Seq<ColumnChild>) -> Seq<SpecColumnChild> {
    s.map_values(|x: ColumnChild| x@)
}

/// Element-wise view of a sequence of [`MjAccordionElement`].
pub open spec fn seq_view_mj_accordion_element(s: Seq<MjAccordionElement>) -> Seq<SpecMjAccordionElement> {
    s.map_values(|x: MjAccordionElement| x@)
}

/// Element-wise view of a sequence of [`MjCarouselImage`].
pub open spec fn seq_view_mj_carousel_image(s: Seq<MjCarouselImage>) -> Seq<SpecMjCarouselImage> {
    s.map_values(|x: MjCarouselImage| x@)
}

/// Element-wise view of a sequence of [`MjColumn`].
pub open spec fn seq_view_mj_column(s: Seq<MjColumn>) -> Seq<SpecMjColumn> {
    s.map_values(|x: MjColumn| x@)
}

/// Element-wise view of a sequence of [`MjNavbarLink`].
pub open spec fn seq_view_mj_navbar_link(s: Seq<MjNavbarLink>) -> Seq<SpecMjNavbarLink> {
    s.map_values(|x: MjNavbarLink| x@)
}

/// Element-wise view of a sequence of [`MjSocialElement`].
pub open spec fn seq_view_mj_social_element(s: Seq<MjSocialElement>) -> Seq<SpecMjSocialElement> {
    s.map_values(|x: MjSocialElement| x@)
}

/// Element-wise view of a sequence of [`SectionChild`].
pub open spec fn seq_view_section_child(s: Seq<SectionChild>) -> Seq<SpecSectionChild> {
    s.map_values(|x: SectionChild| x@)
}

/// Element-wise view of a sequence of strings.
pub open spec fn seq_view_string(s: Seq<String>) -> Seq<Seq<char>> {
    s.map_values(|x: String| x@)
}

/// Element-wise view of a sequence of [`WebFont`].
pub open spec fn seq_view_web_font(s: Seq<WebFont>) -> Seq<SpecWebFont> {
    s.map_values(|x: WebFont| x@)
}

impl View for WebFont {
    type V = SpecWebFont;

    open spec fn view(&self) -> SpecWebFont {
        SpecWebFont {
            name: self.name@,
            href: self.href@,
        }
    }
}

impl View for Head {
    type V = SpecHead;

    open spec fn view(&self) -> SpecHead {
        SpecHead {
            title: self.title@,
            breakpoint: self.breakpoint@,
            json_ld: self.json_ld@,
            css: self.css@,
            css_inline: self.css_inline,
            fonts: seq_view_web_font(self.fonts@),
        }
    }
}

impl View for Brand {
    type V = SpecBrand;

    open spec fn view(&self) -> SpecBrand {
        SpecBrand {
            font_family: self.font_family@,
            text_color: self.text_color@,
            background_color: self.background_color@,
            content_width: self.content_width,
            button_background: self.button_background@,
            button_color: self.button_color@,
        }
    }
}

impl View for MjSocialElement {
    type V = SpecMjSocialElement;

    open spec fn view(&self) -> SpecMjSocialElement {
        SpecMjSocialElement {
            name: self.name,
            href: self.href@,
            src: opt_view(self.src),
        }
    }
}

impl View for MjText {
    type V = SpecMjText;

    open spec fn view(&self) -> SpecMjText {
        SpecMjText {
            content: self.content@,
            align: self.align,
            font_size: opt_view(self.font_size),
            font_family: opt_view(self.font_family),
            color: opt_view(self.color),
            padding: opt_view(self.padding),
        }
    }
}

impl View for MjButton {
    type V = SpecMjButton;

    open spec fn view(&self) -> SpecMjButton {
        SpecMjButton {
            content: self.content@,
            href: self.href@,
            background_color: opt_view(self.background_color),
            color: opt_view(self.color),
            align: self.align,
            font_family: opt_view(self.font_family),
            border_radius: opt_view(self.border_radius),
            width: opt_view(self.width),
            padding: opt_view(self.padding),
        }
    }
}

impl View for MjImage {
    type V = SpecMjImage;

    open spec fn view(&self) -> SpecMjImage {
        SpecMjImage {
            src: self.src@,
            alt: self.alt@,
            href: opt_view(self.href),
            width: opt_view(self.width),
            align: self.align,
            fluid_on_mobile: self.fluid_on_mobile,
            padding: opt_view(self.padding),
        }
    }
}

impl View for MjDivider {
    type V = SpecMjDivider;

    open spec fn view(&self) -> SpecMjDivider {
        SpecMjDivider {
            border_color: opt_view(self.border_color),
            border_width: opt_view(self.border_width),
            padding: opt_view(self.padding),
        }
    }
}

impl View for MjSpacer {
    type V = SpecMjSpacer;

    open spec fn view(&self) -> SpecMjSpacer {
        SpecMjSpacer {
            height: self.height@,
        }
    }
}

impl View for MjSocial {
    type V = SpecMjSocial;

    open spec fn view(&self) -> SpecMjSocial {
        SpecMjSocial {
            mode: self.mode,
            align: self.align,
            icon_size: self.icon_size@,
            elements: seq_view_mj_social_element(self.elements@),
        }
    }
}

impl View for MjTable {
    type V = SpecMjTable;

    open spec fn view(&self) -> SpecMjTable {
        SpecMjTable {
            content: self.content@,
            font_size: opt_view(self.font_size),
            color: opt_view(self.color),
            padding: opt_view(self.padding),
        }
    }
}

impl View for MjNavbarLink {
    type V = SpecMjNavbarLink;

    open spec fn view(&self) -> SpecMjNavbarLink {
        SpecMjNavbarLink {
            href: self.href@,
            content: self.content@,
            color: opt_view(self.color),
            padding: opt_view(self.padding),
        }
    }
}

impl View for MjNavbar {
    type V = SpecMjNavbar;

    open spec fn view(&self) -> SpecMjNavbar {
        SpecMjNavbar {
            hamburger: self.hamburger,
            ico_color: opt_view(self.ico_color),
            base_url: opt_view(self.base_url),
            align: self.align,
            padding: opt_view(self.padding),
            links: seq_view_mj_navbar_link(self.links@),
        }
    }
}

impl View for MjAccordionElement {
    type V = SpecMjAccordionElement;

    open spec fn view(&self) -> SpecMjAccordionElement {
        SpecMjAccordionElement {
            title: self.title@,
            content: self.content@,
            background_color: opt_view(self.background_color),
        }
    }
}

impl View for MjAccordion {
    type V = SpecMjAccordion;

    open spec fn view(&self) -> SpecMjAccordion {
        SpecMjAccordion {
            border: opt_view(self.border),
            padding: opt_view(self.padding),
            elements: seq_view_mj_accordion_element(self.elements@),
        }
    }
}

impl View for MjCarouselImage {
    type V = SpecMjCarouselImage;

    open spec fn view(&self) -> SpecMjCarouselImage {
        SpecMjCarouselImage {
            src: self.src@,
            alt: self.alt@,
            href: opt_view(self.href),
            thumbnails_src: opt_view(self.thumbnails_src),
        }
    }
}

impl View for MjCarousel {
    type V = SpecMjCarousel;

    open spec fn view(&self) -> SpecMjCarousel {
        SpecMjCarousel {
            align: self.align,
            padding: opt_view(self.padding),
            thumbnails: self.thumbnails,
            images: seq_view_mj_carousel_image(self.images@),
        }
    }
}

impl View for MjColumn {
    type V = SpecMjColumn;

    open spec fn view(&self) -> SpecMjColumn {
        SpecMjColumn {
            width: opt_view(self.width),
            background_color: opt_view(self.background_color),
            padding: opt_view(self.padding),
            inner_background_color: opt_view(self.inner_background_color),
            components: seq_view_column_child(self.components@),
        }
    }
}

impl View for MjGroup {
    type V = SpecMjGroup;

    open spec fn view(&self) -> SpecMjGroup {
        SpecMjGroup {
            width: opt_view(self.width),
            background_color: opt_view(self.background_color),
            children: seq_view_mj_column(self.children@),
        }
    }
}

impl View for MjSection {
    type V = SpecMjSection;

    open spec fn view(&self) -> SpecMjSection {
        SpecMjSection {
            background_color: opt_view(self.background_color),
            padding: opt_view(self.padding),
            full_width: self.full_width,
            children: seq_view_section_child(self.children@),
        }
    }
}

impl View for MjWrapper {
    type V = SpecMjWrapper;

    open spec fn view(&self) -> SpecMjWrapper {
        wrapper_view(*self)
    }
}

impl View for MjHero {
    type V = SpecMjHero;

    open spec fn view(&self) -> SpecMjHero {
        SpecMjHero {
            mode: self.mode,
            background_url: opt_view(self.background_url),
            background_color: opt_view(self.background_color),
            background_height: opt_view(self.background_height),
            width: opt_view(self.width),
            height: opt_view(self.height),
            children: seq_view_column_child(self.children@),
        }
    }
}

impl View for EmailHeader {
    type V = SpecEmailHeader;

    open spec fn view(&self) -> SpecEmailHeader {
        SpecEmailHeader {
            logo_src: self.logo_src@,
            logo_alt: self.logo_alt@,
            logo_href: opt_view(self.logo_href),
            logo_width: self.logo_width@,
            background_color: opt_view(self.background_color),
        }
    }
}

impl View for EmailHero {
    type V = SpecEmailHero;

    open spec fn view(&self) -> SpecEmailHero {
        SpecEmailHero {
            image_src: self.image_src@,
            image_alt: self.image_alt@,
            heading: self.heading@,
            subheading: self.subheading@,
            background_color: opt_view(self.background_color),
        }
    }
}

impl View for EmailCta {
    type V = SpecEmailCta;

    open spec fn view(&self) -> SpecEmailCta {
        SpecEmailCta {
            heading: self.heading@,
            copy: self.copy@,
            button_label: self.button_label@,
            button_href: self.button_href@,
            background_color: opt_view(self.background_color),
        }
    }
}

impl View for EmailArticle {
    type V = SpecEmailArticle;

    open spec fn view(&self) -> SpecEmailArticle {
        SpecEmailArticle {
            image_src: self.image_src@,
            image_alt: self.image_alt@,
            title: self.title@,
            copy: self.copy@,
            link_label: self.link_label@,
            link_href: self.link_href@,
            image_position: self.image_position,
        }
    }
}

impl View for EmailFooter {
    type V = SpecEmailFooter;

    open spec fn view(&self) -> SpecEmailFooter {
        SpecEmailFooter {
            company_name: self.company_name@,
            address_lines: seq_view_string(self.address_lines@),
            unsubscribe_label: self.unsubscribe_label@,
            unsubscribe_href: self.unsubscribe_href@,
            social: seq_view_mj_social_element(self.social@),
            copyright: opt_view(self.copyright),
        }
    }
}

impl View for Body {
    type V = SpecBody;

    open spec fn view(&self) -> SpecBody {
        SpecBody {
            background_color: self.background_color@,
            nodes: seq_view_body_node(self.nodes@),
        }
    }
}

impl View for Template {
    type V = SpecTemplate;

    open spec fn view(&self) -> SpecTemplate {
        SpecTemplate {
            version: self.version,
            name: self.name@,
            subject: self.subject@,
            preheader: self.preheader@,
            lang: self.lang@,
            base_url: self.base_url@,
            head: self.head@,
            brand: self.brand@,
            body: self.body@,
        }
    }
}

impl View for SectionChild {
    type V = SpecSectionChild;

    open spec fn view(&self) -> SpecSectionChild {
        match self {
            SectionChild::MjColumn(x) => SpecSectionChild::MjColumn(x@),
            SectionChild::MjGroup(x) => SpecSectionChild::MjGroup(x@),
        }
    }
}

impl View for ColumnChild {
    type V = SpecColumnChild;

    open spec fn view(&self) -> SpecColumnChild {
        match self {
            ColumnChild::MjText(x) => SpecColumnChild::MjText(x@),
            ColumnChild::MjButton(x) => SpecColumnChild::MjButton(x@),
            ColumnChild::MjImage(x) => SpecColumnChild::MjImage(x@),
            ColumnChild::MjDivider(x) => SpecColumnChild::MjDivider(x@),
            ColumnChild::MjSpacer(x) => SpecColumnChild::MjSpacer(x@),
            ColumnChild::MjSocial(x) => SpecColumnChild::MjSocial(x@),
            ColumnChild::MjTable(x) => SpecColumnChild::MjTable(x@),
            ColumnChild::MjNavbar(x) => SpecColumnChild::MjNavbar(x@),
            ColumnChild::MjAccordion(x) => SpecColumnChild::MjAccordion(x@),
            ColumnChild::MjCarousel(x) => SpecColumnChild::MjCarousel(x@),
        }
    }
}

impl View for BodyNode {
    type V = SpecBodyNode;

    open spec fn view(&self) -> SpecBodyNode {
        body_node_view(*self)
    }
}

impl Clone for WebFont {
    fn clone(&self) -> (r: Self)
        ensures
            r@ == self@,
    {
        WebFont {
            name: self.name.clone(),
            href: self.href.clone(),
        }
    }
}

impl Clone for Head {
    fn clone(&self) -> (r: Self)
        ensures
            r@ == self@,
    {
        Head {
            title: self.title.clone(),
            breakpoint: self.breakpoint.clone(),
            json_ld: self.json_ld.clone(),
            css: self.css.clone(),
            css_inline: self.css_inline,
            fonts: clone_vec_web_font(&self.fonts),
        }
    }
}

impl Clone for Brand {
    fn clone(&self) -> (r: Self)
        ensures
            r@ == self@,
    {
        Brand {
            font_family: self.font_family.clone(),
            text_color: self.text_color.clone(),
            background_color: self.background_color.clone(),
            content_width: self.content_width,
            button_background: self.button_background.clone(),
            button_color: self.button_color.clone(),
        }
    }
}

impl Clone for MjSocialElement {
    fn clone(&self) -> (r: Self)
        ensures
            r@ == self@,
    {
        MjSocialElement {
            name: self.name,
            href: self.href.clone(),
            src: self.src.clone(),
        }
    }
}

impl Clone for MjText {
    fn clone(&self) -> (r: Self)
        ensures
            r@ == self@,
    {
        MjText {
            content: self.content.clone(),
            align: self.align,
            font_size: self.font_size.clone(),
            font_family: self.font_family.clone(),
            color: self.color.clone(),
            padding: self.padding.clone(),
        }
    }
}

impl Clone for MjButton {
    fn clone(&self) -> (r: Self)
        ensures
            r@ == self@,
    {
        MjButton {
            content: self.content.clone(),
            href: self.href.clone(),
            background_color: self.background_color.clone(),
            color: self.color.clone(),
            align: self.align,
            font_family: self.font_family.clone(),
            border_radius: self.border_radius.clone(),
            width: self.width.clone(),
            padding: self.padding.clone(),
        }
    }
}

impl Clone for MjImage {
    fn clone(&self) -> (r: Self)
        ensures
            r@ == self@,
    {
        MjImage {
            src: self.src.clone(),
            alt: self.alt.clone(),
            href: self.href.clone(),
            width: self.width.clone(),
            align: self.align,
            fluid_on_mobile: self.fluid_on_mobile,
            padding: self.padding.clone(),
        }
    }
}

impl Clone for MjDivider {
    fn clone(&self) -> (r: Self)
        ensures
            r@ == self@,
    {
        MjDivider {
            border_color: self.border_color.clone(),
            border_width: self.border_width.clone(),
            padding: self.padding.clone(),
        }
    }
}

impl Clone for MjSpacer {
    fn clone(&self) -> (r: Self)
        ensures
            r@ == self@,
    {
        MjSpacer {
            height: self.height.clone(),
        }
    }
}

impl Clone for MjSocial {
    fn clone(&self) -> (r: Self)
        ensures
            r@ == self@,
    {
        MjSocial {
            mode: self.mode,
            align: self.align,
            icon_size: self.icon_size.clone(),
            elements: clone_vec_mj_social_element(&self.elements),
        }
    }
}

impl Clone for MjTable {
    fn clone(&self) -> (r: Self)
        ensures
            r@ == self@,
    {
        MjTable {
            content: self.content.clone(),
            font_size: self.font_size.clone(),
            color: self.color.clone(),
            padding: self.padding.clone(),
        }
    }
}

impl Clone for MjNavbarLink {
    fn clone(&self) -> (r: Self)
        ensures
            r@ == self@,
    {
        MjNavbarLink {
            href: self.href.clone(),
            content: self.content.clone(),
            color: self.color.clone(),
            padding: self.padding.clone(),
        }
    }
}

impl Clone for MjNavbar {
    fn clone(&self) -> (r: Self)
        ensures
            r@ == self@,
    {
        MjNavbar {
            hamburger: self.hamburger,
            ico_color: self.ico_color.clone(),
            base_url: self.base_url.clone(),
            align: self.align,
            padding: self.padding.clone(),
            links: clone_vec_mj_navbar_link(&self.links),
        }
    }
}

impl Clone for MjAccordionElement {
    fn clone(&self) -> (r: Self)
        ensures
            r@ == self@,
    {
        MjAccordionElement {
            title: self.title.clone(),
            content: self.content.clone(),
            background_color: self.background_color.clone(),
        }
    }
}

impl Clone for MjAccordion {
    fn clone(&self) -> (r: Self)
        ensures
            r@ == self@,
    {
        MjAccordion {
            border: self.border.clone(),
            padding: self.padding.clone(),
            elements: clone_vec_mj_accordion_element(&self.elements),
        }
    }
}

impl Clone for MjCarouselImage {
    fn clone(&self) -> (r: Self)
        ensures
            r@ == self@,
    {
        MjCarouselImage {
            src: self.src.clone(),
            alt: self.alt.clone(),
            href: self.href.clone(),
            thumbnails_src: self.thumbnails_src.clone(),
        }
    }
}

impl Clone for MjCarousel {
    fn clone(&self) -> (r: Self)
        ensures
            r@ == self@,
    {
        MjCarousel {
            align: self.align,
            padding: self.padding.clone(),
            thumbnails: self.thumbnails,
            images: clone_vec_mj_carousel_image(&self.images),
        }
    }
}

impl Clone for MjColumn {
    fn clone(&self) -> (r: Self)
        ensures
            r@ == self@,
    {
        MjColumn {
            width: self.width.clone(),
            background_color: self.background_color.clone(),
            padding: self.padding.clone(),
            inner_background_color: self.inner_background_color.clone(),
            components: clone_vec_column_child(&self.components),
        }
    }
}

impl Clone for MjGroup {
    fn clone(&self) -> (r: Self)
        ensures
            r@ == self@,
    {
        MjGroup {
            width: self.width.clone(),
            background_color: self.background_color.clone(),
            children: clone_vec_mj_column(&self.children),
        }
    }
}

impl Clone for MjSection {
    fn clone(&self) -> (r: Self)
        ensures
            r@ == self@,
    {
        MjSection {
            background_color: self.background_color.clone(),
            padding: self.padding.clone(),
            full_width: self.full_width,
            children: clone_vec_section_child(&self.children),
        }
    }
}

impl Clone for MjWrapper {
    fn clone(&self) -> (r: Self)
        ensures
            r@ == self@,
        decreases self,
    {
        MjWrapper {
            background_color: self.background_color.clone(),
            padding: self.padding.clone(),
            full_width: self.full_width,
            children: clone_vec_body_node(&self.children),
        }
    }
}

impl Clone for MjHero {
    fn clone(&self) -> (r: Self)
        ensures
            r@ == self@,
    {
        MjHero {
            mode: self.mode,
            background_url: self.background_url.clone(),
            background_color: self.background_color.clone(),
            background_height: self.background_height.clone(),
            width: self.width.clone(),
            height: self.height.clone(),
            children: clone_vec_column_child(&self.children),
        }
    }
}

impl Clone for EmailHeader {
    fn clone(&self) -> (r: Self)
        ensures
            r@ == self@,
    {
        EmailHeader {
            logo_src: self.logo_src.clone(),
            logo_alt: self.logo_alt.clone(),
            logo_href: self.logo_href.clone(),
            logo_width: self.logo_width.clone(),
            background_color: self.background_color.clone(),
        }
    }
}

impl Clone for EmailHero {
    fn clone(&self) -> (r: Self)
        ensures
            r@ == self@,
    {
        EmailHero {
            image_src: self.image_src.clone(),
            image_alt: self.image_alt.clone(),
            heading: self.heading.clone(),
            subheading: self.subheading.clone(),
            background_color: self.background_color.clone(),
        }
    }
}

impl Clone for EmailCta {
    fn clone(&self) -> (r: Self)
        ensures
            r@ == self@,
    {
        EmailCta {
            heading: self.heading.clone(),
            copy: self.copy.clone(),
            button_label: self.button_label.clone(),
            button_href: self.button_href.clone(),
            background_color: self.background_color.clone(),
        }
    }
}

impl Clone for EmailArticle {
    fn clone(&self) -> (r: Self)
        ensures
            r@ == self@,
    {
        EmailArticle {
            image_src: self.image_src.clone(),
            image_alt: self.image_alt.clone(),
            title: self.title.clone(),
            copy: self.copy.clone(),
            link_label: self.link_label.clone(),
            link_href: self.link_href.clone(),
            image_position: self.image_position,
        }
    }
}

impl Clone for EmailFooter {
    fn clone(&self) -> (r: Self)
        ensures
            r@ == self@,
    {
        EmailFooter {
            company_name: self.company_name.clone(),
            address_lines: clone_vec_string(&self.address_lines),
            unsubscribe_label: self.unsubscribe_label.clone(),
            unsubscribe_href: self.unsubscribe_href.clone(),
            social: clone_vec_mj_social_element(&self.social),
            copyright: self.copyright.clone(),
        }
    }
}

impl Clone for Body {
    fn clone(&self) -> (r: Self)
        ensures
            r@ == self@,
    {
        Body {
            background_color: self.background_color.clone(),
            nodes: clone_vec_body_node(&self.nodes),
        }
    }
}

impl Clone for Template {
    fn clone(&self) -> (r: Self)
        ensures
            r@ == self@,
    {
        Template {
            version: self.version,
            name: self.name.clone(),
            subject: self.subject.clone(),
            preheader: self.preheader.clone(),
            lang: self.lang.clone(),
            base_url: self.base_url.clone(),
            head: self.head.clone(),
            brand: self.brand.clone(),
            body: self.body.clone(),
        }
    }
}

impl Clone for SectionChild {
    fn clone(&self) -> (r: Self)
        ensures
            r@ == self@,
    {
        match self {
            SectionChild::MjColumn(x) => SectionChild::MjColumn(x.clone()),
            SectionChild::MjGroup(x) => SectionChild::MjGroup(x.clone()),
        }
    }
}

impl Clone for ColumnChild {
    fn clone(&self) -> (r: Self)
        ensures
            r@ == self@,
    {
        match self {
            ColumnChild::MjText(x) => ColumnChild::MjText(x.clone()),
            ColumnChild::MjButton(x) => ColumnChild::MjButton(x.clone()),
            ColumnChild::MjImage(x) => ColumnChild::MjImage(x.clone()),
            ColumnChild::MjDivider(x) => ColumnChild::MjDivider(x.clone()),
            ColumnChild::MjSpacer(x) => ColumnChild::MjSpacer(x.clone()),
            ColumnChild::MjSocial(x) => ColumnChild::MjSocial(x.clone()),
            ColumnChild::MjTable(x) => ColumnChild::MjTable(x.clone()),
            ColumnChild::MjNavbar(x) => ColumnChild::MjNavbar(x.clone()),
            ColumnChild::MjAccordion(x) => ColumnChild::MjAccordion(x.clone()),
            ColumnChild::MjCarousel(x) => ColumnChild::MjCarousel(x.clone()),
        }
    }
}

impl Clone for BodyNode {
    fn clone(&self) -> (r: Self)
        ensures
            r@ == self@,
        decreases self,
    {
        match self {
            BodyNode::MjSection(x) => BodyNode::MjSection(x.clone()),
            BodyNode::MjWrapper(x) => BodyNode::MjWrapper(x.clone()),
            BodyNode::MjHero(x) => BodyNode::MjHero(x.clone()),
            BodyNode::EmailHeader(x) => BodyNode::EmailHeader(x.clone()),
            BodyNode::EmailHero(x) => BodyNode::EmailHero(x.clone()),
            BodyNode::EmailCta(x) => BodyNode::EmailCta(x.clone()),
            BodyNode::EmailArticle(x) => BodyNode::EmailArticle(x.clone()),
            BodyNode::EmailFooter(x) => BodyNode::EmailFooter(x.clone()),
        }
    }
}

/// An element-wise copy of a `Vec<BodyNode>`.
pub fn clone_vec_body_node(v: &Vec<BodyNode>) -> (r: Vec<BodyNode>)
    ensures
        seq_view_body_node(r@) == seq_view_body_node(v@),
    decreases v,
{
    let mut r: Vec<BodyNode> = Vec::new();
    let mut i: usize = 0;
    while i < v.len()
        invariant
            i <= v.len(),
            r@.len() == i,
            forall|k: int| 0 <= k < i ==> body_node_view(r@[k]) == body_node_view(v@[k]),
        decreases v.len() - i,
    {
        assert(decreases_to!(v => v@[i as int]));
        r.push(v[i].clone());
        i = i + 1;
    }
    proof {
        lemma_seq_view_body_node(r@);
        lemma_seq_view_body_node(v@);
    }
    assert(seq_view_body_node(r@) =~= seq_view_body_node(v@)) by {
        assert forall|k: int| 0 <= k < v@.len() implies seq_view_body_node(r@)[k] == seq_view_body_node(v@)[k] by {
            assert(body_node_view(r@[k]) == body_node_view(v@[k]));
        }
    }
    r
}

/// An element-wise copy of a `Vec<ColumnChild>`.
pub fn clone_vec_column_child(v: &Vec<ColumnChild>) -> (r: Vec<ColumnChild>)
    ensures
        seq_view_column_child(r@) == seq_view_column_child(v@),
{
    let mut r: Vec<ColumnChild> = Vec::new();
    let mut i: usize = 0;
    while i < v.len()
        invariant
            i <= v.len(),
            r@.len() == i,
            forall|k: int| 0 <= k < i ==> r@[k]@ == v@[k]@,
        decreases v.len() - i,
    {
        r.push(v[i].clone());
        i = i + 1;
    }
    assert(seq_view_column_child(r@) =~= seq_view_column_child(v@));
    r
}

/// An element-wise copy of a `Vec<MjAccordionElement>`.
pub fn clone_vec_mj_accordion_element(v: &Vec<MjAccordionElement>) -> (r: Vec<MjAccordionElement>)
    ensures
        seq_view_mj_accordion_element(r@) == seq_view_mj_accordion_element(v@),
{
    let mut r: Vec<MjAccordionElement> = Vec::new();
    let mut i: usize = 0;
    while i < v.len()
        invariant
            i <= v.len(),
            r@.len() == i,
            forall|k: int| 0 <= k < i ==> r@[k]@ == v@[k]@,
        decreases v.len() - i,
    {
        r.push(v[i].clone());
        i = i + 1;
    }
    assert(seq_view_mj_accordion_element(r@) =~= seq_view_mj_accordion_element(v@));
    r
}

/// An element-wise copy of a `Vec<MjCarouselImage>`.
pub fn clone_vec_mj_carousel_image(v: &Vec<MjCarouselImage>) -> (r: Vec<MjCarouselImage>)
    ensures
        seq_view_mj_carousel_image(r@) == seq_view_mj_carousel_image(v@),
{
    let mut r: Vec<MjCarouselImage> = Vec::new();
    let mut i: usize = 0;
    while i < v.len()
        invariant
            i <= v.len(),
            r@.len() == i,
            forall|k: int| 0 <= k < i ==> r@[k]@ == v@[k]@,
        decreases v.len() - i,
    {
        r.push(v[i].clone());
        i = i + 1;
    }
    assert(seq_view_mj_carousel_image(r@) =~= seq_view_mj_carousel_image(v@));
    r
}

/// An element-wise copy of a `Vec<MjColumn>`.
pub fn clone_vec_mj_column(v: &Vec<MjColumn>) -> (r: Vec<MjColumn>)
    ensures
        seq_view_mj_column(r@) == seq_view_mj_column(v@),
{
    let mut r: Vec<MjColumn> = Vec::new();
    let mut i: usize = 0;
    while i < v.len()
        invariant
            i <= v.len(),
            r@.len() == i,
            forall|k: int| 0 <= k < i ==> r@[k]@ == v@[k]@,
        decreases v.len() - i,
    {
        r.push(v[i].clone());
        i = i + 1;
    }
    assert(seq_view_mj_column(r@) =~= seq_view_mj_column(v@));
    r
}

/// An element-wise copy of a `Vec<MjNavbarLink>`.
pub fn clone_vec_mj_navbar_link(v: &Vec<MjNavbarLink>) -> (r: Vec<MjNavbarLink>)
    ensures
        seq_view_mj_navbar_link(r@) == seq_view_mj_navbar_link(v@),
{
    let mut r: Vec<MjNavbarLink> = Vec::new();
    let mut i: usize = 0;
    while i < v.len()
        invariant
            i <= v.len(),
            r@.len() == i,
            forall|k: int| 0 <= k < i ==> r@[k]@ == v@[k]@,
        decreases v.len() - i,
    {
        r.push(v[i].clone());
        i = i + 1;
    }
    assert(seq_view_mj_navbar_link(r@) =~= seq_view_mj_navbar_link(v@));
    r
}

/// An element-wise copy of a `Vec<MjSocialElement>`.
pub fn clone_vec_mj_social_element(v: &Vec<MjSocialElement>) -> (r: Vec<MjSocialElement>)
    ensures
        seq_view_mj_social_element(r@) == seq_view_mj_social_element(v@),
{
    let mut r: Vec<MjSocialElement> = Vec::new();
    let mut i: usize = 0;
    while i < v.len()
        invariant
            i <= v.len(),
            r@.len() == i,
            forall|k: int| 0 <= k < i ==> r@[k]@ == v@[k]@,
        decreases v.len() - i,
    {
        r.push(v[i].clone());
        i = i + 1;
    }
    assert(seq_view_mj_social_element(r@) =~= seq_view_mj_social_element(v@));
    r
}

/// An element-wise copy of a `Vec<SectionChild>`.
pub fn clone_vec_section_child(v: &Vec<SectionChild>) -> (r: Vec<SectionChild>)
    ensures
        seq_view_section_child(r@) == seq_view_section_child(v@),
{
    let mut r: Vec<SectionChild> = Vec::new();
    let mut i: usize = 0;
    while i < v.len()
        invariant
            i <= v.len(),
            r@.len() == i,
            forall|k: int| 0 <= k < i ==> r@[k]@ == v@[k]@,
        decreases v.len() - i,
    {
        r.push(v[i].clone());
        i = i + 1;
    }
    assert(seq_view_section_child(r@) =~= seq_view_section_child(v@));
    r
}

/// An element-wise copy of a `Vec<String>`.
pub fn clone_vec_string(v: &Vec<String>) -> (r: Vec<String>)
    ensures
        seq_view_string(r@) == seq_view_string(v@),
{
    let mut r: Vec<String> = Vec::new();
    let mut i: usize = 0;
    while i < v.len()
        invariant
            i <= v.len(),
            r@.len() == i,
            forall|k: int| 0 <= k < i ==> r@[k]@ == v@[k]@,
        decreases v.len() - i,
    {
        r.push(v[i].clone());
        i = i + 1;
    }
    assert(seq_view_string(r@) =~= seq_view_string(v@));
    r
}

/// An element-wise copy of a `Vec<WebFont>`.
pub fn clone_vec_web_font(v: &Vec<WebFont>) -> (r: Vec<WebFont>)
    ensures
        seq_view_web_font(r@) == seq_view_web_font(v@),
{
    let mut r: Vec<WebFont> = Vec::new();
    let mut i: usize = 0;
    while i < v.len()
        invariant
            i <= v.len(),
            r@.len() == i,
            forall|k: int| 0 <= k < i ==> r@[k]@ == v@[k]@,
        decreases v.len() - i,
    {
        r.push(v[i].clone());
        i = i + 1;
    }
    assert(seq_view_web_font(r@) =~= seq_view_web_font(v@));
    r
}

/// Replacing one body node in a sequence replaces its view.
pub proof fn lemma_seq_view_body_node_update(s: Seq<BodyNode>, i: int, x: BodyNode)
    requires
        0 <= i < s.len(),
    ensures
        seq_view_body_node(s.update(i, x)) == seq_view_body_node(s).update(i, body_node_view(x)),
{
    lemma_seq_view_body_node(s);
    lemma_seq_view_body_node(s.update(i, x));
    let a = s.update(i, x);
    assert forall|k: int| 0 <= k < a.len() implies seq_view_body_node(a)[k]
        == seq_view_body_node(s).update(i, body_node_view(x))[k] by {
        assert(a[k] == if k == i { x } else { s[k] });
    }
    assert(seq_view_body_node(a) =~= seq_view_body_node(s).update(i, body_node_view(x)));
}

/// Inserting one body node into a sequence inserts its view.
pub proof fn lemma_seq_view_body_node_insert(s: Seq<BodyNode>, i: int, x: BodyNode)
    requires
        0 <= i <= s.len(),
    ensures
        seq_view_body_node(s.insert(i, x)) == seq_view_body_node(s).insert(i, body_node_view(x)),
{
    lemma_seq_view_body_node(s);
    lemma_seq_view_body_node(s.insert(i, x));
    let a = s.insert(i, x);
    assert forall|k: int| 0 <= k < a.len() implies seq_view_body_node(a)[k]
        == seq_view_body_node(s).insert(i, body_node_view(x))[k] by {
        assert(a[k] == if k < i { s[k] } else if k == i { x } else { s[k - 1] });
    }
    assert(seq_view_body_node(a) =~= seq_view_body_node(s).insert(i, body_node_view(x)));
}

/// Removing one body node from a sequence removes its view.
pub proof fn lemma_seq_view_body_node_remove(s: Seq<BodyNode>, i: int)
    requires
        0 <= i < s.len(),
    ensures
        seq_view_body_node(s.remove(i)) == seq_view_body_node(s).remove(i),
{
    lemma_seq_view_body_node(s);
    lemma_seq_view_body_node(s.remove(i));
    let a = s.remove(i);
    assert forall|k: int| 0 <= k < a.len() implies seq_view_body_node(a)[k]
        == seq_view_body_node(s).remove(i)[k] by {
        assert(a[k] == if k < i { s[k] } else { s[k + 1] });
    }
    assert(seq_view_body_node(a) =~= seq_view_body_node(s).remove(i));
}

} // verus!
