//! Filling a form from the selected row, and writing a form back.
use vstd::prelude::*;

pub mod values;
pub mod nodes;

use crate::editform::forms::{
    body_form, body_form_view, brand_form, brand_form_view, email_footer_form, email_footer_form_view,
    font_item_form, font_item_form_view, head_form, head_form_view, social_form, social_form_view,
    social_item_form, social_item_form_view,
};
use crate::editform::{EditFormState, SpecEditForm, defaults_map, subform_ids_map, has_field, lemma_defaults_are_fields};
use crate::assoc::{assoc_get, assoc_set};
use crate::model::{
    BodyNode, ColumnChild, EmailFooter, MjColumn, MjGroup, MjSocial, MjSocialElement, SectionChild,
    SpecBodyNode, SpecColumnChild, SpecEmailFooter, SpecHead, SpecBrand, SpecBody, SpecMjColumn,
    SpecMjGroup, SpecMjNavbar, SpecMjAccordion, SpecMjCarousel, SpecMjHero, SpecMjSection,
    SpecMjSocial, SpecMjSocialElement, SpecMjNavbarLink, SpecMjAccordionElement,
    SpecMjCarouselImage, SpecSectionChild, SpecTemplate, SpecWebFont, Template, WebFont,
    lemma_seq_view_body_node, seq_view_mj_social_element, seq_view_web_font,
};
use crate::nav::{lemma_set_node_at, node_at, node_at_ref, put_node, set_node_at, take_node};
use crate::text::{decimal, join_seq, join_with, nonblank_lines, nonblank_lines_of, owned, trim, trim_seq};
use crate::tree::{Step, TreeId, SpecTreeId};
use nodes::{
    Applied, formed, outcome_is, accordion_applied, accordion_el_applied, accordion_el_form_values,
    accordion_el_to_form, accordion_form_values, accordion_to_form, apply_accordion,
    apply_accordion_el, apply_button, apply_carousel, apply_carousel_img, apply_column,
    apply_divider, apply_email_article, apply_email_cta, apply_email_header, apply_email_hero,
    apply_group, apply_hero, apply_image, apply_navbar, apply_navbar_link, apply_section,
    apply_spacer, apply_table, apply_text, apply_wrapper, button_applied, button_form_values,
    button_to_form, carousel_applied, carousel_form_values, carousel_img_applied,
    carousel_img_form_values, carousel_img_to_form, carousel_to_form, column_applied,
    column_form_values, column_to_form, divider_applied, divider_form_values, divider_to_form,
    email_article_applied, email_article_form_values, email_article_to_form, email_cta_applied,
    email_cta_form_values, email_cta_to_form, email_header_applied, email_header_form_values,
    email_header_to_form, email_hero_applied, email_hero_form_values, email_hero_to_form,
    group_applied, group_form_values, group_to_form, hero_applied, hero_form_values, hero_to_form,
    image_applied, image_form_values, image_to_form, navbar_applied, navbar_form_values,
    navbar_link_applied, navbar_link_form_values, navbar_link_to_form, navbar_to_form,
    section_applied, section_form_values, section_to_form, spacer_applied, spacer_form_values,
    spacer_to_form, table_applied, table_form_values, table_to_form, text_applied,
    text_form_values, text_to_form, wrapper_applied, wrapper_form_values, wrapper_to_form,
};
use values::{
    FormError, SpecFormError, align_view, opt_get, opt_get_view, opt_from, opt_set_view,
    parse_align, parse_align_view, parse_bool, parse_bool_view, parse_social_mode,
    parse_social_mode_view, parse_social_net, parse_social_net_view, parse_u32, parse_u32_view,
    social_mode_str, social_mode_view, social_net_str, social_net_view, align_str, bool_str,
    bool_view, u32_text,
};

verus! {

broadcast use lemma_seq_view_body_node;

// ---------------------------------------------------------------------------
// Sub-form items
// ---------------------------------------------------------------------------

/// `st` is a fresh state of `fv` holding `vals`, with the item list `items`
/// under the sub-form field `key`.
pub open spec fn formed_with_items(
    st: EditFormState,
    fv: SpecEditForm,
    vals: Map<Seq<char>, Seq<char>>,
    key: Seq<char>,
    items: Seq<EditFormState>,
) -> bool {
    &&& st.form@ == fv
    &&& st.value_map() == vals
    &&& st.sub_map() == subform_ids_map(fv.fields, Seq::<EditFormState>::empty()).insert(key, items)
    &&& st.selected_map() == subform_ids_map(fv.fields, 0usize).insert(key, 0usize)
    &&& st.focused_field == 0
    &&& st.textarea_cursor == (0usize, 0usize)
}

/// The items listed under `key`, or none.
pub open spec fn sub_items(st: EditFormState, key: Seq<char>) -> Seq<EditFormState> {
    if st.sub_map().contains_key(key) {
        st.sub_map()[key]
    } else {
        Seq::empty()
    }
}

/// The field values of a font item.
pub open spec fn font_item_values(f: SpecWebFont) -> Map<Seq<char>, Seq<char>> {
    defaults_map(font_item_form_view().fields).insert("name"@, f.name).insert("href"@, f.href)
}

/// One filled font item per font, in order.
pub open spec fn font_items_ok(items: Seq<EditFormState>, fonts: Seq<SpecWebFont>) -> bool {
    &&& items.len() == fonts.len()
    &&& forall|k: int| 0 <= k < items.len() ==> formed(#[trigger] items[k], font_item_form_view(), font_item_values(fonts[k]))
}

/// The fonts read back from font items: name and href trimmed.
pub open spec fn fonts_read(items: Seq<EditFormState>) -> Seq<SpecWebFont> {
    items.map_values(|it: EditFormState| SpecWebFont {
        name: trim_seq(it.value_of("name"@)),
        href: trim_seq(it.value_of("href"@)),
    })
}

/// The field values of a social icon item.
pub open spec fn social_item_values(e: SpecMjSocialElement) -> Map<Seq<char>, Seq<char>> {
    defaults_map(social_item_form_view().fields)
        .insert("name"@, social_net_view(e.name))
        .insert("href"@, e.href)
        .insert("src"@, opt_get_view(e.src))
}

/// One filled social item per icon, in order.
pub open spec fn social_items_ok(items: Seq<EditFormState>, els: Seq<SpecMjSocialElement>) -> bool {
    &&& items.len() == els.len()
    &&& forall|k: int| 0 <= k < items.len() ==> formed(#[trigger] items[k], social_item_form_view(), social_item_values(els[k]))
}

/// The icons read back from social items, stopping at the first network
/// name that does not read.
pub open spec fn social_items_read(items: Seq<EditFormState>) -> Result<Seq<SpecMjSocialElement>, SpecFormError>
    decreases items.len(),
{
    if items.len() == 0 {
        Ok(Seq::empty())
    } else {
        match social_items_read(items.drop_last()) {
            Err(e) => Err(e),
            Ok(v) => match parse_social_net_view(items.last().value_of("name"@)) {
                Err(e) => Err(e),
                Ok(n) => Ok(v.push(SpecMjSocialElement {
                    name: n,
                    href: items.last().value_of("href"@),
                    src: opt_set_view(items.last().value_of("src"@)),
                })),
            },
        }
    }
}

proof fn lemma_social_read_err(items: Seq<EditFormState>, i: int, e: SpecFormError)
    requires
        0 <= i <= items.len(),
        social_items_read(items.take(i)) == Err::<Seq<SpecMjSocialElement>, SpecFormError>(e),
    ensures
        social_items_read(items) == Err::<Seq<SpecMjSocialElement>, SpecFormError>(e),
    decreases items.len() - i,
{
    if i < items.len() {
        assert(items.take(i + 1).drop_last() =~= items.take(i));
        lemma_social_read_err(items, i + 1, e);
    } else {
        assert(items.take(i) =~= items);
    }
}

fn font_items(fonts: &Vec<WebFont>) -> (r: Vec<EditFormState>)
    ensures
        font_items_ok(r@, seq_view_web_font(fonts@)),
{
    let mut r: Vec<EditFormState> = Vec::new();
    let mut i: usize = 0;
    while i < fonts.len()
        invariant
            i <= fonts@.len(),
            r@.len() == i,
            forall|k: int| 0 <= k < i ==> formed(#[trigger] r@[k], font_item_form_view(), font_item_values(fonts@[k]@)),
        decreases fonts@.len() - i,
    {
        let mut item = EditFormState::new(font_item_form());
        item.set("name", fonts[i].name.as_str());
        item.set("href", fonts[i].href.as_str());
        r.push(item);
        i = i + 1;
    }
    r
}

fn fonts_from(items: Option<&Vec<EditFormState>>) -> (r: Vec<WebFont>)
    ensures
        seq_view_web_font(r@) == fonts_read(
            match items {
                Some(v) => v@,
                None => Seq::empty(),
            },
        ),
{
    let mut r: Vec<WebFont> = Vec::new();
    match items {
        None => {
            assert(seq_view_web_font(r@) =~= fonts_read(Seq::empty()));
        },
        Some(v) => {
            let mut i: usize = 0;
            while i < v.len()
                invariant
                    i <= v@.len(),
                    r@.len() == i,
                    forall|k: int| 0 <= k < i ==> (#[trigger] r@[k])@ == fonts_read(v@)[k],
                decreases v@.len() - i,
            {
                let name = owned(trim(v[i].get("name")));
                let href = owned(trim(v[i].get("href")));
                r.push(WebFont { name, href });
                i = i + 1;
            }
            assert(seq_view_web_font(r@) =~= fonts_read(v@));
        },
    }
    r
}

fn social_items(els: &Vec<MjSocialElement>) -> (r: Vec<EditFormState>)
    ensures
        social_items_ok(r@, seq_view_mj_social_element(els@)),
{
    let mut r: Vec<EditFormState> = Vec::new();
    let mut i: usize = 0;
    while i < els.len()
        invariant
            i <= els@.len(),
            r@.len() == i,
            forall|k: int| 0 <= k < i ==> formed(#[trigger] r@[k], social_item_form_view(), social_item_values(els@[k]@)),
        decreases els@.len() - i,
    {
        let mut item = EditFormState::new(social_item_form());
        item.set("name", social_net_str(els[i].name));
        item.set("href", els[i].href.as_str());
        let src = opt_get(&els[i].src);
        item.set("src", src.as_str());
        r.push(item);
        i = i + 1;
    }
    r
}

fn parse_social_items(items: Option<&Vec<EditFormState>>) -> (r: Result<Vec<MjSocialElement>, FormError>)
    ensures
        ({
            let s = match items {
                Some(v) => v@,
                None => Seq::empty(),
            };
            match (r, social_items_read(s)) {
                (Ok(v), Ok(w)) => seq_view_mj_social_element(v@) == w,
                (Err(e), Err(f)) => e@ == f,
                _ => false,
            }
        }),
{
    let mut out: Vec<MjSocialElement> = Vec::new();
    match items {
        None => {
            assert(seq_view_mj_social_element(out@) =~= Seq::<SpecMjSocialElement>::empty());
            Ok(out)
        },
        Some(v) => {
            let mut i: usize = 0;
            assert(v@.take(0) =~= Seq::<EditFormState>::empty());
            assert(seq_view_mj_social_element(out@) =~= Seq::<SpecMjSocialElement>::empty());
            while i < v.len()
                invariant
                    i <= v@.len(),
                    items == Some(v),
                    out@.len() == i,
                    social_items_read(v@.take(i as int)) == Ok::<Seq<SpecMjSocialElement>, SpecFormError>(
                        seq_view_mj_social_element(out@),
                    ),
                decreases v@.len() - i,
            {
                assert(v@.take(i + 1).drop_last() =~= v@.take(i as int));
                assert(v@.take(i + 1).last() == v@[i as int]);
                match parse_social_net(v[i].get("name")) {
                    Err(e) => {
                        proof {
                            assert(social_items_read(v@.take(i + 1)) == Err::<Seq<SpecMjSocialElement>, SpecFormError>(e@));
                            lemma_social_read_err(v@, i + 1, e@);
                        }
                        return Err(e);
                    },
                    Ok(name) => {
                        let ghost old_out = out@;
                        let href = owned(v[i].get("href"));
                        let src = opt_from(v[i].get("src"));
                        let el = MjSocialElement { name, href, src };
                        let ghost elv = el@;
                        out.push(el);
                        assert(seq_view_mj_social_element(out@) =~= seq_view_mj_social_element(old_out).push(elv));
                    },
                }
                i = i + 1;
            }
            assert(v@.take(v@.len() as int) =~= v@);
            Ok(out)
        },
    }
}

// ---------------------------------------------------------------------------
// Head, brand and body
// ---------------------------------------------------------------------------

/// The field values of the head form.
pub open spec fn head_form_values(t: SpecTemplate) -> Map<Seq<char>, Seq<char>> {
    defaults_map(head_form_view().fields)
        .insert("subject"@, t.subject)
        .insert("preheader"@, t.preheader)
        .insert("lang"@, t.lang)
        .insert("title"@, t.head.title)
        .insert("breakpoint"@, t.head.breakpoint)
        .insert("base_url"@, t.base_url)
        .insert("json_ld"@, t.head.json_ld)
        .insert("css"@, t.head.css)
        .insert("css_inline"@, bool_view(t.head.css_inline))
}

/// The head form as filled from `t`.
pub open spec fn head_form_ok(st: EditFormState, t: SpecTemplate) -> bool {
    &&& formed_with_items(st, head_form_view(), head_form_values(t), "fonts"@, st.sub_map()["fonts"@])
    &&& font_items_ok(st.sub_map()["fonts"@], t.head.fonts)
}

/// Writing the head form back into a template.
pub open spec fn head_applied(t: SpecTemplate, st: EditFormState) -> Applied<SpecTemplate> {
    let t = SpecTemplate {
        subject: st.value_of("subject"@),
        preheader: st.value_of("preheader"@),
        lang: st.value_of("lang"@),
        head: SpecHead {
            title: st.value_of("title"@),
            breakpoint: st.value_of("breakpoint"@),
            ..t.head
        },
        base_url: st.value_of("base_url"@),
        ..t
    };
    let t = SpecTemplate {
        head: SpecHead { json_ld: st.value_of("json_ld"@), css: st.value_of("css"@), ..t.head },
        ..t
    };
    match parse_bool_view(st.value_of("css_inline"@)) {
        Err(e) => Applied { value: t, error: Some(e) },
        Ok(b) => Applied {
            value: SpecTemplate {
                head: SpecHead { css_inline: b, fonts: fonts_read(sub_items(st, "fonts"@)), ..t.head },
                ..t
            },
            error: None,
        },
    }
}

fn head_to_form(t: &Template) -> (r: EditFormState)
    ensures
        head_form_ok(r, t@),
{
    let mut s = EditFormState::new(head_form());
    s.set("subject", t.subject.as_str());
    s.set("preheader", t.preheader.as_str());
    s.set("lang", t.lang.as_str());
    s.set("title", t.head.title.as_str());
    s.set("breakpoint", t.head.breakpoint.as_str());
    s.set("base_url", t.base_url.as_str());
    s.set("json_ld", t.head.json_ld.as_str());
    s.set("css", t.head.css.as_str());
    s.set("css_inline", bool_str(t.head.css_inline));
    let fonts = font_items(&t.head.fonts);
    assoc_set(&mut s.sub_state, "fonts", fonts);
    assoc_set(&mut s.selected_sub_item, "fonts", 0);
    s
}

fn apply_head(t: &mut Template, st: &EditFormState) -> (r: Result<(), FormError>)
    ensures
        final(t)@ == head_applied(old(t)@, *st).value,
        outcome_is(r, head_applied(old(t)@, *st).error),
{
    t.subject = owned(st.get("subject"));
    t.preheader = owned(st.get("preheader"));
    t.lang = owned(st.get("lang"));
    t.head.title = owned(st.get("title"));
    t.head.breakpoint = owned(st.get("breakpoint"));
    t.base_url = owned(st.get("base_url"));
    t.head.json_ld = owned(st.get("json_ld"));
    t.head.css = owned(st.get("css"));
    match parse_bool(st.get("css_inline")) {
        Ok(b) => t.head.css_inline = b,
        Err(e) => return Err(e),
    }
    let items = assoc_get(&st.sub_state, "fonts");
    t.head.fonts = fonts_from(items);
    Ok(())
}

/// The field values of the brand form.
pub open spec fn brand_form_values(t: SpecTemplate) -> Map<Seq<char>, Seq<char>> {
    defaults_map(brand_form_view().fields)
        .insert("font_family"@, t.brand.font_family)
        .insert("text_color"@, t.brand.text_color)
        .insert("background_color"@, t.brand.background_color)
        .insert("content_width"@, decimal(t.brand.content_width as nat))
        .insert("button_background"@, t.brand.button_background)
        .insert("button_color"@, t.brand.button_color)
}

/// Writing the brand form back into a template.
pub open spec fn brand_applied(t: SpecTemplate, st: EditFormState) -> Applied<SpecTemplate> {
    let b = SpecBrand {
        font_family: st.value_of("font_family"@),
        text_color: trim_seq(st.value_of("text_color"@)),
        background_color: trim_seq(st.value_of("background_color"@)),
        ..t.brand
    };
    match parse_u32_view(trim_seq(st.value_of("content_width"@))) {
        None => Applied { value: SpecTemplate { brand: b, ..t }, error: Some(SpecFormError::ContentWidthNotNumber) },
        Some(w) => Applied {
            value: SpecTemplate {
                brand: SpecBrand {
                    content_width: w,
                    button_background: trim_seq(st.value_of("button_background"@)),
                    button_color: trim_seq(st.value_of("button_color"@)),
                    ..b
                },
                ..t
            },
            error: None,
        },
    }
}

fn brand_to_form(t: &Template) -> (r: EditFormState)
    ensures
        formed(r, brand_form_view(), brand_form_values(t@)),
{
    let mut s = EditFormState::new(brand_form());
    s.set("font_family", t.brand.font_family.as_str());
    s.set("text_color", t.brand.text_color.as_str());
    s.set("background_color", t.brand.background_color.as_str());
    let w = u32_text(t.brand.content_width);
    s.set("content_width", w.as_str());
    s.set("button_background", t.brand.button_background.as_str());
    s.set("button_color", t.brand.button_color.as_str());
    s
}

fn apply_brand(t: &mut Template, st: &EditFormState) -> (r: Result<(), FormError>)
    ensures
        final(t)@ == brand_applied(old(t)@, *st).value,
        outcome_is(r, brand_applied(old(t)@, *st).error),
{
    t.brand.font_family = owned(st.get("font_family"));
    t.brand.text_color = owned(trim(st.get("text_color")));
    t.brand.background_color = owned(trim(st.get("background_color")));
    match parse_u32(trim(st.get("content_width"))) {
        Some(w) => t.brand.content_width = w,
        None => return Err(FormError::ContentWidthNotNumber),
    }
    t.brand.button_background = owned(trim(st.get("button_background")));
    t.brand.button_color = owned(trim(st.get("button_color")));
    Ok(())
}

/// The field values of the body form.
pub open spec fn body_form_values(t: SpecTemplate) -> Map<Seq<char>, Seq<char>> {
    defaults_map(body_form_view().fields).insert("background_color"@, t.body.background_color)
}

/// Writing the body form back into a template.
pub open spec fn body_applied(t: SpecTemplate, st: EditFormState) -> Applied<SpecTemplate> {
    Applied {
        value: SpecTemplate {
            body: SpecBody { background_color: trim_seq(st.value_of("background_color"@)), ..t.body },
            ..t
        },
        error: None,
    }
}

fn body_to_form(t: &Template) -> (r: EditFormState)
    ensures
        formed(r, body_form_view(), body_form_values(t@)),
{
    let mut s = EditFormState::new(body_form());
    s.set("background_color", t.body.background_color.as_str());
    s
}

fn apply_body(t: &mut Template, st: &EditFormState) -> (r: Result<(), FormError>)
    ensures
        final(t)@ == body_applied(old(t)@, *st).value,
        outcome_is(r, body_applied(old(t)@, *st).error),
{
    t.body.background_color = owned(trim(st.get("background_color")));
    Ok(())
}

// ---------------------------------------------------------------------------
// Social rows and footers
// ---------------------------------------------------------------------------

/// The field values of a social row form.
pub open spec fn social_form_values(x: SpecMjSocial) -> Map<Seq<char>, Seq<char>> {
    defaults_map(social_form_view().fields)
        .insert("mode"@, social_mode_view(x.mode))
        .insert("align"@, align_view(x.align))
        .insert("icon_size"@, x.icon_size)
}

/// The social row form as filled from `x`.
pub open spec fn social_form_ok(st: EditFormState, x: SpecMjSocial) -> bool {
    &&& formed_with_items(st, social_form_view(), social_form_values(x), "elements"@, st.sub_map()["elements"@])
    &&& social_items_ok(st.sub_map()["elements"@], x.elements)
}

/// Writing a social row form back.
pub open spec fn social_applied(x: SpecMjSocial, st: EditFormState) -> Applied<SpecMjSocial> {
    match parse_social_mode_view(st.value_of("mode"@)) {
        Err(e) => Applied { value: x, error: Some(e) },
        Ok(m) => {
            let x = SpecMjSocial { mode: m, ..x };
            match parse_align_view(st.value_of("align"@)) {
                Err(e) => Applied { value: x, error: Some(e) },
                Ok(a) => {
                    let x = SpecMjSocial { align: a, icon_size: trim_seq(st.value_of("icon_size"@)), ..x };
                    match social_items_read(sub_items(st, "elements"@)) {
                        Err(e) => Applied { value: x, error: Some(e) },
                        Ok(els) => Applied { value: SpecMjSocial { elements: els, ..x }, error: None },
                    }
                },
            }
        },
    }
}

fn social_to_form(x: &MjSocial) -> (r: EditFormState)
    ensures
        social_form_ok(r, x@),
{
    let mut s = EditFormState::new(social_form());
    s.set("mode", social_mode_str(x.mode));
    s.set("align", align_str(x.align));
    s.set("icon_size", x.icon_size.as_str());
    let items = social_items(&x.elements);
    assoc_set(&mut s.sub_state, "elements", items);
    assoc_set(&mut s.selected_sub_item, "elements", 0);
    s
}

fn apply_social(x: &mut MjSocial, st: &EditFormState) -> (r: Result<(), FormError>)
    ensures
        final(x)@ == social_applied(old(x)@, *st).value,
        outcome_is(r, social_applied(old(x)@, *st).error),
{
    match parse_social_mode(st.get("mode")) {
        Ok(m) => x.mode = m,
        Err(e) => return Err(e),
    }
    match parse_align(st.get("align")) {
        Ok(a) => x.align = a,
        Err(e) => return Err(e),
    }
    x.icon_size = owned(trim(st.get("icon_size")));
    match parse_social_items(assoc_get(&st.sub_state, "elements")) {
        Ok(els) => x.elements = els,
        Err(e) => return Err(e),
    }
    Ok(())
}

/// The field values of a footer form.
pub open spec fn footer_form_values(x: SpecEmailFooter) -> Map<Seq<char>, Seq<char>> {
    defaults_map(email_footer_form_view().fields)
        .insert("company_name"@, x.company_name)
        .insert("address_lines"@, join_seq(x.address_lines, "\n"@))
        .insert("unsubscribe_label"@, x.unsubscribe_label)
        .insert("unsubscribe_href"@, x.unsubscribe_href)
        .insert("copyright"@, opt_get_view(x.copyright))
}

/// The footer form as filled from `x`.
pub open spec fn footer_form_ok(st: EditFormState, x: SpecEmailFooter) -> bool {
    &&& formed_with_items(st, email_footer_form_view(), footer_form_values(x), "social"@, st.sub_map()["social"@])
    &&& social_items_ok(st.sub_map()["social"@], x.social)
}

/// Writing a footer form back: blank address lines are dropped.
pub open spec fn footer_applied(x: SpecEmailFooter, st: EditFormState) -> Applied<SpecEmailFooter> {
    let x = SpecEmailFooter {
        company_name: st.value_of("company_name"@),
        address_lines: nonblank_lines(st.value_of("address_lines"@)),
        unsubscribe_label: st.value_of("unsubscribe_label"@),
        unsubscribe_href: st.value_of("unsubscribe_href"@),
        copyright: opt_set_view(st.value_of("copyright"@)),
        ..x
    };
    match social_items_read(sub_items(st, "social"@)) {
        Err(e) => Applied { value: x, error: Some(e) },
        Ok(els) => Applied { value: SpecEmailFooter { social: els, ..x }, error: None },
    }
}

fn footer_to_form(x: &EmailFooter) -> (r: EditFormState)
    ensures
        footer_form_ok(r, x@),
{
    let mut s = EditFormState::new(email_footer_form());
    s.set("company_name", x.company_name.as_str());
    let lines = join_with(&x.address_lines, "\n");
    s.set("address_lines", lines.as_str());
    s.set("unsubscribe_label", x.unsubscribe_label.as_str());
    s.set("unsubscribe_href", x.unsubscribe_href.as_str());
    let c = opt_get(&x.copyright);
    s.set("copyright", c.as_str());
    let items = social_items(&x.social);
    assoc_set(&mut s.sub_state, "social", items);
    assoc_set(&mut s.selected_sub_item, "social", 0);
    s
}

fn apply_footer(x: &mut EmailFooter, st: &EditFormState) -> (r: Result<(), FormError>)
    ensures
        final(x)@ == footer_applied(old(x)@, *st).value,
        outcome_is(r, footer_applied(old(x)@, *st).error),
{
    x.company_name = owned(st.get("company_name"));
    x.address_lines = nonblank_lines_of(st.get("address_lines"));
    x.unsubscribe_label = owned(st.get("unsubscribe_label"));
    x.unsubscribe_href = owned(st.get("unsubscribe_href"));
    x.copyright = opt_from(st.get("copyright"));
    match parse_social_items(assoc_get(&st.sub_state, "social")) {
        Ok(els) => x.social = els,
        Err(e) => return Err(e),
    }
    Ok(())
}

// ---------------------------------------------------------------------------
// Dispatch by kind
// ---------------------------------------------------------------------------

/// The form of a body node as filled from it.
pub open spec fn body_node_form_ok(st: EditFormState, n: SpecBodyNode) -> bool {
    match n {
        SpecBodyNode::MjSection(x) => formed(st, crate::editform::forms::section_form_view(), section_form_values(x)),
        SpecBodyNode::MjWrapper(x) => formed(st, crate::editform::forms::wrapper_form_view(), wrapper_form_values(x)),
        SpecBodyNode::MjHero(x) => formed(st, crate::editform::forms::hero_form_view(), hero_form_values(x)),
        SpecBodyNode::EmailHeader(x) => formed(st, crate::editform::forms::email_header_form_view(), email_header_form_values(x)),
        SpecBodyNode::EmailHero(x) => formed(st, crate::editform::forms::email_hero_form_view(), email_hero_form_values(x)),
        SpecBodyNode::EmailCta(x) => formed(st, crate::editform::forms::email_cta_form_view(), email_cta_form_values(x)),
        SpecBodyNode::EmailArticle(x) => formed(st, crate::editform::forms::email_article_form_view(), email_article_form_values(x)),
        SpecBodyNode::EmailFooter(x) => footer_form_ok(st, x),
    }
}

/// Writing a form back into a body node.
pub open spec fn body_node_applied(n: SpecBodyNode, st: EditFormState) -> Applied<SpecBodyNode> {
    match n {
        SpecBodyNode::MjSection(x) => {
            let a = section_applied(x, st);
            Applied { value: SpecBodyNode::MjSection(a.value), error: a.error }
        },
        SpecBodyNode::MjWrapper(x) => {
            let a = wrapper_applied(x, st);
            Applied { value: SpecBodyNode::MjWrapper(a.value), error: a.error }
        },
        SpecBodyNode::MjHero(x) => {
            let a = hero_applied(x, st);
            Applied { value: SpecBodyNode::MjHero(a.value), error: a.error }
        },
        SpecBodyNode::EmailHeader(x) => {
            let a = email_header_applied(x, st);
            Applied { value: SpecBodyNode::EmailHeader(a.value), error: a.error }
        },
        SpecBodyNode::EmailHero(x) => {
            let a = email_hero_applied(x, st);
            Applied { value: SpecBodyNode::EmailHero(a.value), error: a.error }
        },
        SpecBodyNode::EmailCta(x) => {
            let a = email_cta_applied(x, st);
            Applied { value: SpecBodyNode::EmailCta(a.value), error: a.error }
        },
        SpecBodyNode::EmailArticle(x) => {
            let a = email_article_applied(x, st);
            Applied { value: SpecBodyNode::EmailArticle(a.value), error: a.error }
        },
        SpecBodyNode::EmailFooter(x) => {
            let a = footer_applied(x, st);
            Applied { value: SpecBodyNode::EmailFooter(a.value), error: a.error }
        },
    }
}

fn body_node_to_form(n: &BodyNode) -> (r: EditFormState)
    ensures
        body_node_form_ok(r, n@),
{
    match n {
        BodyNode::MjSection(x) => section_to_form(x),
        BodyNode::MjWrapper(x) => {
            assert(n@ == SpecBodyNode::MjWrapper(x@));
            wrapper_to_form(x)
        },
        BodyNode::MjHero(x) => hero_to_form(x),
        BodyNode::EmailHeader(x) => email_header_to_form(x),
        BodyNode::EmailHero(x) => email_hero_to_form(x),
        BodyNode::EmailCta(x) => email_cta_to_form(x),
        BodyNode::EmailArticle(x) => email_article_to_form(x),
        BodyNode::EmailFooter(x) => footer_to_form(x),
    }
}

fn apply_body_node(n: BodyNode, st: &EditFormState) -> (r: (BodyNode, Result<(), FormError>))
    ensures
        r.0@ == body_node_applied(n@, *st).value,
        outcome_is(r.1, body_node_applied(n@, *st).error),
{
    match n {
        BodyNode::MjSection(mut x) => {
            let r = apply_section(&mut x, st);
            (BodyNode::MjSection(x), r)
        },
        BodyNode::MjWrapper(mut x) => {
            assert(n@ == SpecBodyNode::MjWrapper(x@));
            let r = apply_wrapper(&mut x, st);
            let out = BodyNode::MjWrapper(x);
            assert(out@ == SpecBodyNode::MjWrapper(x@));
            (out, r)
        },
        BodyNode::MjHero(mut x) => {
            let r = apply_hero(&mut x, st);
            (BodyNode::MjHero(x), r)
        },
        BodyNode::EmailHeader(mut x) => {
            let r = apply_email_header(&mut x, st);
            (BodyNode::EmailHeader(x), r)
        },
        BodyNode::EmailHero(mut x) => {
            let r = apply_email_hero(&mut x, st);
            (BodyNode::EmailHero(x), r)
        },
        BodyNode::EmailCta(mut x) => {
            let r = apply_email_cta(&mut x, st);
            (BodyNode::EmailCta(x), r)
        },
        BodyNode::EmailArticle(mut x) => {
            let r = apply_email_article(&mut x, st);
            (BodyNode::EmailArticle(x), r)
        },
        BodyNode::EmailFooter(mut x) => {
            let r = apply_footer(&mut x, st);
            (BodyNode::EmailFooter(x), r)
        },
    }
}

/// The form of a content component as filled from it.
pub open spec fn leaf_form_ok(st: EditFormState, c: SpecColumnChild) -> bool {
    match c {
        SpecColumnChild::MjText(x) => formed(st, crate::editform::forms::text_form_view(), text_form_values(x)),
        SpecColumnChild::MjButton(x) => formed(st, crate::editform::forms::button_form_view(), button_form_values(x)),
        SpecColumnChild::MjImage(x) => formed(st, crate::editform::forms::image_form_view(), image_form_values(x)),
        SpecColumnChild::MjDivider(x) => formed(st, crate::editform::forms::divider_form_view(), divider_form_values(x)),
        SpecColumnChild::MjSpacer(x) => formed(st, crate::editform::forms::spacer_form_view(), spacer_form_values(x)),
        SpecColumnChild::MjSocial(x) => social_form_ok(st, x),
        SpecColumnChild::MjTable(x) => formed(st, crate::editform::forms::table_form_view(), table_form_values(x)),
        SpecColumnChild::MjNavbar(x) => formed(st, crate::editform::forms::navbar_form_view(), navbar_form_values(x)),
        SpecColumnChild::MjAccordion(x) => formed(st, crate::editform::forms::accordion_form_view(), accordion_form_values(x)),
        SpecColumnChild::MjCarousel(x) => formed(st, crate::editform::forms::carousel_form_view(), carousel_form_values(x)),
    }
}

/// Writing a form back into a content component.
pub open spec fn leaf_applied(c: SpecColumnChild, st: EditFormState) -> Applied<SpecColumnChild> {
    match c {
        SpecColumnChild::MjText(x) => {
            let a = text_applied(x, st);
            Applied { value: SpecColumnChild::MjText(a.value), error: a.error }
        },
        SpecColumnChild::MjButton(x) => {
            let a = button_applied(x, st);
            Applied { value: SpecColumnChild::MjButton(a.value), error: a.error }
        },
        SpecColumnChild::MjImage(x) => {
            let a = image_applied(x, st);
            Applied { value: SpecColumnChild::MjImage(a.value), error: a.error }
        },
        SpecColumnChild::MjDivider(x) => {
            let a = divider_applied(x, st);
            Applied { value: SpecColumnChild::MjDivider(a.value), error: a.error }
        },
        SpecColumnChild::MjSpacer(x) => {
            let a = spacer_applied(x, st);
            Applied { value: SpecColumnChild::MjSpacer(a.value), error: a.error }
        },
        SpecColumnChild::MjSocial(x) => {
            let a = social_applied(x, st);
            Applied { value: SpecColumnChild::MjSocial(a.value), error: a.error }
        },
        SpecColumnChild::MjTable(x) => {
            let a = table_applied(x, st);
            Applied { value: SpecColumnChild::MjTable(a.value), error: a.error }
        },
        SpecColumnChild::MjNavbar(x) => {
            let a = navbar_applied(x, st);
            Applied { value: SpecColumnChild::MjNavbar(a.value), error: a.error }
        },
        SpecColumnChild::MjAccordion(x) => {
            let a = accordion_applied(x, st);
            Applied { value: SpecColumnChild::MjAccordion(a.value), error: a.error }
        },
        SpecColumnChild::MjCarousel(x) => {
            let a = carousel_applied(x, st);
            Applied { value: SpecColumnChild::MjCarousel(a.value), error: a.error }
        },
    }
}

fn leaf_to_form(c: &ColumnChild) -> (r: EditFormState)
    ensures
        leaf_form_ok(r, c@),
{
    match c {
        ColumnChild::MjText(x) => text_to_form(x),
        ColumnChild::MjButton(x) => button_to_form(x),
        ColumnChild::MjImage(x) => image_to_form(x),
        ColumnChild::MjDivider(x) => divider_to_form(x),
        ColumnChild::MjSpacer(x) => spacer_to_form(x),
        ColumnChild::MjSocial(x) => social_to_form(x),
        ColumnChild::MjTable(x) => table_to_form(x),
        ColumnChild::MjNavbar(x) => navbar_to_form(x),
        ColumnChild::MjAccordion(x) => accordion_to_form(x),
        ColumnChild::MjCarousel(x) => carousel_to_form(x),
    }
}

fn apply_leaf(c: ColumnChild, st: &EditFormState) -> (r: (ColumnChild, Result<(), FormError>))
    ensures
        r.0@ == leaf_applied(c@, *st).value,
        outcome_is(r.1, leaf_applied(c@, *st).error),
{
    match c {
        ColumnChild::MjText(mut x) => {
            let r = apply_text(&mut x, st);
            (ColumnChild::MjText(x), r)
        },
        ColumnChild::MjButton(mut x) => {
            let r = apply_button(&mut x, st);
            (ColumnChild::MjButton(x), r)
        },
        ColumnChild::MjImage(mut x) => {
            let r = apply_image(&mut x, st);
            (ColumnChild::MjImage(x), r)
        },
        ColumnChild::MjDivider(mut x) => {
            let r = apply_divider(&mut x, st);
            (ColumnChild::MjDivider(x), r)
        },
        ColumnChild::MjSpacer(mut x) => {
            let r = apply_spacer(&mut x, st);
            (ColumnChild::MjSpacer(x), r)
        },
        ColumnChild::MjSocial(mut x) => {
            let r = apply_social(&mut x, st);
            (ColumnChild::MjSocial(x), r)
        },
        ColumnChild::MjTable(mut x) => {
            let r = apply_table(&mut x, st);
            (ColumnChild::MjTable(x), r)
        },
        ColumnChild::MjNavbar(mut x) => {
            let r = apply_navbar(&mut x, st);
            (ColumnChild::MjNavbar(x), r)
        },
        ColumnChild::MjAccordion(mut x) => {
            let r = apply_accordion(&mut x, st);
            (ColumnChild::MjAccordion(x), r)
        },
        ColumnChild::MjCarousel(mut x) => {
            let r = apply_carousel(&mut x, st);
            (ColumnChild::MjCarousel(x), r)
        },
    }
}

// ---------------------------------------------------------------------------
// Paths
// ---------------------------------------------------------------------------

/// What a path addresses.
pub enum Located {
    BodyNode(SpecBodyNode),
    Column(SpecMjColumn),
    Group(SpecMjGroup),
    Leaf(SpecColumnChild),
    NavbarLink(SpecMjNavbarLink),
    AccordionEl(SpecMjAccordionElement),
    CarouselImg(SpecMjCarouselImage),
}

/// The end of the run of wrapper steps that starts at `k`.
pub open spec fn wrapper_run(p: Seq<Step>, k: int) -> int
    decreases p.len() - k,
{
    if 0 <= k < p.len() && p[k] is WrapperChild {
        wrapper_run(p, k + 1)
    } else {
        k
    }
}

/// What `p[k..]` addresses inside a content component. A link, element or
/// image step ends the walk: any steps after it are not read.
pub open spec fn located_in_child(c: SpecColumnChild, p: Seq<Step>, k: int) -> Option<Located> {
    if k >= p.len() {
        Some(Located::Leaf(c))
    } else {
        match (c, p[k]) {
            (SpecColumnChild::MjNavbar(n), Step::NavbarLink(i)) => if i < n.links.len() {
                Some(Located::NavbarLink(n.links[i as int]))
            } else {
                None
            },
            (SpecColumnChild::MjAccordion(a), Step::AccordionEl(i)) => if i < a.elements.len() {
                Some(Located::AccordionEl(a.elements[i as int]))
            } else {
                None
            },
            (SpecColumnChild::MjCarousel(x), Step::CarouselImg(i)) => if i < x.images.len() {
                Some(Located::CarouselImg(x.images[i as int]))
            } else {
                None
            },
            _ => None,
        }
    }
}

/// What `p[k..]` addresses inside a column.
pub open spec fn located_in_column(c: SpecMjColumn, p: Seq<Step>, k: int) -> Option<Located> {
    if k >= p.len() {
        Some(Located::Column(c))
    } else {
        match p[k] {
            Step::ColComp(i) => if i < c.components.len() {
                located_in_child(c.components[i as int], p, k + 1)
            } else {
                None
            },
            _ => None,
        }
    }
}

/// What `p[k..]` addresses inside a group.
pub open spec fn located_in_group(g: SpecMjGroup, p: Seq<Step>, k: int) -> Option<Located> {
    if k >= p.len() {
        Some(Located::Group(g))
    } else {
        match p[k] {
            Step::GroupCol(i) => if i < g.children.len() {
                located_in_column(g.children[i as int], p, k + 1)
            } else {
                None
            },
            _ => None,
        }
    }
}

/// What `p[k..]` addresses inside a body node reached by the wrapper run.
pub open spec fn located_in_node(n: SpecBodyNode, p: Seq<Step>, k: int) -> Option<Located> {
    if k >= p.len() {
        Some(Located::BodyNode(n))
    } else {
        match (n, p[k]) {
            (SpecBodyNode::MjSection(s), Step::SectionChild(j)) => if j < s.children.len() {
                match s.children[j as int] {
                    SpecSectionChild::MjColumn(c) => located_in_column(c, p, k + 1),
                    SpecSectionChild::MjGroup(g) => located_in_group(g, p, k + 1),
                }
            } else {
                None
            },
            (SpecBodyNode::MjHero(h), Step::HeroChild(j)) => if j < h.children.len() {
                located_in_child(h.children[j as int], p, k + 1)
            } else {
                None
            },
            _ => None,
        }
    }
}

/// What a path addresses in a template: a top-level node, wrapper children,
/// then at most a section or hero child and what lies below it.
pub open spec fn located(t: SpecTemplate, p: Seq<Step>) -> Option<Located> {
    if p.len() == 0 {
        None
    } else {
        match node_at(t, p.take(wrapper_run(p, 1))) {
            None => None,
            Some(n) => located_in_node(n, p, wrapper_run(p, 1)),
        }
    }
}

/// The form of an addressed item as filled from it.
pub open spec fn located_form_ok(st: EditFormState, l: Located) -> bool {
    match l {
        Located::BodyNode(n) => body_node_form_ok(st, n),
        Located::Column(c) => formed(st, crate::editform::forms::column_form_view(), column_form_values(c)),
        Located::Group(g) => formed(st, crate::editform::forms::group_form_view(), group_form_values(g)),
        Located::Leaf(c) => leaf_form_ok(st, c),
        Located::NavbarLink(x) => formed(st, crate::editform::forms::navbar_link_form_view(), navbar_link_form_values(x)),
        Located::AccordionEl(x) => formed(
            st,
            crate::editform::forms::accordion_element_form_view(),
            accordion_el_form_values(x),
        ),
        Located::CarouselImg(x) => formed(st, crate::editform::forms::carousel_image_form_view(), carousel_img_form_values(x)),
    }
}

/// Writing a form back at `p[k..]` inside a content component (`None` when
/// nothing is addressed).
pub open spec fn applied_in_child(c: SpecColumnChild, p: Seq<Step>, k: int, st: EditFormState) -> Option<Applied<SpecColumnChild>> {
    if k >= p.len() {
        Some(leaf_applied(c, st))
    } else {
        match (c, p[k]) {
            (SpecColumnChild::MjNavbar(n), Step::NavbarLink(i)) => if i < n.links.len() {
                let a = navbar_link_applied(n.links[i as int], st);
                Some(Applied {
                    value: SpecColumnChild::MjNavbar(SpecMjNavbar { links: n.links.update(i as int, a.value), ..n }),
                    error: a.error,
                })
            } else {
                None
            },
            (SpecColumnChild::MjAccordion(x), Step::AccordionEl(i)) => if i < x.elements.len() {
                let a = accordion_el_applied(x.elements[i as int], st);
                Some(Applied {
                    value: SpecColumnChild::MjAccordion(SpecMjAccordion { elements: x.elements.update(i as int, a.value), ..x }),
                    error: a.error,
                })
            } else {
                None
            },
            (SpecColumnChild::MjCarousel(x), Step::CarouselImg(i)) => if i < x.images.len() {
                let a = carousel_img_applied(x.images[i as int], st);
                Some(Applied {
                    value: SpecColumnChild::MjCarousel(SpecMjCarousel { images: x.images.update(i as int, a.value), ..x }),
                    error: a.error,
                })
            } else {
                None
            },
            _ => None,
        }
    }
}

/// Writing a form back at `p[k..]` inside a column.
pub open spec fn applied_in_column(c: SpecMjColumn, p: Seq<Step>, k: int, st: EditFormState) -> Option<Applied<SpecMjColumn>> {
    if k >= p.len() {
        Some(column_applied(c, st))
    } else {
        match p[k] {
            Step::ColComp(i) => if i < c.components.len() {
                match applied_in_child(c.components[i as int], p, k + 1, st) {
                    None => None,
                    Some(a) => Some(Applied {
                        value: SpecMjColumn { components: c.components.update(i as int, a.value), ..c },
                        error: a.error,
                    }),
                }
            } else {
                None
            },
            _ => None,
        }
    }
}

/// Writing a form back at `p[k..]` inside a group.
pub open spec fn applied_in_group(g: SpecMjGroup, p: Seq<Step>, k: int, st: EditFormState) -> Option<Applied<SpecMjGroup>> {
    if k >= p.len() {
        Some(group_applied(g, st))
    } else {
        match p[k] {
            Step::GroupCol(i) => if i < g.children.len() {
                match applied_in_column(g.children[i as int], p, k + 1, st) {
                    None => None,
                    Some(a) => Some(Applied {
                        value: SpecMjGroup { children: g.children.update(i as int, a.value), ..g },
                        error: a.error,
                    }),
                }
            } else {
                None
            },
            _ => None,
        }
    }
}

/// Writing a form back at `p[k..]` inside a body node.
pub open spec fn applied_in_node(n: SpecBodyNode, p: Seq<Step>, k: int, st: EditFormState) -> Option<Applied<SpecBodyNode>> {
    if k >= p.len() {
        Some(body_node_applied(n, st))
    } else {
        match (n, p[k]) {
            (SpecBodyNode::MjSection(s), Step::SectionChild(j)) => if j < s.children.len() {
                match s.children[j as int] {
                    SpecSectionChild::MjColumn(c) => match applied_in_column(c, p, k + 1, st) {
                        None => None,
                        Some(a) => Some(Applied {
                            value: SpecBodyNode::MjSection(SpecMjSection {
                                children: s.children.update(j as int, SpecSectionChild::MjColumn(a.value)),
                                ..s
                            }),
                            error: a.error,
                        }),
                    },
                    SpecSectionChild::MjGroup(g) => match applied_in_group(g, p, k + 1, st) {
                        None => None,
                        Some(a) => Some(Applied {
                            value: SpecBodyNode::MjSection(SpecMjSection {
                                children: s.children.update(j as int, SpecSectionChild::MjGroup(a.value)),
                                ..s
                            }),
                            error: a.error,
                        }),
                    },
                }
            } else {
                None
            },
            (SpecBodyNode::MjHero(h), Step::HeroChild(j)) => if j < h.children.len() {
                match applied_in_child(h.children[j as int], p, k + 1, st) {
                    None => None,
                    Some(a) => Some(Applied {
                        value: SpecBodyNode::MjHero(SpecMjHero { children: h.children.update(j as int, a.value), ..h }),
                        error: a.error,
                    }),
                }
            } else {
                None
            },
            _ => None,
        }
    }
}

/// Writing a form back at a path of a template (`None` when the path
/// addresses nothing).
pub open spec fn path_applied(t: SpecTemplate, p: Seq<Step>, st: EditFormState) -> Option<Applied<SpecTemplate>> {
    if p.len() == 0 {
        None
    } else {
        let q = p.take(wrapper_run(p, 1));
        match node_at(t, q) {
            None => None,
            Some(n) => match applied_in_node(n, p, wrapper_run(p, 1), st) {
                None => None,
                Some(a) => Some(Applied { value: set_node_at(t, q, a.value), error: a.error }),
            },
        }
    }
}

fn wrapper_run_from_one(p: &[Step]) -> (r: usize)
    requires
        p@.len() >= 1,
    ensures
        r as int == wrapper_run(p@, 1),
        1 <= r <= p@.len(),
{
    let mut k: usize = 1;
    while k < p.len() && matches!(p[k], Step::WrapperChild(_))
        invariant
            1 <= k <= p@.len(),
            wrapper_run(p@, 1) == wrapper_run(p@, k as int),
        decreases p@.len() - k,
    {
        k = k + 1;
    }
    k
}

fn prefix(p: &[Step], k: usize) -> (r: Vec<Step>)
    requires
        k <= p@.len(),
    ensures
        r@ == p@.take(k as int),
{
    let mut r: Vec<Step> = Vec::new();
    let mut i: usize = 0;
    while i < k
        invariant
            i <= k <= p@.len(),
            r@ == p@.take(i as int),
        decreases k - i,
    {
        r.push(p[i]);
        i = i + 1;
        assert(r@ =~= p@.take(i as int));
    }
    r
}

fn child_form(c: &ColumnChild, p: &[Step], k: usize) -> (r: Option<EditFormState>)
    ensures
        match located_in_child(c@, p@, k as int) {
            None => r is None,
            Some(l) => r is Some && located_form_ok(r->0, l),
        },
{
    if k >= p.len() {
        return Some(leaf_to_form(c));
    }
    match (c, p[k]) {
        (ColumnChild::MjNavbar(n), Step::NavbarLink(i)) => if i < n.links.len() {
            Some(navbar_link_to_form(&n.links[i]))
        } else {
            None
        },
        (ColumnChild::MjAccordion(a), Step::AccordionEl(i)) => if i < a.elements.len() {
            Some(accordion_el_to_form(&a.elements[i]))
        } else {
            None
        },
        (ColumnChild::MjCarousel(x), Step::CarouselImg(i)) => if i < x.images.len() {
            Some(carousel_img_to_form(&x.images[i]))
        } else {
            None
        },
        _ => None,
    }
}

fn column_form(c: &MjColumn, p: &[Step], k: usize) -> (r: Option<EditFormState>)
    ensures
        match located_in_column(c@, p@, k as int) {
            None => r is None,
            Some(l) => r is Some && located_form_ok(r->0, l),
        },
{
    if k >= p.len() {
        return Some(column_to_form(c));
    }
    match p[k] {
        Step::ColComp(i) => if i < c.components.len() {
            child_form(&c.components[i], p, k + 1)
        } else {
            None
        },
        _ => None,
    }
}

fn group_form(g: &MjGroup, p: &[Step], k: usize) -> (r: Option<EditFormState>)
    ensures
        match located_in_group(g@, p@, k as int) {
            None => r is None,
            Some(l) => r is Some && located_form_ok(r->0, l),
        },
{
    if k >= p.len() {
        return Some(group_to_form(g));
    }
    match p[k] {
        Step::GroupCol(i) => if i < g.children.len() {
            column_form(&g.children[i], p, k + 1)
        } else {
            None
        },
        _ => None,
    }
}

fn node_form(n: &BodyNode, p: &[Step], k: usize) -> (r: Option<EditFormState>)
    ensures
        match located_in_node(n@, p@, k as int) {
            None => r is None,
            Some(l) => r is Some && located_form_ok(r->0, l),
        },
{
    if k >= p.len() {
        return Some(body_node_to_form(n));
    }
    match (n, p[k]) {
        (BodyNode::MjSection(s), Step::SectionChild(j)) => if j < s.children.len() {
            match &s.children[j] {
                SectionChild::MjColumn(c) => column_form(c, p, k + 1),
                SectionChild::MjGroup(g) => group_form(g, p, k + 1),
            }
        } else {
            None
        },
        (BodyNode::MjHero(h), Step::HeroChild(j)) => if j < h.children.len() {
            child_form(&h.children[j], p, k + 1)
        } else {
            None
        },
        _ => {
            assert(located_in_node(n@, p@, k as int) is None);
            None
        },
    }
}

fn path_to_form(t: &Template, p: &[Step]) -> (r: Option<EditFormState>)
    ensures
        match located(t@, p@) {
            None => r is None,
            Some(l) => r is Some && located_form_ok(r->0, l),
        },
{
    if p.len() == 0 {
        return None;
    }
    let k = wrapper_run_from_one(p);
    let q = prefix(p, k);
    match node_at_ref(t, q.as_slice()) {
        None => None,
        Some(n) => node_form(n, p, k),
    }
}

/// The form for the row `id`, filled from the template; `None` when the row's
/// path addresses nothing.
pub fn form_for(template: &Template, id: &TreeId) -> (r: Option<EditFormState>)
    ensures
        match id@ {
            SpecTreeId::Head => r is Some && head_form_ok(r->0, template@),
            SpecTreeId::Brand => r is Some && formed(r->0, brand_form_view(), brand_form_values(template@)),
            SpecTreeId::Body => r is Some && formed(r->0, body_form_view(), body_form_values(template@)),
            SpecTreeId::Path(p) => match located(template@, p) {
                None => r is None,
                Some(l) => r is Some && located_form_ok(r->0, l),
            },
        },
{
    match id {
        TreeId::Head => Some(head_to_form(template)),
        TreeId::Brand => Some(brand_to_form(template)),
        TreeId::Body => Some(body_to_form(template)),
        TreeId::Path(path) => path_to_form(template, path.as_slice()),
    }
}

fn apply_in_child(c: ColumnChild, p: &[Step], k: usize, st: &EditFormState) -> (r: (ColumnChild, Option<Result<(), FormError>>))
    ensures
        match applied_in_child(c@, p@, k as int, *st) {
            None => r.1 is None && r.0@ == c@,
            Some(a) => r.1 is Some && r.0@ == a.value && outcome_is(r.1->0, a.error),
        },
{
    if k >= p.len() {
        let (c2, res) = apply_leaf(c, st);
        return (c2, Some(res));
    }
    match c {
        ColumnChild::MjNavbar(mut n) => match p[k] {
            Step::NavbarLink(i) => if i < n.links.len() {
                let ghost old_n = n@;
                let mut l = n.links.remove(i);
                let res = apply_navbar_link(&mut l, st);
                n.links.insert(i, l);
                assert(n@.links =~= old_n.links.update(i as int, n.links@[i as int]@));
                (ColumnChild::MjNavbar(n), Some(res))
            } else {
                (ColumnChild::MjNavbar(n), None)
            },
            _ => (ColumnChild::MjNavbar(n), None),
        },
        ColumnChild::MjAccordion(mut a) => match p[k] {
            Step::AccordionEl(i) => if i < a.elements.len() {
                let ghost old_a = a@;
                let mut e = a.elements.remove(i);
                let res = apply_accordion_el(&mut e, st);
                a.elements.insert(i, e);
                assert(a@.elements =~= old_a.elements.update(i as int, a.elements@[i as int]@));
                (ColumnChild::MjAccordion(a), Some(res))
            } else {
                (ColumnChild::MjAccordion(a), None)
            },
            _ => (ColumnChild::MjAccordion(a), None),
        },
        ColumnChild::MjCarousel(mut x) => match p[k] {
            Step::CarouselImg(i) => if i < x.images.len() {
                let ghost old_x = x@;
                let mut m = x.images.remove(i);
                let res = apply_carousel_img(&mut m, st);
                x.images.insert(i, m);
                assert(x@.images =~= old_x.images.update(i as int, x.images@[i as int]@));
                (ColumnChild::MjCarousel(x), Some(res))
            } else {
                (ColumnChild::MjCarousel(x), None)
            },
            _ => (ColumnChild::MjCarousel(x), None),
        },
        other => (other, None),
    }
}

fn apply_in_column(c: MjColumn, p: &[Step], k: usize, st: &EditFormState) -> (r: (MjColumn, Option<Result<(), FormError>>))
    ensures
        match applied_in_column(c@, p@, k as int, *st) {
            None => r.1 is None && r.0@ == c@,
            Some(a) => r.1 is Some && r.0@ == a.value && outcome_is(r.1->0, a.error),
        },
{
    let mut c = c;
    if k >= p.len() {
        let res = apply_column(&mut c, st);
        return (c, Some(res));
    }
    match p[k] {
        Step::ColComp(i) => if i < c.components.len() {
            let ghost old_c = c@;
            let x = c.components.remove(i);
            let (x2, res) = apply_in_child(x, p, k + 1, st);
            let ghost x2v = x2@;
            c.components.insert(i, x2);
            assert(c@.components =~= old_c.components.update(i as int, x2v));
            if res.is_none() {
                assert(old_c.components.update(i as int, old_c.components[i as int]) =~= old_c.components);
            }
            (c, res)
        } else {
            (c, None)
        },
        _ => (c, None),
    }
}

fn apply_in_group(g: MjGroup, p: &[Step], k: usize, st: &EditFormState) -> (r: (MjGroup, Option<Result<(), FormError>>))
    ensures
        match applied_in_group(g@, p@, k as int, *st) {
            None => r.1 is None && r.0@ == g@,
            Some(a) => r.1 is Some && r.0@ == a.value && outcome_is(r.1->0, a.error),
        },
{
    let mut g = g;
    if k >= p.len() {
        let res = apply_group(&mut g, st);
        return (g, Some(res));
    }
    match p[k] {
        Step::GroupCol(i) => if i < g.children.len() {
            let ghost old_g = g@;
            let x = g.children.remove(i);
            let (x2, res) = apply_in_column(x, p, k + 1, st);
            let ghost x2v = x2@;
            g.children.insert(i, x2);
            assert(g@.children =~= old_g.children.update(i as int, x2v));
            if res.is_none() {
                assert(old_g.children.update(i as int, old_g.children[i as int]) =~= old_g.children);
            }
            (g, res)
        } else {
            (g, None)
        },
        _ => (g, None),
    }
}

fn apply_in_node(n: BodyNode, p: &[Step], k: usize, st: &EditFormState) -> (r: (BodyNode, Option<Result<(), FormError>>))
    ensures
        match applied_in_node(n@, p@, k as int, *st) {
            None => r.1 is None && r.0@ == n@,
            Some(a) => r.1 is Some && r.0@ == a.value && outcome_is(r.1->0, a.error),
        },
{
    if k >= p.len() {
        let (n2, res) = apply_body_node(n, st);
        return (n2, Some(res));
    }
    match n {
        BodyNode::MjSection(mut s) => match p[k] {
            Step::SectionChild(j) => if j < s.children.len() {
                let ghost old_s = s@;
                let ch = s.children.remove(j);
                let (ch2, res) = match ch {
                    SectionChild::MjColumn(c) => {
                        let (c2, res) = apply_in_column(c, p, k + 1, st);
                        (SectionChild::MjColumn(c2), res)
                    },
                    SectionChild::MjGroup(g) => {
                        let (g2, res) = apply_in_group(g, p, k + 1, st);
                        (SectionChild::MjGroup(g2), res)
                    },
                };
                let ghost ch2v = ch2@;
                s.children.insert(j, ch2);
                assert(s@.children =~= old_s.children.update(j as int, ch2v));
                if res.is_none() {
                    assert(old_s.children.update(j as int, old_s.children[j as int]) =~= old_s.children);
                }
                (BodyNode::MjSection(s), res)
            } else {
                (BodyNode::MjSection(s), None)
            },
            _ => (BodyNode::MjSection(s), None),
        },
        BodyNode::MjHero(mut h) => match p[k] {
            Step::HeroChild(j) => if j < h.children.len() {
                let ghost old_h = h@;
                let x = h.children.remove(j);
                let (x2, res) = apply_in_child(x, p, k + 1, st);
                let ghost x2v = x2@;
                h.children.insert(j, x2);
                assert(h@.children =~= old_h.children.update(j as int, x2v));
                if res.is_none() {
                    assert(old_h.children.update(j as int, old_h.children[j as int]) =~= old_h.children);
                }
                (BodyNode::MjHero(h), res)
            } else {
                (BodyNode::MjHero(h), None)
            },
            _ => (BodyNode::MjHero(h), None),
        },
        other => {
            assert(applied_in_node(other@, p@, k as int, *st) is None);
            (other, None)
        },
    }
}

fn apply_path(t: &mut Template, p: &[Step], st: &EditFormState) -> (r: Result<(), FormError>)
    ensures
        match path_applied(old(t)@, p@, *st) {
            None => final(t)@ == old(t)@ && r is Err && r->Err_0@ == SpecFormError::MissingNode,
            Some(a) => final(t)@ == a.value && outcome_is(r, a.error),
        },
{
    if p.len() == 0 {
        return Err(FormError::MissingNode);
    }
    let k = wrapper_run_from_one(p);
    let q = prefix(p, k);
    let ghost t0 = t@;
    match take_node(t, q.as_slice()) {
        None => Err(FormError::MissingNode),
        Some(n) => {
            let ghost nv = n@;
            let (n2, res) = apply_in_node(n, p, k, st);
            let ghost n2v = n2@;
            put_node(t, q.as_slice(), n2);
            proof {
                lemma_set_node_at(t0, q@, crate::nav::placeholder_view(), n2v);
                lemma_set_node_at(t0, q@, nv, nv);
            }
            match res {
                None => Err(FormError::MissingNode),
                Some(res) => res,
            }
        },
    }
}

/// Writes a form back into the row `id` of the template. Fields are written
/// in form order; a value that does not read stops the write with an error,
/// leaving the fields before it written. A path that addresses nothing is
/// reported as [`FormError::MissingNode`] and changes nothing.
pub fn apply_form(template: &mut Template, id: &TreeId, state: &EditFormState) -> (r: Result<(), FormError>)
    ensures
        match id@ {
            SpecTreeId::Head => final(template)@ == head_applied(old(template)@, *state).value
                && outcome_is(r, head_applied(old(template)@, *state).error),
            SpecTreeId::Brand => final(template)@ == brand_applied(old(template)@, *state).value
                && outcome_is(r, brand_applied(old(template)@, *state).error),
            SpecTreeId::Body => final(template)@ == body_applied(old(template)@, *state).value
                && outcome_is(r, body_applied(old(template)@, *state).error),
            SpecTreeId::Path(p) => match path_applied(old(template)@, p, *state) {
                None => final(template)@ == old(template)@ && r is Err && r->Err_0@ == SpecFormError::MissingNode,
                Some(a) => final(template)@ == a.value && outcome_is(r, a.error),
            },
        },
{
    match id {
        TreeId::Head => apply_head(template, state),
        TreeId::Brand => apply_brand(template, state),
        TreeId::Body => apply_body(template, state),
        TreeId::Path(path) => apply_path(template, path.as_slice(), state),
    }
}

// ---------------------------------------------------------------------------
// Writing back at a path
// ---------------------------------------------------------------------------

/// The addressed item comes back unchanged, and without an error, when `st`
/// is written into it.
pub open spec fn located_survives(l: Located, st: EditFormState) -> bool {
    match l {
        Located::BodyNode(n) => body_node_applied(n, st) == (Applied::<SpecBodyNode> { value: n, error: None }),
        Located::Column(c) => column_applied(c, st) == (Applied::<SpecMjColumn> { value: c, error: None }),
        Located::Group(g) => group_applied(g, st) == (Applied::<SpecMjGroup> { value: g, error: None }),
        Located::Leaf(c) => leaf_applied(c, st) == (Applied::<SpecColumnChild> { value: c, error: None }),
        Located::NavbarLink(x) => navbar_link_applied(x, st) == (Applied::<SpecMjNavbarLink> { value: x, error: None }),
        Located::AccordionEl(x) => accordion_el_applied(x, st) == (Applied::<SpecMjAccordionElement> {
            value: x,
            error: None,
        }),
        Located::CarouselImg(x) => carousel_img_applied(x, st) == (Applied::<SpecMjCarouselImage> {
            value: x,
            error: None,
        }),
    }
}

proof fn lemma_child_write_back(c: SpecColumnChild, p: Seq<Step>, k: int, st: EditFormState)
    requires
        (located_in_child(c, p, k) matches Some(l) && located_survives(l, st)),
    ensures
        applied_in_child(c, p, k, st) == Some(Applied::<SpecColumnChild> { value: c, error: None }),
{
    if k < p.len() {
        match (c, p[k]) {
            (SpecColumnChild::MjNavbar(n), Step::NavbarLink(i)) => {
                assert(n.links.update(i as int, n.links[i as int]) =~= n.links);
            },
            (SpecColumnChild::MjAccordion(x), Step::AccordionEl(i)) => {
                assert(x.elements.update(i as int, x.elements[i as int]) =~= x.elements);
            },
            (SpecColumnChild::MjCarousel(x), Step::CarouselImg(i)) => {
                assert(x.images.update(i as int, x.images[i as int]) =~= x.images);
            },
            _ => {},
        }
    }
}

proof fn lemma_column_write_back(c: SpecMjColumn, p: Seq<Step>, k: int, st: EditFormState)
    requires
        (located_in_column(c, p, k) matches Some(l) && located_survives(l, st)),
    ensures
        applied_in_column(c, p, k, st) == Some(Applied::<SpecMjColumn> { value: c, error: None }),
{
    if k < p.len() {
        if let Step::ColComp(i) = p[k] {
            lemma_child_write_back(c.components[i as int], p, k + 1, st);
            assert(c.components.update(i as int, c.components[i as int]) =~= c.components);
        }
    }
}

proof fn lemma_group_write_back(g: SpecMjGroup, p: Seq<Step>, k: int, st: EditFormState)
    requires
        (located_in_group(g, p, k) matches Some(l) && located_survives(l, st)),
    ensures
        applied_in_group(g, p, k, st) == Some(Applied::<SpecMjGroup> { value: g, error: None }),
{
    if k < p.len() {
        if let Step::GroupCol(i) = p[k] {
            lemma_column_write_back(g.children[i as int], p, k + 1, st);
            assert(g.children.update(i as int, g.children[i as int]) =~= g.children);
        }
    }
}

proof fn lemma_node_write_back(n: SpecBodyNode, p: Seq<Step>, k: int, st: EditFormState)
    requires
        (located_in_node(n, p, k) matches Some(l) && located_survives(l, st)),
    ensures
        applied_in_node(n, p, k, st) == Some(Applied::<SpecBodyNode> { value: n, error: None }),
{
    if k < p.len() {
        match (n, p[k]) {
            (SpecBodyNode::MjSection(s), Step::SectionChild(j)) => {
                assert(s.children.update(j as int, s.children[j as int]) =~= s.children);
                match s.children[j as int] {
                    SpecSectionChild::MjColumn(c) => lemma_column_write_back(c, p, k + 1, st),
                    SpecSectionChild::MjGroup(g) => lemma_group_write_back(g, p, k + 1, st),
                }
            },
            (SpecBodyNode::MjHero(h), Step::HeroChild(j)) => {
                lemma_child_write_back(h.children[j as int], p, k + 1, st);
                assert(h.children.update(j as int, h.children[j as int]) =~= h.children);
            },
            _ => {},
        }
    }
}

/// Writing a form back at a path leaves the template as it was, without an
/// error, when the item the path addresses comes back unchanged from that
/// form: everything around the addressed item is kept.
pub proof fn law_path_write_back_unchanged(t: SpecTemplate, p: Seq<Step>, st: EditFormState)
    requires
        (located(t, p) matches Some(l) && located_survives(l, st)),
    ensures
        path_applied(t, p, st) == Some(Applied::<SpecTemplate> { value: t, error: None }),
{
    let q = p.take(wrapper_run(p, 1));
    let n = node_at(t, q)->0;
    lemma_node_write_back(n, p, wrapper_run(p, 1), st);
    lemma_set_node_at(t, q, n, n);
}

// ---------------------------------------------------------------------------
// Writing back unedited brand and body forms
// ---------------------------------------------------------------------------

/// Writing back the brand form, unedited, gives the template back when the
/// trimmed brand values have no surrounding whitespace.
pub proof fn law_brand_form_round_trip(t: SpecTemplate, st: EditFormState)
    requires
        formed(st, brand_form_view(), brand_form_values(t)),
        nodes::trimmed(t.brand.text_color),
        nodes::trimmed(t.brand.background_color),
        nodes::trimmed(t.brand.button_background),
        nodes::trimmed(t.brand.button_color),
    ensures
        brand_applied(t, st) == (Applied::<SpecTemplate> { value: t, error: None }),
{
    reveal_strlit("font_family");
    reveal_strlit("text_color");
    reveal_strlit("background_color");
    reveal_strlit("content_width");
    reveal_strlit("button_background");
    reveal_strlit("button_color");
    assert("font_family"@.len() != "text_color"@.len());
    assert("font_family"@.len() != "background_color"@.len());
    assert("font_family"@.len() != "content_width"@.len());
    assert("font_family"@.len() != "button_background"@.len());
    assert("font_family"@.len() != "button_color"@.len());
    assert("text_color"@.len() != "background_color"@.len());
    assert("text_color"@.len() != "content_width"@.len());
    assert("text_color"@.len() != "button_background"@.len());
    assert("text_color"@.len() != "button_color"@.len());
    assert("background_color"@.len() != "content_width"@.len());
    assert("background_color"@.len() != "button_background"@.len());
    assert("background_color"@.len() != "button_color"@.len());
    assert("content_width"@.len() != "button_background"@.len());
    assert("content_width"@.len() != "button_color"@.len());
    assert("button_background"@.len() != "button_color"@.len());
    values::law_u32_round_trip(t.brand.content_width);
    assert(st.value_of("font_family"@) == t.brand.font_family);
    assert(st.value_of("text_color"@) == t.brand.text_color);
    assert(st.value_of("background_color"@) == t.brand.background_color);
    assert(st.value_of("content_width"@) == decimal(t.brand.content_width as nat));
    assert(st.value_of("button_background"@) == t.brand.button_background);
    assert(st.value_of("button_color"@) == t.brand.button_color);
}

/// Writing back the body form, unedited, gives the template back when the
/// background colour has no surrounding whitespace.
pub proof fn law_body_form_round_trip(t: SpecTemplate, st: EditFormState)
    requires
        formed(st, body_form_view(), body_form_values(t)),
        nodes::trimmed(t.body.background_color),
    ensures
        body_applied(t, st) == (Applied::<SpecTemplate> { value: t, error: None }),
{
    assert(st.value_of("background_color"@) == t.body.background_color);
}

// ---------------------------------------------------------------------------
// Writing back unedited head, social row and footer forms
// ---------------------------------------------------------------------------

/// Every icon's image survives its field.
pub open spec fn icons_keep(els: Seq<SpecMjSocialElement>) -> bool {
    forall|k: int| 0 <= k < els.len() ==> nodes::opt_keeps(#[trigger] els[k].src)
}

proof fn lemma_social_items_read(items: Seq<EditFormState>, els: Seq<SpecMjSocialElement>)
    requires
        social_items_ok(items, els),
        icons_keep(els),
    ensures
        social_items_read(items) == Ok::<Seq<SpecMjSocialElement>, SpecFormError>(els),
    decreases items.len(),
{
    if items.len() == 0 {
        assert(els =~= Seq::<SpecMjSocialElement>::empty());
    } else {
        reveal_strlit("name");
        reveal_strlit("href");
        reveal_strlit("src");
        assert("name"@[0] != "href"@[0]);
        assert("name"@.len() != "src"@.len());
        assert("href"@.len() != "src"@.len());
        let n = items.len() - 1;
        let init = items.drop_last();
        let einit = els.drop_last();
        assert forall|k: int| 0 <= k < init.len() implies formed(
            #[trigger] init[k],
            social_item_form_view(),
            social_item_values(einit[k]),
        ) by {
            assert(init[k] == items[k]);
            assert(einit[k] == els[k]);
        }
        assert forall|k: int| 0 <= k < einit.len() implies nodes::opt_keeps(#[trigger] einit[k].src) by {
            assert(einit[k] == els[k]);
        }
        lemma_social_items_read(init, einit);
        let it = items[n];
        let e = els[n];
        assert(formed(it, social_item_form_view(), social_item_values(e)));
        assert(nodes::opt_keeps(e.src));
        assert(it.value_of("name"@) == social_net_view(e.name));
        assert(it.value_of("href"@) == e.href);
        assert(it.value_of("src"@) == opt_get_view(e.src));
        values::law_social_net_round_trip(e.name);
        nodes::lemma_opt_keeps(e.src);
        assert(items.last() == it);
        assert(einit.push(e) =~= els);
    }
}

/// Writing back the form of a social row, unedited, gives it back when the
/// icon size has no surrounding whitespace and no icon has an empty image
/// or one with surrounding whitespace.
pub proof fn law_social_form_round_trip(x: SpecMjSocial, st: EditFormState)
    requires
        social_form_ok(st, x),
        nodes::trimmed(x.icon_size),
        icons_keep(x.elements),
    ensures
        social_applied(x, st) == (Applied::<SpecMjSocial> { value: x, error: None }),
{
    reveal_strlit("mode");
    reveal_strlit("align");
    reveal_strlit("icon_size");
    assert("mode"@.len() != "align"@.len());
    assert("mode"@.len() != "icon_size"@.len());
    assert("align"@.len() != "icon_size"@.len());
    assert(st.value_of("mode"@) == social_mode_view(x.mode));
    assert(st.value_of("align"@) == align_view(x.align));
    assert(st.value_of("icon_size"@) == x.icon_size);
    values::law_social_mode_round_trip(x.mode);
    values::law_align_round_trip(x.align);
    assert(st.sub_map().contains_key("elements"@));
    lemma_social_items_read(sub_items(st, "elements"@), x.elements);
}

/// Writing back the form of a footer, unedited, gives it back when its
/// values survive their fields ([`footer_keeps`]).
pub proof fn law_footer_form_round_trip(x: SpecEmailFooter, st: EditFormState)
    requires
        footer_form_ok(st, x),
        footer_keeps(x),
    ensures
        footer_applied(x, st) == (Applied::<SpecEmailFooter> { value: x, error: None }),
{
    reveal_strlit("company_name");
    reveal_strlit("address_lines");
    reveal_strlit("unsubscribe_label");
    reveal_strlit("unsubscribe_href");
    reveal_strlit("copyright");
    reveal_strlit("\n");
    assert("company_name"@.len() != "address_lines"@.len());
    assert("company_name"@.len() != "unsubscribe_label"@.len());
    assert("company_name"@.len() != "unsubscribe_href"@.len());
    assert("company_name"@.len() != "copyright"@.len());
    assert("address_lines"@.len() != "unsubscribe_label"@.len());
    assert("address_lines"@.len() != "unsubscribe_href"@.len());
    assert("address_lines"@.len() != "copyright"@.len());
    assert("unsubscribe_label"@.len() != "unsubscribe_href"@.len());
    assert("unsubscribe_label"@.len() != "copyright"@.len());
    assert("unsubscribe_href"@.len() != "copyright"@.len());
    assert("\n"@ =~= seq!['\n']);
    let lines = x.address_lines;
    assert(st.value_of("company_name"@) == x.company_name);
    assert(st.value_of("address_lines"@) == join_seq(lines, seq!['\n']));
    assert(st.value_of("unsubscribe_label"@) == x.unsubscribe_label);
    assert(st.value_of("unsubscribe_href"@) == x.unsubscribe_href);
    assert(st.value_of("copyright"@) == opt_get_view(x.copyright));
    crate::text::lemma_split_join(lines, '\n');
    if lines.len() == 0 {
        assert(trim_seq(Seq::<char>::empty()).len() == 0) by {
            assert(crate::text::trim_start_seq(Seq::<char>::empty()) == Seq::<char>::empty());
            assert(crate::text::trim_end_seq(Seq::<char>::empty()) == Seq::<char>::empty());
        }
        let one = seq![Seq::<char>::empty()];
        assert(one.drop_last() =~= Seq::<Seq<char>>::empty());
        assert(one.last() == Seq::<char>::empty());
        assert(crate::text::keep_nonblank(Seq::<Seq<char>>::empty()) == Seq::<Seq<char>>::empty());
        assert(crate::text::keep_nonblank(one) == Seq::<Seq<char>>::empty());
        assert(nonblank_lines(st.value_of("address_lines"@)) =~= lines);
    } else {
        crate::text::lemma_keep_nonblank_all(lines);
        assert(nonblank_lines(st.value_of("address_lines"@)) == lines);
    }
    nodes::lemma_opt_keeps(x.copyright);
    assert(st.sub_map().contains_key("social"@));
    lemma_social_items_read(sub_items(st, "social"@), x.social);
}

/// Writing back the head form, unedited, gives the template back when no
/// font name or address has surrounding whitespace.
pub proof fn law_head_form_round_trip(t: SpecTemplate, st: EditFormState)
    requires
        head_form_ok(st, t),
        forall|k: int| 0 <= k < t.head.fonts.len() ==> nodes::trimmed(#[trigger] t.head.fonts[k].name)
            && nodes::trimmed(t.head.fonts[k].href),
    ensures
        head_applied(t, st) == (Applied::<SpecTemplate> { value: t, error: None }),
{
    reveal_strlit("subject");
    reveal_strlit("preheader");
    reveal_strlit("lang");
    reveal_strlit("title");
    reveal_strlit("breakpoint");
    reveal_strlit("base_url");
    reveal_strlit("json_ld");
    reveal_strlit("css");
    reveal_strlit("css_inline");
    reveal_strlit("name");
    reveal_strlit("href");
    assert("name"@[0] != "href"@[0]);
    assert("subject"@[0] != "json_ld"@[0]);
    assert("breakpoint"@[0] != "css_inline"@[0]);
    assert("subject"@.len() != "preheader"@.len());
    assert("subject"@.len() != "lang"@.len());
    assert("subject"@.len() != "title"@.len());
    assert("subject"@.len() != "breakpoint"@.len());
    assert("subject"@.len() != "base_url"@.len());
    assert("subject"@.len() != "css"@.len());
    assert("subject"@.len() != "css_inline"@.len());
    assert("preheader"@.len() != "lang"@.len());
    assert("preheader"@.len() != "title"@.len());
    assert("preheader"@.len() != "breakpoint"@.len());
    assert("preheader"@.len() != "base_url"@.len());
    assert("preheader"@.len() != "json_ld"@.len());
    assert("preheader"@.len() != "css"@.len());
    assert("preheader"@.len() != "css_inline"@.len());
    assert("lang"@.len() != "title"@.len());
    assert("lang"@.len() != "breakpoint"@.len());
    assert("lang"@.len() != "base_url"@.len());
    assert("lang"@.len() != "json_ld"@.len());
    assert("lang"@.len() != "css"@.len());
    assert("lang"@.len() != "css_inline"@.len());
    assert("title"@.len() != "breakpoint"@.len());
    assert("title"@.len() != "base_url"@.len());
    assert("title"@.len() != "json_ld"@.len());
    assert("title"@.len() != "css"@.len());
    assert("title"@.len() != "css_inline"@.len());
    assert("breakpoint"@.len() != "base_url"@.len());
    assert("breakpoint"@.len() != "json_ld"@.len());
    assert("breakpoint"@.len() != "css"@.len());
    assert("base_url"@.len() != "json_ld"@.len());
    assert("base_url"@.len() != "css"@.len());
    assert("base_url"@.len() != "css_inline"@.len());
    assert("json_ld"@.len() != "css"@.len());
    assert("json_ld"@.len() != "css_inline"@.len());
    assert("css"@.len() != "css_inline"@.len());
    assert(st.value_of("subject"@) == t.subject);
    assert(st.value_of("preheader"@) == t.preheader);
    assert(st.value_of("lang"@) == t.lang);
    assert(st.value_of("title"@) == t.head.title);
    assert(st.value_of("breakpoint"@) == t.head.breakpoint);
    assert(st.value_of("base_url"@) == t.base_url);
    assert(st.value_of("json_ld"@) == t.head.json_ld);
    assert(st.value_of("css"@) == t.head.css);
    assert(st.value_of("css_inline"@) == bool_view(t.head.css_inline));
    values::law_bool_round_trip(t.head.css_inline);
    let items = st.sub_map()["fonts"@];
    assert(st.sub_map().contains_key("fonts"@));
    assert(sub_items(st, "fonts"@) == items);
    assert forall|k: int| 0 <= k < t.head.fonts.len() implies #[trigger] fonts_read(items)[k] == t.head.fonts[k] by {
        let f = t.head.fonts[k];
        assert(formed(items[k], font_item_form_view(), font_item_values(f)));
        assert(items[k].value_of("name"@) == f.name);
        assert(items[k].value_of("href"@) == f.href);
    }
    assert(fonts_read(items) =~= t.head.fonts);
}

/// The values of a body node survive their form's fields: no surrounding
/// whitespace where a field is trimmed, no empty optional value, and for a
/// footer what [`footer_keeps`] asks.
pub open spec fn body_node_keeps(n: SpecBodyNode) -> bool {
    match n {
        SpecBodyNode::MjSection(x) => nodes::opt_keeps(x.background_color) && nodes::opt_keeps(x.padding),
        SpecBodyNode::MjWrapper(x) => nodes::opt_keeps(x.background_color) && nodes::opt_keeps(x.padding),
        SpecBodyNode::MjHero(x) => nodes::opt_keeps(x.background_url) && nodes::opt_keeps(x.background_color) && nodes::opt_keeps(x.background_height) && nodes::opt_keeps(x.width) && nodes::opt_keeps(x.height),
        SpecBodyNode::EmailHeader(x) => nodes::trimmed(x.logo_src) && nodes::opt_keeps(x.logo_href) && nodes::trimmed(x.logo_width) && nodes::opt_keeps(x.background_color),
        SpecBodyNode::EmailHero(x) => nodes::trimmed(x.image_src) && nodes::opt_keeps(x.background_color),
        SpecBodyNode::EmailCta(x) => nodes::opt_keeps(x.background_color),
        SpecBodyNode::EmailArticle(x) => nodes::trimmed(x.image_src),
        SpecBodyNode::EmailFooter(x) => footer_keeps(x),
    }
}

/// The values of a footer survive its form: every address line is non-blank
/// and holds no line break, the copyright is absent or non-empty without
/// surrounding whitespace, and no icon has an empty image or one with
/// surrounding whitespace.
pub open spec fn footer_keeps(x: SpecEmailFooter) -> bool {
    &&& forall|k: int| 0 <= k < x.address_lines.len() ==> trim_seq(#[trigger] x.address_lines[k]).len() > 0
        && !x.address_lines[k].contains('\n')
    &&& nodes::opt_keeps(x.copyright)
    &&& icons_keep(x.social)
}

/// The values of a content component survive its form's fields.
pub open spec fn leaf_keeps(c: SpecColumnChild) -> bool {
    match c {
        SpecColumnChild::MjText(x) => nodes::opt_keeps(x.font_size) && nodes::opt_keeps(x.font_family) && nodes::opt_keeps(x.color) && nodes::opt_keeps(x.padding),
        SpecColumnChild::MjButton(x) => nodes::opt_keeps(x.background_color) && nodes::opt_keeps(x.color) && nodes::opt_keeps(x.font_family) && nodes::opt_keeps(x.border_radius) && nodes::opt_keeps(x.width) && nodes::opt_keeps(x.padding),
        SpecColumnChild::MjImage(x) => nodes::trimmed(x.src) && nodes::opt_keeps(x.href) && nodes::opt_keeps(x.width) && nodes::opt_keeps(x.padding),
        SpecColumnChild::MjDivider(x) => nodes::opt_keeps(x.border_color) && nodes::opt_keeps(x.border_width) && nodes::opt_keeps(x.padding),
        SpecColumnChild::MjSpacer(x) => nodes::trimmed(x.height),
        SpecColumnChild::MjTable(x) => nodes::opt_keeps(x.font_size) && nodes::opt_keeps(x.color) && nodes::opt_keeps(x.padding),
        SpecColumnChild::MjNavbar(x) => nodes::opt_keeps(x.ico_color) && nodes::opt_keeps(x.base_url) && nodes::opt_keeps(x.padding),
        SpecColumnChild::MjAccordion(x) => nodes::opt_keeps(x.border) && nodes::opt_keeps(x.padding),
        SpecColumnChild::MjCarousel(x) => nodes::opt_keeps(x.padding),
        SpecColumnChild::MjSocial(x) => nodes::trimmed(x.icon_size) && icons_keep(x.elements),
    }
}

/// The values of an addressed item survive its form's fields.
pub open spec fn located_keeps(l: Located) -> bool {
    match l {
        Located::BodyNode(n) => body_node_keeps(n),
        Located::Column(x) => nodes::opt_keeps(x.width) && nodes::opt_keeps(x.background_color) && nodes::opt_keeps(x.padding) && nodes::opt_keeps(x.inner_background_color),
        Located::Group(x) => nodes::opt_keeps(x.width) && nodes::opt_keeps(x.background_color),
        Located::Leaf(x) => leaf_keeps(x),
        Located::NavbarLink(x) => nodes::opt_keeps(x.color) && nodes::opt_keeps(x.padding),
        Located::AccordionEl(x) => nodes::opt_keeps(x.background_color),
        Located::CarouselImg(x) => nodes::trimmed(x.src) && nodes::opt_keeps(x.href) && nodes::opt_keeps(x.thumbnails_src),
    }
}

proof fn lemma_located_survives(l: Located, st: EditFormState)
    requires
        located_form_ok(st, l),
        located_keeps(l),
    ensures
        located_survives(l, st),
{
    match l {
        Located::BodyNode(n) => match n {
            SpecBodyNode::MjSection(x) => nodes::law_section_form_round_trip(x, st),
            SpecBodyNode::MjWrapper(x) => nodes::law_wrapper_form_round_trip(x, st),
            SpecBodyNode::MjHero(x) => nodes::law_hero_form_round_trip(x, st),
            SpecBodyNode::EmailHeader(x) => nodes::law_email_header_form_round_trip(x, st),
            SpecBodyNode::EmailHero(x) => nodes::law_email_hero_form_round_trip(x, st),
            SpecBodyNode::EmailCta(x) => nodes::law_email_cta_form_round_trip(x, st),
            SpecBodyNode::EmailArticle(x) => nodes::law_email_article_form_round_trip(x, st),
            SpecBodyNode::EmailFooter(x) => law_footer_form_round_trip(x, st),
        },
        Located::Column(x) => nodes::law_column_form_round_trip(x, st),
        Located::Group(x) => nodes::law_group_form_round_trip(x, st),
        Located::Leaf(c) => match c {
            SpecColumnChild::MjText(x) => nodes::law_text_form_round_trip(x, st),
            SpecColumnChild::MjButton(x) => nodes::law_button_form_round_trip(x, st),
            SpecColumnChild::MjImage(x) => nodes::law_image_form_round_trip(x, st),
            SpecColumnChild::MjDivider(x) => nodes::law_divider_form_round_trip(x, st),
            SpecColumnChild::MjSpacer(x) => nodes::law_spacer_form_round_trip(x, st),
            SpecColumnChild::MjTable(x) => nodes::law_table_form_round_trip(x, st),
            SpecColumnChild::MjNavbar(x) => nodes::law_navbar_form_round_trip(x, st),
            SpecColumnChild::MjAccordion(x) => nodes::law_accordion_form_round_trip(x, st),
            SpecColumnChild::MjCarousel(x) => nodes::law_carousel_form_round_trip(x, st),
            SpecColumnChild::MjSocial(x) => law_social_form_round_trip(x, st),
        },
        Located::NavbarLink(x) => nodes::law_navbar_link_form_round_trip(x, st),
        Located::AccordionEl(x) => nodes::law_accordion_el_form_round_trip(x, st),
        Located::CarouselImg(x) => nodes::law_carousel_img_form_round_trip(x, st),
    }
}

/// Opening the edit form of a row below the body and writing it back
/// unedited leaves the template as it was, without an error, when the
/// addressed item's values survive their fields.
pub proof fn law_unedited_form_round_trip(t: SpecTemplate, p: Seq<Step>, st: EditFormState)
    requires
        (located(t, p) matches Some(l) && located_form_ok(st, l) && located_keeps(l)),
    ensures
        path_applied(t, p, st) == Some(Applied::<SpecTemplate> { value: t, error: None }),
{
    lemma_located_survives(located(t, p)->0, st);
    law_path_write_back_unchanged(t, p, st);
}


// ---------------------------------------------------------------------------
// What writing a form back sets
// ---------------------------------------------------------------------------

/// Reading font items gives one font per item, in order, with the item's
/// name and address trimmed.
pub proof fn law_fonts_read(items: Seq<EditFormState>)
    ensures
        fonts_read(items).len() == items.len(),
        forall|k: int| 0 <= k < items.len() ==> (#[trigger] fonts_read(items)[k]).name == trim_seq(items[k].value_of("name"@))
            && fonts_read(items)[k].href == trim_seq(items[k].value_of("href"@)),
{
}

/// Reading social items succeeds exactly when every item's network name
/// reads, and then gives one icon per item, in order, with the item's
/// network, link and image.
pub proof fn law_social_items_read(items: Seq<EditFormState>)
    ensures
        social_items_read(items) is Ok <==> (forall|k: int| 0 <= k < items.len()
            ==> parse_social_net_view((#[trigger] items[k]).value_of("name"@)) is Ok),
        social_items_read(items) matches Ok(els) ==> {
            &&& els.len() == items.len()
            &&& forall|k: int| 0 <= k < items.len() ==> {
                &&& parse_social_net_view((#[trigger] items[k]).value_of("name"@)) == Ok::<_, SpecFormError>(els[k].name)
                &&& els[k].href == items[k].value_of("href"@)
                &&& els[k].src == opt_set_view(items[k].value_of("src"@))
            }
        },
    decreases items.len(),
{
    if items.len() > 0 {
        let init = items.drop_last();
        law_social_items_read(init);
        assert forall|k: int| 0 <= k < init.len() implies #[trigger] init[k] == items[k] by {}
        let n = items.len() - 1;
        assert(items.last() == items[n]);
        if social_items_read(items) is Ok {
            assert forall|k: int| 0 <= k < items.len() implies parse_social_net_view(
                (#[trigger] items[k]).value_of("name"@),
            ) is Ok by {
                if k < n {
                    assert(init[k] == items[k]);
                }
            }
        }
        if forall|k: int| 0 <= k < items.len() ==> parse_social_net_view((#[trigger] items[k]).value_of("name"@)) is Ok {
            assert forall|k: int| 0 <= k < init.len() implies parse_social_net_view(
                (#[trigger] init[k]).value_of("name"@),
            ) is Ok by {
                assert(init[k] == items[k]);
            }
            assert(parse_social_net_view(items[n].value_of("name"@)) is Ok);
        }
        if let Ok(els) = social_items_read(items) {
            let prev = social_items_read(init)->Ok_0;
            assert(els == prev.push(els[n]));
            assert forall|k: int| 0 <= k < items.len() implies {
                &&& parse_social_net_view((#[trigger] items[k]).value_of("name"@)) == Ok::<_, SpecFormError>(els[k].name)
                &&& els[k].href == items[k].value_of("href"@)
                &&& els[k].src == opt_set_view(items[k].value_of("src"@))
            } by {
                if k < n {
                    assert(init[k] == items[k]);
                    assert(els[k] == prev[k]);
                }
            }
        }
    }
}

/// Writing the head form back sets the subject, preheader, language, title,
/// breakpoint, base URL, JSON-LD and CSS from their fields; when the inline
/// flag reads it is set too, along with the fonts read from the font items.
/// Everything else of the template is kept.
pub proof fn law_head_form_writes(t: SpecTemplate, st: EditFormState)
    ensures
        ({
            let a = head_applied(t, st);
            &&& a.value.subject == st.value_of("subject"@)
            &&& a.value.preheader == st.value_of("preheader"@)
            &&& a.value.lang == st.value_of("lang"@)
            &&& a.value.head.title == st.value_of("title"@)
            &&& a.value.head.breakpoint == st.value_of("breakpoint"@)
            &&& a.value.base_url == st.value_of("base_url"@)
            &&& a.value.head.json_ld == st.value_of("json_ld"@)
            &&& a.value.head.css == st.value_of("css"@)
            &&& a.error is None <==> parse_bool_view(st.value_of("css_inline"@)) is Ok
            &&& a.error is None ==> parse_bool_view(st.value_of("css_inline"@)) == Ok::<_, SpecFormError>(a.value.head.css_inline)
            &&& a.error is None ==> a.value.head.fonts == fonts_read(sub_items(st, "fonts"@))
            &&& a.error is Some ==> a.value.head.css_inline == t.head.css_inline && a.value.head.fonts == t.head.fonts
            &&& a.value.version == t.version
            &&& a.value.name == t.name
            &&& a.value.brand == t.brand
            &&& a.value.body == t.body
        }),
{
}

/// Writing the brand form back sets the font family and the trimmed text and
/// background colours; when the trimmed content width reads as a number it
/// is set, along with the trimmed button colours. Everything else of the
/// template is kept.
pub proof fn law_brand_form_writes(t: SpecTemplate, st: EditFormState)
    ensures
        ({
            let a = brand_applied(t, st);
            &&& a.value.brand.font_family == st.value_of("font_family"@)
            &&& a.value.brand.text_color == trim_seq(st.value_of("text_color"@))
            &&& a.value.brand.background_color == trim_seq(st.value_of("background_color"@))
            &&& a.error is None <==> parse_u32_view(trim_seq(st.value_of("content_width"@))) is Some
            &&& a.error is Some ==> a.error == Some(SpecFormError::ContentWidthNotNumber)
                && a.value.brand.content_width == t.brand.content_width
                && a.value.brand.button_background == t.brand.button_background
                && a.value.brand.button_color == t.brand.button_color
            &&& a.error is None ==> parse_u32_view(trim_seq(st.value_of("content_width"@))) == Some(a.value.brand.content_width)
                && a.value.brand.button_background == trim_seq(st.value_of("button_background"@))
                && a.value.brand.button_color == trim_seq(st.value_of("button_color"@))
            &&& a.value == (SpecTemplate { brand: a.value.brand, ..t })
        }),
{
}

/// Writing the body form back sets the trimmed background colour and keeps
/// the nodes and everything else.
pub proof fn law_body_form_writes(t: SpecTemplate, st: EditFormState)
    ensures
        ({
            let a = body_applied(t, st);
            &&& a.error is None
            &&& a.value.body.background_color == trim_seq(st.value_of("background_color"@))
            &&& a.value == (SpecTemplate { body: SpecBody { background_color: a.value.body.background_color, ..t.body }, ..t })
        }),
{
}

/// Writing a social row form back sets the layout mode, the alignment, the
/// trimmed icon size and the icons read from the icon items, stopping at
/// the first value that does not read.
pub proof fn law_social_form_writes(x: SpecMjSocial, st: EditFormState)
    ensures
        ({
            let a = social_applied(x, st);
            &&& a.error is None <==> (parse_social_mode_view(st.value_of("mode"@)) is Ok
                && parse_align_view(st.value_of("align"@)) is Ok
                && social_items_read(sub_items(st, "elements"@)) is Ok)
            &&& a.error is None ==> {
                &&& parse_social_mode_view(st.value_of("mode"@)) == Ok::<_, SpecFormError>(a.value.mode)
                &&& parse_align_view(st.value_of("align"@)) == Ok::<_, SpecFormError>(a.value.align)
                &&& a.value.icon_size == trim_seq(st.value_of("icon_size"@))
                &&& social_items_read(sub_items(st, "elements"@)) == Ok::<_, SpecFormError>(a.value.elements)
            }
        }),
{
}

/// Writing a footer form back sets the company name, the non-blank address
/// lines, the unsubscribe label and link and the copyright; when the icon
/// items read, the icons are set from them.
pub proof fn law_footer_form_writes(x: SpecEmailFooter, st: EditFormState)
    ensures
        ({
            let a = footer_applied(x, st);
            &&& a.value.company_name == st.value_of("company_name"@)
            &&& a.value.address_lines == nonblank_lines(st.value_of("address_lines"@))
            &&& a.value.unsubscribe_label == st.value_of("unsubscribe_label"@)
            &&& a.value.unsubscribe_href == st.value_of("unsubscribe_href"@)
            &&& a.value.copyright == opt_set_view(st.value_of("copyright"@))
            &&& a.error is None <==> social_items_read(sub_items(st, "social"@)) is Ok
            &&& a.error is None ==> social_items_read(sub_items(st, "social"@)) == Ok::<_, SpecFormError>(a.value.social)
            &&& a.error is Some ==> a.value.social == x.social
        }),
{
}

// ---------------------------------------------------------------------------
// Every filled value has a field
// ---------------------------------------------------------------------------

/// Every value the head form is filled with belongs to one of its fields, so
/// each is shown and can be edited.
pub proof fn law_head_form_shows_its_values(t: SpecTemplate)
    ensures
        forall|k: Seq<char>| #[trigger] head_form_values(t).dom().contains(k) ==> has_field(crate::editform::forms::head_form_view().fields, k),
{
    lemma_defaults_are_fields(crate::editform::forms::head_form_view().fields);
    assert(crate::editform::forms::head_form_view().fields[0].id == "subject"@);
    assert(crate::editform::forms::head_form_view().fields[1].id == "preheader"@);
    assert(crate::editform::forms::head_form_view().fields[2].id == "lang"@);
    assert(crate::editform::forms::head_form_view().fields[3].id == "title"@);
    assert(crate::editform::forms::head_form_view().fields[4].id == "breakpoint"@);
    assert(crate::editform::forms::head_form_view().fields[5].id == "base_url"@);
    assert(crate::editform::forms::head_form_view().fields[7].id == "json_ld"@);
    assert(crate::editform::forms::head_form_view().fields[8].id == "css"@);
    assert(crate::editform::forms::head_form_view().fields[9].id == "css_inline"@);
}

/// Every value the brand form is filled with belongs to one of its fields, so
/// each is shown and can be edited.
pub proof fn law_brand_form_shows_its_values(t: SpecTemplate)
    ensures
        forall|k: Seq<char>| #[trigger] brand_form_values(t).dom().contains(k) ==> has_field(crate::editform::forms::brand_form_view().fields, k),
{
    lemma_defaults_are_fields(crate::editform::forms::brand_form_view().fields);
    assert(crate::editform::forms::brand_form_view().fields[0].id == "font_family"@);
    assert(crate::editform::forms::brand_form_view().fields[1].id == "text_color"@);
    assert(crate::editform::forms::brand_form_view().fields[2].id == "background_color"@);
    assert(crate::editform::forms::brand_form_view().fields[3].id == "content_width"@);
    assert(crate::editform::forms::brand_form_view().fields[4].id == "button_background"@);
    assert(crate::editform::forms::brand_form_view().fields[5].id == "button_color"@);
}

/// Every value the body form is filled with belongs to one of its fields, so
/// each is shown and can be edited.
pub proof fn law_body_form_shows_its_values(t: SpecTemplate)
    ensures
        forall|k: Seq<char>| #[trigger] body_form_values(t).dom().contains(k) ==> has_field(crate::editform::forms::body_form_view().fields, k),
{
    lemma_defaults_are_fields(crate::editform::forms::body_form_view().fields);
    assert(crate::editform::forms::body_form_view().fields[0].id == "background_color"@);
}

/// Every value the form for a `MjSocial` is filled with belongs to one of
/// the form's fields, so each is shown and can be edited.
pub proof fn law_social_form_shows_its_values(x: SpecMjSocial)
    ensures
        forall|k: Seq<char>| #[trigger] social_form_values(x).dom().contains(k) ==> has_field(crate::editform::forms::social_form_view().fields, k),
{
    lemma_defaults_are_fields(crate::editform::forms::social_form_view().fields);
    assert(crate::editform::forms::social_form_view().fields[0].id == "mode"@);
    assert(crate::editform::forms::social_form_view().fields[1].id == "align"@);
    assert(crate::editform::forms::social_form_view().fields[2].id == "icon_size"@);
}

/// Every value the form for a `EmailFooter` is filled with belongs to one of
/// the form's fields, so each is shown and can be edited.
pub proof fn law_footer_form_shows_its_values(x: SpecEmailFooter)
    ensures
        forall|k: Seq<char>| #[trigger] footer_form_values(x).dom().contains(k) ==> has_field(crate::editform::forms::email_footer_form_view().fields, k),
{
    lemma_defaults_are_fields(crate::editform::forms::email_footer_form_view().fields);
    assert(crate::editform::forms::email_footer_form_view().fields[0].id == "company_name"@);
    assert(crate::editform::forms::email_footer_form_view().fields[1].id == "address_lines"@);
    assert(crate::editform::forms::email_footer_form_view().fields[2].id == "unsubscribe_label"@);
    assert(crate::editform::forms::email_footer_form_view().fields[3].id == "unsubscribe_href"@);
    assert(crate::editform::forms::email_footer_form_view().fields[4].id == "copyright"@);
}

} // verus!
