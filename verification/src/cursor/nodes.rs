//! Filling a form from one kind of node, and writing it back.
use vstd::prelude::*;

use super::values::{
    FormError, SpecFormError, align_str, align_view, bool_str, bool_view, hero_mode_str,
    hero_mode_view, image_pos_str, image_pos_view, opt_from, opt_get, opt_get_view, opt_set_view,
    parse_align, parse_align_view, parse_bool, parse_bool_view, parse_hero_mode,
    parse_hero_mode_view, parse_image_pos, parse_image_pos_view, parse_thumbnails,
    parse_thumbnails_view, thumbnails_str, thumbnails_view,
};
use crate::editform::{EditFormState, defaults_map, subform_ids_map, SpecEditForm, has_field, lemma_defaults_are_fields};
use crate::editform::forms::{
    section_form, section_form_view, wrapper_form, wrapper_form_view, column_form, column_form_view, group_form, group_form_view, hero_form, hero_form_view, text_form, text_form_view, button_form, button_form_view, image_form, image_form_view, divider_form, divider_form_view, spacer_form, spacer_form_view, table_form, table_form_view, navbar_form, navbar_form_view, navbar_link_form, navbar_link_form_view, accordion_form, accordion_form_view, accordion_element_form, accordion_element_form_view, carousel_form, carousel_form_view, carousel_image_form, carousel_image_form_view, email_header_form, email_header_form_view, email_hero_form, email_hero_form_view, email_cta_form, email_cta_form_view, email_article_form, email_article_form_view,
};
use crate::model::{
    MjSection, SpecMjSection, MjWrapper, SpecMjWrapper, MjColumn, SpecMjColumn, MjGroup, SpecMjGroup, MjHero, SpecMjHero, MjText, SpecMjText, MjButton, SpecMjButton, MjImage, SpecMjImage, MjDivider, SpecMjDivider, MjSpacer, SpecMjSpacer, MjTable, SpecMjTable, MjNavbar, SpecMjNavbar, MjNavbarLink, SpecMjNavbarLink, MjAccordion, SpecMjAccordion, MjAccordionElement, SpecMjAccordionElement, MjCarousel, SpecMjCarousel, MjCarouselImage, SpecMjCarouselImage, EmailHeader, SpecEmailHeader, EmailHero, SpecEmailHero, EmailCta, SpecEmailCta, EmailArticle, SpecEmailArticle,
};
use crate::text::{owned, trim, trim_seq};

verus! {

/// The outcome of writing a form back: the value as far as it was written,
/// and the error that stopped it, if any.
pub struct Applied<X> {
    pub value: X,
    pub error: Option<SpecFormError>,
}

/// `r` reports `e`.
pub open spec fn outcome_is(r: Result<(), FormError>, e: Option<SpecFormError>) -> bool {
    match r {
        Ok(_) => e is None,
        Err(x) => e == Some(x@),
    }
}

/// `st` is a fresh state of the form `fv` holding the values `vals`.
pub open spec fn formed(st: EditFormState, fv: SpecEditForm, vals: Map<Seq<char>, Seq<char>>) -> bool {
    &&& st.form@ == fv
    &&& st.value_map() == vals
    &&& st.sub_map() == subform_ids_map(fv.fields, Seq::<EditFormState>::empty())
    &&& st.selected_map() == subform_ids_map(fv.fields, 0usize)
    &&& st.focused_field == 0
    &&& st.textarea_cursor == (0usize, 0usize)
}

/// The field values of the form for a `MjSection`.
pub open spec fn section_form_values(x: SpecMjSection) -> Map<Seq<char>, Seq<char>> {
    defaults_map(section_form_view().fields)
        .insert("background_color"@, opt_get_view(x.background_color))
        .insert("padding"@, opt_get_view(x.padding))
        .insert("full_width"@, bool_view(x.full_width))
}

/// Writing the form back into a `MjSection`: fields in form order, stopping at
/// the first value that does not read.
pub open spec fn section_applied(x: SpecMjSection, st: EditFormState) -> Applied<SpecMjSection> {
    let x = SpecMjSection { background_color: opt_set_view(st.value_of("background_color"@)), ..x };
    let x = SpecMjSection { padding: opt_set_view(st.value_of("padding"@)), ..x };
    match parse_bool_view(st.value_of("full_width"@)) {
        Err(e) => Applied { value: x, error: Some(e) },
        Ok(v) => {
            let x = SpecMjSection { full_width: v, ..x };
            Applied { value: x, error: None }
        },
    }
}

/// The form for a `MjSection`, filled from it.
pub fn section_to_form(x: &MjSection) -> (r: EditFormState)
    ensures
        formed(r, section_form_view(), section_form_values(x@)),
{
    let mut st = EditFormState::new(section_form());
    let v = opt_get(&x.background_color);
    st.set("background_color", v.as_str());
    let v = opt_get(&x.padding);
    st.set("padding", v.as_str());
    st.set("full_width", bool_str(x.full_width));
    st
}

/// Writes the form back into a `MjSection`.
pub fn apply_section(x: &mut MjSection, st: &EditFormState) -> (r: Result<(), FormError>)
    ensures
        final(x)@ == section_applied(old(x)@, *st).value,
        outcome_is(r, section_applied(old(x)@, *st).error),
{
    x.background_color = opt_from(st.get("background_color"));
    x.padding = opt_from(st.get("padding"));
    match parse_bool(st.get("full_width")) {
        Ok(v) => x.full_width = v,
        Err(e) => return Err(e),
    }
    Ok(())
}


/// The field values of the form for a `MjWrapper`.
pub open spec fn wrapper_form_values(x: SpecMjWrapper) -> Map<Seq<char>, Seq<char>> {
    defaults_map(wrapper_form_view().fields)
        .insert("background_color"@, opt_get_view(x.background_color))
        .insert("padding"@, opt_get_view(x.padding))
        .insert("full_width"@, bool_view(x.full_width))
}

/// Writing the form back into a `MjWrapper`: fields in form order, stopping at
/// the first value that does not read.
pub open spec fn wrapper_applied(x: SpecMjWrapper, st: EditFormState) -> Applied<SpecMjWrapper> {
    let x = SpecMjWrapper { background_color: opt_set_view(st.value_of("background_color"@)), ..x };
    let x = SpecMjWrapper { padding: opt_set_view(st.value_of("padding"@)), ..x };
    match parse_bool_view(st.value_of("full_width"@)) {
        Err(e) => Applied { value: x, error: Some(e) },
        Ok(v) => {
            let x = SpecMjWrapper { full_width: v, ..x };
            Applied { value: x, error: None }
        },
    }
}

/// The form for a `MjWrapper`, filled from it.
pub fn wrapper_to_form(x: &MjWrapper) -> (r: EditFormState)
    ensures
        formed(r, wrapper_form_view(), wrapper_form_values(x@)),
{
    let mut st = EditFormState::new(wrapper_form());
    let v = opt_get(&x.background_color);
    st.set("background_color", v.as_str());
    let v = opt_get(&x.padding);
    st.set("padding", v.as_str());
    st.set("full_width", bool_str(x.full_width));
    st
}

/// Writes the form back into a `MjWrapper`.
pub fn apply_wrapper(x: &mut MjWrapper, st: &EditFormState) -> (r: Result<(), FormError>)
    ensures
        final(x)@ == wrapper_applied(old(x)@, *st).value,
        outcome_is(r, wrapper_applied(old(x)@, *st).error),
{
    x.background_color = opt_from(st.get("background_color"));
    x.padding = opt_from(st.get("padding"));
    match parse_bool(st.get("full_width")) {
        Ok(v) => x.full_width = v,
        Err(e) => return Err(e),
    }
    Ok(())
}


/// The field values of the form for a `MjColumn`.
pub open spec fn column_form_values(x: SpecMjColumn) -> Map<Seq<char>, Seq<char>> {
    defaults_map(column_form_view().fields)
        .insert("width"@, opt_get_view(x.width))
        .insert("background_color"@, opt_get_view(x.background_color))
        .insert("padding"@, opt_get_view(x.padding))
        .insert("inner_background_color"@, opt_get_view(x.inner_background_color))
}

/// Writing the form back into a `MjColumn`: fields in form order, stopping at
/// the first value that does not read.
pub open spec fn column_applied(x: SpecMjColumn, st: EditFormState) -> Applied<SpecMjColumn> {
    let x = SpecMjColumn { width: opt_set_view(st.value_of("width"@)), ..x };
    let x = SpecMjColumn { background_color: opt_set_view(st.value_of("background_color"@)), ..x };
    let x = SpecMjColumn { padding: opt_set_view(st.value_of("padding"@)), ..x };
    let x = SpecMjColumn { inner_background_color: opt_set_view(st.value_of("inner_background_color"@)), ..x };
    Applied { value: x, error: None }
}

/// The form for a `MjColumn`, filled from it.
pub fn column_to_form(x: &MjColumn) -> (r: EditFormState)
    ensures
        formed(r, column_form_view(), column_form_values(x@)),
{
    let mut st = EditFormState::new(column_form());
    let v = opt_get(&x.width);
    st.set("width", v.as_str());
    let v = opt_get(&x.background_color);
    st.set("background_color", v.as_str());
    let v = opt_get(&x.padding);
    st.set("padding", v.as_str());
    let v = opt_get(&x.inner_background_color);
    st.set("inner_background_color", v.as_str());
    st
}

/// Writes the form back into a `MjColumn`.
pub fn apply_column(x: &mut MjColumn, st: &EditFormState) -> (r: Result<(), FormError>)
    ensures
        final(x)@ == column_applied(old(x)@, *st).value,
        outcome_is(r, column_applied(old(x)@, *st).error),
{
    x.width = opt_from(st.get("width"));
    x.background_color = opt_from(st.get("background_color"));
    x.padding = opt_from(st.get("padding"));
    x.inner_background_color = opt_from(st.get("inner_background_color"));
    Ok(())
}


/// The field values of the form for a `MjGroup`.
pub open spec fn group_form_values(x: SpecMjGroup) -> Map<Seq<char>, Seq<char>> {
    defaults_map(group_form_view().fields)
        .insert("width"@, opt_get_view(x.width))
        .insert("background_color"@, opt_get_view(x.background_color))
}

/// Writing the form back into a `MjGroup`: fields in form order, stopping at
/// the first value that does not read.
pub open spec fn group_applied(x: SpecMjGroup, st: EditFormState) -> Applied<SpecMjGroup> {
    let x = SpecMjGroup { width: opt_set_view(st.value_of("width"@)), ..x };
    let x = SpecMjGroup { background_color: opt_set_view(st.value_of("background_color"@)), ..x };
    Applied { value: x, error: None }
}

/// The form for a `MjGroup`, filled from it.
pub fn group_to_form(x: &MjGroup) -> (r: EditFormState)
    ensures
        formed(r, group_form_view(), group_form_values(x@)),
{
    let mut st = EditFormState::new(group_form());
    let v = opt_get(&x.width);
    st.set("width", v.as_str());
    let v = opt_get(&x.background_color);
    st.set("background_color", v.as_str());
    st
}

/// Writes the form back into a `MjGroup`.
pub fn apply_group(x: &mut MjGroup, st: &EditFormState) -> (r: Result<(), FormError>)
    ensures
        final(x)@ == group_applied(old(x)@, *st).value,
        outcome_is(r, group_applied(old(x)@, *st).error),
{
    x.width = opt_from(st.get("width"));
    x.background_color = opt_from(st.get("background_color"));
    Ok(())
}


/// The field values of the form for a `MjHero`.
pub open spec fn hero_form_values(x: SpecMjHero) -> Map<Seq<char>, Seq<char>> {
    defaults_map(hero_form_view().fields)
        .insert("mode"@, hero_mode_view(x.mode))
        .insert("background_url"@, opt_get_view(x.background_url))
        .insert("background_color"@, opt_get_view(x.background_color))
        .insert("background_height"@, opt_get_view(x.background_height))
        .insert("width"@, opt_get_view(x.width))
        .insert("height"@, opt_get_view(x.height))
}

/// Writing the form back into a `MjHero`: fields in form order, stopping at
/// the first value that does not read.
pub open spec fn hero_applied(x: SpecMjHero, st: EditFormState) -> Applied<SpecMjHero> {
    match parse_hero_mode_view(st.value_of("mode"@)) {
        Err(e) => Applied { value: x, error: Some(e) },
        Ok(v) => {
            let x = SpecMjHero { mode: v, ..x };
            let x = SpecMjHero { background_url: opt_set_view(st.value_of("background_url"@)), ..x };
            let x = SpecMjHero { background_color: opt_set_view(st.value_of("background_color"@)), ..x };
            let x = SpecMjHero { background_height: opt_set_view(st.value_of("background_height"@)), ..x };
            let x = SpecMjHero { width: opt_set_view(st.value_of("width"@)), ..x };
            let x = SpecMjHero { height: opt_set_view(st.value_of("height"@)), ..x };
            Applied { value: x, error: None }
        },
    }
}

/// The form for a `MjHero`, filled from it.
pub fn hero_to_form(x: &MjHero) -> (r: EditFormState)
    ensures
        formed(r, hero_form_view(), hero_form_values(x@)),
{
    let mut st = EditFormState::new(hero_form());
    st.set("mode", hero_mode_str(x.mode));
    let v = opt_get(&x.background_url);
    st.set("background_url", v.as_str());
    let v = opt_get(&x.background_color);
    st.set("background_color", v.as_str());
    let v = opt_get(&x.background_height);
    st.set("background_height", v.as_str());
    let v = opt_get(&x.width);
    st.set("width", v.as_str());
    let v = opt_get(&x.height);
    st.set("height", v.as_str());
    st
}

/// Writes the form back into a `MjHero`.
pub fn apply_hero(x: &mut MjHero, st: &EditFormState) -> (r: Result<(), FormError>)
    ensures
        final(x)@ == hero_applied(old(x)@, *st).value,
        outcome_is(r, hero_applied(old(x)@, *st).error),
{
    match parse_hero_mode(st.get("mode")) {
        Ok(v) => x.mode = v,
        Err(e) => return Err(e),
    }
    x.background_url = opt_from(st.get("background_url"));
    x.background_color = opt_from(st.get("background_color"));
    x.background_height = opt_from(st.get("background_height"));
    x.width = opt_from(st.get("width"));
    x.height = opt_from(st.get("height"));
    Ok(())
}


/// The field values of the form for a `MjText`.
pub open spec fn text_form_values(x: SpecMjText) -> Map<Seq<char>, Seq<char>> {
    defaults_map(text_form_view().fields)
        .insert("content"@, x.content)
        .insert("align"@, align_view(x.align))
        .insert("font_size"@, opt_get_view(x.font_size))
        .insert("font_family"@, opt_get_view(x.font_family))
        .insert("color"@, opt_get_view(x.color))
        .insert("padding"@, opt_get_view(x.padding))
}

/// Writing the form back into a `MjText`: fields in form order, stopping at
/// the first value that does not read.
pub open spec fn text_applied(x: SpecMjText, st: EditFormState) -> Applied<SpecMjText> {
    let x = SpecMjText { content: st.value_of("content"@), ..x };
    match parse_align_view(st.value_of("align"@)) {
        Err(e) => Applied { value: x, error: Some(e) },
        Ok(v) => {
            let x = SpecMjText { align: v, ..x };
            let x = SpecMjText { font_size: opt_set_view(st.value_of("font_size"@)), ..x };
            let x = SpecMjText { font_family: opt_set_view(st.value_of("font_family"@)), ..x };
            let x = SpecMjText { color: opt_set_view(st.value_of("color"@)), ..x };
            let x = SpecMjText { padding: opt_set_view(st.value_of("padding"@)), ..x };
            Applied { value: x, error: None }
        },
    }
}

/// The form for a `MjText`, filled from it.
pub fn text_to_form(x: &MjText) -> (r: EditFormState)
    ensures
        formed(r, text_form_view(), text_form_values(x@)),
{
    let mut st = EditFormState::new(text_form());
    st.set("content", x.content.as_str());
    st.set("align", align_str(x.align));
    let v = opt_get(&x.font_size);
    st.set("font_size", v.as_str());
    let v = opt_get(&x.font_family);
    st.set("font_family", v.as_str());
    let v = opt_get(&x.color);
    st.set("color", v.as_str());
    let v = opt_get(&x.padding);
    st.set("padding", v.as_str());
    st
}

/// Writes the form back into a `MjText`.
pub fn apply_text(x: &mut MjText, st: &EditFormState) -> (r: Result<(), FormError>)
    ensures
        final(x)@ == text_applied(old(x)@, *st).value,
        outcome_is(r, text_applied(old(x)@, *st).error),
{
    x.content = owned(st.get("content"));
    match parse_align(st.get("align")) {
        Ok(v) => x.align = v,
        Err(e) => return Err(e),
    }
    x.font_size = opt_from(st.get("font_size"));
    x.font_family = opt_from(st.get("font_family"));
    x.color = opt_from(st.get("color"));
    x.padding = opt_from(st.get("padding"));
    Ok(())
}


/// The field values of the form for a `MjButton`.
pub open spec fn button_form_values(x: SpecMjButton) -> Map<Seq<char>, Seq<char>> {
    defaults_map(button_form_view().fields)
        .insert("content"@, x.content)
        .insert("href"@, x.href)
        .insert("background_color"@, opt_get_view(x.background_color))
        .insert("color"@, opt_get_view(x.color))
        .insert("align"@, align_view(x.align))
        .insert("font_family"@, opt_get_view(x.font_family))
        .insert("border_radius"@, opt_get_view(x.border_radius))
        .insert("width"@, opt_get_view(x.width))
        .insert("padding"@, opt_get_view(x.padding))
}

/// Writing the form back into a `MjButton`: fields in form order, stopping at
/// the first value that does not read.
pub open spec fn button_applied(x: SpecMjButton, st: EditFormState) -> Applied<SpecMjButton> {
    let x = SpecMjButton { content: st.value_of("content"@), ..x };
    let x = SpecMjButton { href: st.value_of("href"@), ..x };
    let x = SpecMjButton { background_color: opt_set_view(st.value_of("background_color"@)), ..x };
    let x = SpecMjButton { color: opt_set_view(st.value_of("color"@)), ..x };
    match parse_align_view(st.value_of("align"@)) {
        Err(e) => Applied { value: x, error: Some(e) },
        Ok(v) => {
            let x = SpecMjButton { align: v, ..x };
            let x = SpecMjButton { font_family: opt_set_view(st.value_of("font_family"@)), ..x };
            let x = SpecMjButton { border_radius: opt_set_view(st.value_of("border_radius"@)), ..x };
            let x = SpecMjButton { width: opt_set_view(st.value_of("width"@)), ..x };
            let x = SpecMjButton { padding: opt_set_view(st.value_of("padding"@)), ..x };
            Applied { value: x, error: None }
        },
    }
}

/// The form for a `MjButton`, filled from it.
pub fn button_to_form(x: &MjButton) -> (r: EditFormState)
    ensures
        formed(r, button_form_view(), button_form_values(x@)),
{
    let mut st = EditFormState::new(button_form());
    st.set("content", x.content.as_str());
    st.set("href", x.href.as_str());
    let v = opt_get(&x.background_color);
    st.set("background_color", v.as_str());
    let v = opt_get(&x.color);
    st.set("color", v.as_str());
    st.set("align", align_str(x.align));
    let v = opt_get(&x.font_family);
    st.set("font_family", v.as_str());
    let v = opt_get(&x.border_radius);
    st.set("border_radius", v.as_str());
    let v = opt_get(&x.width);
    st.set("width", v.as_str());
    let v = opt_get(&x.padding);
    st.set("padding", v.as_str());
    st
}

/// Writes the form back into a `MjButton`.
pub fn apply_button(x: &mut MjButton, st: &EditFormState) -> (r: Result<(), FormError>)
    ensures
        final(x)@ == button_applied(old(x)@, *st).value,
        outcome_is(r, button_applied(old(x)@, *st).error),
{
    x.content = owned(st.get("content"));
    x.href = owned(st.get("href"));
    x.background_color = opt_from(st.get("background_color"));
    x.color = opt_from(st.get("color"));
    match parse_align(st.get("align")) {
        Ok(v) => x.align = v,
        Err(e) => return Err(e),
    }
    x.font_family = opt_from(st.get("font_family"));
    x.border_radius = opt_from(st.get("border_radius"));
    x.width = opt_from(st.get("width"));
    x.padding = opt_from(st.get("padding"));
    Ok(())
}


/// The field values of the form for a `MjImage`.
pub open spec fn image_form_values(x: SpecMjImage) -> Map<Seq<char>, Seq<char>> {
    defaults_map(image_form_view().fields)
        .insert("src"@, x.src)
        .insert("alt"@, x.alt)
        .insert("href"@, opt_get_view(x.href))
        .insert("width"@, opt_get_view(x.width))
        .insert("align"@, align_view(x.align))
        .insert("fluid_on_mobile"@, bool_view(x.fluid_on_mobile))
        .insert("padding"@, opt_get_view(x.padding))
}

/// Writing the form back into a `MjImage`: fields in form order, stopping at
/// the first value that does not read.
pub open spec fn image_applied(x: SpecMjImage, st: EditFormState) -> Applied<SpecMjImage> {
    let x = SpecMjImage { src: trim_seq(st.value_of("src"@)), ..x };
    let x = SpecMjImage { alt: st.value_of("alt"@), ..x };
    let x = SpecMjImage { href: opt_set_view(st.value_of("href"@)), ..x };
    let x = SpecMjImage { width: opt_set_view(st.value_of("width"@)), ..x };
    match parse_align_view(st.value_of("align"@)) {
        Err(e) => Applied { value: x, error: Some(e) },
        Ok(v) => {
            let x = SpecMjImage { align: v, ..x };
            match parse_bool_view(st.value_of("fluid_on_mobile"@)) {
                Err(e) => Applied { value: x, error: Some(e) },
                Ok(v) => {
                    let x = SpecMjImage { fluid_on_mobile: v, ..x };
                    let x = SpecMjImage { padding: opt_set_view(st.value_of("padding"@)), ..x };
                    Applied { value: x, error: None }
                },
            }
        },
    }
}

/// The form for a `MjImage`, filled from it.
pub fn image_to_form(x: &MjImage) -> (r: EditFormState)
    ensures
        formed(r, image_form_view(), image_form_values(x@)),
{
    let mut st = EditFormState::new(image_form());
    st.set("src", x.src.as_str());
    st.set("alt", x.alt.as_str());
    let v = opt_get(&x.href);
    st.set("href", v.as_str());
    let v = opt_get(&x.width);
    st.set("width", v.as_str());
    st.set("align", align_str(x.align));
    st.set("fluid_on_mobile", bool_str(x.fluid_on_mobile));
    let v = opt_get(&x.padding);
    st.set("padding", v.as_str());
    st
}

/// Writes the form back into a `MjImage`.
pub fn apply_image(x: &mut MjImage, st: &EditFormState) -> (r: Result<(), FormError>)
    ensures
        final(x)@ == image_applied(old(x)@, *st).value,
        outcome_is(r, image_applied(old(x)@, *st).error),
{
    x.src = owned(trim(st.get("src")));
    x.alt = owned(st.get("alt"));
    x.href = opt_from(st.get("href"));
    x.width = opt_from(st.get("width"));
    match parse_align(st.get("align")) {
        Ok(v) => x.align = v,
        Err(e) => return Err(e),
    }
    match parse_bool(st.get("fluid_on_mobile")) {
        Ok(v) => x.fluid_on_mobile = v,
        Err(e) => return Err(e),
    }
    x.padding = opt_from(st.get("padding"));
    Ok(())
}


/// The field values of the form for a `MjDivider`.
pub open spec fn divider_form_values(x: SpecMjDivider) -> Map<Seq<char>, Seq<char>> {
    defaults_map(divider_form_view().fields)
        .insert("border_color"@, opt_get_view(x.border_color))
        .insert("border_width"@, opt_get_view(x.border_width))
        .insert("padding"@, opt_get_view(x.padding))
}

/// Writing the form back into a `MjDivider`: fields in form order, stopping at
/// the first value that does not read.
pub open spec fn divider_applied(x: SpecMjDivider, st: EditFormState) -> Applied<SpecMjDivider> {
    let x = SpecMjDivider { border_color: opt_set_view(st.value_of("border_color"@)), ..x };
    let x = SpecMjDivider { border_width: opt_set_view(st.value_of("border_width"@)), ..x };
    let x = SpecMjDivider { padding: opt_set_view(st.value_of("padding"@)), ..x };
    Applied { value: x, error: None }
}

/// The form for a `MjDivider`, filled from it.
pub fn divider_to_form(x: &MjDivider) -> (r: EditFormState)
    ensures
        formed(r, divider_form_view(), divider_form_values(x@)),
{
    let mut st = EditFormState::new(divider_form());
    let v = opt_get(&x.border_color);
    st.set("border_color", v.as_str());
    let v = opt_get(&x.border_width);
    st.set("border_width", v.as_str());
    let v = opt_get(&x.padding);
    st.set("padding", v.as_str());
    st
}

/// Writes the form back into a `MjDivider`.
pub fn apply_divider(x: &mut MjDivider, st: &EditFormState) -> (r: Result<(), FormError>)
    ensures
        final(x)@ == divider_applied(old(x)@, *st).value,
        outcome_is(r, divider_applied(old(x)@, *st).error),
{
    x.border_color = opt_from(st.get("border_color"));
    x.border_width = opt_from(st.get("border_width"));
    x.padding = opt_from(st.get("padding"));
    Ok(())
}


/// The field values of the form for a `MjSpacer`.
pub open spec fn spacer_form_values(x: SpecMjSpacer) -> Map<Seq<char>, Seq<char>> {
    defaults_map(spacer_form_view().fields)
        .insert("height"@, x.height)
}

/// Writing the form back into a `MjSpacer`: fields in form order, stopping at
/// the first value that does not read.
pub open spec fn spacer_applied(x: SpecMjSpacer, st: EditFormState) -> Applied<SpecMjSpacer> {
    let x = SpecMjSpacer { height: trim_seq(st.value_of("height"@)), ..x };
    Applied { value: x, error: None }
}

/// The form for a `MjSpacer`, filled from it.
pub fn spacer_to_form(x: &MjSpacer) -> (r: EditFormState)
    ensures
        formed(r, spacer_form_view(), spacer_form_values(x@)),
{
    let mut st = EditFormState::new(spacer_form());
    st.set("height", x.height.as_str());
    st
}

/// Writes the form back into a `MjSpacer`.
pub fn apply_spacer(x: &mut MjSpacer, st: &EditFormState) -> (r: Result<(), FormError>)
    ensures
        final(x)@ == spacer_applied(old(x)@, *st).value,
        outcome_is(r, spacer_applied(old(x)@, *st).error),
{
    x.height = owned(trim(st.get("height")));
    Ok(())
}


/// The field values of the form for a `MjTable`.
pub open spec fn table_form_values(x: SpecMjTable) -> Map<Seq<char>, Seq<char>> {
    defaults_map(table_form_view().fields)
        .insert("content"@, x.content)
        .insert("font_size"@, opt_get_view(x.font_size))
        .insert("color"@, opt_get_view(x.color))
        .insert("padding"@, opt_get_view(x.padding))
}

/// Writing the form back into a `MjTable`: fields in form order, stopping at
/// the first value that does not read.
pub open spec fn table_applied(x: SpecMjTable, st: EditFormState) -> Applied<SpecMjTable> {
    let x = SpecMjTable { content: st.value_of("content"@), ..x };
    let x = SpecMjTable { font_size: opt_set_view(st.value_of("font_size"@)), ..x };
    let x = SpecMjTable { color: opt_set_view(st.value_of("color"@)), ..x };
    let x = SpecMjTable { padding: opt_set_view(st.value_of("padding"@)), ..x };
    Applied { value: x, error: None }
}

/// The form for a `MjTable`, filled from it.
pub fn table_to_form(x: &MjTable) -> (r: EditFormState)
    ensures
        formed(r, table_form_view(), table_form_values(x@)),
{
    let mut st = EditFormState::new(table_form());
    st.set("content", x.content.as_str());
    let v = opt_get(&x.font_size);
    st.set("font_size", v.as_str());
    let v = opt_get(&x.color);
    st.set("color", v.as_str());
    let v = opt_get(&x.padding);
    st.set("padding", v.as_str());
    st
}

/// Writes the form back into a `MjTable`.
pub fn apply_table(x: &mut MjTable, st: &EditFormState) -> (r: Result<(), FormError>)
    ensures
        final(x)@ == table_applied(old(x)@, *st).value,
        outcome_is(r, table_applied(old(x)@, *st).error),
{
    x.content = owned(st.get("content"));
    x.font_size = opt_from(st.get("font_size"));
    x.color = opt_from(st.get("color"));
    x.padding = opt_from(st.get("padding"));
    Ok(())
}


/// The field values of the form for a `MjNavbar`.
pub open spec fn navbar_form_values(x: SpecMjNavbar) -> Map<Seq<char>, Seq<char>> {
    defaults_map(navbar_form_view().fields)
        .insert("hamburger"@, bool_view(x.hamburger))
        .insert("ico_color"@, opt_get_view(x.ico_color))
        .insert("base_url"@, opt_get_view(x.base_url))
        .insert("align"@, align_view(x.align))
        .insert("padding"@, opt_get_view(x.padding))
}

/// Writing the form back into a `MjNavbar`: fields in form order, stopping at
/// the first value that does not read.
pub open spec fn navbar_applied(x: SpecMjNavbar, st: EditFormState) -> Applied<SpecMjNavbar> {
    match parse_bool_view(st.value_of("hamburger"@)) {
        Err(e) => Applied { value: x, error: Some(e) },
        Ok(v) => {
            let x = SpecMjNavbar { hamburger: v, ..x };
            let x = SpecMjNavbar { ico_color: opt_set_view(st.value_of("ico_color"@)), ..x };
            let x = SpecMjNavbar { base_url: opt_set_view(st.value_of("base_url"@)), ..x };
            match parse_align_view(st.value_of("align"@)) {
                Err(e) => Applied { value: x, error: Some(e) },
                Ok(v) => {
                    let x = SpecMjNavbar { align: v, ..x };
                    let x = SpecMjNavbar { padding: opt_set_view(st.value_of("padding"@)), ..x };
                    Applied { value: x, error: None }
                },
            }
        },
    }
}

/// The form for a `MjNavbar`, filled from it.
pub fn navbar_to_form(x: &MjNavbar) -> (r: EditFormState)
    ensures
        formed(r, navbar_form_view(), navbar_form_values(x@)),
{
    let mut st = EditFormState::new(navbar_form());
    st.set("hamburger", bool_str(x.hamburger));
    let v = opt_get(&x.ico_color);
    st.set("ico_color", v.as_str());
    let v = opt_get(&x.base_url);
    st.set("base_url", v.as_str());
    st.set("align", align_str(x.align));
    let v = opt_get(&x.padding);
    st.set("padding", v.as_str());
    st
}

/// Writes the form back into a `MjNavbar`.
pub fn apply_navbar(x: &mut MjNavbar, st: &EditFormState) -> (r: Result<(), FormError>)
    ensures
        final(x)@ == navbar_applied(old(x)@, *st).value,
        outcome_is(r, navbar_applied(old(x)@, *st).error),
{
    match parse_bool(st.get("hamburger")) {
        Ok(v) => x.hamburger = v,
        Err(e) => return Err(e),
    }
    x.ico_color = opt_from(st.get("ico_color"));
    x.base_url = opt_from(st.get("base_url"));
    match parse_align(st.get("align")) {
        Ok(v) => x.align = v,
        Err(e) => return Err(e),
    }
    x.padding = opt_from(st.get("padding"));
    Ok(())
}


/// The field values of the form for a `MjNavbarLink`.
pub open spec fn navbar_link_form_values(x: SpecMjNavbarLink) -> Map<Seq<char>, Seq<char>> {
    defaults_map(navbar_link_form_view().fields)
        .insert("href"@, x.href)
        .insert("content"@, x.content)
        .insert("color"@, opt_get_view(x.color))
        .insert("padding"@, opt_get_view(x.padding))
}

/// Writing the form back into a `MjNavbarLink`: fields in form order, stopping at
/// the first value that does not read.
pub open spec fn navbar_link_applied(x: SpecMjNavbarLink, st: EditFormState) -> Applied<SpecMjNavbarLink> {
    let x = SpecMjNavbarLink { href: st.value_of("href"@), ..x };
    let x = SpecMjNavbarLink { content: st.value_of("content"@), ..x };
    let x = SpecMjNavbarLink { color: opt_set_view(st.value_of("color"@)), ..x };
    let x = SpecMjNavbarLink { padding: opt_set_view(st.value_of("padding"@)), ..x };
    Applied { value: x, error: None }
}

/// The form for a `MjNavbarLink`, filled from it.
pub fn navbar_link_to_form(x: &MjNavbarLink) -> (r: EditFormState)
    ensures
        formed(r, navbar_link_form_view(), navbar_link_form_values(x@)),
{
    let mut st = EditFormState::new(navbar_link_form());
    st.set("href", x.href.as_str());
    st.set("content", x.content.as_str());
    let v = opt_get(&x.color);
    st.set("color", v.as_str());
    let v = opt_get(&x.padding);
    st.set("padding", v.as_str());
    st
}

/// Writes the form back into a `MjNavbarLink`.
pub fn apply_navbar_link(x: &mut MjNavbarLink, st: &EditFormState) -> (r: Result<(), FormError>)
    ensures
        final(x)@ == navbar_link_applied(old(x)@, *st).value,
        outcome_is(r, navbar_link_applied(old(x)@, *st).error),
{
    x.href = owned(st.get("href"));
    x.content = owned(st.get("content"));
    x.color = opt_from(st.get("color"));
    x.padding = opt_from(st.get("padding"));
    Ok(())
}


/// The field values of the form for a `MjAccordion`.
pub open spec fn accordion_form_values(x: SpecMjAccordion) -> Map<Seq<char>, Seq<char>> {
    defaults_map(accordion_form_view().fields)
        .insert("border"@, opt_get_view(x.border))
        .insert("padding"@, opt_get_view(x.padding))
}

/// Writing the form back into a `MjAccordion`: fields in form order, stopping at
/// the first value that does not read.
pub open spec fn accordion_applied(x: SpecMjAccordion, st: EditFormState) -> Applied<SpecMjAccordion> {
    let x = SpecMjAccordion { border: opt_set_view(st.value_of("border"@)), ..x };
    let x = SpecMjAccordion { padding: opt_set_view(st.value_of("padding"@)), ..x };
    Applied { value: x, error: None }
}

/// The form for a `MjAccordion`, filled from it.
pub fn accordion_to_form(x: &MjAccordion) -> (r: EditFormState)
    ensures
        formed(r, accordion_form_view(), accordion_form_values(x@)),
{
    let mut st = EditFormState::new(accordion_form());
    let v = opt_get(&x.border);
    st.set("border", v.as_str());
    let v = opt_get(&x.padding);
    st.set("padding", v.as_str());
    st
}

/// Writes the form back into a `MjAccordion`.
pub fn apply_accordion(x: &mut MjAccordion, st: &EditFormState) -> (r: Result<(), FormError>)
    ensures
        final(x)@ == accordion_applied(old(x)@, *st).value,
        outcome_is(r, accordion_applied(old(x)@, *st).error),
{
    x.border = opt_from(st.get("border"));
    x.padding = opt_from(st.get("padding"));
    Ok(())
}


/// The field values of the form for a `MjAccordionElement`.
pub open spec fn accordion_el_form_values(x: SpecMjAccordionElement) -> Map<Seq<char>, Seq<char>> {
    defaults_map(accordion_element_form_view().fields)
        .insert("title"@, x.title)
        .insert("content"@, x.content)
        .insert("background_color"@, opt_get_view(x.background_color))
}

/// Writing the form back into a `MjAccordionElement`: fields in form order, stopping at
/// the first value that does not read.
pub open spec fn accordion_el_applied(x: SpecMjAccordionElement, st: EditFormState) -> Applied<SpecMjAccordionElement> {
    let x = SpecMjAccordionElement { title: st.value_of("title"@), ..x };
    let x = SpecMjAccordionElement { content: st.value_of("content"@), ..x };
    let x = SpecMjAccordionElement { background_color: opt_set_view(st.value_of("background_color"@)), ..x };
    Applied { value: x, error: None }
}

/// The form for a `MjAccordionElement`, filled from it.
pub fn accordion_el_to_form(x: &MjAccordionElement) -> (r: EditFormState)
    ensures
        formed(r, accordion_element_form_view(), accordion_el_form_values(x@)),
{
    let mut st = EditFormState::new(accordion_element_form());
    st.set("title", x.title.as_str());
    st.set("content", x.content.as_str());
    let v = opt_get(&x.background_color);
    st.set("background_color", v.as_str());
    st
}

/// Writes the form back into a `MjAccordionElement`.
pub fn apply_accordion_el(x: &mut MjAccordionElement, st: &EditFormState) -> (r: Result<(), FormError>)
    ensures
        final(x)@ == accordion_el_applied(old(x)@, *st).value,
        outcome_is(r, accordion_el_applied(old(x)@, *st).error),
{
    x.title = owned(st.get("title"));
    x.content = owned(st.get("content"));
    x.background_color = opt_from(st.get("background_color"));
    Ok(())
}


/// The field values of the form for a `MjCarousel`.
pub open spec fn carousel_form_values(x: SpecMjCarousel) -> Map<Seq<char>, Seq<char>> {
    defaults_map(carousel_form_view().fields)
        .insert("align"@, align_view(x.align))
        .insert("padding"@, opt_get_view(x.padding))
        .insert("thumbnails"@, thumbnails_view(x.thumbnails))
}

/// Writing the form back into a `MjCarousel`: fields in form order, stopping at
/// the first value that does not read.
pub open spec fn carousel_applied(x: SpecMjCarousel, st: EditFormState) -> Applied<SpecMjCarousel> {
    match parse_align_view(st.value_of("align"@)) {
        Err(e) => Applied { value: x, error: Some(e) },
        Ok(v) => {
            let x = SpecMjCarousel { align: v, ..x };
            let x = SpecMjCarousel { padding: opt_set_view(st.value_of("padding"@)), ..x };
            match parse_thumbnails_view(st.value_of("thumbnails"@)) {
                Err(e) => Applied { value: x, error: Some(e) },
                Ok(v) => {
                    let x = SpecMjCarousel { thumbnails: v, ..x };
                    Applied { value: x, error: None }
                },
            }
        },
    }
}

/// The form for a `MjCarousel`, filled from it.
pub fn carousel_to_form(x: &MjCarousel) -> (r: EditFormState)
    ensures
        formed(r, carousel_form_view(), carousel_form_values(x@)),
{
    let mut st = EditFormState::new(carousel_form());
    st.set("align", align_str(x.align));
    let v = opt_get(&x.padding);
    st.set("padding", v.as_str());
    st.set("thumbnails", thumbnails_str(x.thumbnails));
    st
}

/// Writes the form back into a `MjCarousel`.
pub fn apply_carousel(x: &mut MjCarousel, st: &EditFormState) -> (r: Result<(), FormError>)
    ensures
        final(x)@ == carousel_applied(old(x)@, *st).value,
        outcome_is(r, carousel_applied(old(x)@, *st).error),
{
    match parse_align(st.get("align")) {
        Ok(v) => x.align = v,
        Err(e) => return Err(e),
    }
    x.padding = opt_from(st.get("padding"));
    match parse_thumbnails(st.get("thumbnails")) {
        Ok(v) => x.thumbnails = v,
        Err(e) => return Err(e),
    }
    Ok(())
}


/// The field values of the form for a `MjCarouselImage`.
pub open spec fn carousel_img_form_values(x: SpecMjCarouselImage) -> Map<Seq<char>, Seq<char>> {
    defaults_map(carousel_image_form_view().fields)
        .insert("src"@, x.src)
        .insert("alt"@, x.alt)
        .insert("href"@, opt_get_view(x.href))
        .insert("thumbnails_src"@, opt_get_view(x.thumbnails_src))
}

/// Writing the form back into a `MjCarouselImage`: fields in form order, stopping at
/// the first value that does not read.
pub open spec fn carousel_img_applied(x: SpecMjCarouselImage, st: EditFormState) -> Applied<SpecMjCarouselImage> {
    let x = SpecMjCarouselImage { src: trim_seq(st.value_of("src"@)), ..x };
    let x = SpecMjCarouselImage { alt: st.value_of("alt"@), ..x };
    let x = SpecMjCarouselImage { href: opt_set_view(st.value_of("href"@)), ..x };
    let x = SpecMjCarouselImage { thumbnails_src: opt_set_view(st.value_of("thumbnails_src"@)), ..x };
    Applied { value: x, error: None }
}

/// The form for a `MjCarouselImage`, filled from it.
pub fn carousel_img_to_form(x: &MjCarouselImage) -> (r: EditFormState)
    ensures
        formed(r, carousel_image_form_view(), carousel_img_form_values(x@)),
{
    let mut st = EditFormState::new(carousel_image_form());
    st.set("src", x.src.as_str());
    st.set("alt", x.alt.as_str());
    let v = opt_get(&x.href);
    st.set("href", v.as_str());
    let v = opt_get(&x.thumbnails_src);
    st.set("thumbnails_src", v.as_str());
    st
}

/// Writes the form back into a `MjCarouselImage`.
pub fn apply_carousel_img(x: &mut MjCarouselImage, st: &EditFormState) -> (r: Result<(), FormError>)
    ensures
        final(x)@ == carousel_img_applied(old(x)@, *st).value,
        outcome_is(r, carousel_img_applied(old(x)@, *st).error),
{
    x.src = owned(trim(st.get("src")));
    x.alt = owned(st.get("alt"));
    x.href = opt_from(st.get("href"));
    x.thumbnails_src = opt_from(st.get("thumbnails_src"));
    Ok(())
}


/// The field values of the form for a `EmailHeader`.
pub open spec fn email_header_form_values(x: SpecEmailHeader) -> Map<Seq<char>, Seq<char>> {
    defaults_map(email_header_form_view().fields)
        .insert("logo_src"@, x.logo_src)
        .insert("logo_alt"@, x.logo_alt)
        .insert("logo_href"@, opt_get_view(x.logo_href))
        .insert("logo_width"@, x.logo_width)
        .insert("background_color"@, opt_get_view(x.background_color))
}

/// Writing the form back into a `EmailHeader`: fields in form order, stopping at
/// the first value that does not read.
pub open spec fn email_header_applied(x: SpecEmailHeader, st: EditFormState) -> Applied<SpecEmailHeader> {
    let x = SpecEmailHeader { logo_src: trim_seq(st.value_of("logo_src"@)), ..x };
    let x = SpecEmailHeader { logo_alt: st.value_of("logo_alt"@), ..x };
    let x = SpecEmailHeader { logo_href: opt_set_view(st.value_of("logo_href"@)), ..x };
    let x = SpecEmailHeader { logo_width: trim_seq(st.value_of("logo_width"@)), ..x };
    let x = SpecEmailHeader { background_color: opt_set_view(st.value_of("background_color"@)), ..x };
    Applied { value: x, error: None }
}

/// The form for a `EmailHeader`, filled from it.
pub fn email_header_to_form(x: &EmailHeader) -> (r: EditFormState)
    ensures
        formed(r, email_header_form_view(), email_header_form_values(x@)),
{
    let mut st = EditFormState::new(email_header_form());
    st.set("logo_src", x.logo_src.as_str());
    st.set("logo_alt", x.logo_alt.as_str());
    let v = opt_get(&x.logo_href);
    st.set("logo_href", v.as_str());
    st.set("logo_width", x.logo_width.as_str());
    let v = opt_get(&x.background_color);
    st.set("background_color", v.as_str());
    st
}

/// Writes the form back into a `EmailHeader`.
pub fn apply_email_header(x: &mut EmailHeader, st: &EditFormState) -> (r: Result<(), FormError>)
    ensures
        final(x)@ == email_header_applied(old(x)@, *st).value,
        outcome_is(r, email_header_applied(old(x)@, *st).error),
{
    x.logo_src = owned(trim(st.get("logo_src")));
    x.logo_alt = owned(st.get("logo_alt"));
    x.logo_href = opt_from(st.get("logo_href"));
    x.logo_width = owned(trim(st.get("logo_width")));
    x.background_color = opt_from(st.get("background_color"));
    Ok(())
}


/// The field values of the form for a `EmailHero`.
pub open spec fn email_hero_form_values(x: SpecEmailHero) -> Map<Seq<char>, Seq<char>> {
    defaults_map(email_hero_form_view().fields)
        .insert("image_src"@, x.image_src)
        .insert("image_alt"@, x.image_alt)
        .insert("heading"@, x.heading)
        .insert("subheading"@, x.subheading)
        .insert("background_color"@, opt_get_view(x.background_color))
}

/// Writing the form back into a `EmailHero`: fields in form order, stopping at
/// the first value that does not read.
pub open spec fn email_hero_applied(x: SpecEmailHero, st: EditFormState) -> Applied<SpecEmailHero> {
    let x = SpecEmailHero { image_src: trim_seq(st.value_of("image_src"@)), ..x };
    let x = SpecEmailHero { image_alt: st.value_of("image_alt"@), ..x };
    let x = SpecEmailHero { heading: st.value_of("heading"@), ..x };
    let x = SpecEmailHero { subheading: st.value_of("subheading"@), ..x };
    let x = SpecEmailHero { background_color: opt_set_view(st.value_of("background_color"@)), ..x };
    Applied { value: x, error: None }
}

/// The form for a `EmailHero`, filled from it.
pub fn email_hero_to_form(x: &EmailHero) -> (r: EditFormState)
    ensures
        formed(r, email_hero_form_view(), email_hero_form_values(x@)),
{
    let mut st = EditFormState::new(email_hero_form());
    st.set("image_src", x.image_src.as_str());
    st.set("image_alt", x.image_alt.as_str());
    st.set("heading", x.heading.as_str());
    st.set("subheading", x.subheading.as_str());
    let v = opt_get(&x.background_color);
    st.set("background_color", v.as_str());
    st
}

/// Writes the form back into a `EmailHero`.
pub fn apply_email_hero(x: &mut EmailHero, st: &EditFormState) -> (r: Result<(), FormError>)
    ensures
        final(x)@ == email_hero_applied(old(x)@, *st).value,
        outcome_is(r, email_hero_applied(old(x)@, *st).error),
{
    x.image_src = owned(trim(st.get("image_src")));
    x.image_alt = owned(st.get("image_alt"));
    x.heading = owned(st.get("heading"));
    x.subheading = owned(st.get("subheading"));
    x.background_color = opt_from(st.get("background_color"));
    Ok(())
}


/// The field values of the form for a `EmailCta`.
pub open spec fn email_cta_form_values(x: SpecEmailCta) -> Map<Seq<char>, Seq<char>> {
    defaults_map(email_cta_form_view().fields)
        .insert("heading"@, x.heading)
        .insert("copy"@, x.copy)
        .insert("button_label"@, x.button_label)
        .insert("button_href"@, x.button_href)
        .insert("background_color"@, opt_get_view(x.background_color))
}

/// Writing the form back into a `EmailCta`: fields in form order, stopping at
/// the first value that does not read.
pub open spec fn email_cta_applied(x: SpecEmailCta, st: EditFormState) -> Applied<SpecEmailCta> {
    let x = SpecEmailCta { heading: st.value_of("heading"@), ..x };
    let x = SpecEmailCta { copy: st.value_of("copy"@), ..x };
    let x = SpecEmailCta { button_label: st.value_of("button_label"@), ..x };
    let x = SpecEmailCta { button_href: st.value_of("button_href"@), ..x };
    let x = SpecEmailCta { background_color: opt_set_view(st.value_of("background_color"@)), ..x };
    Applied { value: x, error: None }
}

/// The form for a `EmailCta`, filled from it.
pub fn email_cta_to_form(x: &EmailCta) -> (r: EditFormState)
    ensures
        formed(r, email_cta_form_view(), email_cta_form_values(x@)),
{
    let mut st = EditFormState::new(email_cta_form());
    st.set("heading", x.heading.as_str());
    st.set("copy", x.copy.as_str());
    st.set("button_label", x.button_label.as_str());
    st.set("button_href", x.button_href.as_str());
    let v = opt_get(&x.background_color);
    st.set("background_color", v.as_str());
    st
}

/// Writes the form back into a `EmailCta`.
pub fn apply_email_cta(x: &mut EmailCta, st: &EditFormState) -> (r: Result<(), FormError>)
    ensures
        final(x)@ == email_cta_applied(old(x)@, *st).value,
        outcome_is(r, email_cta_applied(old(x)@, *st).error),
{
    x.heading = owned(st.get("heading"));
    x.copy = owned(st.get("copy"));
    x.button_label = owned(st.get("button_label"));
    x.button_href = owned(st.get("button_href"));
    x.background_color = opt_from(st.get("background_color"));
    Ok(())
}


/// The field values of the form for a `EmailArticle`.
pub open spec fn email_article_form_values(x: SpecEmailArticle) -> Map<Seq<char>, Seq<char>> {
    defaults_map(email_article_form_view().fields)
        .insert("image_src"@, x.image_src)
        .insert("image_alt"@, x.image_alt)
        .insert("title"@, x.title)
        .insert("copy"@, x.copy)
        .insert("link_label"@, x.link_label)
        .insert("link_href"@, x.link_href)
        .insert("image_position"@, image_pos_view(x.image_position))
}

/// Writing the form back into a `EmailArticle`: fields in form order, stopping at
/// the first value that does not read.
pub open spec fn email_article_applied(x: SpecEmailArticle, st: EditFormState) -> Applied<SpecEmailArticle> {
    let x = SpecEmailArticle { image_src: trim_seq(st.value_of("image_src"@)), ..x };
    let x = SpecEmailArticle { image_alt: st.value_of("image_alt"@), ..x };
    let x = SpecEmailArticle { title: st.value_of("title"@), ..x };
    let x = SpecEmailArticle { copy: st.value_of("copy"@), ..x };
    let x = SpecEmailArticle { link_label: st.value_of("link_label"@), ..x };
    let x = SpecEmailArticle { link_href: st.value_of("link_href"@), ..x };
    match parse_image_pos_view(st.value_of("image_position"@)) {
        Err(e) => Applied { value: x, error: Some(e) },
        Ok(v) => {
            let x = SpecEmailArticle { image_position: v, ..x };
            Applied { value: x, error: None }
        },
    }
}

/// The form for a `EmailArticle`, filled from it.
pub fn email_article_to_form(x: &EmailArticle) -> (r: EditFormState)
    ensures
        formed(r, email_article_form_view(), email_article_form_values(x@)),
{
    let mut st = EditFormState::new(email_article_form());
    st.set("image_src", x.image_src.as_str());
    st.set("image_alt", x.image_alt.as_str());
    st.set("title", x.title.as_str());
    st.set("copy", x.copy.as_str());
    st.set("link_label", x.link_label.as_str());
    st.set("link_href", x.link_href.as_str());
    st.set("image_position", image_pos_str(x.image_position));
    st
}

/// Writes the form back into a `EmailArticle`.
pub fn apply_email_article(x: &mut EmailArticle, st: &EditFormState) -> (r: Result<(), FormError>)
    ensures
        final(x)@ == email_article_applied(old(x)@, *st).value,
        outcome_is(r, email_article_applied(old(x)@, *st).error),
{
    x.image_src = owned(trim(st.get("image_src")));
    x.image_alt = owned(st.get("image_alt"));
    x.title = owned(st.get("title"));
    x.copy = owned(st.get("copy"));
    x.link_label = owned(st.get("link_label"));
    x.link_href = owned(st.get("link_href"));
    match parse_image_pos(st.get("image_position")) {
        Ok(v) => x.image_position = v,
        Err(e) => return Err(e),
    }
    Ok(())
}

// ---------------------------------------------------------------------------
// Writing back an unedited form
// ---------------------------------------------------------------------------

/// An optional value that survives being shown in a field and read back:
/// absent, or non-empty without surrounding whitespace.
pub open spec fn opt_keeps(o: Option<Seq<char>>) -> bool {
    match o {
        Some(s) => s.len() > 0 && trim_seq(s) == s,
        None => true,
    }
}

/// Text that survives being trimmed.
pub open spec fn trimmed(s: Seq<char>) -> bool {
    trim_seq(s) == s
}

pub(crate) proof fn lemma_opt_keeps(o: Option<Seq<char>>)
    requires
        opt_keeps(o),
    ensures
        opt_set_view(opt_get_view(o)) == o,
{
    if o is None {
        assert(crate::text::trim_start_seq(Seq::<char>::empty()) == Seq::<char>::empty());
        assert(crate::text::trim_end_seq(Seq::<char>::empty()) == Seq::<char>::empty());
    }
}

/// Writing back the form of a `MjSection`, unedited, gives it back when its
/// values survive their fields (no surrounding whitespace where a field is
/// trimmed, no empty optional value).
pub proof fn law_section_form_round_trip(x: SpecMjSection, st: EditFormState)
    requires
        formed(st, section_form_view(), section_form_values(x)),
        opt_keeps(x.background_color),
        opt_keeps(x.padding),
    ensures
        section_applied(x, st) == (Applied::<SpecMjSection> { value: x, error: None }),
{
    reveal_strlit("background_color");
    reveal_strlit("padding");
    reveal_strlit("full_width");
    assert("background_color"@.len() != "padding"@.len());
    assert("background_color"@.len() != "full_width"@.len());
    assert("padding"@.len() != "full_width"@.len());
    lemma_opt_keeps(x.background_color);
    lemma_opt_keeps(x.padding);
    super::values::law_bool_round_trip(x.full_width);
    assert(st.value_of("background_color"@) == opt_get_view(x.background_color));
    assert(st.value_of("padding"@) == opt_get_view(x.padding));
    assert(st.value_of("full_width"@) == bool_view(x.full_width));
}

/// Writing back the form of a `MjWrapper`, unedited, gives it back when its
/// values survive their fields (no surrounding whitespace where a field is
/// trimmed, no empty optional value).
pub proof fn law_wrapper_form_round_trip(x: SpecMjWrapper, st: EditFormState)
    requires
        formed(st, wrapper_form_view(), wrapper_form_values(x)),
        opt_keeps(x.background_color),
        opt_keeps(x.padding),
    ensures
        wrapper_applied(x, st) == (Applied::<SpecMjWrapper> { value: x, error: None }),
{
    reveal_strlit("background_color");
    reveal_strlit("padding");
    reveal_strlit("full_width");
    assert("background_color"@.len() != "padding"@.len());
    assert("background_color"@.len() != "full_width"@.len());
    assert("padding"@.len() != "full_width"@.len());
    lemma_opt_keeps(x.background_color);
    lemma_opt_keeps(x.padding);
    super::values::law_bool_round_trip(x.full_width);
    assert(st.value_of("background_color"@) == opt_get_view(x.background_color));
    assert(st.value_of("padding"@) == opt_get_view(x.padding));
    assert(st.value_of("full_width"@) == bool_view(x.full_width));
}

/// Writing back the form of a `MjColumn`, unedited, gives it back when its
/// values survive their fields (no surrounding whitespace where a field is
/// trimmed, no empty optional value).
pub proof fn law_column_form_round_trip(x: SpecMjColumn, st: EditFormState)
    requires
        formed(st, column_form_view(), column_form_values(x)),
        opt_keeps(x.width),
        opt_keeps(x.background_color),
        opt_keeps(x.padding),
        opt_keeps(x.inner_background_color),
    ensures
        column_applied(x, st) == (Applied::<SpecMjColumn> { value: x, error: None }),
{
    reveal_strlit("width");
    reveal_strlit("background_color");
    reveal_strlit("padding");
    reveal_strlit("inner_background_color");
    assert("width"@.len() != "background_color"@.len());
    assert("width"@.len() != "padding"@.len());
    assert("width"@.len() != "inner_background_color"@.len());
    assert("background_color"@.len() != "padding"@.len());
    assert("background_color"@.len() != "inner_background_color"@.len());
    assert("padding"@.len() != "inner_background_color"@.len());
    lemma_opt_keeps(x.width);
    lemma_opt_keeps(x.background_color);
    lemma_opt_keeps(x.padding);
    lemma_opt_keeps(x.inner_background_color);
    assert(st.value_of("width"@) == opt_get_view(x.width));
    assert(st.value_of("background_color"@) == opt_get_view(x.background_color));
    assert(st.value_of("padding"@) == opt_get_view(x.padding));
    assert(st.value_of("inner_background_color"@) == opt_get_view(x.inner_background_color));
}

/// Writing back the form of a `MjGroup`, unedited, gives it back when its
/// values survive their fields (no surrounding whitespace where a field is
/// trimmed, no empty optional value).
pub proof fn law_group_form_round_trip(x: SpecMjGroup, st: EditFormState)
    requires
        formed(st, group_form_view(), group_form_values(x)),
        opt_keeps(x.width),
        opt_keeps(x.background_color),
    ensures
        group_applied(x, st) == (Applied::<SpecMjGroup> { value: x, error: None }),
{
    reveal_strlit("width");
    reveal_strlit("background_color");
    assert("width"@.len() != "background_color"@.len());
    lemma_opt_keeps(x.width);
    lemma_opt_keeps(x.background_color);
    assert(st.value_of("width"@) == opt_get_view(x.width));
    assert(st.value_of("background_color"@) == opt_get_view(x.background_color));
}

/// Writing back the form of a `MjHero`, unedited, gives it back when its
/// values survive their fields (no surrounding whitespace where a field is
/// trimmed, no empty optional value).
pub proof fn law_hero_form_round_trip(x: SpecMjHero, st: EditFormState)
    requires
        formed(st, hero_form_view(), hero_form_values(x)),
        opt_keeps(x.background_url),
        opt_keeps(x.background_color),
        opt_keeps(x.background_height),
        opt_keeps(x.width),
        opt_keeps(x.height),
    ensures
        hero_applied(x, st) == (Applied::<SpecMjHero> { value: x, error: None }),
{
    reveal_strlit("mode");
    reveal_strlit("background_url");
    reveal_strlit("background_color");
    reveal_strlit("background_height");
    reveal_strlit("width");
    reveal_strlit("height");
    assert("mode"@.len() != "background_url"@.len());
    assert("mode"@.len() != "background_color"@.len());
    assert("mode"@.len() != "background_height"@.len());
    assert("mode"@.len() != "width"@.len());
    assert("mode"@.len() != "height"@.len());
    assert("background_url"@.len() != "background_color"@.len());
    assert("background_url"@.len() != "background_height"@.len());
    assert("background_url"@.len() != "width"@.len());
    assert("background_url"@.len() != "height"@.len());
    assert("background_color"@.len() != "background_height"@.len());
    assert("background_color"@.len() != "width"@.len());
    assert("background_color"@.len() != "height"@.len());
    assert("background_height"@.len() != "width"@.len());
    assert("background_height"@.len() != "height"@.len());
    assert("width"@.len() != "height"@.len());
    lemma_opt_keeps(x.background_url);
    lemma_opt_keeps(x.background_color);
    lemma_opt_keeps(x.background_height);
    lemma_opt_keeps(x.width);
    lemma_opt_keeps(x.height);
    super::values::law_hero_mode_round_trip(x.mode);
    assert(st.value_of("mode"@) == hero_mode_view(x.mode));
    assert(st.value_of("background_url"@) == opt_get_view(x.background_url));
    assert(st.value_of("background_color"@) == opt_get_view(x.background_color));
    assert(st.value_of("background_height"@) == opt_get_view(x.background_height));
    assert(st.value_of("width"@) == opt_get_view(x.width));
    assert(st.value_of("height"@) == opt_get_view(x.height));
}

/// Writing back the form of a `MjText`, unedited, gives it back when its
/// values survive their fields (no surrounding whitespace where a field is
/// trimmed, no empty optional value).
pub proof fn law_text_form_round_trip(x: SpecMjText, st: EditFormState)
    requires
        formed(st, text_form_view(), text_form_values(x)),
        opt_keeps(x.font_size),
        opt_keeps(x.font_family),
        opt_keeps(x.color),
        opt_keeps(x.padding),
    ensures
        text_applied(x, st) == (Applied::<SpecMjText> { value: x, error: None }),
{
    reveal_strlit("content");
    reveal_strlit("align");
    reveal_strlit("font_size");
    reveal_strlit("font_family");
    reveal_strlit("color");
    reveal_strlit("padding");
    assert("content"@.len() != "align"@.len());
    assert("content"@.len() != "font_size"@.len());
    assert("content"@.len() != "font_family"@.len());
    assert("content"@.len() != "color"@.len());
    assert("content"@[0] != "padding"@[0]);
    assert("align"@.len() != "font_size"@.len());
    assert("align"@.len() != "font_family"@.len());
    assert("align"@[0] != "color"@[0]);
    assert("align"@.len() != "padding"@.len());
    assert("font_size"@.len() != "font_family"@.len());
    assert("font_size"@.len() != "color"@.len());
    assert("font_size"@.len() != "padding"@.len());
    assert("font_family"@.len() != "color"@.len());
    assert("font_family"@.len() != "padding"@.len());
    assert("color"@.len() != "padding"@.len());
    lemma_opt_keeps(x.font_size);
    lemma_opt_keeps(x.font_family);
    lemma_opt_keeps(x.color);
    lemma_opt_keeps(x.padding);
    super::values::law_align_round_trip(x.align);
    assert(st.value_of("content"@) == x.content);
    assert(st.value_of("align"@) == align_view(x.align));
    assert(st.value_of("font_size"@) == opt_get_view(x.font_size));
    assert(st.value_of("font_family"@) == opt_get_view(x.font_family));
    assert(st.value_of("color"@) == opt_get_view(x.color));
    assert(st.value_of("padding"@) == opt_get_view(x.padding));
}

/// Writing back the form of a `MjButton`, unedited, gives it back when its
/// values survive their fields (no surrounding whitespace where a field is
/// trimmed, no empty optional value).
pub proof fn law_button_form_round_trip(x: SpecMjButton, st: EditFormState)
    requires
        formed(st, button_form_view(), button_form_values(x)),
        opt_keeps(x.background_color),
        opt_keeps(x.color),
        opt_keeps(x.font_family),
        opt_keeps(x.border_radius),
        opt_keeps(x.width),
        opt_keeps(x.padding),
    ensures
        button_applied(x, st) == (Applied::<SpecMjButton> { value: x, error: None }),
{
    reveal_strlit("content");
    reveal_strlit("href");
    reveal_strlit("background_color");
    reveal_strlit("color");
    reveal_strlit("align");
    reveal_strlit("font_family");
    reveal_strlit("border_radius");
    reveal_strlit("width");
    reveal_strlit("padding");
    assert("content"@.len() != "href"@.len());
    assert("content"@.len() != "background_color"@.len());
    assert("content"@.len() != "color"@.len());
    assert("content"@.len() != "align"@.len());
    assert("content"@.len() != "font_family"@.len());
    assert("content"@.len() != "border_radius"@.len());
    assert("content"@.len() != "width"@.len());
    assert("content"@[0] != "padding"@[0]);
    assert("href"@.len() != "background_color"@.len());
    assert("href"@.len() != "color"@.len());
    assert("href"@.len() != "align"@.len());
    assert("href"@.len() != "font_family"@.len());
    assert("href"@.len() != "border_radius"@.len());
    assert("href"@.len() != "width"@.len());
    assert("href"@.len() != "padding"@.len());
    assert("background_color"@.len() != "color"@.len());
    assert("background_color"@.len() != "align"@.len());
    assert("background_color"@.len() != "font_family"@.len());
    assert("background_color"@.len() != "border_radius"@.len());
    assert("background_color"@.len() != "width"@.len());
    assert("background_color"@.len() != "padding"@.len());
    assert("color"@[0] != "align"@[0]);
    assert("color"@.len() != "font_family"@.len());
    assert("color"@.len() != "border_radius"@.len());
    assert("color"@[0] != "width"@[0]);
    assert("color"@.len() != "padding"@.len());
    assert("align"@.len() != "font_family"@.len());
    assert("align"@.len() != "border_radius"@.len());
    assert("align"@[0] != "width"@[0]);
    assert("align"@.len() != "padding"@.len());
    assert("font_family"@.len() != "border_radius"@.len());
    assert("font_family"@.len() != "width"@.len());
    assert("font_family"@.len() != "padding"@.len());
    assert("border_radius"@.len() != "width"@.len());
    assert("border_radius"@.len() != "padding"@.len());
    assert("width"@.len() != "padding"@.len());
    lemma_opt_keeps(x.background_color);
    lemma_opt_keeps(x.color);
    lemma_opt_keeps(x.font_family);
    lemma_opt_keeps(x.border_radius);
    lemma_opt_keeps(x.width);
    lemma_opt_keeps(x.padding);
    super::values::law_align_round_trip(x.align);
    assert(st.value_of("content"@) == x.content);
    assert(st.value_of("href"@) == x.href);
    assert(st.value_of("background_color"@) == opt_get_view(x.background_color));
    assert(st.value_of("color"@) == opt_get_view(x.color));
    assert(st.value_of("align"@) == align_view(x.align));
    assert(st.value_of("font_family"@) == opt_get_view(x.font_family));
    assert(st.value_of("border_radius"@) == opt_get_view(x.border_radius));
    assert(st.value_of("width"@) == opt_get_view(x.width));
    assert(st.value_of("padding"@) == opt_get_view(x.padding));
}

/// Writing back the form of a `MjImage`, unedited, gives it back when its
/// values survive their fields (no surrounding whitespace where a field is
/// trimmed, no empty optional value).
pub proof fn law_image_form_round_trip(x: SpecMjImage, st: EditFormState)
    requires
        formed(st, image_form_view(), image_form_values(x)),
        trimmed(x.src),
        opt_keeps(x.href),
        opt_keeps(x.width),
        opt_keeps(x.padding),
    ensures
        image_applied(x, st) == (Applied::<SpecMjImage> { value: x, error: None }),
{
    reveal_strlit("src");
    reveal_strlit("alt");
    reveal_strlit("href");
    reveal_strlit("width");
    reveal_strlit("align");
    reveal_strlit("fluid_on_mobile");
    reveal_strlit("padding");
    assert("src"@[0] != "alt"@[0]);
    assert("src"@.len() != "href"@.len());
    assert("src"@.len() != "width"@.len());
    assert("src"@.len() != "align"@.len());
    assert("src"@.len() != "fluid_on_mobile"@.len());
    assert("src"@.len() != "padding"@.len());
    assert("alt"@.len() != "href"@.len());
    assert("alt"@.len() != "width"@.len());
    assert("alt"@.len() != "align"@.len());
    assert("alt"@.len() != "fluid_on_mobile"@.len());
    assert("alt"@.len() != "padding"@.len());
    assert("href"@.len() != "width"@.len());
    assert("href"@.len() != "align"@.len());
    assert("href"@.len() != "fluid_on_mobile"@.len());
    assert("href"@.len() != "padding"@.len());
    assert("width"@[0] != "align"@[0]);
    assert("width"@.len() != "fluid_on_mobile"@.len());
    assert("width"@.len() != "padding"@.len());
    assert("align"@.len() != "fluid_on_mobile"@.len());
    assert("align"@.len() != "padding"@.len());
    assert("fluid_on_mobile"@.len() != "padding"@.len());
    lemma_opt_keeps(x.href);
    lemma_opt_keeps(x.width);
    lemma_opt_keeps(x.padding);
    super::values::law_align_round_trip(x.align);
    super::values::law_bool_round_trip(x.fluid_on_mobile);
    assert(st.value_of("src"@) == x.src);
    assert(st.value_of("alt"@) == x.alt);
    assert(st.value_of("href"@) == opt_get_view(x.href));
    assert(st.value_of("width"@) == opt_get_view(x.width));
    assert(st.value_of("align"@) == align_view(x.align));
    assert(st.value_of("fluid_on_mobile"@) == bool_view(x.fluid_on_mobile));
    assert(st.value_of("padding"@) == opt_get_view(x.padding));
}

/// Writing back the form of a `MjDivider`, unedited, gives it back when its
/// values survive their fields (no surrounding whitespace where a field is
/// trimmed, no empty optional value).
pub proof fn law_divider_form_round_trip(x: SpecMjDivider, st: EditFormState)
    requires
        formed(st, divider_form_view(), divider_form_values(x)),
        opt_keeps(x.border_color),
        opt_keeps(x.border_width),
        opt_keeps(x.padding),
    ensures
        divider_applied(x, st) == (Applied::<SpecMjDivider> { value: x, error: None }),
{
    reveal_strlit("border_color");
    reveal_strlit("border_width");
    reveal_strlit("padding");
    assert("border_color"@[7] != "border_width"@[7]);
    assert("border_color"@.len() != "padding"@.len());
    assert("border_width"@.len() != "padding"@.len());
    lemma_opt_keeps(x.border_color);
    lemma_opt_keeps(x.border_width);
    lemma_opt_keeps(x.padding);
    assert(st.value_of("border_color"@) == opt_get_view(x.border_color));
    assert(st.value_of("border_width"@) == opt_get_view(x.border_width));
    assert(st.value_of("padding"@) == opt_get_view(x.padding));
}

/// Writing back the form of a `MjSpacer`, unedited, gives it back when its
/// values survive their fields (no surrounding whitespace where a field is
/// trimmed, no empty optional value).
pub proof fn law_spacer_form_round_trip(x: SpecMjSpacer, st: EditFormState)
    requires
        formed(st, spacer_form_view(), spacer_form_values(x)),
        trimmed(x.height),
    ensures
        spacer_applied(x, st) == (Applied::<SpecMjSpacer> { value: x, error: None }),
{
    reveal_strlit("height");

    assert(st.value_of("height"@) == x.height);
}

/// Writing back the form of a `MjTable`, unedited, gives it back when its
/// values survive their fields (no surrounding whitespace where a field is
/// trimmed, no empty optional value).
pub proof fn law_table_form_round_trip(x: SpecMjTable, st: EditFormState)
    requires
        formed(st, table_form_view(), table_form_values(x)),
        opt_keeps(x.font_size),
        opt_keeps(x.color),
        opt_keeps(x.padding),
    ensures
        table_applied(x, st) == (Applied::<SpecMjTable> { value: x, error: None }),
{
    reveal_strlit("content");
    reveal_strlit("font_size");
    reveal_strlit("color");
    reveal_strlit("padding");
    assert("content"@.len() != "font_size"@.len());
    assert("content"@.len() != "color"@.len());
    assert("content"@[0] != "padding"@[0]);
    assert("font_size"@.len() != "color"@.len());
    assert("font_size"@.len() != "padding"@.len());
    assert("color"@.len() != "padding"@.len());
    lemma_opt_keeps(x.font_size);
    lemma_opt_keeps(x.color);
    lemma_opt_keeps(x.padding);
    assert(st.value_of("content"@) == x.content);
    assert(st.value_of("font_size"@) == opt_get_view(x.font_size));
    assert(st.value_of("color"@) == opt_get_view(x.color));
    assert(st.value_of("padding"@) == opt_get_view(x.padding));
}

/// Writing back the form of a `MjNavbar`, unedited, gives it back when its
/// values survive their fields (no surrounding whitespace where a field is
/// trimmed, no empty optional value).
pub proof fn law_navbar_form_round_trip(x: SpecMjNavbar, st: EditFormState)
    requires
        formed(st, navbar_form_view(), navbar_form_values(x)),
        opt_keeps(x.ico_color),
        opt_keeps(x.base_url),
        opt_keeps(x.padding),
    ensures
        navbar_applied(x, st) == (Applied::<SpecMjNavbar> { value: x, error: None }),
{
    reveal_strlit("hamburger");
    reveal_strlit("ico_color");
    reveal_strlit("base_url");
    reveal_strlit("align");
    reveal_strlit("padding");
    assert("hamburger"@[0] != "ico_color"@[0]);
    assert("hamburger"@.len() != "base_url"@.len());
    assert("hamburger"@.len() != "align"@.len());
    assert("hamburger"@.len() != "padding"@.len());
    assert("ico_color"@.len() != "base_url"@.len());
    assert("ico_color"@.len() != "align"@.len());
    assert("ico_color"@.len() != "padding"@.len());
    assert("base_url"@.len() != "align"@.len());
    assert("base_url"@.len() != "padding"@.len());
    assert("align"@.len() != "padding"@.len());
    lemma_opt_keeps(x.ico_color);
    lemma_opt_keeps(x.base_url);
    lemma_opt_keeps(x.padding);
    super::values::law_bool_round_trip(x.hamburger);
    super::values::law_align_round_trip(x.align);
    assert(st.value_of("hamburger"@) == bool_view(x.hamburger));
    assert(st.value_of("ico_color"@) == opt_get_view(x.ico_color));
    assert(st.value_of("base_url"@) == opt_get_view(x.base_url));
    assert(st.value_of("align"@) == align_view(x.align));
    assert(st.value_of("padding"@) == opt_get_view(x.padding));
}

/// Writing back the form of a `MjNavbarLink`, unedited, gives it back when its
/// values survive their fields (no surrounding whitespace where a field is
/// trimmed, no empty optional value).
pub proof fn law_navbar_link_form_round_trip(x: SpecMjNavbarLink, st: EditFormState)
    requires
        formed(st, navbar_link_form_view(), navbar_link_form_values(x)),
        opt_keeps(x.color),
        opt_keeps(x.padding),
    ensures
        navbar_link_applied(x, st) == (Applied::<SpecMjNavbarLink> { value: x, error: None }),
{
    reveal_strlit("href");
    reveal_strlit("content");
    reveal_strlit("color");
    reveal_strlit("padding");
    assert("href"@.len() != "content"@.len());
    assert("href"@.len() != "color"@.len());
    assert("href"@.len() != "padding"@.len());
    assert("content"@.len() != "color"@.len());
    assert("content"@[0] != "padding"@[0]);
    assert("color"@.len() != "padding"@.len());
    lemma_opt_keeps(x.color);
    lemma_opt_keeps(x.padding);
    assert(st.value_of("href"@) == x.href);
    assert(st.value_of("content"@) == x.content);
    assert(st.value_of("color"@) == opt_get_view(x.color));
    assert(st.value_of("padding"@) == opt_get_view(x.padding));
}

/// Writing back the form of a `MjAccordion`, unedited, gives it back when its
/// values survive their fields (no surrounding whitespace where a field is
/// trimmed, no empty optional value).
pub proof fn law_accordion_form_round_trip(x: SpecMjAccordion, st: EditFormState)
    requires
        formed(st, accordion_form_view(), accordion_form_values(x)),
        opt_keeps(x.border),
        opt_keeps(x.padding),
    ensures
        accordion_applied(x, st) == (Applied::<SpecMjAccordion> { value: x, error: None }),
{
    reveal_strlit("border");
    reveal_strlit("padding");
    assert("border"@.len() != "padding"@.len());
    lemma_opt_keeps(x.border);
    lemma_opt_keeps(x.padding);
    assert(st.value_of("border"@) == opt_get_view(x.border));
    assert(st.value_of("padding"@) == opt_get_view(x.padding));
}

/// Writing back the form of a `MjAccordionElement`, unedited, gives it back when its
/// values survive their fields (no surrounding whitespace where a field is
/// trimmed, no empty optional value).
pub proof fn law_accordion_el_form_round_trip(x: SpecMjAccordionElement, st: EditFormState)
    requires
        formed(st, accordion_element_form_view(), accordion_el_form_values(x)),
        opt_keeps(x.background_color),
    ensures
        accordion_el_applied(x, st) == (Applied::<SpecMjAccordionElement> { value: x, error: None }),
{
    reveal_strlit("title");
    reveal_strlit("content");
    reveal_strlit("background_color");
    assert("title"@.len() != "content"@.len());
    assert("title"@.len() != "background_color"@.len());
    assert("content"@.len() != "background_color"@.len());
    lemma_opt_keeps(x.background_color);
    assert(st.value_of("title"@) == x.title);
    assert(st.value_of("content"@) == x.content);
    assert(st.value_of("background_color"@) == opt_get_view(x.background_color));
}

/// Writing back the form of a `MjCarousel`, unedited, gives it back when its
/// values survive their fields (no surrounding whitespace where a field is
/// trimmed, no empty optional value).
pub proof fn law_carousel_form_round_trip(x: SpecMjCarousel, st: EditFormState)
    requires
        formed(st, carousel_form_view(), carousel_form_values(x)),
        opt_keeps(x.padding),
    ensures
        carousel_applied(x, st) == (Applied::<SpecMjCarousel> { value: x, error: None }),
{
    reveal_strlit("align");
    reveal_strlit("padding");
    reveal_strlit("thumbnails");
    assert("align"@.len() != "padding"@.len());
    assert("align"@.len() != "thumbnails"@.len());
    assert("padding"@.len() != "thumbnails"@.len());
    lemma_opt_keeps(x.padding);
    super::values::law_align_round_trip(x.align);
    super::values::law_thumbnails_round_trip(x.thumbnails);
    assert(st.value_of("align"@) == align_view(x.align));
    assert(st.value_of("padding"@) == opt_get_view(x.padding));
    assert(st.value_of("thumbnails"@) == thumbnails_view(x.thumbnails));
}

/// Writing back the form of a `MjCarouselImage`, unedited, gives it back when its
/// values survive their fields (no surrounding whitespace where a field is
/// trimmed, no empty optional value).
pub proof fn law_carousel_img_form_round_trip(x: SpecMjCarouselImage, st: EditFormState)
    requires
        formed(st, carousel_image_form_view(), carousel_img_form_values(x)),
        trimmed(x.src),
        opt_keeps(x.href),
        opt_keeps(x.thumbnails_src),
    ensures
        carousel_img_applied(x, st) == (Applied::<SpecMjCarouselImage> { value: x, error: None }),
{
    reveal_strlit("src");
    reveal_strlit("alt");
    reveal_strlit("href");
    reveal_strlit("thumbnails_src");
    assert("src"@[0] != "alt"@[0]);
    assert("src"@.len() != "href"@.len());
    assert("src"@.len() != "thumbnails_src"@.len());
    assert("alt"@.len() != "href"@.len());
    assert("alt"@.len() != "thumbnails_src"@.len());
    assert("href"@.len() != "thumbnails_src"@.len());
    lemma_opt_keeps(x.href);
    lemma_opt_keeps(x.thumbnails_src);
    assert(st.value_of("src"@) == x.src);
    assert(st.value_of("alt"@) == x.alt);
    assert(st.value_of("href"@) == opt_get_view(x.href));
    assert(st.value_of("thumbnails_src"@) == opt_get_view(x.thumbnails_src));
}

/// Writing back the form of a `EmailHeader`, unedited, gives it back when its
/// values survive their fields (no surrounding whitespace where a field is
/// trimmed, no empty optional value).
pub proof fn law_email_header_form_round_trip(x: SpecEmailHeader, st: EditFormState)
    requires
        formed(st, email_header_form_view(), email_header_form_values(x)),
        trimmed(x.logo_src),
        opt_keeps(x.logo_href),
        trimmed(x.logo_width),
        opt_keeps(x.background_color),
    ensures
        email_header_applied(x, st) == (Applied::<SpecEmailHeader> { value: x, error: None }),
{
    reveal_strlit("logo_src");
    reveal_strlit("logo_alt");
    reveal_strlit("logo_href");
    reveal_strlit("logo_width");
    reveal_strlit("background_color");
    assert("logo_src"@[5] != "logo_alt"@[5]);
    assert("logo_src"@.len() != "logo_href"@.len());
    assert("logo_src"@.len() != "logo_width"@.len());
    assert("logo_src"@.len() != "background_color"@.len());
    assert("logo_alt"@.len() != "logo_href"@.len());
    assert("logo_alt"@.len() != "logo_width"@.len());
    assert("logo_alt"@.len() != "background_color"@.len());
    assert("logo_href"@.len() != "logo_width"@.len());
    assert("logo_href"@.len() != "background_color"@.len());
    assert("logo_width"@.len() != "background_color"@.len());
    lemma_opt_keeps(x.logo_href);
    lemma_opt_keeps(x.background_color);
    assert(st.value_of("logo_src"@) == x.logo_src);
    assert(st.value_of("logo_alt"@) == x.logo_alt);
    assert(st.value_of("logo_href"@) == opt_get_view(x.logo_href));
    assert(st.value_of("logo_width"@) == x.logo_width);
    assert(st.value_of("background_color"@) == opt_get_view(x.background_color));
}

/// Writing back the form of a `EmailHero`, unedited, gives it back when its
/// values survive their fields (no surrounding whitespace where a field is
/// trimmed, no empty optional value).
pub proof fn law_email_hero_form_round_trip(x: SpecEmailHero, st: EditFormState)
    requires
        formed(st, email_hero_form_view(), email_hero_form_values(x)),
        trimmed(x.image_src),
        opt_keeps(x.background_color),
    ensures
        email_hero_applied(x, st) == (Applied::<SpecEmailHero> { value: x, error: None }),
{
    reveal_strlit("image_src");
    reveal_strlit("image_alt");
    reveal_strlit("heading");
    reveal_strlit("subheading");
    reveal_strlit("background_color");
    assert("image_src"@[6] != "image_alt"@[6]);
    assert("image_src"@.len() != "heading"@.len());
    assert("image_src"@.len() != "subheading"@.len());
    assert("image_src"@.len() != "background_color"@.len());
    assert("image_alt"@.len() != "heading"@.len());
    assert("image_alt"@.len() != "subheading"@.len());
    assert("image_alt"@.len() != "background_color"@.len());
    assert("heading"@.len() != "subheading"@.len());
    assert("heading"@.len() != "background_color"@.len());
    assert("subheading"@.len() != "background_color"@.len());
    lemma_opt_keeps(x.background_color);
    assert(st.value_of("image_src"@) == x.image_src);
    assert(st.value_of("image_alt"@) == x.image_alt);
    assert(st.value_of("heading"@) == x.heading);
    assert(st.value_of("subheading"@) == x.subheading);
    assert(st.value_of("background_color"@) == opt_get_view(x.background_color));
}

/// Writing back the form of a `EmailCta`, unedited, gives it back when its
/// values survive their fields (no surrounding whitespace where a field is
/// trimmed, no empty optional value).
pub proof fn law_email_cta_form_round_trip(x: SpecEmailCta, st: EditFormState)
    requires
        formed(st, email_cta_form_view(), email_cta_form_values(x)),
        opt_keeps(x.background_color),
    ensures
        email_cta_applied(x, st) == (Applied::<SpecEmailCta> { value: x, error: None }),
{
    reveal_strlit("heading");
    reveal_strlit("copy");
    reveal_strlit("button_label");
    reveal_strlit("button_href");
    reveal_strlit("background_color");
    assert("heading"@.len() != "copy"@.len());
    assert("heading"@.len() != "button_label"@.len());
    assert("heading"@.len() != "button_href"@.len());
    assert("heading"@.len() != "background_color"@.len());
    assert("copy"@.len() != "button_label"@.len());
    assert("copy"@.len() != "button_href"@.len());
    assert("copy"@.len() != "background_color"@.len());
    assert("button_label"@.len() != "button_href"@.len());
    assert("button_label"@.len() != "background_color"@.len());
    assert("button_href"@.len() != "background_color"@.len());
    lemma_opt_keeps(x.background_color);
    assert(st.value_of("heading"@) == x.heading);
    assert(st.value_of("copy"@) == x.copy);
    assert(st.value_of("button_label"@) == x.button_label);
    assert(st.value_of("button_href"@) == x.button_href);
    assert(st.value_of("background_color"@) == opt_get_view(x.background_color));
}

/// Writing back the form of a `EmailArticle`, unedited, gives it back when its
/// values survive their fields (no surrounding whitespace where a field is
/// trimmed, no empty optional value).
pub proof fn law_email_article_form_round_trip(x: SpecEmailArticle, st: EditFormState)
    requires
        formed(st, email_article_form_view(), email_article_form_values(x)),
        trimmed(x.image_src),
    ensures
        email_article_applied(x, st) == (Applied::<SpecEmailArticle> { value: x, error: None }),
{
    reveal_strlit("image_src");
    reveal_strlit("image_alt");
    reveal_strlit("title");
    reveal_strlit("copy");
    reveal_strlit("link_label");
    reveal_strlit("link_href");
    reveal_strlit("image_position");
    assert("image_src"@[6] != "image_alt"@[6]);
    assert("image_src"@.len() != "title"@.len());
    assert("image_src"@.len() != "copy"@.len());
    assert("image_src"@.len() != "link_label"@.len());
    assert("image_src"@[0] != "link_href"@[0]);
    assert("image_src"@.len() != "image_position"@.len());
    assert("image_alt"@.len() != "title"@.len());
    assert("image_alt"@.len() != "copy"@.len());
    assert("image_alt"@.len() != "link_label"@.len());
    assert("image_alt"@[0] != "link_href"@[0]);
    assert("image_alt"@.len() != "image_position"@.len());
    assert("title"@.len() != "copy"@.len());
    assert("title"@.len() != "link_label"@.len());
    assert("title"@.len() != "link_href"@.len());
    assert("title"@.len() != "image_position"@.len());
    assert("copy"@.len() != "link_label"@.len());
    assert("copy"@.len() != "link_href"@.len());
    assert("copy"@.len() != "image_position"@.len());
    assert("link_label"@.len() != "link_href"@.len());
    assert("link_label"@.len() != "image_position"@.len());
    assert("link_href"@.len() != "image_position"@.len());
    super::values::law_image_pos_round_trip(x.image_position);
    assert(st.value_of("image_src"@) == x.image_src);
    assert(st.value_of("image_alt"@) == x.image_alt);
    assert(st.value_of("title"@) == x.title);
    assert(st.value_of("copy"@) == x.copy);
    assert(st.value_of("link_label"@) == x.link_label);
    assert(st.value_of("link_href"@) == x.link_href);
    assert(st.value_of("image_position"@) == image_pos_view(x.image_position));
}

// ---------------------------------------------------------------------------
// What writing a form back sets
// ---------------------------------------------------------------------------

/// Writing a form back into a `MjSection` sets each of its fields from the
/// form's value for it (the fields after a value that does not read keep
/// their old values), and keeps what the form does not show.
pub proof fn law_section_form_writes(x: SpecMjSection, st: EditFormState)
    ensures
        ({
            let a = section_applied(x, st);
            &&& a.value.background_color == opt_set_view(st.value_of("background_color"@))
            &&& a.value.padding == opt_set_view(st.value_of("padding"@))
            &&& a.error is None ==> parse_bool_view(st.value_of("full_width"@)) == Ok::<_, SpecFormError>(a.value.full_width)
            &&& a.error is None <==> (parse_bool_view(st.value_of("full_width"@)) is Ok)
            &&& a.value.children == x.children
        }),
{
}

/// Writing a form back into a `MjWrapper` sets each of its fields from the
/// form's value for it (the fields after a value that does not read keep
/// their old values), and keeps what the form does not show.
pub proof fn law_wrapper_form_writes(x: SpecMjWrapper, st: EditFormState)
    ensures
        ({
            let a = wrapper_applied(x, st);
            &&& a.value.background_color == opt_set_view(st.value_of("background_color"@))
            &&& a.value.padding == opt_set_view(st.value_of("padding"@))
            &&& a.error is None ==> parse_bool_view(st.value_of("full_width"@)) == Ok::<_, SpecFormError>(a.value.full_width)
            &&& a.error is None <==> (parse_bool_view(st.value_of("full_width"@)) is Ok)
            &&& a.value.children == x.children
        }),
{
}

/// Writing a form back into a `MjColumn` sets each of its fields from the
/// form's value for it (the fields after a value that does not read keep
/// their old values), and keeps what the form does not show.
pub proof fn law_column_form_writes(x: SpecMjColumn, st: EditFormState)
    ensures
        ({
            let a = column_applied(x, st);
            &&& a.value.width == opt_set_view(st.value_of("width"@))
            &&& a.value.background_color == opt_set_view(st.value_of("background_color"@))
            &&& a.value.padding == opt_set_view(st.value_of("padding"@))
            &&& a.value.inner_background_color == opt_set_view(st.value_of("inner_background_color"@))
            &&& a.error is None
            &&& a.value.components == x.components
        }),
{
}

/// Writing a form back into a `MjGroup` sets each of its fields from the
/// form's value for it (the fields after a value that does not read keep
/// their old values), and keeps what the form does not show.
pub proof fn law_group_form_writes(x: SpecMjGroup, st: EditFormState)
    ensures
        ({
            let a = group_applied(x, st);
            &&& a.value.width == opt_set_view(st.value_of("width"@))
            &&& a.value.background_color == opt_set_view(st.value_of("background_color"@))
            &&& a.error is None
            &&& a.value.children == x.children
        }),
{
}

/// Writing a form back into a `MjHero` sets each of its fields from the
/// form's value for it (the fields after a value that does not read keep
/// their old values), and keeps what the form does not show.
pub proof fn law_hero_form_writes(x: SpecMjHero, st: EditFormState)
    ensures
        ({
            let a = hero_applied(x, st);
            &&& a.error is None ==> a.value.background_url == opt_set_view(st.value_of("background_url"@))
            &&& a.error is None ==> a.value.background_color == opt_set_view(st.value_of("background_color"@))
            &&& a.error is None ==> a.value.background_height == opt_set_view(st.value_of("background_height"@))
            &&& a.error is None ==> a.value.width == opt_set_view(st.value_of("width"@))
            &&& a.error is None ==> a.value.height == opt_set_view(st.value_of("height"@))
            &&& a.error is None ==> parse_hero_mode_view(st.value_of("mode"@)) == Ok::<_, SpecFormError>(a.value.mode)
            &&& a.error is None <==> (parse_hero_mode_view(st.value_of("mode"@)) is Ok)
            &&& a.value.children == x.children
        }),
{
}

/// Writing a form back into a `MjText` sets each of its fields from the
/// form's value for it (the fields after a value that does not read keep
/// their old values), and keeps what the form does not show.
pub proof fn law_text_form_writes(x: SpecMjText, st: EditFormState)
    ensures
        ({
            let a = text_applied(x, st);
            &&& a.value.content == st.value_of("content"@)
            &&& a.error is None ==> a.value.font_size == opt_set_view(st.value_of("font_size"@))
            &&& a.error is None ==> a.value.font_family == opt_set_view(st.value_of("font_family"@))
            &&& a.error is None ==> a.value.color == opt_set_view(st.value_of("color"@))
            &&& a.error is None ==> a.value.padding == opt_set_view(st.value_of("padding"@))
            &&& a.error is None ==> parse_align_view(st.value_of("align"@)) == Ok::<_, SpecFormError>(a.value.align)
            &&& a.error is None <==> (parse_align_view(st.value_of("align"@)) is Ok)
        }),
{
}

/// Writing a form back into a `MjButton` sets each of its fields from the
/// form's value for it (the fields after a value that does not read keep
/// their old values), and keeps what the form does not show.
pub proof fn law_button_form_writes(x: SpecMjButton, st: EditFormState)
    ensures
        ({
            let a = button_applied(x, st);
            &&& a.value.content == st.value_of("content"@)
            &&& a.value.href == st.value_of("href"@)
            &&& a.value.background_color == opt_set_view(st.value_of("background_color"@))
            &&& a.value.color == opt_set_view(st.value_of("color"@))
            &&& a.error is None ==> a.value.font_family == opt_set_view(st.value_of("font_family"@))
            &&& a.error is None ==> a.value.border_radius == opt_set_view(st.value_of("border_radius"@))
            &&& a.error is None ==> a.value.width == opt_set_view(st.value_of("width"@))
            &&& a.error is None ==> a.value.padding == opt_set_view(st.value_of("padding"@))
            &&& a.error is None ==> parse_align_view(st.value_of("align"@)) == Ok::<_, SpecFormError>(a.value.align)
            &&& a.error is None <==> (parse_align_view(st.value_of("align"@)) is Ok)
        }),
{
}

/// Writing a form back into a `MjImage` sets each of its fields from the
/// form's value for it (the fields after a value that does not read keep
/// their old values), and keeps what the form does not show.
pub proof fn law_image_form_writes(x: SpecMjImage, st: EditFormState)
    ensures
        ({
            let a = image_applied(x, st);
            &&& a.value.src == trim_seq(st.value_of("src"@))
            &&& a.value.alt == st.value_of("alt"@)
            &&& a.value.href == opt_set_view(st.value_of("href"@))
            &&& a.value.width == opt_set_view(st.value_of("width"@))
            &&& a.error is None ==> a.value.padding == opt_set_view(st.value_of("padding"@))
            &&& a.error is None ==> parse_align_view(st.value_of("align"@)) == Ok::<_, SpecFormError>(a.value.align)
            &&& a.error is None ==> parse_bool_view(st.value_of("fluid_on_mobile"@)) == Ok::<_, SpecFormError>(a.value.fluid_on_mobile)
            &&& a.error is None <==> (parse_align_view(st.value_of("align"@)) is Ok && parse_bool_view(st.value_of("fluid_on_mobile"@)) is Ok)
        }),
{
}

/// Writing a form back into a `MjDivider` sets each of its fields from the
/// form's value for it (the fields after a value that does not read keep
/// their old values), and keeps what the form does not show.
pub proof fn law_divider_form_writes(x: SpecMjDivider, st: EditFormState)
    ensures
        ({
            let a = divider_applied(x, st);
            &&& a.value.border_color == opt_set_view(st.value_of("border_color"@))
            &&& a.value.border_width == opt_set_view(st.value_of("border_width"@))
            &&& a.value.padding == opt_set_view(st.value_of("padding"@))
            &&& a.error is None
        }),
{
}

/// Writing a form back into a `MjSpacer` sets each of its fields from the
/// form's value for it (the fields after a value that does not read keep
/// their old values), and keeps what the form does not show.
pub proof fn law_spacer_form_writes(x: SpecMjSpacer, st: EditFormState)
    ensures
        ({
            let a = spacer_applied(x, st);
            &&& a.value.height == trim_seq(st.value_of("height"@))
            &&& a.error is None
        }),
{
}

/// Writing a form back into a `MjTable` sets each of its fields from the
/// form's value for it (the fields after a value that does not read keep
/// their old values), and keeps what the form does not show.
pub proof fn law_table_form_writes(x: SpecMjTable, st: EditFormState)
    ensures
        ({
            let a = table_applied(x, st);
            &&& a.value.content == st.value_of("content"@)
            &&& a.value.font_size == opt_set_view(st.value_of("font_size"@))
            &&& a.value.color == opt_set_view(st.value_of("color"@))
            &&& a.value.padding == opt_set_view(st.value_of("padding"@))
            &&& a.error is None
        }),
{
}

/// Writing a form back into a `MjNavbar` sets each of its fields from the
/// form's value for it (the fields after a value that does not read keep
/// their old values), and keeps what the form does not show.
pub proof fn law_navbar_form_writes(x: SpecMjNavbar, st: EditFormState)
    ensures
        ({
            let a = navbar_applied(x, st);
            &&& a.error is None ==> a.value.ico_color == opt_set_view(st.value_of("ico_color"@))
            &&& a.error is None ==> a.value.base_url == opt_set_view(st.value_of("base_url"@))
            &&& a.error is None ==> a.value.padding == opt_set_view(st.value_of("padding"@))
            &&& a.error is None ==> parse_bool_view(st.value_of("hamburger"@)) == Ok::<_, SpecFormError>(a.value.hamburger)
            &&& a.error is None ==> parse_align_view(st.value_of("align"@)) == Ok::<_, SpecFormError>(a.value.align)
            &&& a.error is None <==> (parse_bool_view(st.value_of("hamburger"@)) is Ok && parse_align_view(st.value_of("align"@)) is Ok)
            &&& a.value.links == x.links
        }),
{
}

/// Writing a form back into a `MjNavbarLink` sets each of its fields from the
/// form's value for it (the fields after a value that does not read keep
/// their old values), and keeps what the form does not show.
pub proof fn law_navbar_link_form_writes(x: SpecMjNavbarLink, st: EditFormState)
    ensures
        ({
            let a = navbar_link_applied(x, st);
            &&& a.value.href == st.value_of("href"@)
            &&& a.value.content == st.value_of("content"@)
            &&& a.value.color == opt_set_view(st.value_of("color"@))
            &&& a.value.padding == opt_set_view(st.value_of("padding"@))
            &&& a.error is None
        }),
{
}

/// Writing a form back into a `MjAccordion` sets each of its fields from the
/// form's value for it (the fields after a value that does not read keep
/// their old values), and keeps what the form does not show.
pub proof fn law_accordion_form_writes(x: SpecMjAccordion, st: EditFormState)
    ensures
        ({
            let a = accordion_applied(x, st);
            &&& a.value.border == opt_set_view(st.value_of("border"@))
            &&& a.value.padding == opt_set_view(st.value_of("padding"@))
            &&& a.error is None
            &&& a.value.elements == x.elements
        }),
{
}

/// Writing a form back into a `MjAccordionElement` sets each of its fields from the
/// form's value for it (the fields after a value that does not read keep
/// their old values), and keeps what the form does not show.
pub proof fn law_accordion_el_form_writes(x: SpecMjAccordionElement, st: EditFormState)
    ensures
        ({
            let a = accordion_el_applied(x, st);
            &&& a.value.title == st.value_of("title"@)
            &&& a.value.content == st.value_of("content"@)
            &&& a.value.background_color == opt_set_view(st.value_of("background_color"@))
            &&& a.error is None
        }),
{
}

/// Writing a form back into a `MjCarousel` sets each of its fields from the
/// form's value for it (the fields after a value that does not read keep
/// their old values), and keeps what the form does not show.
pub proof fn law_carousel_form_writes(x: SpecMjCarousel, st: EditFormState)
    ensures
        ({
            let a = carousel_applied(x, st);
            &&& a.error is None ==> a.value.padding == opt_set_view(st.value_of("padding"@))
            &&& a.error is None ==> parse_align_view(st.value_of("align"@)) == Ok::<_, SpecFormError>(a.value.align)
            &&& a.error is None ==> parse_thumbnails_view(st.value_of("thumbnails"@)) == Ok::<_, SpecFormError>(a.value.thumbnails)
            &&& a.error is None <==> (parse_align_view(st.value_of("align"@)) is Ok && parse_thumbnails_view(st.value_of("thumbnails"@)) is Ok)
            &&& a.value.images == x.images
        }),
{
}

/// Writing a form back into a `MjCarouselImage` sets each of its fields from the
/// form's value for it (the fields after a value that does not read keep
/// their old values), and keeps what the form does not show.
pub proof fn law_carousel_img_form_writes(x: SpecMjCarouselImage, st: EditFormState)
    ensures
        ({
            let a = carousel_img_applied(x, st);
            &&& a.value.src == trim_seq(st.value_of("src"@))
            &&& a.value.alt == st.value_of("alt"@)
            &&& a.value.href == opt_set_view(st.value_of("href"@))
            &&& a.value.thumbnails_src == opt_set_view(st.value_of("thumbnails_src"@))
            &&& a.error is None
        }),
{
}

/// Writing a form back into a `EmailHeader` sets each of its fields from the
/// form's value for it (the fields after a value that does not read keep
/// their old values), and keeps what the form does not show.
pub proof fn law_email_header_form_writes(x: SpecEmailHeader, st: EditFormState)
    ensures
        ({
            let a = email_header_applied(x, st);
            &&& a.value.logo_src == trim_seq(st.value_of("logo_src"@))
            &&& a.value.logo_alt == st.value_of("logo_alt"@)
            &&& a.value.logo_href == opt_set_view(st.value_of("logo_href"@))
            &&& a.value.logo_width == trim_seq(st.value_of("logo_width"@))
            &&& a.value.background_color == opt_set_view(st.value_of("background_color"@))
            &&& a.error is None
        }),
{
}

/// Writing a form back into a `EmailHero` sets each of its fields from the
/// form's value for it (the fields after a value that does not read keep
/// their old values), and keeps what the form does not show.
pub proof fn law_email_hero_form_writes(x: SpecEmailHero, st: EditFormState)
    ensures
        ({
            let a = email_hero_applied(x, st);
            &&& a.value.image_src == trim_seq(st.value_of("image_src"@))
            &&& a.value.image_alt == st.value_of("image_alt"@)
            &&& a.value.heading == st.value_of("heading"@)
            &&& a.value.subheading == st.value_of("subheading"@)
            &&& a.value.background_color == opt_set_view(st.value_of("background_color"@))
            &&& a.error is None
        }),
{
}

/// Writing a form back into a `EmailCta` sets each of its fields from the
/// form's value for it (the fields after a value that does not read keep
/// their old values), and keeps what the form does not show.
pub proof fn law_email_cta_form_writes(x: SpecEmailCta, st: EditFormState)
    ensures
        ({
            let a = email_cta_applied(x, st);
            &&& a.value.heading == st.value_of("heading"@)
            &&& a.value.copy == st.value_of("copy"@)
            &&& a.value.button_label == st.value_of("button_label"@)
            &&& a.value.button_href == st.value_of("button_href"@)
            &&& a.value.background_color == opt_set_view(st.value_of("background_color"@))
            &&& a.error is None
        }),
{
}

/// Writing a form back into a `EmailArticle` sets each of its fields from the
/// form's value for it (the fields after a value that does not read keep
/// their old values), and keeps what the form does not show.
pub proof fn law_email_article_form_writes(x: SpecEmailArticle, st: EditFormState)
    ensures
        ({
            let a = email_article_applied(x, st);
            &&& a.value.image_src == trim_seq(st.value_of("image_src"@))
            &&& a.value.image_alt == st.value_of("image_alt"@)
            &&& a.value.title == st.value_of("title"@)
            &&& a.value.copy == st.value_of("copy"@)
            &&& a.value.link_label == st.value_of("link_label"@)
            &&& a.value.link_href == st.value_of("link_href"@)
            &&& a.error is None ==> parse_image_pos_view(st.value_of("image_position"@)) == Ok::<_, SpecFormError>(a.value.image_position)
            &&& a.error is None <==> (parse_image_pos_view(st.value_of("image_position"@)) is Ok)
        }),
{
}

// ---------------------------------------------------------------------------
// Every filled value has a field
// ---------------------------------------------------------------------------

/// Every value the form for a `MjSection` is filled with belongs to one of
/// the form's fields, so each is shown and can be edited.
pub proof fn law_section_form_shows_its_values(x: SpecMjSection)
    ensures
        forall|k: Seq<char>| #[trigger] section_form_values(x).dom().contains(k) ==> has_field(section_form_view().fields, k),
{
    lemma_defaults_are_fields(section_form_view().fields);
    assert(section_form_view().fields[0].id == "background_color"@);
    assert(section_form_view().fields[1].id == "padding"@);
    assert(section_form_view().fields[2].id == "full_width"@);
}

/// Every value the form for a `MjWrapper` is filled with belongs to one of
/// the form's fields, so each is shown and can be edited.
pub proof fn law_wrapper_form_shows_its_values(x: SpecMjWrapper)
    ensures
        forall|k: Seq<char>| #[trigger] wrapper_form_values(x).dom().contains(k) ==> has_field(wrapper_form_view().fields, k),
{
    lemma_defaults_are_fields(wrapper_form_view().fields);
    assert(wrapper_form_view().fields[0].id == "background_color"@);
    assert(wrapper_form_view().fields[1].id == "padding"@);
    assert(wrapper_form_view().fields[2].id == "full_width"@);
}

/// Every value the form for a `MjColumn` is filled with belongs to one of
/// the form's fields, so each is shown and can be edited.
pub proof fn law_column_form_shows_its_values(x: SpecMjColumn)
    ensures
        forall|k: Seq<char>| #[trigger] column_form_values(x).dom().contains(k) ==> has_field(column_form_view().fields, k),
{
    lemma_defaults_are_fields(column_form_view().fields);
    assert(column_form_view().fields[0].id == "width"@);
    assert(column_form_view().fields[1].id == "background_color"@);
    assert(column_form_view().fields[2].id == "padding"@);
    assert(column_form_view().fields[3].id == "inner_background_color"@);
}

/// Every value the form for a `MjGroup` is filled with belongs to one of
/// the form's fields, so each is shown and can be edited.
pub proof fn law_group_form_shows_its_values(x: SpecMjGroup)
    ensures
        forall|k: Seq<char>| #[trigger] group_form_values(x).dom().contains(k) ==> has_field(group_form_view().fields, k),
{
    lemma_defaults_are_fields(group_form_view().fields);
    assert(group_form_view().fields[0].id == "width"@);
    assert(group_form_view().fields[1].id == "background_color"@);
}

/// Every value the form for a `MjHero` is filled with belongs to one of
/// the form's fields, so each is shown and can be edited.
pub proof fn law_hero_form_shows_its_values(x: SpecMjHero)
    ensures
        forall|k: Seq<char>| #[trigger] hero_form_values(x).dom().contains(k) ==> has_field(hero_form_view().fields, k),
{
    lemma_defaults_are_fields(hero_form_view().fields);
    assert(hero_form_view().fields[0].id == "mode"@);
    assert(hero_form_view().fields[1].id == "background_url"@);
    assert(hero_form_view().fields[2].id == "background_color"@);
    assert(hero_form_view().fields[3].id == "background_height"@);
    assert(hero_form_view().fields[4].id == "width"@);
    assert(hero_form_view().fields[5].id == "height"@);
}

/// Every value the form for a `MjText` is filled with belongs to one of
/// the form's fields, so each is shown and can be edited.
pub proof fn law_text_form_shows_its_values(x: SpecMjText)
    ensures
        forall|k: Seq<char>| #[trigger] text_form_values(x).dom().contains(k) ==> has_field(text_form_view().fields, k),
{
    lemma_defaults_are_fields(text_form_view().fields);
    assert(text_form_view().fields[0].id == "content"@);
    assert(text_form_view().fields[1].id == "align"@);
    assert(text_form_view().fields[2].id == "font_size"@);
    assert(text_form_view().fields[3].id == "font_family"@);
    assert(text_form_view().fields[4].id == "color"@);
    assert(text_form_view().fields[5].id == "padding"@);
}

/// Every value the form for a `MjButton` is filled with belongs to one of
/// the form's fields, so each is shown and can be edited.
pub proof fn law_button_form_shows_its_values(x: SpecMjButton)
    ensures
        forall|k: Seq<char>| #[trigger] button_form_values(x).dom().contains(k) ==> has_field(button_form_view().fields, k),
{
    lemma_defaults_are_fields(button_form_view().fields);
    assert(button_form_view().fields[0].id == "content"@);
    assert(button_form_view().fields[1].id == "href"@);
    assert(button_form_view().fields[2].id == "background_color"@);
    assert(button_form_view().fields[3].id == "color"@);
    assert(button_form_view().fields[4].id == "align"@);
    assert(button_form_view().fields[5].id == "font_family"@);
    assert(button_form_view().fields[6].id == "border_radius"@);
    assert(button_form_view().fields[7].id == "width"@);
    assert(button_form_view().fields[8].id == "padding"@);
}

/// Every value the form for a `MjImage` is filled with belongs to one of
/// the form's fields, so each is shown and can be edited.
pub proof fn law_image_form_shows_its_values(x: SpecMjImage)
    ensures
        forall|k: Seq<char>| #[trigger] image_form_values(x).dom().contains(k) ==> has_field(image_form_view().fields, k),
{
    lemma_defaults_are_fields(image_form_view().fields);
    assert(image_form_view().fields[0].id == "src"@);
    assert(image_form_view().fields[1].id == "alt"@);
    assert(image_form_view().fields[2].id == "href"@);
    assert(image_form_view().fields[3].id == "width"@);
    assert(image_form_view().fields[4].id == "align"@);
    assert(image_form_view().fields[5].id == "fluid_on_mobile"@);
    assert(image_form_view().fields[6].id == "padding"@);
}

/// Every value the form for a `MjDivider` is filled with belongs to one of
/// the form's fields, so each is shown and can be edited.
pub proof fn law_divider_form_shows_its_values(x: SpecMjDivider)
    ensures
        forall|k: Seq<char>| #[trigger] divider_form_values(x).dom().contains(k) ==> has_field(divider_form_view().fields, k),
{
    lemma_defaults_are_fields(divider_form_view().fields);
    assert(divider_form_view().fields[0].id == "border_color"@);
    assert(divider_form_view().fields[1].id == "border_width"@);
    assert(divider_form_view().fields[2].id == "padding"@);
}

/// Every value the form for a `MjSpacer` is filled with belongs to one of
/// the form's fields, so each is shown and can be edited.
pub proof fn law_spacer_form_shows_its_values(x: SpecMjSpacer)
    ensures
        forall|k: Seq<char>| #[trigger] spacer_form_values(x).dom().contains(k) ==> has_field(spacer_form_view().fields, k),
{
    lemma_defaults_are_fields(spacer_form_view().fields);
    assert(spacer_form_view().fields[0].id == "height"@);
}

/// Every value the form for a `MjTable` is filled with belongs to one of
/// the form's fields, so each is shown and can be edited.
pub proof fn law_table_form_shows_its_values(x: SpecMjTable)
    ensures
        forall|k: Seq<char>| #[trigger] table_form_values(x).dom().contains(k) ==> has_field(table_form_view().fields, k),
{
    lemma_defaults_are_fields(table_form_view().fields);
    assert(table_form_view().fields[0].id == "content"@);
    assert(table_form_view().fields[1].id == "font_size"@);
    assert(table_form_view().fields[2].id == "color"@);
    assert(table_form_view().fields[3].id == "padding"@);
}

/// Every value the form for a `MjNavbar` is filled with belongs to one of
/// the form's fields, so each is shown and can be edited.
pub proof fn law_navbar_form_shows_its_values(x: SpecMjNavbar)
    ensures
        forall|k: Seq<char>| #[trigger] navbar_form_values(x).dom().contains(k) ==> has_field(navbar_form_view().fields, k),
{
    lemma_defaults_are_fields(navbar_form_view().fields);
    assert(navbar_form_view().fields[0].id == "hamburger"@);
    assert(navbar_form_view().fields[1].id == "ico_color"@);
    assert(navbar_form_view().fields[2].id == "base_url"@);
    assert(navbar_form_view().fields[3].id == "align"@);
    assert(navbar_form_view().fields[4].id == "padding"@);
}

/// Every value the form for a `MjNavbarLink` is filled with belongs to one of
/// the form's fields, so each is shown and can be edited.
pub proof fn law_navbar_link_form_shows_its_values(x: SpecMjNavbarLink)
    ensures
        forall|k: Seq<char>| #[trigger] navbar_link_form_values(x).dom().contains(k) ==> has_field(navbar_link_form_view().fields, k),
{
    lemma_defaults_are_fields(navbar_link_form_view().fields);
    assert(navbar_link_form_view().fields[0].id == "href"@);
    assert(navbar_link_form_view().fields[1].id == "content"@);
    assert(navbar_link_form_view().fields[2].id == "color"@);
    assert(navbar_link_form_view().fields[3].id == "padding"@);
}

/// Every value the form for a `MjAccordion` is filled with belongs to one of
/// the form's fields, so each is shown and can be edited.
pub proof fn law_accordion_form_shows_its_values(x: SpecMjAccordion)
    ensures
        forall|k: Seq<char>| #[trigger] accordion_form_values(x).dom().contains(k) ==> has_field(accordion_form_view().fields, k),
{
    lemma_defaults_are_fields(accordion_form_view().fields);
    assert(accordion_form_view().fields[0].id == "border"@);
    assert(accordion_form_view().fields[1].id == "padding"@);
}

/// Every value the form for a `MjAccordionElement` is filled with belongs to one of
/// the form's fields, so each is shown and can be edited.
pub proof fn law_accordion_el_form_shows_its_values(x: SpecMjAccordionElement)
    ensures
        forall|k: Seq<char>| #[trigger] accordion_el_form_values(x).dom().contains(k) ==> has_field(accordion_element_form_view().fields, k),
{
    lemma_defaults_are_fields(accordion_element_form_view().fields);
    assert(accordion_element_form_view().fields[0].id == "title"@);
    assert(accordion_element_form_view().fields[1].id == "content"@);
    assert(accordion_element_form_view().fields[2].id == "background_color"@);
}

/// Every value the form for a `MjCarousel` is filled with belongs to one of
/// the form's fields, so each is shown and can be edited.
pub proof fn law_carousel_form_shows_its_values(x: SpecMjCarousel)
    ensures
        forall|k: Seq<char>| #[trigger] carousel_form_values(x).dom().contains(k) ==> has_field(carousel_form_view().fields, k),
{
    lemma_defaults_are_fields(carousel_form_view().fields);
    assert(carousel_form_view().fields[0].id == "align"@);
    assert(carousel_form_view().fields[1].id == "padding"@);
    assert(carousel_form_view().fields[2].id == "thumbnails"@);
}

/// Every value the form for a `MjCarouselImage` is filled with belongs to one of
/// the form's fields, so each is shown and can be edited.
pub proof fn law_carousel_img_form_shows_its_values(x: SpecMjCarouselImage)
    ensures
        forall|k: Seq<char>| #[trigger] carousel_img_form_values(x).dom().contains(k) ==> has_field(carousel_image_form_view().fields, k),
{
    lemma_defaults_are_fields(carousel_image_form_view().fields);
    assert(carousel_image_form_view().fields[0].id == "src"@);
    assert(carousel_image_form_view().fields[1].id == "alt"@);
    assert(carousel_image_form_view().fields[2].id == "href"@);
    assert(carousel_image_form_view().fields[3].id == "thumbnails_src"@);
}

/// Every value the form for a `EmailHeader` is filled with belongs to one of
/// the form's fields, so each is shown and can be edited.
pub proof fn law_email_header_form_shows_its_values(x: SpecEmailHeader)
    ensures
        forall|k: Seq<char>| #[trigger] email_header_form_values(x).dom().contains(k) ==> has_field(email_header_form_view().fields, k),
{
    lemma_defaults_are_fields(email_header_form_view().fields);
    assert(email_header_form_view().fields[0].id == "logo_src"@);
    assert(email_header_form_view().fields[1].id == "logo_alt"@);
    assert(email_header_form_view().fields[2].id == "logo_href"@);
    assert(email_header_form_view().fields[3].id == "logo_width"@);
    assert(email_header_form_view().fields[4].id == "background_color"@);
}

/// Every value the form for a `EmailHero` is filled with belongs to one of
/// the form's fields, so each is shown and can be edited.
pub proof fn law_email_hero_form_shows_its_values(x: SpecEmailHero)
    ensures
        forall|k: Seq<char>| #[trigger] email_hero_form_values(x).dom().contains(k) ==> has_field(email_hero_form_view().fields, k),
{
    lemma_defaults_are_fields(email_hero_form_view().fields);
    assert(email_hero_form_view().fields[0].id == "image_src"@);
    assert(email_hero_form_view().fields[1].id == "image_alt"@);
    assert(email_hero_form_view().fields[2].id == "heading"@);
    assert(email_hero_form_view().fields[3].id == "subheading"@);
    assert(email_hero_form_view().fields[4].id == "background_color"@);
}

/// Every value the form for a `EmailCta` is filled with belongs to one of
/// the form's fields, so each is shown and can be edited.
pub proof fn law_email_cta_form_shows_its_values(x: SpecEmailCta)
    ensures
        forall|k: Seq<char>| #[trigger] email_cta_form_values(x).dom().contains(k) ==> has_field(email_cta_form_view().fields, k),
{
    lemma_defaults_are_fields(email_cta_form_view().fields);
    assert(email_cta_form_view().fields[0].id == "heading"@);
    assert(email_cta_form_view().fields[1].id == "copy"@);
    assert(email_cta_form_view().fields[2].id == "button_label"@);
    assert(email_cta_form_view().fields[3].id == "button_href"@);
    assert(email_cta_form_view().fields[4].id == "background_color"@);
}

/// Every value the form for a `EmailArticle` is filled with belongs to one of
/// the form's fields, so each is shown and can be edited.
pub proof fn law_email_article_form_shows_its_values(x: SpecEmailArticle)
    ensures
        forall|k: Seq<char>| #[trigger] email_article_form_values(x).dom().contains(k) ==> has_field(email_article_form_view().fields, k),
{
    lemma_defaults_are_fields(email_article_form_view().fields);
    assert(email_article_form_view().fields[0].id == "image_src"@);
    assert(email_article_form_view().fields[1].id == "image_alt"@);
    assert(email_article_form_view().fields[2].id == "title"@);
    assert(email_article_form_view().fields[3].id == "copy"@);
    assert(email_article_form_view().fields[4].id == "link_label"@);
    assert(email_article_form_view().fields[5].id == "link_href"@);
    assert(email_article_form_view().fields[6].id == "image_position"@);
}

} // verus!
