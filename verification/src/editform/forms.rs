//! The form for each kind of row, as values built on demand.
use vstd::prelude::*;

use super::fields::{
    EditForm, FieldKind, FormField, SpecEditForm, SpecFieldKind, SpecFormField, field_view,
    fields_view, kind_view, lemma_fields_view, lemma_fields_view_index, lemma_form_view_fields,
};
use crate::text::owned;

verus! {

broadcast use {lemma_fields_view, lemma_fields_view_index, lemma_form_view_fields};

/// A field with no visibility condition, hint or placeholder.
pub open spec fn sfield(id: Seq<char>, label: Seq<char>, kind: SpecFieldKind, required: bool) -> SpecFormField {
    SpecFormField { id, label, kind, required, visible_when: None, hint: None, placeholder: None }
}

fn field(id: &str, label: &str, kind: FieldKind, required: bool) -> (r: FormField)
    ensures
        r@ == sfield(id@, label@, kind_view(kind), required),
{
    FormField {
        id: owned(id),
        label: owned(label),
        kind,
        required,
        visible_when: None,
        hint: None,
        placeholder: None,
    }
}

fn text_kind(default: &str) -> (r: FieldKind)
    ensures
        kind_view(r) == (SpecFieldKind::Text { default: default@ }),
{
    FieldKind::Text { default: owned(default) }
}

fn url_kind(default: &str) -> (r: FieldKind)
    ensures
        kind_view(r) == (SpecFieldKind::Url { default: default@ }),
{
    FieldKind::Url { default: owned(default) }
}

fn textarea_kind(rows: u16, default: &str) -> (r: FieldKind)
    ensures
        kind_view(r) == (SpecFieldKind::Textarea { rows, default: default@ }),
{
    FieldKind::Textarea { rows, default: owned(default) }
}

fn enum_kind(options: Vec<String>, default: &str) -> (r: FieldKind)
    ensures
        kind_view(r) == (SpecFieldKind::Enum { options: options@.map_values(|o: String| o@), default: default@ }),
{
    FieldKind::Enum { options, default: owned(default) }
}

fn subform_kind(template: EditForm, min_items: usize, summary_field_id: &str) -> (r: FieldKind)
    ensures
        kind_view(r) == (SpecFieldKind::SubForm {
            template: Box::new(template@),
            min_items,
            summary_field_id: summary_field_id@,
        }),
{
    FieldKind::SubForm { template: Box::new(template), min_items, summary_field_id: owned(summary_field_id) }
}


/// The choices of `align` enum fields.
pub open spec fn align_options_view() -> Seq<Seq<char>> {
    seq![""@, "left"@, "center"@, "right"@]
}

/// The choices of `align` enum fields.
pub fn align_options() -> (r: Vec<String>)
    ensures
        r@.map_values(|o: String| o@) == align_options_view(),
{
    let mut r: Vec<String> = Vec::new();
    r.push(owned(""));
    r.push(owned("left"));
    r.push(owned("center"));
    r.push(owned("right"));
    assert(r@.map_values(|o: String| o@) =~= align_options_view());
    r
}

/// The choices of `bool` enum fields.
pub open spec fn bool_options_view() -> Seq<Seq<char>> {
    seq!["false"@, "true"@]
}

/// The choices of `bool` enum fields.
pub fn bool_options() -> (r: Vec<String>)
    ensures
        r@.map_values(|o: String| o@) == bool_options_view(),
{
    let mut r: Vec<String> = Vec::new();
    r.push(owned("false"));
    r.push(owned("true"));
    assert(r@.map_values(|o: String| o@) =~= bool_options_view());
    r
}

/// The choices of `hero_mode` enum fields.
pub open spec fn hero_mode_options_view() -> Seq<Seq<char>> {
    seq!["fluid-height"@, "fixed-height"@]
}

/// The choices of `hero_mode` enum fields.
pub fn hero_mode_options() -> (r: Vec<String>)
    ensures
        r@.map_values(|o: String| o@) == hero_mode_options_view(),
{
    let mut r: Vec<String> = Vec::new();
    r.push(owned("fluid-height"));
    r.push(owned("fixed-height"));
    assert(r@.map_values(|o: String| o@) =~= hero_mode_options_view());
    r
}

/// The choices of `social_mode` enum fields.
pub open spec fn social_mode_options_view() -> Seq<Seq<char>> {
    seq!["horizontal"@, "vertical"@]
}

/// The choices of `social_mode` enum fields.
pub fn social_mode_options() -> (r: Vec<String>)
    ensures
        r@.map_values(|o: String| o@) == social_mode_options_view(),
{
    let mut r: Vec<String> = Vec::new();
    r.push(owned("horizontal"));
    r.push(owned("vertical"));
    assert(r@.map_values(|o: String| o@) =~= social_mode_options_view());
    r
}

/// The choices of `image_pos` enum fields.
pub open spec fn image_pos_options_view() -> Seq<Seq<char>> {
    seq!["top"@, "left"@, "right"@]
}

/// The choices of `image_pos` enum fields.
pub fn image_pos_options() -> (r: Vec<String>)
    ensures
        r@.map_values(|o: String| o@) == image_pos_options_view(),
{
    let mut r: Vec<String> = Vec::new();
    r.push(owned("top"));
    r.push(owned("left"));
    r.push(owned("right"));
    assert(r@.map_values(|o: String| o@) =~= image_pos_options_view());
    r
}

/// The choices of `social_net` enum fields.
pub open spec fn social_net_options_view() -> Seq<Seq<char>> {
    seq!["facebook"@, "instagram"@, "linkedin"@, "x"@, "github"@, "web"@]
}

/// The choices of `social_net` enum fields.
pub fn social_net_options() -> (r: Vec<String>)
    ensures
        r@.map_values(|o: String| o@) == social_net_options_view(),
{
    let mut r: Vec<String> = Vec::new();
    r.push(owned("facebook"));
    r.push(owned("instagram"));
    r.push(owned("linkedin"));
    r.push(owned("x"));
    r.push(owned("github"));
    r.push(owned("web"));
    assert(r@.map_values(|o: String| o@) =~= social_net_options_view());
    r
}

/// The choices of `thumbnails` enum fields.
pub open spec fn thumbnails_options_view() -> Seq<Seq<char>> {
    seq!["hidden"@, "visible"@, "supported"@]
}

/// The choices of `thumbnails` enum fields.
pub fn thumbnails_options() -> (r: Vec<String>)
    ensures
        r@.map_values(|o: String| o@) == thumbnails_options_view(),
{
    let mut r: Vec<String> = Vec::new();
    r.push(owned("hidden"));
    r.push(owned("visible"));
    r.push(owned("supported"));
    assert(r@.map_values(|o: String| o@) =~= thumbnails_options_view());
    r
}

/// The view of the `font` form.
pub open spec fn font_item_form_view() -> SpecEditForm {
    SpecEditForm {
        title: "font"@,
        fields: seq![
            sfield("name"@, "Name"@, SpecFieldKind::Text { default: "Raleway"@ }, true),
            sfield("href"@, "Google Fonts href"@, SpecFieldKind::Url { default: "https://fonts.googleapis.com/css2?family=Raleway:wght@400;700&display=swap"@ }, true),
        ],
    }
}

/// The `font` form.
pub fn font_item_form() -> (r: EditForm)
    ensures
        r@ == font_item_form_view(),
{
    let mut fields: Vec<FormField> = Vec::new();
    fields.push(field("name", "Name", text_kind("Raleway"), true));
    fields.push(field("href", "Google Fonts href", url_kind("https://fonts.googleapis.com/css2?family=Raleway:wght@400;700&display=swap"), true));
    let r = EditForm { title: owned("font"), fields };
    assert(fields_view(r.fields@) =~= font_item_form_view().fields);
    r
}

/// The view of the `social icon` form.
pub open spec fn social_item_form_view() -> SpecEditForm {
    SpecEditForm {
        title: "social icon"@,
        fields: seq![
            sfield("name"@, "Network"@, SpecFieldKind::Enum { options: social_net_options_view(), default: "x"@ }, true),
            sfield("href"@, "Href"@, SpecFieldKind::Url { default: "https://example.com"@ }, true),
            sfield("src"@, "Icon src (web)"@, SpecFieldKind::Url { default: ""@ }, false),
        ],
    }
}

/// The `social icon` form.
pub fn social_item_form() -> (r: EditForm)
    ensures
        r@ == social_item_form_view(),
{
    let mut fields: Vec<FormField> = Vec::new();
    fields.push(field("name", "Network", enum_kind(social_net_options(), "x"), true));
    fields.push(field("href", "Href", url_kind("https://example.com"), true));
    fields.push(field("src", "Icon src (web)", url_kind(""), false));
    let r = EditForm { title: owned("social icon"), fields };
    assert(fields_view(r.fields@) =~= social_item_form_view().fields);
    r
}

/// The view of the `mj-head` form.
pub open spec fn head_form_view() -> SpecEditForm {
    SpecEditForm {
        title: "mj-head"@,
        fields: seq![
            sfield("subject"@, "Subject"@, SpecFieldKind::Text { default: ""@ }, true),
            sfield("preheader"@, "Preheader"@, SpecFieldKind::Text { default: ""@ }, false),
            sfield("lang"@, "Lang"@, SpecFieldKind::Text { default: "en"@ }, true),
            sfield("title"@, "Title"@, SpecFieldKind::Text { default: ""@ }, true),
            sfield("breakpoint"@, "Breakpoint"@, SpecFieldKind::Text { default: "480px"@ }, false),
            sfield("base_url"@, "Base URL"@, SpecFieldKind::Url { default: ""@ }, false),
            sfield("fonts"@, "Fonts"@, SpecFieldKind::SubForm { template: Box::new(font_item_form_view()), min_items: 0usize, summary_field_id: "name"@ }, false),
            sfield("json_ld"@, "JSON-LD"@, SpecFieldKind::Textarea { rows: 6u16, default: ""@ }, false),
            sfield("css"@, "Custom CSS"@, SpecFieldKind::Textarea { rows: 6u16, default: ""@ }, false),
            sfield("css_inline"@, "Inline CSS"@, SpecFieldKind::Enum { options: bool_options_view(), default: "false"@ }, false),
        ],
    }
}

/// The `mj-head` form.
pub fn head_form() -> (r: EditForm)
    ensures
        r@ == head_form_view(),
{
    let mut fields: Vec<FormField> = Vec::new();
    fields.push(field("subject", "Subject", text_kind(""), true));
    fields.push(field("preheader", "Preheader", text_kind(""), false));
    fields.push(field("lang", "Lang", text_kind("en"), true));
    fields.push(field("title", "Title", text_kind(""), true));
    fields.push(field("breakpoint", "Breakpoint", text_kind("480px"), false));
    fields.push(field("base_url", "Base URL", url_kind(""), false));
    fields.push(field("fonts", "Fonts", subform_kind(font_item_form(), 0, "name"), false));
    fields.push(field("json_ld", "JSON-LD", textarea_kind(6, ""), false));
    fields.push(field("css", "Custom CSS", textarea_kind(6, ""), false));
    fields.push(field("css_inline", "Inline CSS", enum_kind(bool_options(), "false"), false));
    let r = EditForm { title: owned("mj-head"), fields };
    assert(fields_view(r.fields@) =~= head_form_view().fields);
    r
}

/// The view of the `brand` form.
pub open spec fn brand_form_view() -> SpecEditForm {
    SpecEditForm {
        title: "brand"@,
        fields: seq![
            sfield("font_family"@, "Font family"@, SpecFieldKind::Text { default: ""@ }, true),
            sfield("text_color"@, "Text color"@, SpecFieldKind::Text { default: "#1a1a1a"@ }, true),
            sfield("background_color"@, "Background"@, SpecFieldKind::Text { default: "#f4f4f4"@ }, true),
            sfield("content_width"@, "Content width"@, SpecFieldKind::Text { default: "600"@ }, true),
            sfield("button_background"@, "Button background"@, SpecFieldKind::Text { default: "#FFAF46"@ }, true),
            sfield("button_color"@, "Button color"@, SpecFieldKind::Text { default: "#0F1114"@ }, true),
        ],
    }
}

/// The `brand` form.
pub fn brand_form() -> (r: EditForm)
    ensures
        r@ == brand_form_view(),
{
    let mut fields: Vec<FormField> = Vec::new();
    fields.push(field("font_family", "Font family", text_kind(""), true));
    fields.push(field("text_color", "Text color", text_kind("#1a1a1a"), true));
    fields.push(field("background_color", "Background", text_kind("#f4f4f4"), true));
    fields.push(field("content_width", "Content width", text_kind("600"), true));
    fields.push(field("button_background", "Button background", text_kind("#FFAF46"), true));
    fields.push(field("button_color", "Button color", text_kind("#0F1114"), true));
    let r = EditForm { title: owned("brand"), fields };
    assert(fields_view(r.fields@) =~= brand_form_view().fields);
    r
}

/// The view of the `mj-body` form.
pub open spec fn body_form_view() -> SpecEditForm {
    SpecEditForm {
        title: "mj-body"@,
        fields: seq![
            sfield("background_color"@, "Background"@, SpecFieldKind::Text { default: ""@ }, false),
        ],
    }
}

/// The `mj-body` form.
pub fn body_form() -> (r: EditForm)
    ensures
        r@ == body_form_view(),
{
    let mut fields: Vec<FormField> = Vec::new();
    fields.push(field("background_color", "Background", text_kind(""), false));
    let r = EditForm { title: owned("mj-body"), fields };
    assert(fields_view(r.fields@) =~= body_form_view().fields);
    r
}

/// The view of the `mj-section` form.
pub open spec fn section_form_view() -> SpecEditForm {
    SpecEditForm {
        title: "mj-section"@,
        fields: seq![
            sfield("background_color"@, "Background"@, SpecFieldKind::Text { default: ""@ }, false),
            sfield("padding"@, "Padding"@, SpecFieldKind::Text { default: ""@ }, false),
            sfield("full_width"@, "Full width"@, SpecFieldKind::Enum { options: bool_options_view(), default: "false"@ }, false),
        ],
    }
}

/// The `mj-section` form.
pub fn section_form() -> (r: EditForm)
    ensures
        r@ == section_form_view(),
{
    let mut fields: Vec<FormField> = Vec::new();
    fields.push(field("background_color", "Background", text_kind(""), false));
    fields.push(field("padding", "Padding", text_kind(""), false));
    fields.push(field("full_width", "Full width", enum_kind(bool_options(), "false"), false));
    let r = EditForm { title: owned("mj-section"), fields };
    assert(fields_view(r.fields@) =~= section_form_view().fields);
    r
}

/// The view of the `mj-column` form.
pub open spec fn column_form_view() -> SpecEditForm {
    SpecEditForm {
        title: "mj-column"@,
        fields: seq![
            sfield("width"@, "Width"@, SpecFieldKind::Text { default: ""@ }, false),
            sfield("background_color"@, "Background"@, SpecFieldKind::Text { default: ""@ }, false),
            sfield("padding"@, "Padding"@, SpecFieldKind::Text { default: ""@ }, false),
            sfield("inner_background_color"@, "Inner background"@, SpecFieldKind::Text { default: ""@ }, false),
        ],
    }
}

/// The `mj-column` form.
pub fn column_form() -> (r: EditForm)
    ensures
        r@ == column_form_view(),
{
    let mut fields: Vec<FormField> = Vec::new();
    fields.push(field("width", "Width", text_kind(""), false));
    fields.push(field("background_color", "Background", text_kind(""), false));
    fields.push(field("padding", "Padding", text_kind(""), false));
    fields.push(field("inner_background_color", "Inner background", text_kind(""), false));
    let r = EditForm { title: owned("mj-column"), fields };
    assert(fields_view(r.fields@) =~= column_form_view().fields);
    r
}

/// The view of the `mj-wrapper` form.
pub open spec fn wrapper_form_view() -> SpecEditForm {
    SpecEditForm {
        title: "mj-wrapper"@,
        fields: seq![
            sfield("background_color"@, "Background"@, SpecFieldKind::Text { default: ""@ }, false),
            sfield("padding"@, "Padding"@, SpecFieldKind::Text { default: ""@ }, false),
            sfield("full_width"@, "Full width"@, SpecFieldKind::Enum { options: bool_options_view(), default: "false"@ }, false),
        ],
    }
}

/// The `mj-wrapper` form.
pub fn wrapper_form() -> (r: EditForm)
    ensures
        r@ == wrapper_form_view(),
{
    let mut fields: Vec<FormField> = Vec::new();
    fields.push(field("background_color", "Background", text_kind(""), false));
    fields.push(field("padding", "Padding", text_kind(""), false));
    fields.push(field("full_width", "Full width", enum_kind(bool_options(), "false"), false));
    let r = EditForm { title: owned("mj-wrapper"), fields };
    assert(fields_view(r.fields@) =~= wrapper_form_view().fields);
    r
}

/// The view of the `mj-group` form.
pub open spec fn group_form_view() -> SpecEditForm {
    SpecEditForm {
        title: "mj-group"@,
        fields: seq![
            sfield("width"@, "Width"@, SpecFieldKind::Text { default: ""@ }, false),
            sfield("background_color"@, "Background"@, SpecFieldKind::Text { default: ""@ }, false),
        ],
    }
}

/// The `mj-group` form.
pub fn group_form() -> (r: EditForm)
    ensures
        r@ == group_form_view(),
{
    let mut fields: Vec<FormField> = Vec::new();
    fields.push(field("width", "Width", text_kind(""), false));
    fields.push(field("background_color", "Background", text_kind(""), false));
    let r = EditForm { title: owned("mj-group"), fields };
    assert(fields_view(r.fields@) =~= group_form_view().fields);
    r
}

/// The view of the `mj-hero` form.
pub open spec fn hero_form_view() -> SpecEditForm {
    SpecEditForm {
        title: "mj-hero"@,
        fields: seq![
            sfield("mode"@, "Mode"@, SpecFieldKind::Enum { options: hero_mode_options_view(), default: "fluid-height"@ }, true),
            sfield("background_url"@, "Background URL"@, SpecFieldKind::Url { default: ""@ }, false),
            sfield("background_color"@, "Background"@, SpecFieldKind::Text { default: ""@ }, false),
            sfield("background_height"@, "Background height"@, SpecFieldKind::Text { default: ""@ }, false),
            sfield("width"@, "Width"@, SpecFieldKind::Text { default: ""@ }, false),
            sfield("height"@, "Height"@, SpecFieldKind::Text { default: ""@ }, false),
        ],
    }
}

/// The `mj-hero` form.
pub fn hero_form() -> (r: EditForm)
    ensures
        r@ == hero_form_view(),
{
    let mut fields: Vec<FormField> = Vec::new();
    fields.push(field("mode", "Mode", enum_kind(hero_mode_options(), "fluid-height"), true));
    fields.push(field("background_url", "Background URL", url_kind(""), false));
    fields.push(field("background_color", "Background", text_kind(""), false));
    fields.push(field("background_height", "Background height", text_kind(""), false));
    fields.push(field("width", "Width", text_kind(""), false));
    fields.push(field("height", "Height", text_kind(""), false));
    let r = EditForm { title: owned("mj-hero"), fields };
    assert(fields_view(r.fields@) =~= hero_form_view().fields);
    r
}

/// The view of the `mj-text` form.
pub open spec fn text_form_view() -> SpecEditForm {
    SpecEditForm {
        title: "mj-text"@,
        fields: seq![
            sfield("content"@, "Content"@, SpecFieldKind::Textarea { rows: 6u16, default: ""@ }, true),
            sfield("align"@, "Align"@, SpecFieldKind::Enum { options: align_options_view(), default: ""@ }, false),
            sfield("font_size"@, "Font size"@, SpecFieldKind::Text { default: ""@ }, false),
            sfield("font_family"@, "Font family"@, SpecFieldKind::Text { default: ""@ }, false),
            sfield("color"@, "Color"@, SpecFieldKind::Text { default: ""@ }, false),
            sfield("padding"@, "Padding"@, SpecFieldKind::Text { default: ""@ }, false),
        ],
    }
}

/// The `mj-text` form.
pub fn text_form() -> (r: EditForm)
    ensures
        r@ == text_form_view(),
{
    let mut fields: Vec<FormField> = Vec::new();
    fields.push(field("content", "Content", textarea_kind(6, ""), true));
    fields.push(field("align", "Align", enum_kind(align_options(), ""), false));
    fields.push(field("font_size", "Font size", text_kind(""), false));
    fields.push(field("font_family", "Font family", text_kind(""), false));
    fields.push(field("color", "Color", text_kind(""), false));
    fields.push(field("padding", "Padding", text_kind(""), false));
    let r = EditForm { title: owned("mj-text"), fields };
    assert(fields_view(r.fields@) =~= text_form_view().fields);
    r
}

/// The view of the `mj-button` form.
pub open spec fn button_form_view() -> SpecEditForm {
    SpecEditForm {
        title: "mj-button"@,
        fields: seq![
            sfield("content"@, "Label"@, SpecFieldKind::Text { default: "Read more"@ }, true),
            sfield("href"@, "Href"@, SpecFieldKind::Url { default: "https://example.com"@ }, true),
            sfield("background_color"@, "Background"@, SpecFieldKind::Text { default: ""@ }, false),
            sfield("color"@, "Color"@, SpecFieldKind::Text { default: ""@ }, false),
            sfield("align"@, "Align"@, SpecFieldKind::Enum { options: align_options_view(), default: ""@ }, false),
            sfield("font_family"@, "Font family"@, SpecFieldKind::Text { default: ""@ }, false),
            sfield("border_radius"@, "Border radius"@, SpecFieldKind::Text { default: ""@ }, false),
            sfield("width"@, "Width"@, SpecFieldKind::Text { default: ""@ }, false),
            sfield("padding"@, "Padding"@, SpecFieldKind::Text { default: ""@ }, false),
        ],
    }
}

/// The `mj-button` form.
pub fn button_form() -> (r: EditForm)
    ensures
        r@ == button_form_view(),
{
    let mut fields: Vec<FormField> = Vec::new();
    fields.push(field("content", "Label", text_kind("Read more"), true));
    fields.push(field("href", "Href", url_kind("https://example.com"), true));
    fields.push(field("background_color", "Background", text_kind(""), false));
    fields.push(field("color", "Color", text_kind(""), false));
    fields.push(field("align", "Align", enum_kind(align_options(), ""), false));
    fields.push(field("font_family", "Font family", text_kind(""), false));
    fields.push(field("border_radius", "Border radius", text_kind(""), false));
    fields.push(field("width", "Width", text_kind(""), false));
    fields.push(field("padding", "Padding", text_kind(""), false));
    let r = EditForm { title: owned("mj-button"), fields };
    assert(fields_view(r.fields@) =~= button_form_view().fields);
    r
}

/// The view of the `mj-image` form.
pub open spec fn image_form_view() -> SpecEditForm {
    SpecEditForm {
        title: "mj-image"@,
        fields: seq![
            sfield("src"@, "Src"@, SpecFieldKind::Url { default: ""@ }, true),
            sfield("alt"@, "Alt"@, SpecFieldKind::Text { default: ""@ }, true),
            sfield("href"@, "Href"@, SpecFieldKind::Url { default: ""@ }, false),
            sfield("width"@, "Width"@, SpecFieldKind::Text { default: ""@ }, false),
            sfield("align"@, "Align"@, SpecFieldKind::Enum { options: align_options_view(), default: ""@ }, false),
            sfield("fluid_on_mobile"@, "Fluid on mobile"@, SpecFieldKind::Enum { options: bool_options_view(), default: "true"@ }, false),
            sfield("padding"@, "Padding"@, SpecFieldKind::Text { default: ""@ }, false),
        ],
    }
}

/// The `mj-image` form.
pub fn image_form() -> (r: EditForm)
    ensures
        r@ == image_form_view(),
{
    let mut fields: Vec<FormField> = Vec::new();
    fields.push(field("src", "Src", url_kind(""), true));
    fields.push(field("alt", "Alt", text_kind(""), true));
    fields.push(field("href", "Href", url_kind(""), false));
    fields.push(field("width", "Width", text_kind(""), false));
    fields.push(field("align", "Align", enum_kind(align_options(), ""), false));
    fields.push(field("fluid_on_mobile", "Fluid on mobile", enum_kind(bool_options(), "true"), false));
    fields.push(field("padding", "Padding", text_kind(""), false));
    let r = EditForm { title: owned("mj-image"), fields };
    assert(fields_view(r.fields@) =~= image_form_view().fields);
    r
}

/// The view of the `mj-divider` form.
pub open spec fn divider_form_view() -> SpecEditForm {
    SpecEditForm {
        title: "mj-divider"@,
        fields: seq![
            sfield("border_color"@, "Border color"@, SpecFieldKind::Text { default: ""@ }, false),
            sfield("border_width"@, "Border width"@, SpecFieldKind::Text { default: ""@ }, false),
            sfield("padding"@, "Padding"@, SpecFieldKind::Text { default: ""@ }, false),
        ],
    }
}

/// The `mj-divider` form.
pub fn divider_form() -> (r: EditForm)
    ensures
        r@ == divider_form_view(),
{
    let mut fields: Vec<FormField> = Vec::new();
    fields.push(field("border_color", "Border color", text_kind(""), false));
    fields.push(field("border_width", "Border width", text_kind(""), false));
    fields.push(field("padding", "Padding", text_kind(""), false));
    let r = EditForm { title: owned("mj-divider"), fields };
    assert(fields_view(r.fields@) =~= divider_form_view().fields);
    r
}

/// The view of the `mj-spacer` form.
pub open spec fn spacer_form_view() -> SpecEditForm {
    SpecEditForm {
        title: "mj-spacer"@,
        fields: seq![
            sfield("height"@, "Height"@, SpecFieldKind::Text { default: "24px"@ }, true),
        ],
    }
}

/// The `mj-spacer` form.
pub fn spacer_form() -> (r: EditForm)
    ensures
        r@ == spacer_form_view(),
{
    let mut fields: Vec<FormField> = Vec::new();
    fields.push(field("height", "Height", text_kind("24px"), true));
    let r = EditForm { title: owned("mj-spacer"), fields };
    assert(fields_view(r.fields@) =~= spacer_form_view().fields);
    r
}

/// The view of the `mj-social` form.
pub open spec fn social_form_view() -> SpecEditForm {
    SpecEditForm {
        title: "mj-social"@,
        fields: seq![
            sfield("mode"@, "Mode"@, SpecFieldKind::Enum { options: social_mode_options_view(), default: "horizontal"@ }, true),
            sfield("align"@, "Align"@, SpecFieldKind::Enum { options: align_options_view(), default: ""@ }, false),
            sfield("icon_size"@, "Icon size"@, SpecFieldKind::Text { default: "32px"@ }, false),
            sfield("elements"@, "Icons"@, SpecFieldKind::SubForm { template: Box::new(social_item_form_view()), min_items: 0usize, summary_field_id: "name"@ }, false),
        ],
    }
}

/// The `mj-social` form.
pub fn social_form() -> (r: EditForm)
    ensures
        r@ == social_form_view(),
{
    let mut fields: Vec<FormField> = Vec::new();
    fields.push(field("mode", "Mode", enum_kind(social_mode_options(), "horizontal"), true));
    fields.push(field("align", "Align", enum_kind(align_options(), ""), false));
    fields.push(field("icon_size", "Icon size", text_kind("32px"), false));
    fields.push(field("elements", "Icons", subform_kind(social_item_form(), 0, "name"), false));
    let r = EditForm { title: owned("mj-social"), fields };
    assert(fields_view(r.fields@) =~= social_form_view().fields);
    r
}

/// The view of the `mj-navbar` form.
pub open spec fn navbar_form_view() -> SpecEditForm {
    SpecEditForm {
        title: "mj-navbar"@,
        fields: seq![
            sfield("hamburger"@, "Hamburger"@, SpecFieldKind::Enum { options: bool_options_view(), default: "false"@ }, false),
            sfield("ico_color"@, "Icon color"@, SpecFieldKind::Text { default: ""@ }, false),
            sfield("base_url"@, "Base URL"@, SpecFieldKind::Url { default: ""@ }, false),
            sfield("align"@, "Align"@, SpecFieldKind::Enum { options: align_options_view(), default: ""@ }, false),
            sfield("padding"@, "Padding"@, SpecFieldKind::Text { default: ""@ }, false),
        ],
    }
}

/// The `mj-navbar` form.
pub fn navbar_form() -> (r: EditForm)
    ensures
        r@ == navbar_form_view(),
{
    let mut fields: Vec<FormField> = Vec::new();
    fields.push(field("hamburger", "Hamburger", enum_kind(bool_options(), "false"), false));
    fields.push(field("ico_color", "Icon color", text_kind(""), false));
    fields.push(field("base_url", "Base URL", url_kind(""), false));
    fields.push(field("align", "Align", enum_kind(align_options(), ""), false));
    fields.push(field("padding", "Padding", text_kind(""), false));
    let r = EditForm { title: owned("mj-navbar"), fields };
    assert(fields_view(r.fields@) =~= navbar_form_view().fields);
    r
}

/// The view of the `mj-navbar-link` form.
pub open spec fn navbar_link_form_view() -> SpecEditForm {
    SpecEditForm {
        title: "mj-navbar-link"@,
        fields: seq![
            sfield("href"@, "Href"@, SpecFieldKind::Url { default: "https://example.com"@ }, true),
            sfield("content"@, "Label"@, SpecFieldKind::Text { default: "Link"@ }, true),
            sfield("color"@, "Color"@, SpecFieldKind::Text { default: ""@ }, false),
            sfield("padding"@, "Padding"@, SpecFieldKind::Text { default: ""@ }, false),
        ],
    }
}

/// The `mj-navbar-link` form.
pub fn navbar_link_form() -> (r: EditForm)
    ensures
        r@ == navbar_link_form_view(),
{
    let mut fields: Vec<FormField> = Vec::new();
    fields.push(field("href", "Href", url_kind("https://example.com"), true));
    fields.push(field("content", "Label", text_kind("Link"), true));
    fields.push(field("color", "Color", text_kind(""), false));
    fields.push(field("padding", "Padding", text_kind(""), false));
    let r = EditForm { title: owned("mj-navbar-link"), fields };
    assert(fields_view(r.fields@) =~= navbar_link_form_view().fields);
    r
}

/// The view of the `mj-accordion` form.
pub open spec fn accordion_form_view() -> SpecEditForm {
    SpecEditForm {
        title: "mj-accordion"@,
        fields: seq![
            sfield("border"@, "Border"@, SpecFieldKind::Text { default: ""@ }, false),
            sfield("padding"@, "Padding"@, SpecFieldKind::Text { default: ""@ }, false),
        ],
    }
}

/// The `mj-accordion` form.
pub fn accordion_form() -> (r: EditForm)
    ensures
        r@ == accordion_form_view(),
{
    let mut fields: Vec<FormField> = Vec::new();
    fields.push(field("border", "Border", text_kind(""), false));
    fields.push(field("padding", "Padding", text_kind(""), false));
    let r = EditForm { title: owned("mj-accordion"), fields };
    assert(fields_view(r.fields@) =~= accordion_form_view().fields);
    r
}

/// The view of the `mj-accordion-element` form.
pub open spec fn accordion_element_form_view() -> SpecEditForm {
    SpecEditForm {
        title: "mj-accordion-element"@,
        fields: seq![
            sfield("title"@, "Title"@, SpecFieldKind::Text { default: "Title"@ }, true),
            sfield("content"@, "Content"@, SpecFieldKind::Textarea { rows: 6u16, default: ""@ }, false),
            sfield("background_color"@, "Background"@, SpecFieldKind::Text { default: ""@ }, false),
        ],
    }
}

/// The `mj-accordion-element` form.
pub fn accordion_element_form() -> (r: EditForm)
    ensures
        r@ == accordion_element_form_view(),
{
    let mut fields: Vec<FormField> = Vec::new();
    fields.push(field("title", "Title", text_kind("Title"), true));
    fields.push(field("content", "Content", textarea_kind(6, ""), false));
    fields.push(field("background_color", "Background", text_kind(""), false));
    let r = EditForm { title: owned("mj-accordion-element"), fields };
    assert(fields_view(r.fields@) =~= accordion_element_form_view().fields);
    r
}

/// The view of the `mj-carousel` form.
pub open spec fn carousel_form_view() -> SpecEditForm {
    SpecEditForm {
        title: "mj-carousel"@,
        fields: seq![
            sfield("align"@, "Align"@, SpecFieldKind::Enum { options: align_options_view(), default: ""@ }, false),
            sfield("padding"@, "Padding"@, SpecFieldKind::Text { default: ""@ }, false),
            sfield("thumbnails"@, "Thumbnails"@, SpecFieldKind::Enum { options: thumbnails_options_view(), default: "hidden"@ }, true),
        ],
    }
}

/// The `mj-carousel` form.
pub fn carousel_form() -> (r: EditForm)
    ensures
        r@ == carousel_form_view(),
{
    let mut fields: Vec<FormField> = Vec::new();
    fields.push(field("align", "Align", enum_kind(align_options(), ""), false));
    fields.push(field("padding", "Padding", text_kind(""), false));
    fields.push(field("thumbnails", "Thumbnails", enum_kind(thumbnails_options(), "hidden"), true));
    let r = EditForm { title: owned("mj-carousel"), fields };
    assert(fields_view(r.fields@) =~= carousel_form_view().fields);
    r
}

/// The view of the `mj-carousel-image` form.
pub open spec fn carousel_image_form_view() -> SpecEditForm {
    SpecEditForm {
        title: "mj-carousel-image"@,
        fields: seq![
            sfield("src"@, "Src"@, SpecFieldKind::Url { default: ""@ }, true),
            sfield("alt"@, "Alt"@, SpecFieldKind::Text { default: ""@ }, true),
            sfield("href"@, "Href"@, SpecFieldKind::Url { default: ""@ }, false),
            sfield("thumbnails_src"@, "Thumbnail src"@, SpecFieldKind::Url { default: ""@ }, false),
        ],
    }
}

/// The `mj-carousel-image` form.
pub fn carousel_image_form() -> (r: EditForm)
    ensures
        r@ == carousel_image_form_view(),
{
    let mut fields: Vec<FormField> = Vec::new();
    fields.push(field("src", "Src", url_kind(""), true));
    fields.push(field("alt", "Alt", text_kind(""), true));
    fields.push(field("href", "Href", url_kind(""), false));
    fields.push(field("thumbnails_src", "Thumbnail src", url_kind(""), false));
    let r = EditForm { title: owned("mj-carousel-image"), fields };
    assert(fields_view(r.fields@) =~= carousel_image_form_view().fields);
    r
}

/// The view of the `mj-table` form.
pub open spec fn table_form_view() -> SpecEditForm {
    SpecEditForm {
        title: "mj-table"@,
        fields: seq![
            sfield("content"@, "Table HTML"@, SpecFieldKind::Textarea { rows: 8u16, default: ""@ }, true),
            sfield("font_size"@, "Font size"@, SpecFieldKind::Text { default: ""@ }, false),
            sfield("color"@, "Color"@, SpecFieldKind::Text { default: ""@ }, false),
            sfield("padding"@, "Padding"@, SpecFieldKind::Text { default: ""@ }, false),
        ],
    }
}

/// The `mj-table` form.
pub fn table_form() -> (r: EditForm)
    ensures
        r@ == table_form_view(),
{
    let mut fields: Vec<FormField> = Vec::new();
    fields.push(field("content", "Table HTML", textarea_kind(8, ""), true));
    fields.push(field("font_size", "Font size", text_kind(""), false));
    fields.push(field("color", "Color", text_kind(""), false));
    fields.push(field("padding", "Padding", text_kind(""), false));
    let r = EditForm { title: owned("mj-table"), fields };
    assert(fields_view(r.fields@) =~= table_form_view().fields);
    r
}

/// The view of the `email-header` form.
pub open spec fn email_header_form_view() -> SpecEditForm {
    SpecEditForm {
        title: "email-header"@,
        fields: seq![
            sfield("logo_src"@, "Logo src"@, SpecFieldKind::Url { default: ""@ }, false),
            sfield("logo_alt"@, "Logo alt"@, SpecFieldKind::Text { default: ""@ }, false),
            sfield("logo_href"@, "Logo href"@, SpecFieldKind::Url { default: ""@ }, false),
            sfield("logo_width"@, "Logo width"@, SpecFieldKind::Text { default: "160px"@ }, false),
            sfield("background_color"@, "Background"@, SpecFieldKind::Text { default: ""@ }, false),
        ],
    }
}

/// The `email-header` form.
pub fn email_header_form() -> (r: EditForm)
    ensures
        r@ == email_header_form_view(),
{
    let mut fields: Vec<FormField> = Vec::new();
    fields.push(field("logo_src", "Logo src", url_kind(""), false));
    fields.push(field("logo_alt", "Logo alt", text_kind(""), false));
    fields.push(field("logo_href", "Logo href", url_kind(""), false));
    fields.push(field("logo_width", "Logo width", text_kind("160px"), false));
    fields.push(field("background_color", "Background", text_kind(""), false));
    let r = EditForm { title: owned("email-header"), fields };
    assert(fields_view(r.fields@) =~= email_header_form_view().fields);
    r
}

/// The view of the `email-hero` form.
pub open spec fn email_hero_form_view() -> SpecEditForm {
    SpecEditForm {
        title: "email-hero"@,
        fields: seq![
            sfield("image_src"@, "Image src"@, SpecFieldKind::Url { default: ""@ }, false),
            sfield("image_alt"@, "Image alt"@, SpecFieldKind::Text { default: ""@ }, false),
            sfield("heading"@, "Heading"@, SpecFieldKind::Text { default: ""@ }, false),
            sfield("subheading"@, "Subheading"@, SpecFieldKind::Text { default: ""@ }, false),
            sfield("background_color"@, "Background"@, SpecFieldKind::Text { default: ""@ }, false),
        ],
    }
}

/// The `email-hero` form.
pub fn email_hero_form() -> (r: EditForm)
    ensures
        r@ == email_hero_form_view(),
{
    let mut fields: Vec<FormField> = Vec::new();
    fields.push(field("image_src", "Image src", url_kind(""), false));
    fields.push(field("image_alt", "Image alt", text_kind(""), false));
    fields.push(field("heading", "Heading", text_kind(""), false));
    fields.push(field("subheading", "Subheading", text_kind(""), false));
    fields.push(field("background_color", "Background", text_kind(""), false));
    let r = EditForm { title: owned("email-hero"), fields };
    assert(fields_view(r.fields@) =~= email_hero_form_view().fields);
    r
}

/// The view of the `email-cta` form.
pub open spec fn email_cta_form_view() -> SpecEditForm {
    SpecEditForm {
        title: "email-cta"@,
        fields: seq![
            sfield("heading"@, "Heading"@, SpecFieldKind::Text { default: ""@ }, false),
            sfield("copy"@, "Copy"@, SpecFieldKind::Textarea { rows: 4u16, default: ""@ }, false),
            sfield("button_label"@, "Button label"@, SpecFieldKind::Text { default: ""@ }, false),
            sfield("button_href"@, "Button href"@, SpecFieldKind::Url { default: ""@ }, false),
            sfield("background_color"@, "Background"@, SpecFieldKind::Text { default: ""@ }, false),
        ],
    }
}

/// The `email-cta` form.
pub fn email_cta_form() -> (r: EditForm)
    ensures
        r@ == email_cta_form_view(),
{
    let mut fields: Vec<FormField> = Vec::new();
    fields.push(field("heading", "Heading", text_kind(""), false));
    fields.push(field("copy", "Copy", textarea_kind(4, ""), false));
    fields.push(field("button_label", "Button label", text_kind(""), false));
    fields.push(field("button_href", "Button href", url_kind(""), false));
    fields.push(field("background_color", "Background", text_kind(""), false));
    let r = EditForm { title: owned("email-cta"), fields };
    assert(fields_view(r.fields@) =~= email_cta_form_view().fields);
    r
}

/// The view of the `email-article` form.
pub open spec fn email_article_form_view() -> SpecEditForm {
    SpecEditForm {
        title: "email-article"@,
        fields: seq![
            sfield("image_src"@, "Image src"@, SpecFieldKind::Url { default: ""@ }, false),
            sfield("image_alt"@, "Image alt"@, SpecFieldKind::Text { default: ""@ }, false),
            sfield("title"@, "Title"@, SpecFieldKind::Text { default: ""@ }, false),
            sfield("copy"@, "Copy"@, SpecFieldKind::Textarea { rows: 4u16, default: ""@ }, false),
            sfield("link_label"@, "Link label"@, SpecFieldKind::Text { default: ""@ }, false),
            sfield("link_href"@, "Link href"@, SpecFieldKind::Url { default: ""@ }, false),
            sfield("image_position"@, "Image position"@, SpecFieldKind::Enum { options: image_pos_options_view(), default: "top"@ }, false),
        ],
    }
}

/// The `email-article` form.
pub fn email_article_form() -> (r: EditForm)
    ensures
        r@ == email_article_form_view(),
{
    let mut fields: Vec<FormField> = Vec::new();
    fields.push(field("image_src", "Image src", url_kind(""), false));
    fields.push(field("image_alt", "Image alt", text_kind(""), false));
    fields.push(field("title", "Title", text_kind(""), false));
    fields.push(field("copy", "Copy", textarea_kind(4, ""), false));
    fields.push(field("link_label", "Link label", text_kind(""), false));
    fields.push(field("link_href", "Link href", url_kind(""), false));
    fields.push(field("image_position", "Image position", enum_kind(image_pos_options(), "top"), false));
    let r = EditForm { title: owned("email-article"), fields };
    assert(fields_view(r.fields@) =~= email_article_form_view().fields);
    r
}

/// The view of the `email-footer` form.
pub open spec fn email_footer_form_view() -> SpecEditForm {
    SpecEditForm {
        title: "email-footer"@,
        fields: seq![
            sfield("company_name"@, "Company"@, SpecFieldKind::Text { default: ""@ }, false),
            sfield("address_lines"@, "Address (one line per row)"@, SpecFieldKind::Textarea { rows: 4u16, default: ""@ }, true),
            sfield("unsubscribe_label"@, "Unsubscribe label"@, SpecFieldKind::Text { default: ""@ }, false),
            sfield("unsubscribe_href"@, "Unsubscribe href"@, SpecFieldKind::Url { default: ""@ }, false),
            sfield("copyright"@, "Copyright"@, SpecFieldKind::Text { default: ""@ }, false),
            sfield("social"@, "Social"@, SpecFieldKind::SubForm { template: Box::new(social_item_form_view()), min_items: 0usize, summary_field_id: "name"@ }, false),
        ],
    }
}

/// The `email-footer` form.
pub fn email_footer_form() -> (r: EditForm)
    ensures
        r@ == email_footer_form_view(),
{
    let mut fields: Vec<FormField> = Vec::new();
    fields.push(field("company_name", "Company", text_kind(""), false));
    fields.push(field("address_lines", "Address (one line per row)", textarea_kind(4, ""), true));
    fields.push(field("unsubscribe_label", "Unsubscribe label", text_kind(""), false));
    fields.push(field("unsubscribe_href", "Unsubscribe href", url_kind(""), false));
    fields.push(field("copyright", "Copyright", text_kind(""), false));
    fields.push(field("social", "Social", subform_kind(social_item_form(), 0, "name"), false));
    let r = EditForm { title: owned("email-footer"), fields };
    assert(fields_view(r.fields@) =~= email_footer_form_view().fields);
    r
}

} // verus!
