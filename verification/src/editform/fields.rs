//! Forms and fields, and their views.
use vstd::prelude::*;


verus! {

/// A form: a title and its fields, in display order.
#[derive(Debug)]
pub struct EditForm {
    pub title: String,
    pub fields: Vec<FormField>,
}

/// One field of a form.
#[derive(Debug)]
pub struct FormField {
    pub id: String,
    pub label: String,
    pub kind: FieldKind,
    pub required: bool,
    pub visible_when: Option<FieldPredicate>,
    pub hint: Option<String>,
    pub placeholder: Option<String>,
}

/// The input a field takes.
#[derive(Debug)]
pub enum FieldKind {
    Text { default: String },
    Textarea { rows: u16, default: String },
    Url { default: String },
    Enum { options: Vec<String>, default: String },
    SubForm { template: Box<EditForm>, min_items: usize, summary_field_id: String },
}

/// When a field is shown.
#[derive(Debug)]
pub enum FieldPredicate {
    FieldEquals { other_id: String, value: String },
}

/// The view of an [`EditForm`].
pub struct SpecEditForm {
    pub title: Seq<char>,
    pub fields: Seq<SpecFormField>,
}

/// The view of a [`FormField`].
pub struct SpecFormField {
    pub id: Seq<char>,
    pub label: Seq<char>,
    pub kind: SpecFieldKind,
    pub required: bool,
    pub visible_when: Option<SpecFieldPredicate>,
    pub hint: Option<Seq<char>>,
    pub placeholder: Option<Seq<char>>,
}

/// The view of a [`FieldKind`].
pub enum SpecFieldKind {
    Text { default: Seq<char> },
    Textarea { rows: u16, default: Seq<char> },
    Url { default: Seq<char> },
    Enum { options: Seq<Seq<char>>, default: Seq<char> },
    SubForm { template: Box<SpecEditForm>, min_items: usize, summary_field_id: Seq<char> },
}

/// The view of a [`FieldPredicate`].
pub enum SpecFieldPredicate {
    FieldEquals { other_id: Seq<char>, value: Seq<char> },
}

/// The view of an optional string.
pub open spec fn opt_str_view(o: Option<String>) -> Option<Seq<char>> {
    match o {
        Some(s) => Some(s@),
        None => None,
    }
}

/// The view of a form (recursive through sub-form templates).
pub open spec fn form_view(f: EditForm) -> SpecEditForm
    decreases f,
{
    SpecEditForm { title: f.title@, fields: fields_view(f.fields@) }
}

/// Element-wise view of form fields.
pub open spec fn fields_view(s: Seq<FormField>) -> Seq<SpecFormField>
    decreases s,
{
    if s.len() == 0 {
        Seq::empty()
    } else {
        fields_view(s.drop_last()).push(field_view(s.last()))
    }
}

/// The view of a field.
pub open spec fn field_view(f: FormField) -> SpecFormField
    decreases f,
{
    SpecFormField {
        id: f.id@,
        label: f.label@,
        kind: kind_view(f.kind),
        required: f.required,
        visible_when: match f.visible_when {
            Some(FieldPredicate::FieldEquals { other_id, value }) => Some(
                SpecFieldPredicate::FieldEquals { other_id: other_id@, value: value@ },
            ),
            None => None,
        },
        hint: opt_str_view(f.hint),
        placeholder: opt_str_view(f.placeholder),
    }
}

/// The view of a field kind.
pub open spec fn kind_view(k: FieldKind) -> SpecFieldKind
    decreases k,
{
    match k {
        FieldKind::Text { default } => SpecFieldKind::Text { default: default@ },
        FieldKind::Textarea { rows, default } => SpecFieldKind::Textarea { rows, default: default@ },
        FieldKind::Url { default } => SpecFieldKind::Url { default: default@ },
        FieldKind::Enum { options, default } => SpecFieldKind::Enum {
            options: options@.map_values(|o: String| o@),
            default: default@,
        },
        FieldKind::SubForm { template, min_items, summary_field_id } => SpecFieldKind::SubForm {
            template: Box::new(form_view(*template)),
            min_items,
            summary_field_id: summary_field_id@,
        },
    }
}

impl View for EditForm {
    type V = SpecEditForm;

    open spec fn view(&self) -> SpecEditForm {
        form_view(*self)
    }
}

impl View for FormField {
    type V = SpecFormField;

    open spec fn view(&self) -> SpecFormField {
        field_view(*self)
    }
}

/// The view of a sequence of fields has one view per field.
pub broadcast proof fn lemma_fields_view(s: Seq<FormField>)
    ensures
        #[trigger] fields_view(s).len() == s.len(),
    decreases s.len(),
{
    if s.len() > 0 {
        lemma_fields_view(s.drop_last());
    }
}

/// Each field's view stands at its index.
pub broadcast proof fn lemma_fields_view_index(s: Seq<FormField>, k: int)
    requires
        0 <= k < s.len(),
    ensures
        #[trigger] fields_view(s)[k] == field_view(s[k]),
    decreases s.len(),
{
    lemma_fields_view(s);
    lemma_fields_view(s.drop_last());
    if k < s.len() - 1 {
        lemma_fields_view_index(s.drop_last(), k);
        assert(s.drop_last()[k] == s[k]);
    }
}

/// The fields of a form's view are the views of its fields.
pub broadcast proof fn lemma_form_view_fields(f: EditForm)
    ensures
        #[trigger] form_view(f).fields == fields_view(f.fields@),
{
}

} // verus!
