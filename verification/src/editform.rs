//! The edit-form model: one [`EditForm`] per node kind, and the live
//! [`EditFormState`] holding the values a user is editing.
use vstd::prelude::*;

use crate::assoc::{assoc_get, assoc_map, assoc_set};
use crate::text::str_eq;

pub mod fields;
pub mod forms;

pub use fields::{
    EditForm, FieldKind, FieldPredicate, FormField, SpecEditForm, SpecFieldKind,
    SpecFieldPredicate, SpecFormField, field_view, fields_view, form_view, kind_view,
    lemma_fields_view, lemma_fields_view_index, lemma_form_view_fields, opt_str_view,
};

verus! {

broadcast use {lemma_fields_view, lemma_fields_view_index, lemma_form_view_fields};

/// The live state of a form being edited.
#[derive(Debug)]
pub struct EditFormState {
    pub form: EditForm,
    pub values: Vec<(String, String)>,
    pub sub_state: Vec<(String, Vec<EditFormState>)>,
    pub selected_sub_item: Vec<(String, usize)>,
    pub focused_field: usize,
    pub textarea_cursor: (usize, usize),
}

/// The value a map gives a field id, or the empty string.
pub open spec fn lookup_value(m: Map<Seq<char>, Seq<char>>, id: Seq<char>) -> Seq<char> {
    if m.contains_key(id) {
        m[id]
    } else {
        Seq::empty()
    }
}

/// The default values of a form's plain fields, later fields overriding earlier ones.
pub open spec fn defaults_map(fields: Seq<SpecFormField>) -> Map<Seq<char>, Seq<char>>
    decreases fields.len(),
{
    if fields.len() == 0 {
        Map::empty()
    } else {
        let m = defaults_map(fields.drop_last());
        let f = fields.last();
        match f.kind {
            SpecFieldKind::Text { default } => m.insert(f.id, default),
            SpecFieldKind::Textarea { default, .. } => m.insert(f.id, default),
            SpecFieldKind::Url { default } => m.insert(f.id, default),
            SpecFieldKind::Enum { default, .. } => m.insert(f.id, default),
            SpecFieldKind::SubForm { .. } => m,
        }
    }
}

/// The ids of a form's sub-form fields, each mapped to `v`.
pub open spec fn subform_ids_map<V>(fields: Seq<SpecFormField>, v: V) -> Map<Seq<char>, V>
    decreases fields.len(),
{
    if fields.len() == 0 {
        Map::empty()
    } else {
        let m = subform_ids_map(fields.drop_last(), v);
        match fields.last().kind {
            SpecFieldKind::SubForm { .. } => m.insert(fields.last().id, v),
            _ => m,
        }
    }
}

/// Whether a field is shown, given the current values.
pub open spec fn field_shown(m: Map<Seq<char>, Seq<char>>, f: SpecFormField) -> bool {
    match f.visible_when {
        None => true,
        Some(SpecFieldPredicate::FieldEquals { other_id, value }) => lookup_value(m, other_id) == value,
    }
}

/// The indices among the first `n` fields that are shown, in order.
pub open spec fn visible_upto(fields: Seq<SpecFormField>, m: Map<Seq<char>, Seq<char>>, n: nat) -> Seq<usize>
    decreases n,
{
    if n == 0 {
        Seq::empty()
    } else {
        let r = visible_upto(fields, m, (n - 1) as nat);
        if field_shown(m, fields[n - 1]) {
            r.push((n - 1) as usize)
        } else {
            r
        }
    }
}

/// The indices of the shown fields, in order.
pub open spec fn visible_indices(fields: Seq<SpecFormField>, m: Map<Seq<char>, Seq<char>>) -> Seq<usize> {
    visible_upto(fields, m, fields.len())
}

/// The position of the first occurrence of `x` in `s`, or `s.len()` when absent.
pub open spec fn seq_pos<A>(s: Seq<A>, x: A) -> nat
    decreases s.len(),
{
    if s.len() == 0 {
        0
    } else if s[0] == x {
        0
    } else {
        1 + seq_pos(s.skip(1), x)
    }
}

/// Where the cursor stands in a cycle: the position of `x`, or the start when absent.
pub open spec fn cycle_pos<A>(s: Seq<A>, x: A) -> int {
    if seq_pos(s, x) < s.len() {
        seq_pos(s, x) as int
    } else {
        0
    }
}

/// The position after `p` in a cycle of `n` (forward) or before it (backward).
pub open spec fn step_pos(p: int, n: int, forward: bool) -> int {
    if forward {
        (p + 1) % n
    } else if p == 0 {
        n - 1
    } else {
        p - 1
    }
}

/// The field focused after moving from `cur` among the visible fields `vis`.
pub open spec fn moved_focus(vis: Seq<usize>, cur: usize, forward: bool) -> usize {
    vis[step_pos(cycle_pos(vis, cur), vis.len() as int, forward)]
}

/// The option chosen after cycling from value `v` through `options`.
pub open spec fn cycled(options: Seq<Seq<char>>, v: Seq<char>, forward: bool) -> Seq<char> {
    options[step_pos(cycle_pos(options, v), options.len() as int, forward)]
}

/// The form of the first sub-form field called `id`, if any.
pub open spec fn subform_template(fields: Seq<SpecFormField>, id: Seq<char>) -> Option<SpecEditForm>
    decreases fields.len(),
{
    if fields.len() == 0 {
        None
    } else if fields[0].id == id && fields[0].kind is SubForm {
        Some(*fields[0].kind->template)
    } else {
        subform_template(fields.skip(1), id)
    }
}

/// The position of the first field called `id`.
pub open spec fn field_pos(fields: Seq<SpecFormField>, id: Seq<char>) -> nat
    decreases fields.len(),
{
    if fields.len() == 0 {
        0
    } else if fields[0].id == id {
        0
    } else {
        1 + field_pos(fields.skip(1), id)
    }
}

impl EditFormState {
    /// The values as a map from field id.
    pub open spec fn value_map(&self) -> Map<Seq<char>, Seq<char>> {
        assoc_map(self.values@)
    }

    /// The value of a field (empty when unset).
    pub open spec fn value_of(&self, id: Seq<char>) -> Seq<char> {
        lookup_value(self.value_map(), id)
    }

    /// The sub-form item lists as a map from field id.
    pub open spec fn sub_map(&self) -> Map<Seq<char>, Seq<EditFormState>> {
        assoc_map(self.sub_state@)
    }

    /// The selected sub-form items as a map from field id.
    pub open spec fn selected_map(&self) -> Map<Seq<char>, usize> {
        assoc_map(self.selected_sub_item@)
    }

    /// The indices of the fields shown in this state.
    pub open spec fn visible(&self) -> Seq<usize> {
        visible_indices(self.form@.fields, self.value_map())
    }

    /// A state as [`EditFormState::new`] makes it for its form.
    pub open spec fn is_fresh(&self) -> bool {
        &&& self.value_map() == defaults_map(self.form@.fields)
        &&& self.sub_map() == subform_ids_map(self.form@.fields, Seq::<EditFormState>::empty())
        &&& self.selected_map() == subform_ids_map(self.form@.fields, 0usize)
        &&& self.focused_field == 0
        &&& self.textarea_cursor == (0usize, 0usize)
    }

    /// A fresh state for `form`: each plain field holds its default, each
    /// sub-form field an empty list with the first item selected.
    pub fn new(form: EditForm) -> (r: Self)
        ensures
            r.form == form,
            r.is_fresh(),
    {
        let mut values: Vec<(String, String)> = Vec::new();
        let mut sub_state: Vec<(String, Vec<EditFormState>)> = Vec::new();
        let mut selected_sub_item: Vec<(String, usize)> = Vec::new();
        let ghost fs = form@.fields;
        let mut i: usize = 0;
        while i < form.fields.len()
            invariant
                i <= form.fields@.len(),
                fs == form@.fields,
                assoc_map(values@) == defaults_map(fs.take(i as int)),
                assoc_map(sub_state@) == subform_ids_map(fs.take(i as int), Seq::<EditFormState>::empty()),
                assoc_map(selected_sub_item@) == subform_ids_map(fs.take(i as int), 0usize),
            decreases form.fields@.len() - i,
        {
            let field = &form.fields[i];
            assert(fs.take(i + 1).drop_last() =~= fs.take(i as int));
            assert(fs.take(i + 1).last() == field_view(*field));
            match &field.kind {
                FieldKind::Text { default } => {
                    assoc_set(&mut values, field.id.as_str(), default.clone());
                },
                FieldKind::Url { default } => {
                    assoc_set(&mut values, field.id.as_str(), default.clone());
                },
                FieldKind::Textarea { default, .. } => {
                    assoc_set(&mut values, field.id.as_str(), default.clone());
                },
                FieldKind::Enum { default, .. } => {
                    assoc_set(&mut values, field.id.as_str(), default.clone());
                },
                FieldKind::SubForm { .. } => {
                    assoc_set(&mut sub_state, field.id.as_str(), Vec::new());
                    assoc_set(&mut selected_sub_item, field.id.as_str(), 0usize);
                },
            }
            i = i + 1;
        }
        assert(fs.take(fs.len() as int) =~= fs);
        EditFormState { form, values, sub_state, selected_sub_item, focused_field: 0, textarea_cursor: (0, 0) }
    }

    /// A fresh item state for the sub-form field `subform_field_id` (the first
    /// field of that id that is a sub-form), or `None` when there is none.
    pub fn new_sub_item(&self, subform_field_id: &str) -> (r: Option<EditFormState>)
        ensures
            match subform_template(self.form@.fields, subform_field_id@) {
                Some(t) => r is Some && r->0.form@ == t && r->0.is_fresh(),
                None => r is None,
            },
    {
        let mut i: usize = 0;
        assert(self.form@.fields.skip(0) =~= self.form@.fields);
        while i < self.form.fields.len()
            invariant
                i <= self.form.fields@.len(),
                subform_template(self.form@.fields, subform_field_id@)
                    == subform_template(self.form@.fields.skip(i as int), subform_field_id@),
            decreases self.form.fields@.len() - i,
        {
            let field = &self.form.fields[i];
            assert(self.form@.fields.skip(i as int)[0] == field_view(*field));
            assert(self.form@.fields.skip(i as int).skip(1) =~= self.form@.fields.skip(i + 1));
            if str_eq(field.id.as_str(), subform_field_id) {
                if let FieldKind::SubForm { template, .. } = &field.kind {
                    let f = clone_form(template);
                    return Some(EditFormState::new(f));
                }
            }
            i = i + 1;
        }
        None
    }

    /// The value of field `id`, or `""` when it has none.
    pub fn get(&self, id: &str) -> (r: &str)
        ensures
            r@ == self.value_of(id@),
    {
        match assoc_get(&self.values, id) {
            Some(v) => v.as_str(),
            None => {
                proof {
                    reveal_strlit("");
                }
                ""
            },
        }
    }

    /// Sets field `id` to `value`; nothing else changes.
    pub fn set(&mut self, id: &str, value: &str)
        ensures
            final(self).value_map() == old(self).value_map().insert(id@, value@),
            final(self).form == old(self).form,
            final(self).sub_state == old(self).sub_state,
            final(self).selected_sub_item == old(self).selected_sub_item,
            final(self).focused_field == old(self).focused_field,
            final(self).textarea_cursor == old(self).textarea_cursor,
    {
        assoc_set(&mut self.values, id, String::from_str(value));
    }

    /// Whether `field` is shown given the current values.
    pub fn field_visible(&self, field: &FormField) -> (r: bool)
        ensures
            r == field_shown(self.value_map(), field@),
    {
        match &field.visible_when {
            None => true,
            Some(FieldPredicate::FieldEquals { other_id, value }) => str_eq(
                self.get(other_id.as_str()),
                value.as_str(),
            ),
        }
    }

    /// The indices of the fields shown, in order.
    pub fn visible_field_indices(&self) -> (r: Vec<usize>)
        ensures
            r@ == self.visible(),
    {
        let mut r: Vec<usize> = Vec::new();
        let mut i: usize = 0;
        while i < self.form.fields.len()
            invariant
                i <= self.form.fields@.len(),
                r@ == visible_upto(self.form@.fields, self.value_map(), i as nat),
            decreases self.form.fields@.len() - i,
        {
            assert(self.form@.fields[i as int] == self.form.fields@[i as int]@);
            if self.field_visible(&self.form.fields[i]) {
                r.push(i);
            }
            i = i + 1;
        }
        r
    }

    /// Moves the focus to the next shown field, wrapping around.
    pub fn focus_next(&mut self)
        ensures
            old(self).visible().len() == 0 ==> *final(self) == *old(self),
            old(self).visible().len() > 0 ==> *final(self) == (EditFormState {
                focused_field: moved_focus(old(self).visible(), old(self).focused_field, true),
                textarea_cursor: (0usize, 0usize),
                ..*old(self)
            }),
    {
        let visible = self.visible_field_indices();
        if visible.len() == 0 {
            return;
        }
        let p = position_or_start(&visible, self.focused_field);
        self.focused_field = visible[(p + 1) % visible.len()];
        self.textarea_cursor = (0, 0);
    }

    /// Moves the focus to the previous shown field, wrapping around.
    pub fn focus_prev(&mut self)
        ensures
            old(self).visible().len() == 0 ==> *final(self) == *old(self),
            old(self).visible().len() > 0 ==> *final(self) == (EditFormState {
                focused_field: moved_focus(old(self).visible(), old(self).focused_field, false),
                textarea_cursor: (0usize, 0usize),
                ..*old(self)
            }),
    {
        let visible = self.visible_field_indices();
        if visible.len() == 0 {
            return;
        }
        let p = position_or_start(&visible, self.focused_field);
        let q = if p == 0 {
            visible.len() - 1
        } else {
            p - 1
        };
        self.focused_field = visible[q];
        self.textarea_cursor = (0, 0);
    }

    /// The focused field, if the focus index is in range.
    pub fn focused(&self) -> (r: Option<&FormField>)
        ensures
            match r {
                Some(f) => self.focused_field < self.form.fields@.len()
                    && *f == self.form.fields@[self.focused_field as int],
                None => self.focused_field >= self.form.fields@.len(),
            },
    {
        if self.focused_field < self.form.fields.len() {
            Some(&self.form.fields[self.focused_field])
        } else {
            None
        }
    }

    /// Steps the focused enum field to its next (or previous) option; a value
    /// that is not an option counts as the first one. Other fields, and a
    /// focus on anything but a non-empty enum, leave the state unchanged.
    pub fn cycle_enum(&mut self, forward: bool)
        ensures
            ({
                let fs = old(self).form@.fields;
                let i = old(self).focused_field as int;
                if i < fs.len() && fs[i].kind is Enum && fs[i].kind->Enum_options.len() > 0 {
                    &&& final(self).value_map() == old(self).value_map().insert(
                        fs[i].id,
                        cycled(fs[i].kind->Enum_options, old(self).value_of(fs[i].id), forward),
                    )
                    &&& final(self).form == old(self).form
                    &&& final(self).sub_state == old(self).sub_state
                    &&& final(self).selected_sub_item == old(self).selected_sub_item
                    &&& final(self).focused_field == old(self).focused_field
                    &&& final(self).textarea_cursor == old(self).textarea_cursor
                } else {
                    *final(self) == *old(self)
                }
            }),
    {
        if self.focused_field >= self.form.fields.len() {
            return;
        }
        let ghost fv = self.form.fields@[self.focused_field as int]@;
        let (id, next) = {
            let field = &self.form.fields[self.focused_field];
            match &field.kind {
                FieldKind::Enum { options, .. } => {
                    if options.len() == 0 {
                        return;
                    }
                    let current = self.get(field.id.as_str());
                    let p = option_position_or_start(options, current);
                    let n = if forward {
                        (p + 1) % options.len()
                    } else if p == 0 {
                        options.len() - 1
                    } else {
                        p - 1
                    };
                    assert(fv.kind->Enum_options[n as int] == options@[n as int]@);
                    (field.id.clone(), options[n].clone())
                },
                _ => {
                    return;
                },
            }
        };
        self.set(id.as_str(), next.as_str());
    }

    /// The index of the first field called `id`.
    pub fn field_index(&self, id: &str) -> (r: Option<usize>)
        ensures
            match r {
                Some(i) => i == field_pos(self.form@.fields, id@) && i < self.form.fields@.len(),
                None => field_pos(self.form@.fields, id@) == self.form.fields@.len(),
            },
    {
        let mut i: usize = 0;
        assert(self.form@.fields.skip(0) =~= self.form@.fields);
        while i < self.form.fields.len()
            invariant
                i <= self.form.fields@.len(),
                field_pos(self.form@.fields, id@) == i + field_pos(self.form@.fields.skip(i as int), id@),
            decreases self.form.fields@.len() - i,
        {
            assert(self.form@.fields.skip(i as int)[0] == self.form.fields@[i as int]@);
            assert(self.form@.fields.skip(i as int).skip(1) =~= self.form@.fields.skip(i + 1));
            if str_eq(self.form.fields[i].id.as_str(), id) {
                return Some(i);
            }
            i = i + 1;
        }
        None
    }
}

/// The position of `x` in `v`, or 0 when absent.
fn position_or_start(v: &Vec<usize>, x: usize) -> (r: usize)
    ensures
        r == cycle_pos(v@, x),
        v@.len() > 0 ==> r < v@.len(),
{
    let mut k: usize = 0;
    assert(v@.skip(0) =~= v@);
    while k < v.len()
        invariant
            k <= v@.len(),
            seq_pos(v@, x) == k + seq_pos(v@.skip(k as int), x),
        decreases v@.len() - k,
    {
        assert(v@.skip(k as int)[0] == v@[k as int]);
        assert(v@.skip(k as int).skip(1) =~= v@.skip(k + 1));
        if v[k] == x {
            return k;
        }
        k = k + 1;
    }
    0
}

/// The position of the option reading `x`, or 0 when absent.
fn option_position_or_start(v: &Vec<String>, x: &str) -> (r: usize)
    ensures
        r == cycle_pos(v@.map_values(|o: String| o@), x@),
        v@.len() > 0 ==> r < v@.len(),
{
    let ghost s = v@.map_values(|o: String| o@);
    let mut k: usize = 0;
    assert(s.skip(0) =~= s);
    while k < v.len()
        invariant
            k <= v@.len(),
            s == v@.map_values(|o: String| o@),
            seq_pos(s, x@) == k + seq_pos(s.skip(k as int), x@),
        decreases v@.len() - k,
    {
        assert(s.skip(k as int)[0] == v@[k as int]@);
        assert(s.skip(k as int).skip(1) =~= s.skip(k + 1));
        if str_eq(v[k].as_str(), x) {
            return k;
        }
        k = k + 1;
    }
    0
}

/// A copy of a form.
pub fn clone_form(f: &EditForm) -> (r: EditForm)
    ensures
        r@ == f@,
    decreases f,
{
    let mut fields: Vec<FormField> = Vec::new();
    let mut i: usize = 0;
    while i < f.fields.len()
        invariant
            i <= f.fields@.len(),
            fields@.len() == i,
            forall|k: int| 0 <= k < i ==> (#[trigger] fields@[k])@ == f.fields@[k]@,
        decreases f.fields@.len() - i,
    {
        let c = clone_field(&f.fields[i]);
        fields.push(c);
        i = i + 1;
    }
    assert(fields_view(fields@) =~= fields_view(f.fields@));
    EditForm { title: f.title.clone(), fields }
}

/// A copy of a field.
pub fn clone_field(f: &FormField) -> (r: FormField)
    ensures
        r@ == f@,
    decreases f,
{
    let kind = match &f.kind {
        FieldKind::Text { default } => FieldKind::Text { default: default.clone() },
        FieldKind::Textarea { rows, default } => FieldKind::Textarea { rows: *rows, default: default.clone() },
        FieldKind::Url { default } => FieldKind::Url { default: default.clone() },
        FieldKind::Enum { options, default } => {
            let mut o: Vec<String> = Vec::new();
            let mut i: usize = 0;
            while i < options.len()
                invariant
                    i <= options@.len(),
                    o@.len() == i,
                    forall|k: int| 0 <= k < i ==> (#[trigger] o@[k])@ == options@[k]@,
                decreases options@.len() - i,
            {
                o.push(options[i].clone());
                i = i + 1;
            }
            assert(o@.map_values(|x: String| x@) =~= options@.map_values(|x: String| x@));
            FieldKind::Enum { options: o, default: default.clone() }
        },
        FieldKind::SubForm { template, min_items, summary_field_id } => {
            let t = clone_form(template);
            FieldKind::SubForm {
                template: Box::new(t),
                min_items: *min_items,
                summary_field_id: summary_field_id.clone(),
            }
        },
    };
    let visible_when = match &f.visible_when {
        Some(FieldPredicate::FieldEquals { other_id, value }) => Some(
            FieldPredicate::FieldEquals { other_id: other_id.clone(), value: value.clone() },
        ),
        None => None,
    };
    FormField {
        id: f.id.clone(),
        label: f.label.clone(),
        kind,
        required: f.required,
        visible_when,
        hint: f.hint.clone(),
        placeholder: f.placeholder.clone(),
    }
}

impl Clone for EditForm {
    fn clone(&self) -> (r: Self)
        ensures
            r@ == self@,
    {
        clone_form(self)
    }
}

/// In a sequence without repeats, an item's position is its index.
pub proof fn lemma_seq_pos_distinct<A>(s: Seq<A>, i: int)
    requires
        0 <= i < s.len(),
        forall|a: int, b: int| 0 <= a < b < s.len() ==> s[a] != s[b],
    ensures
        seq_pos(s, s[i]) == i,
    decreases s.len(),
{
    if i > 0 {
        let t = s.skip(1);
        assert(t[i - 1] == s[i]);
        assert forall|a: int, b: int| 0 <= a < b < t.len() implies t[a] != t[b] by {
            assert(t[a] == s[a + 1] && t[b] == s[b + 1]);
        }
        lemma_seq_pos_distinct(t, i - 1);
        assert(s[0] != s[i]);
    }
}

/// Stepping forward then back (or back then forward) in a cycle of
/// distinct items returns to the starting item.
pub proof fn lemma_step_round_trip<A>(s: Seq<A>, x: A, first: bool)
    requires
        s.len() > 0,
        s.contains(x),
        forall|a: int, b: int| 0 <= a < b < s.len() ==> s[a] != s[b],
    ensures
        ({
            let n = s.len() as int;
            let y = s[step_pos(cycle_pos(s, x), n, first)];
            s[step_pos(cycle_pos(s, y), n, !first)] == x
        }),
{
    let n = s.len() as int;
    let i = choose|i: int| 0 <= i < s.len() && s[i] == x;
    lemma_seq_pos_distinct(s, i);
    let j = step_pos(i, n, first);
    if first {
        if i + 1 < n {
            assert((i + 1) % n == i + 1) by (nonlinear_arith)
                requires 0 <= i + 1 < n;
        } else {
            assert((i + 1) % n == 0) by (nonlinear_arith)
                requires i + 1 == n, n > 0;
        }
    } else {
        if i == 0 {
            assert((n - 1 + 1) % n == 0) by (nonlinear_arith)
                requires n > 0;
        } else {
            assert((i - 1 + 1) % n == i) by (nonlinear_arith)
                requires 0 < i < n;
        }
    }
    assert(0 <= j < n);
    lemma_seq_pos_distinct(s, j);
    assert(step_pos(j, n, !first) == i);
}

/// Focus round trip: from a shown field, moving the focus forward and then
/// back (or back and then forward) returns it to that field, as long as the
/// values (and so the set of shown fields) stay the same.
pub proof fn law_focus_round_trip(fields: Seq<SpecFormField>, m: Map<Seq<char>, Seq<char>>, cur: usize, first: bool)
    requires
        fields.len() <= usize::MAX,
        visible_indices(fields, m).contains(cur),
    ensures
        ({
            let vis = visible_indices(fields, m);
            moved_focus(vis, moved_focus(vis, cur, first), !first) == cur
        }),
{
    let vis = visible_indices(fields, m);
    lemma_visible_upto_increasing(fields, m, fields.len());
    lemma_step_round_trip(vis, cur, first);
}

/// The shown indices are strictly increasing and below `n`.
pub proof fn lemma_visible_upto_increasing(fields: Seq<SpecFormField>, m: Map<Seq<char>, Seq<char>>, n: nat)
    requires
        n <= usize::MAX,
    ensures
        forall|a: int, b: int| 0 <= a < b < visible_upto(fields, m, n).len()
            ==> visible_upto(fields, m, n)[a] < visible_upto(fields, m, n)[b],
        forall|a: int| 0 <= a < visible_upto(fields, m, n).len() ==> visible_upto(fields, m, n)[a] < n,
    decreases n,
{
    if n > 0 {
        let r = visible_upto(fields, m, (n - 1) as nat);
        lemma_visible_upto_increasing(fields, m, (n - 1) as nat);
        if field_shown(m, fields[n - 1]) {
            let r2 = r.push((n - 1) as usize);
            assert(visible_upto(fields, m, n) == r2);
            assert forall|a: int, b: int| 0 <= a < b < r2.len() implies r2[a] < r2[b] by {
                if b < r.len() {
                    assert(r2[a] == r[a] && r2[b] == r[b]);
                } else {
                    assert(r2[a] == r[a]);
                }
            }
            assert forall|a: int| 0 <= a < r2.len() implies r2[a] < n by {
                if a < r.len() {
                    assert(r2[a] == r[a]);
                }
            }
        }
    }
}

/// Enum round trip: cycling a field whose value is one of its (distinct)
/// options forward and then back (or back and then forward) restores the value.
pub proof fn law_cycle_round_trip(options: Seq<Seq<char>>, v: Seq<char>, first: bool)
    requires
        options.contains(v),
        forall|a: int, b: int| 0 <= a < b < options.len() ==> options[a] != options[b],
    ensures
        cycled(options, cycled(options, v, first), !first) == v,
{
    lemma_step_round_trip(options, v, first);
}

/// Reading a field right after setting it gives the value set.
pub proof fn law_get_after_set(m: Map<Seq<char>, Seq<char>>, id: Seq<char>, v: Seq<char>)
    ensures
        lookup_value(m.insert(id, v), id) == v,
{
}

/// Whether the form has a field with this id.
pub open spec fn has_field(fields: Seq<SpecFormField>, id: Seq<char>) -> bool {
    exists|i: int| 0 <= i < fields.len() && (#[trigger] fields[i]).id == id
}

/// Every value a form starts with belongs to one of its fields.
pub proof fn lemma_defaults_are_fields(fields: Seq<SpecFormField>)
    ensures
        forall|k: Seq<char>| #[trigger] defaults_map(fields).dom().contains(k) ==> has_field(fields, k),
    decreases fields.len(),
{
    if fields.len() > 0 {
        let init = fields.drop_last();
        lemma_defaults_are_fields(init);
        assert forall|k: Seq<char>| #[trigger] defaults_map(fields).dom().contains(k) implies has_field(fields, k) by {
            if k == fields.last().id {
                assert(fields[fields.len() - 1].id == k);
            } else {
                assert(defaults_map(init).dom().contains(k));
                let i = choose|i: int| 0 <= i < init.len() && (#[trigger] init[i]).id == k;
                assert(fields[i] == init[i]);
            }
        }
    }
}

} // verus!
