//! The image picker: browsing the template's image folder with a name
//! filter, going up (never above the template root) and down, and picking a
//! file as a path relative to the root.
use vstd::prelude::*;

use crate::chrome::{KeyCode, KeyInput};
use crate::modal::without_last_char;
use crate::paths::{join, join_path, path_parent};
use crate::text::{chars_of, contains, push_char, seq_contains};

verus! {

/// A name as `str::to_lowercase` lowercases it (full Unicode case mapping).
pub uninterp spec fn str_lowercase(s: Seq<char>) -> Seq<char>;

/// Whether `char::is_alphanumeric` holds of the character (Unicode
/// letters and numbers).
pub uninterp spec fn char_alphanumeric(c: char) -> bool;

/// Whether `std::path::Path::starts_with` holds: the components of `base`
/// are a prefix of the components of `p`.
pub uninterp spec fn path_has_prefix(p: Seq<char>, base: Seq<char>) -> bool;

/// What `std::path::Path::strip_prefix` leaves of `p` once `base` is taken
/// off the front, as text (`None` when `p` does not start with `base`).
pub uninterp spec fn path_stripped(p: Seq<char>, base: Seq<char>) -> Option<Seq<char>>;

/// `str::to_lowercase`.  Its result depends on the text alone; the contract
/// claims no more than that, by naming it [`str_lowercase`].
#[verifier::external_body]
fn lowercase(s: &str) -> (r: String)
    ensures
        r@ == str_lowercase(s@),
{
    s.to_lowercase()
}

/// `char::is_alphanumeric`, named [`char_alphanumeric`].
#[verifier::external_body]
fn is_alphanumeric(c: char) -> (r: bool)
    ensures
        r == char_alphanumeric(c),
{
    c.is_alphanumeric()
}

/// `std::path::Path::starts_with` on two paths given as text, named
/// [`path_has_prefix`].
#[verifier::external_body]
fn starts_with_path(p: &str, base: &str) -> (r: bool)
    ensures
        r == path_has_prefix(p@, base@),
{
    std::path::Path::new(p).starts_with(std::path::Path::new(base))
}

/// `std::path::Path::strip_prefix`, the rest converted back to text, named
/// [`path_stripped`].
#[verifier::external_body]
fn strip_prefix(p: &str, base: &str) -> (r: Option<String>)
    ensures
        match r {
            Some(s) => path_stripped(p@, base@) == Some(s@),
            None => path_stripped(p@, base@) is None,
        },
{
    match std::path::Path::new(p).strip_prefix(std::path::Path::new(base)) {
        Ok(rest) => Some(rest.to_string_lossy().into_owned()),
        Err(_) => None,
    }
}

/// A directory entry as the picker lists it.
#[derive(Debug)]
pub struct DirEntryRow {
    pub name: String,
    pub is_dir: bool,
}

impl View for DirEntryRow {
    type V = (Seq<char>, bool);

    open spec fn view(&self) -> (Seq<char>, bool) {
        (self.name@, self.is_dir)
    }
}

/// The entries among the first `n` whose lowercased name contains `needle`.
pub open spec fn keep_matching(es: Seq<(Seq<char>, bool)>, needle: Seq<char>, n: nat) -> Seq<(Seq<char>, bool)>
    decreases n,
{
    if n == 0 {
        Seq::empty()
    } else {
        let rest = keep_matching(es, needle, (n - 1) as nat);
        if seq_contains(str_lowercase(es[n - 1].0), needle) {
            rest.push(es[n - 1])
        } else {
            rest
        }
    }
}

/// The entries the filter lets through: all of them for an empty filter,
/// else those whose lowercased name contains the lowercased filter.
pub open spec fn filtered(es: Seq<(Seq<char>, bool)>, filter: Seq<char>) -> Seq<(Seq<char>, bool)> {
    if filter.len() == 0 {
        es
    } else {
        keep_matching(es, str_lowercase(filter), es.len())
    }
}

fn copy_entry(e: &DirEntryRow) -> (r: DirEntryRow)
    ensures
        r@ == e@,
{
    DirEntryRow { name: e.name.clone(), is_dir: e.is_dir }
}

/// The entries the filter lets through, in their order.
pub fn filter_entries(entries: &Vec<DirEntryRow>, filter: &str) -> (r: Vec<DirEntryRow>)
    ensures
        r@.map_values(|e: DirEntryRow| e@) == filtered(entries@.map_values(|e: DirEntryRow| e@), filter@),
{
    let ghost es = entries@.map_values(|e: DirEntryRow| e@);
    let fc = chars_of(filter);
    let mut r: Vec<DirEntryRow> = Vec::new();
    if fc.len() == 0 {
        let mut i: usize = 0;
        while i < entries.len()
            invariant
                i <= entries@.len(),
                es == entries@.map_values(|e: DirEntryRow| e@),
                r@.len() == i,
                forall|k: int| 0 <= k < i ==> (#[trigger] r@[k])@ == es[k],
            decreases entries@.len() - i,
        {
            r.push(copy_entry(&entries[i]));
            i = i + 1;
        }
        assert(r@.map_values(|e: DirEntryRow| e@) =~= es);
        return r;
    }
    let needle = lowercase(filter);
    let mut i: usize = 0;
    while i < entries.len()
        invariant
            i <= entries@.len(),
            es == entries@.map_values(|e: DirEntryRow| e@),
            needle@ == str_lowercase(filter@),
            r@.map_values(|e: DirEntryRow| e@) == keep_matching(es, needle@, i as nat),
        decreases entries@.len() - i,
    {
        let name = lowercase(entries[i].name.as_str());
        if contains(name.as_str(), needle.as_str()) {
            r.push(copy_entry(&entries[i]));
        }
        i = i + 1;
        assert(r@.map_values(|e: DirEntryRow| e@) =~= keep_matching(es, needle@, i as nat));
    }
    r
}

/// `s` with every backslash turned into a slash.
pub open spec fn slashes(s: Seq<char>) -> Seq<char> {
    s.map_values(|c: char| if c == '\\' { '/' } else { c })
}

fn to_slashes(s: &str) -> (r: String)
    ensures
        r@ == slashes(s@),
{
    let cs = chars_of(s);
    let mut r = String::new();
    let mut i: usize = 0;
    while i < cs.len()
        invariant
            i <= cs@.len(),
            cs@ == s@,
            r@ == slashes(s@).take(i as int),
        decreases cs@.len() - i,
    {
        let c = cs[i];
        push_char(&mut r, if c == '\\' { '/' } else { c });
        i = i + 1;
        assert(r@ =~= slashes(s@).take(i as int));
    }
    assert(slashes(s@).take(i as int) =~= slashes(s@));
    r
}

/// The picker's state: the template root, the folder shown, the filter
/// typed so far and the selected entry.
#[derive(Debug)]
pub struct ImagePicker {
    pub root: String,
    pub cwd: String,
    pub filter: String,
    pub selected: usize,
}

/// The view of an [`ImagePicker`].
pub struct SpecPicker {
    pub root: Seq<char>,
    pub cwd: Seq<char>,
    pub filter: Seq<char>,
    pub selected: usize,
}

impl View for ImagePicker {
    type V = SpecPicker;

    open spec fn view(&self) -> SpecPicker {
        SpecPicker { root: self.root@, cwd: self.cwd@, filter: self.filter@, selected: self.selected }
    }
}

/// How a key left the picker.
#[derive(Debug)]
pub enum PickerOutcome {
    /// Still browsing.
    Continue,
    /// Esc: back to the form without a pick.
    Cancelled,
    /// A file was picked: its path relative to the root, with slashes.
    Picked(String),
}

/// The view of a [`PickerOutcome`].
pub enum SpecPickerOutcome {
    Continue,
    Cancelled,
    Picked(Seq<char>),
}

impl View for PickerOutcome {
    type V = SpecPickerOutcome;

    open spec fn view(&self) -> SpecPickerOutcome {
        match self {
            PickerOutcome::Continue => SpecPickerOutcome::Continue,
            PickerOutcome::Cancelled => SpecPickerOutcome::Cancelled,
            PickerOutcome::Picked(s) => SpecPickerOutcome::Picked(s@),
        }
    }
}

/// Two paths name the same place: each starts with the other (path
/// equality compares components, as `starts_with` does).
pub open spec fn same_path(a: Seq<char>, b: Seq<char>) -> bool {
    path_has_prefix(a, b) && path_has_prefix(b, a)
}

/// The folder above `cwd`, if the picker may go there: not from the root
/// itself, and never out of it.
pub open spec fn ascend_target(root: Seq<char>, cwd: Seq<char>) -> Option<Seq<char>> {
    if same_path(cwd, root) {
        None
    } else {
        match path_parent(cwd) {
            Some(p) => if path_has_prefix(p, root) {
                Some(p)
            } else {
                None
            },
            None => None,
        }
    }
}

/// Whether the key is the plain letter `c` with the filter empty (the
/// letters double as arrows then).
pub open spec fn vi_key(k: KeyInput, c: char, filter: Seq<char>) -> bool {
    k.code == KeyCode::Char(c) && filter.len() == 0
}

/// A key in the picker, given the entries of the folder shown.
pub open spec fn picker_after(s: SpecPicker, k: KeyInput, entries: Seq<(Seq<char>, bool)>) -> (SpecPicker, SpecPickerOutcome) {
    let shown = filtered(entries, s.filter);
    if k.code == KeyCode::Esc {
        (s, SpecPickerOutcome::Cancelled)
    } else if k.code == KeyCode::Up || vi_key(k, 'k', s.filter) {
        (SpecPicker { selected: if s.selected >= 1 { (s.selected - 1) as usize } else { 0 }, ..s }, SpecPickerOutcome::Continue)
    } else if k.code == KeyCode::Down || vi_key(k, 'j', s.filter) {
        if shown.len() > 0 {
            (SpecPicker {
                selected: (if s.selected + 1 < shown.len() - 1 { s.selected + 1 } else { shown.len() - 1 }) as usize,
                ..s
            }, SpecPickerOutcome::Continue)
        } else {
            (s, SpecPickerOutcome::Continue)
        }
    } else if k.code == KeyCode::Left || vi_key(k, 'h', s.filter) {
        match ascend_target(s.root, s.cwd) {
            Some(p) => (SpecPicker { cwd: p, filter: Seq::empty(), selected: 0, ..s }, SpecPickerOutcome::Continue),
            None => (s, SpecPickerOutcome::Continue),
        }
    } else if k.code == KeyCode::Right || k.code == KeyCode::Enter || vi_key(k, 'l', s.filter) {
        if s.selected < shown.len() {
            let (name, is_dir) = shown[s.selected as int];
            let full = join_path(s.cwd, name);
            if is_dir {
                (SpecPicker { cwd: full, filter: Seq::empty(), selected: 0, ..s }, SpecPickerOutcome::Continue)
            } else {
                (s, SpecPickerOutcome::Picked(slashes(match path_stripped(full, s.root) {
                    Some(rel) => rel,
                    None => full,
                })))
            }
        } else {
            (s, SpecPickerOutcome::Continue)
        }
    } else if k.code == KeyCode::Backspace {
        (SpecPicker { filter: without_last_char(s.filter), selected: 0, ..s }, SpecPickerOutcome::Continue)
    } else {
        match k.code {
            KeyCode::Char(c) => if !k.ctrl && (char_alphanumeric(c) || c == '-' || c == '_' || c == '.') {
                (SpecPicker { filter: s.filter.push(c), selected: 0, ..s }, SpecPickerOutcome::Continue)
            } else {
                (s, SpecPickerOutcome::Continue)
            },
            _ => (s, SpecPickerOutcome::Continue),
        }
    }
}

fn is_vi(k: KeyInput, c: char, filter: &String) -> (r: bool)
    ensures
        r == vi_key(k, c, filter@),
{
    k.code == KeyCode::Char(c) && chars_of(filter.as_str()).len() == 0
}

fn drop_last(s: &String) -> (r: String)
    ensures
        r@ == without_last_char(s@),
{
    let cs = chars_of(s.as_str());
    let mut r = String::new();
    if cs.len() == 0 {
        return r;
    }
    let last = cs.len() - 1;
    let mut i: usize = 0;
    while i < last
        invariant
            last + 1 == cs@.len(),
            cs@ == s@,
            i <= last,
            r@ == cs@.take(i as int),
        decreases last - i,
    {
        push_char(&mut r, cs[i]);
        i = i + 1;
        assert(r@ =~= cs@.take(i as int));
    }
    assert(cs@.take(i as int) =~= s@.drop_last());
    r
}

/// Handles a key in the image picker; `entries` is the listing of the
/// folder shown.
pub fn image_picker_key(p: &mut ImagePicker, k: KeyInput, entries: &Vec<DirEntryRow>) -> (r: PickerOutcome)
    ensures
        (final(p)@, r@) == picker_after(old(p)@, k, entries@.map_values(|e: DirEntryRow| e@)),
{
    if k.code == KeyCode::Esc {
        return PickerOutcome::Cancelled;
    }
    if k.code == KeyCode::Up || is_vi(k, 'k', &p.filter) {
        p.selected = if p.selected >= 1 {
            p.selected - 1
        } else {
            0
        };
        return PickerOutcome::Continue;
    }
    if k.code == KeyCode::Down || is_vi(k, 'j', &p.filter) {
        let shown = filter_entries(entries, p.filter.as_str());
        let n = shown.len();
        if n > 0 {
            p.selected = if p.selected < n - 1 && n - 1 - p.selected > 1 {
                p.selected + 1
            } else {
                n - 1
            };
        }
        return PickerOutcome::Continue;
    }
    if k.code == KeyCode::Left || is_vi(k, 'h', &p.filter) {
        let here_is_root = starts_with_path(p.cwd.as_str(), p.root.as_str()) && starts_with_path(
            p.root.as_str(),
            p.cwd.as_str(),
        );
        if !here_is_root {
            if let Some(up) = crate::paths::parent(p.cwd.as_str()) {
                if starts_with_path(up.as_str(), p.root.as_str()) {
                    p.cwd = up;
                    p.filter = String::new();
                    p.selected = 0;
                }
            }
        }
        return PickerOutcome::Continue;
    }
    if k.code == KeyCode::Right || k.code == KeyCode::Enter || is_vi(k, 'l', &p.filter) {
        let shown = filter_entries(entries, p.filter.as_str());
        if p.selected < shown.len() {
            let e = &shown[p.selected];
            let full = join(p.cwd.as_str(), e.name.as_str());
            if e.is_dir {
                p.cwd = full;
                p.filter = String::new();
                p.selected = 0;
                return PickerOutcome::Continue;
            }
            let rel = match strip_prefix(full.as_str(), p.root.as_str()) {
                Some(rest) => rest,
                None => full,
            };
            return PickerOutcome::Picked(to_slashes(rel.as_str()));
        }
        return PickerOutcome::Continue;
    }
    if k.code == KeyCode::Backspace {
        p.filter = drop_last(&p.filter);
        p.selected = 0;
        return PickerOutcome::Continue;
    }
    match k.code {
        KeyCode::Char(c) => {
            if !k.ctrl && (is_alphanumeric(c) || c == '-' || c == '_' || c == '.') {
                push_char(&mut p.filter, c);
                p.selected = 0;
            }
            PickerOutcome::Continue
        },
        _ => PickerOutcome::Continue,
    }
}

/// The picker opened on a template root: it starts in the `images` folder.
pub fn open_picker(root: &str) -> (r: ImagePicker)
    ensures
        r@ == (SpecPicker { root: root@, cwd: join_path(root@, "images"@), filter: Seq::empty(), selected: 0 }),
{
    ImagePicker { root: crate::text::owned(root), cwd: join(root, "images"), filter: String::new(), selected: 0 }
}

/// A form field takes an image path when its id mentions `src` or it is the
/// background image.
pub fn is_image_url_field(field_id: &str) -> (r: bool)
    ensures
        r == (seq_contains(field_id@, "src"@) || field_id@ == "background_url"@),
{
    contains(field_id, "src") || crate::text::str_eq(field_id, "background_url")
}

/// The filter only drops entries, and what it keeps matches it.
proof fn lemma_keep_matching(es: Seq<(Seq<char>, bool)>, needle: Seq<char>, n: nat)
    requires
        n <= es.len(),
    ensures
        keep_matching(es, needle, n).len() <= n,
        forall|i: int| 0 <= i < keep_matching(es, needle, n).len()
            ==> seq_contains(str_lowercase(#[trigger] keep_matching(es, needle, n)[i].0), needle),
    decreases n,
{
    if n > 0 {
        lemma_keep_matching(es, needle, (n - 1) as nat);
        let rest = keep_matching(es, needle, (n - 1) as nat);
        assert forall|i: int| 0 <= i < keep_matching(es, needle, n).len()
            implies seq_contains(str_lowercase(#[trigger] keep_matching(es, needle, n)[i].0), needle) by {
            if i < rest.len() {
                assert(keep_matching(es, needle, n)[i] == rest[i]);
            }
        }
    }
}

/// A non-empty filter keeps only entries whose lowercased name contains
/// the lowercased filter, and never adds any.
pub proof fn law_filter_keeps_matching(es: Seq<(Seq<char>, bool)>, filter: Seq<char>)
    ensures
        filtered(es, filter).len() <= es.len(),
        filter.len() > 0 ==> forall|i: int| 0 <= i < filtered(es, filter).len()
            ==> seq_contains(str_lowercase(#[trigger] filtered(es, filter)[i].0), str_lowercase(filter)),
{
    lemma_keep_matching(es, str_lowercase(filter), es.len());
}

/// Going up never leaves the template root, and never starts from it.
pub proof fn law_ascend_stays_in_root(s: SpecPicker, k: KeyInput, entries: Seq<(Seq<char>, bool)>)
    requires
        k.code == KeyCode::Left,
    ensures
        picker_after(s, k, entries).0.cwd != s.cwd ==> path_has_prefix(picker_after(s, k, entries).0.cwd, s.root)
            && !same_path(s.cwd, s.root),
{
}

// ---------------------------------------------------------------------------
// Listing order
// ---------------------------------------------------------------------------

/// `a` sorts before or with `b`: lexicographic by code point, as `str`
/// comparison orders text.
pub open spec fn chars_le(a: Seq<char>, b: Seq<char>) -> bool
    decreases a.len(),
{
    if a.len() == 0 {
        true
    } else if b.len() == 0 {
        false
    } else if a[0] != b[0] {
        (a[0] as int) < (b[0] as int)
    } else {
        chars_le(a.drop_first(), b.drop_first())
    }
}

/// What an entry is ordered by: its lowercased name.
pub open spec fn sort_key(e: (Seq<char>, bool)) -> Seq<char> {
    str_lowercase(e.0)
}

/// Where `x` goes in `s`: after the last entry that sorts before or with it.
pub open spec fn slot(s: Seq<(Seq<char>, bool)>, x: (Seq<char>, bool)) -> nat
    decreases s.len(),
{
    if s.len() == 0 {
        0
    } else if chars_le(sort_key(s.last()), sort_key(x)) {
        s.len()
    } else {
        slot(s.drop_last(), x)
    }
}

/// `s` sorted by name, equal names keeping their order.
pub open spec fn sort_by_name(s: Seq<(Seq<char>, bool)>) -> Seq<(Seq<char>, bool)>
    decreases s.len(),
{
    if s.len() == 0 {
        s
    } else {
        let r = sort_by_name(s.drop_last());
        r.insert(slot(r, s.last()) as int, s.last())
    }
}

/// The entries among the first `n` that are shown (no leading dot) and are
/// folders (`dirs`) or files (`!dirs`).
pub open spec fn shown_of(es: Seq<(Seq<char>, bool)>, dirs: bool, n: nat) -> Seq<(Seq<char>, bool)>
    decreases n,
{
    if n == 0 {
        Seq::empty()
    } else {
        let rest = shown_of(es, dirs, (n - 1) as nat);
        let e = es[n - 1];
        if !(e.0.len() > 0 && e.0[0] == '.') && e.1 == dirs {
            rest.push(e)
        } else {
            rest
        }
    }
}

/// The picker's listing of a folder: hidden entries left out, folders first,
/// each part sorted by lowercased name.
pub open spec fn listing(es: Seq<(Seq<char>, bool)>) -> Seq<(Seq<char>, bool)> {
    sort_by_name(shown_of(es, true, es.len())) + sort_by_name(shown_of(es, false, es.len()))
}

fn chars_le_exec(a: &Vec<char>, b: &Vec<char>) -> (r: bool)
    ensures
        r == chars_le(a@, b@),
{
    let mut i: usize = 0;
    assert(a@.skip(0) =~= a@);
    assert(b@.skip(0) =~= b@);
    while i < a.len()
        invariant
            i <= a@.len(),
            i <= b@.len(),
            a@.take(i as int) == b@.take(i as int),
            chars_le(a@, b@) == chars_le(a@.skip(i as int), b@.skip(i as int)),
        decreases a@.len() - i,
    {
        if i >= b.len() {
            assert(a@.skip(i as int).len() > 0 && b@.skip(i as int).len() == 0);
            return false;
        }
        let (x, y) = (a[i], b[i]);
        assert(a@.skip(i as int)[0] == x && b@.skip(i as int)[0] == y);
        if x != y {
            return x < y;
        }
        assert(a@.skip(i as int).drop_first() =~= a@.skip(i + 1));
        assert(b@.skip(i as int).drop_first() =~= b@.skip(i + 1));
        assert(a@.take(i + 1) =~= a@.take(i as int).push(x));
        assert(b@.take(i + 1) =~= b@.take(i as int).push(y));
        i = i + 1;
    }
    assert(a@.skip(i as int).len() == 0);
    true
}

fn copy_row(e: &DirEntryRow) -> (r: DirEntryRow)
    ensures
        r@ == e@,
{
    DirEntryRow { name: e.name.clone(), is_dir: e.is_dir }
}

/// Sorts rows by lowercased name, keeping the order of equal names.
fn sort_rows(rows: Vec<DirEntryRow>) -> (r: Vec<DirEntryRow>)
    ensures
        r@.map_values(|e: DirEntryRow| e@) == sort_by_name(rows@.map_values(|e: DirEntryRow| e@)),
{
    let ghost src = rows@.map_values(|e: DirEntryRow| e@);
    let mut out: Vec<DirEntryRow> = Vec::new();
    let mut keys: Vec<Vec<char>> = Vec::new();
    let mut i: usize = 0;
    while i < rows.len()
        invariant
            i <= rows@.len(),
            src == rows@.map_values(|e: DirEntryRow| e@),
            out@.map_values(|e: DirEntryRow| e@) == sort_by_name(src.take(i as int)),
            keys@.len() == out@.len(),
            forall|k: int| 0 <= k < keys@.len() ==> (#[trigger] keys@[k])@ == sort_key(out@[k]@),
        decreases rows@.len() - i,
    {
        let ghost cur = out@.map_values(|e: DirEntryRow| e@);
        let x = copy_row(&rows[i]);
        let xk = chars_of(lowercase(x.name.as_str()).as_str());
        assert(xk@ == sort_key(x@));
        let mut j: usize = out.len();
        assert(cur.take(j as int) =~= cur);
        while j > 0 && !chars_le_exec(&keys[j - 1], &xk)
            invariant
                j <= out@.len(),
                cur == out@.map_values(|e: DirEntryRow| e@),
                keys@.len() == out@.len(),
                forall|k: int| 0 <= k < keys@.len() ==> (#[trigger] keys@[k])@ == sort_key(out@[k]@),
                xk@ == sort_key(x@),
                slot(cur, x@) == slot(cur.take(j as int), x@),
            decreases j,
        {
            assert(cur.take(j as int).drop_last() =~= cur.take(j - 1));
            assert(cur.take(j as int).last() == cur[j - 1]);
            j = j - 1;
        }
        proof {
            if j > 0 {
                assert(cur.take(j as int).last() == cur[j - 1]);
            }
            assert(slot(cur.take(j as int), x@) == j);
            assert(src.take(i + 1).drop_last() =~= src.take(i as int));
            assert(src.take(i + 1).last() == x@);
        }
        let ghost xv = x@;
        out.insert(j, x);
        keys.insert(j, xk);
        assert(out@.map_values(|e: DirEntryRow| e@) =~= cur.insert(j as int, xv));
        i = i + 1;
    }
    assert(src.take(i as int) =~= src);
    out
}

fn is_hidden(name: &String) -> (r: bool)
    ensures
        r == (name@.len() > 0 && name@[0] == '.'),
{
    let cs = chars_of(name.as_str());
    cs.len() > 0 && cs[0] == '.'
}

/// Orders a folder's entries for the picker: hidden ones (a leading dot)
/// left out, folders first, then files, each sorted by lowercased name.
pub fn order_entries(raw: &Vec<DirEntryRow>) -> (r: Vec<DirEntryRow>)
    ensures
        r@.map_values(|e: DirEntryRow| e@) == listing(raw@.map_values(|e: DirEntryRow| e@)),
{
    let ghost es = raw@.map_values(|e: DirEntryRow| e@);
    let mut dirs: Vec<DirEntryRow> = Vec::new();
    let mut files: Vec<DirEntryRow> = Vec::new();
    let mut i: usize = 0;
    while i < raw.len()
        invariant
            i <= raw@.len(),
            es == raw@.map_values(|e: DirEntryRow| e@),
            dirs@.map_values(|e: DirEntryRow| e@) == shown_of(es, true, i as nat),
            files@.map_values(|e: DirEntryRow| e@) == shown_of(es, false, i as nat),
        decreases raw@.len() - i,
    {
        let e = copy_row(&raw[i]);
        let ghost ev = e@;
        assert(ev == es[i as int]);
        if !is_hidden(&e.name) {
            if e.is_dir {
                dirs.push(e);
            } else {
                files.push(e);
            }
        }
        assert(dirs@.map_values(|e: DirEntryRow| e@) =~= shown_of(es, true, (i + 1) as nat));
        assert(files@.map_values(|e: DirEntryRow| e@) =~= shown_of(es, false, (i + 1) as nat));
        i = i + 1;
    }
    let mut out = sort_rows(dirs);
    let ghost d = out@.map_values(|e: DirEntryRow| e@);
    let mut rest = sort_rows(files);
    let ghost f = rest@.map_values(|e: DirEntryRow| e@);
    out.append(&mut rest);
    assert(out@.map_values(|e: DirEntryRow| e@) =~= d + f);
    out
}

/// Any two texts are ordered one way or the other.
proof fn lemma_chars_le_total(a: Seq<char>, b: Seq<char>)
    ensures
        chars_le(a, b) || chars_le(b, a),
    decreases a.len(),
{
    if a.len() > 0 && b.len() > 0 {
        if a[0] == b[0] {
            lemma_chars_le_total(a.drop_first(), b.drop_first());
        } else {
            assert((a[0] as int) != (b[0] as int));
        }
    }
}

/// The order is transitive.
proof fn lemma_chars_le_trans(a: Seq<char>, b: Seq<char>, c: Seq<char>)
    requires
        chars_le(a, b),
        chars_le(b, c),
    ensures
        chars_le(a, c),
    decreases a.len(),
{
    if a.len() > 0 && b.len() > 0 && c.len() > 0 && a[0] == b[0] && b[0] == c[0] {
        lemma_chars_le_trans(a.drop_first(), b.drop_first(), c.drop_first());
    }
}

/// Sorted by name.
pub open spec fn sorted_by_name(s: Seq<(Seq<char>, bool)>) -> bool {
    forall|i: int, j: int| 0 <= i < j < s.len() ==> chars_le(#[trigger] sort_key(s[i]), #[trigger] sort_key(s[j]))
}

/// What comes after the slot sorts after `x`; what is just before it sorts
/// before or with `x`.
proof fn lemma_slot(s: Seq<(Seq<char>, bool)>, x: (Seq<char>, bool))
    ensures
        slot(s, x) <= s.len(),
        forall|k: int| slot(s, x) <= k < s.len() ==> !chars_le(#[trigger] sort_key(s[k]), sort_key(x)),
        slot(s, x) > 0 ==> chars_le(sort_key(s[slot(s, x) - 1]), sort_key(x)),
    decreases s.len(),
{
    if s.len() > 0 && !chars_le(sort_key(s.last()), sort_key(x)) {
        lemma_slot(s.drop_last(), x);
        assert forall|k: int| slot(s, x) <= k < s.len() implies !chars_le(#[trigger] sort_key(s[k]), sort_key(x)) by {
            if k < s.len() - 1 {
                assert(s[k] == s.drop_last()[k]);
            }
        }
        if slot(s, x) > 0 {
            assert(s[slot(s, x) - 1] == s.drop_last()[slot(s, x) - 1]);
        }
    }
}

/// Inserting at the slot keeps a sorted sequence sorted.
proof fn lemma_insert_sorted(s: Seq<(Seq<char>, bool)>, x: (Seq<char>, bool))
    requires
        sorted_by_name(s),
    ensures
        sorted_by_name(s.insert(slot(s, x) as int, x)),
{
    lemma_slot(s, x);
    let p = slot(s, x) as int;
    let r = s.insert(p, x);
    assert forall|i: int, j: int| 0 <= i < j < r.len() implies chars_le(#[trigger] sort_key(r[i]), #[trigger] sort_key(r[j])) by {
        if j < p {
            assert(r[i] == s[i] && r[j] == s[j]);
        } else if j == p {
            assert(r[i] == s[i]);
            if i < p - 1 {
                assert(chars_le(sort_key(s[i]), sort_key(s[p - 1])));
                lemma_chars_le_trans(sort_key(s[i]), sort_key(s[p - 1]), sort_key(x));
            }
        } else if i < p {
            assert(r[i] == s[i] && r[j] == s[j - 1]);
        } else if i == p {
            assert(r[j] == s[j - 1]);
            assert(!chars_le(sort_key(s[j - 1]), sort_key(x)));
            lemma_chars_le_total(sort_key(s[j - 1]), sort_key(x));
        } else {
            assert(r[i] == s[i - 1] && r[j] == s[j - 1]);
        }
    }
}

/// Sorting by name yields a sorted rearrangement of the same entries.
pub proof fn law_sort_is_sorted_permutation(s: Seq<(Seq<char>, bool)>)
    ensures
        sorted_by_name(sort_by_name(s)),
        sort_by_name(s).to_multiset() == s.to_multiset(),
    decreases s.len(),
{
    if s.len() > 0 {
        let rest = sort_by_name(s.drop_last());
        law_sort_is_sorted_permutation(s.drop_last());
        lemma_slot(rest, s.last());
        lemma_insert_sorted(rest, s.last());
        vstd::seq_lib::to_multiset_insert(rest, slot(rest, s.last()) as int, s.last());
        vstd::seq_lib::to_multiset_build(s.drop_last(), s.last());
        assert(s.drop_last().push(s.last()) =~= s);
    } else {
        assert(sort_by_name(s) == s);
    }
}

/// In the listing every folder comes before every file.
pub proof fn law_listing_folders_first(es: Seq<(Seq<char>, bool)>)
    ensures
        forall|i: int| 0 <= i < listing(es).len() ==> (#[trigger] listing(es)[i]).1
            == (i < shown_of(es, true, es.len()).len()),
{
    lemma_shown_kind(es, true, es.len());
    lemma_shown_kind(es, false, es.len());
    lemma_sort_keeps_kind(shown_of(es, true, es.len()), true);
    lemma_sort_keeps_kind(shown_of(es, false, es.len()), false);
    let d = sort_by_name(shown_of(es, true, es.len()));
    let f = sort_by_name(shown_of(es, false, es.len()));
    assert forall|i: int| 0 <= i < listing(es).len() implies (#[trigger] listing(es)[i]).1
        == (i < shown_of(es, true, es.len()).len()) by {
        if i < d.len() {
            assert(listing(es)[i] == d[i]);
        } else {
            assert(listing(es)[i] == f[i - d.len()]);
        }
    }
}

proof fn lemma_shown_kind(es: Seq<(Seq<char>, bool)>, dirs: bool, n: nat)
    requires
        n <= es.len(),
    ensures
        forall|i: int| 0 <= i < shown_of(es, dirs, n).len() ==> (#[trigger] shown_of(es, dirs, n)[i]).1 == dirs,
    decreases n,
{
    if n > 0 {
        lemma_shown_kind(es, dirs, (n - 1) as nat);
        let rest = shown_of(es, dirs, (n - 1) as nat);
        assert forall|i: int| 0 <= i < shown_of(es, dirs, n).len() implies (#[trigger] shown_of(es, dirs, n)[i]).1 == dirs by {
            if i < rest.len() {
                assert(shown_of(es, dirs, n)[i] == rest[i]);
            }
        }
    }
}

proof fn lemma_sort_keeps_kind(s: Seq<(Seq<char>, bool)>, dirs: bool)
    requires
        forall|i: int| 0 <= i < s.len() ==> (#[trigger] s[i]).1 == dirs,
    ensures
        forall|i: int| 0 <= i < sort_by_name(s).len() ==> (#[trigger] sort_by_name(s)[i]).1 == dirs,
        sort_by_name(s).len() == s.len(),
    decreases s.len(),
{
    if s.len() > 0 {
        let rest = sort_by_name(s.drop_last());
        lemma_sort_keeps_kind(s.drop_last(), dirs);
        lemma_slot(rest, s.last());
        let p = slot(rest, s.last()) as int;
        assert forall|i: int| 0 <= i < sort_by_name(s).len() implies (#[trigger] sort_by_name(s)[i]).1 == dirs by {
            if i < p {
                assert(sort_by_name(s)[i] == rest[i]);
            } else if i > p {
                assert(sort_by_name(s)[i] == rest[i - 1]);
            }
        }
    }
}

/// In the picker, Enter on a shown folder opens it (with no filter, at its
/// first entry); Enter on a shown file picks it, as its path below the
/// template folder with `/` separators; Down moves to the next shown entry
/// (staying on the last); Up to the previous one (staying on the first);
/// Esc cancels; a name character typed (without Ctrl) is added to the
/// filter and the selection goes back to the first entry.
pub proof fn law_picker_keys(s: SpecPicker, k: KeyInput, entries: Seq<(Seq<char>, bool)>)
    ensures
        ({
            let shown = filtered(entries, s.filter);
            let (s2, out) = picker_after(s, k, entries);
            &&& k.code == KeyCode::Esc ==> out == SpecPickerOutcome::Cancelled && s2 == s
            &&& (k.code == KeyCode::Enter && s.selected < shown.len() && shown[s.selected as int].1) ==> {
                &&& out == SpecPickerOutcome::Continue
                &&& s2 == (SpecPicker {
                    cwd: join_path(s.cwd, shown[s.selected as int].0),
                    filter: Seq::empty(),
                    selected: 0,
                    ..s
                })
            }
            &&& (k.code == KeyCode::Enter && s.selected < shown.len() && !shown[s.selected as int].1) ==> {
                let full = join_path(s.cwd, shown[s.selected as int].0);
                &&& s2 == s
                &&& out == SpecPickerOutcome::Picked(slashes(match path_stripped(full, s.root) {
                    Some(rel) => rel,
                    None => full,
                }))
            }
            &&& (k.code == KeyCode::Down && s.selected + 1 < shown.len()) ==> s2 == (SpecPicker {
                selected: (s.selected + 1) as usize,
                ..s
            }) && out == SpecPickerOutcome::Continue
            &&& (k.code == KeyCode::Up && s.selected >= 1) ==> s2 == (SpecPicker { selected: (s.selected - 1) as usize, ..s })
                && out == SpecPickerOutcome::Continue
            &&& (k.code is Char && !k.ctrl && s.filter.len() > 0 && (char_alphanumeric(k.code->Char_0)
                || k.code->Char_0 == '-' || k.code->Char_0 == '_' || k.code->Char_0 == '.')) ==> s2 == (SpecPicker {
                filter: s.filter.push(k.code->Char_0),
                selected: 0,
                ..s
            }) && out == SpecPickerOutcome::Continue
        }),
{
}

} // verus!
