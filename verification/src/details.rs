//! The read-only inspector: labeled fields of the selected row and a simple
//! text drawing of the email.
use vstd::prelude::*;

use crate::model::{
    BodyNode, ColumnChild, EmailArticle, EmailFooter, EmailHeader, EmailHero, ImagePosition,
    MjColumn, MjGroup, MjSection, SectionChild, SpecBodyNode, SpecColumnChild, SpecEmailArticle, SpecEmailCta,
    SpecEmailFooter, SpecEmailHeader, SpecEmailHero, SpecMjColumn, SpecMjSection, SpecSectionChild,
    SpecTemplate, SpecWebFont, Template, lemma_seq_view_body_node, opt_view, seq_view_body_node,
};
use crate::text::{
    chars_of, decimal, join_seq, join_with, owned, push_char, push_str, split_on, trim, trim_seq,
    usize_to_decimal,
};
use crate::tree::{Step, SpecTreeId, TreeId};

verus! {

broadcast use lemma_seq_view_body_node;

/// The title of the inspector for a row labeled `label`.
pub fn details_title(label: &str) -> (r: String)
    ensures
        r@ == "Details — "@ + label@,
{
    let mut s = owned("Details — ");
    push_str(&mut s, label);
    s
}

/// A value as shown, or `—` when blank.
pub open spec fn dash_view(s: Seq<char>) -> Seq<char> {
    if trim_seq(s).len() == 0 {
        "—"@
    } else {
        s
    }
}

fn dash(s: &str) -> (r: &str)
    ensures
        r@ == dash_view(s@),
{
    if trim(s).unicode_len() == 0 {
        "—"
    } else {
        s
    }
}

/// `n` copies of `c`.
pub open spec fn repeat_view(c: char, n: nat) -> Seq<char> {
    Seq::new(n, |i: int| c)
}

fn repeat(c: char, n: usize) -> (r: String)
    ensures
        r@ == repeat_view(c, n as nat),
{
    let mut s = String::new();
    let mut i: usize = 0;
    while i < n
        invariant
            i <= n,
            s@ == repeat_view(c, i as nat),
        decreases n - i,
    {
        push_char(&mut s, c);
        i = i + 1;
        assert(s@ =~= repeat_view(c, i as nat));
    }
    s
}

/// `text` in a cell `width` wide: a space, then the text cut to fit, padded
/// with spaces.
pub open spec fn pad_cell_view(text: Seq<char>, width: nat) -> Seq<char> {
    if width == 0 {
        Seq::empty()
    } else {
        let w = (width - 1) as nat;
        let t = if text.len() <= w {
            text
        } else {
            text.take(w as int)
        };
        seq![' '] + t + repeat_view(' ', (w - t.len()) as nat)
    }
}

fn pad_cell(text: &str, width: usize) -> (r: String)
    ensures
        r@ == pad_cell_view(text@, width as nat),
{
    if width == 0 {
        return String::new();
    }
    let w = width - 1;
    let n = text.unicode_len();
    let t = if n <= w {
        text
    } else {
        text.substring_char(0, w)
    };
    let tl = if n <= w {
        n
    } else {
        w
    };
    assert(t@.len() == tl);
    let mut s = owned(" ");
    proof {
        reveal_strlit(" ");
    }
    push_str(&mut s, t);
    let pad = repeat(' ', w - tl);
    push_str(&mut s, pad.as_str());
    s
}

/// A line of the drawing: the text in a cell between two bars.
pub open spec fn fit_box_view(text: Seq<char>, inner: nat) -> Seq<char> {
    "|"@ + pad_cell_view(text, inner) + "|"@
}

fn fit_box(text: &str, inner: usize) -> (r: String)
    ensures
        r@ == fit_box_view(text@, inner as nat),
{
    let mut s = owned("|");
    let c = pad_cell(text, inner);
    push_str(&mut s, c.as_str());
    push_str(&mut s, "|");
    s
}

/// The inner width of the drawing for a pane `width` wide: two less, but at least 8.
pub open spec fn inner_width(width: nat) -> nat {
    if width >= 10 {
        (width - 2) as nat
    } else {
        8
    }
}

/// The tag of a body node.
pub open spec fn body_kind_view(n: SpecBodyNode) -> Seq<char> {
    match n {
        SpecBodyNode::MjSection(_) => "mj-section"@,
        SpecBodyNode::MjWrapper(_) => "mj-wrapper"@,
        SpecBodyNode::MjHero(_) => "mj-hero"@,
        SpecBodyNode::EmailHeader(_) => "email-header"@,
        SpecBodyNode::EmailHero(_) => "email-hero"@,
        SpecBodyNode::EmailCta(_) => "email-cta"@,
        SpecBodyNode::EmailArticle(_) => "email-article"@,
        SpecBodyNode::EmailFooter(_) => "email-footer"@,
    }
}

fn body_kind(n: &BodyNode) -> (r: &'static str)
    ensures
        r@ == body_kind_view(n@),
{
    match n {
        BodyNode::MjSection(_) => "mj-section",
        BodyNode::MjWrapper(_) => "mj-wrapper",
        BodyNode::MjHero(_) => "mj-hero",
        BodyNode::EmailHeader(_) => "email-header",
        BodyNode::EmailHero(_) => "email-hero",
        BodyNode::EmailCta(_) => "email-cta",
        BodyNode::EmailArticle(_) => "email-article",
        BodyNode::EmailFooter(_) => "email-footer",
    }
}

/// The numbered node lines of the drawing, for the first `k` nodes.
pub open spec fn node_box_lines(nodes: Seq<SpecBodyNode>, inner: nat, k: nat) -> Seq<Seq<char>>
    decreases k,
{
    if k == 0 {
        Seq::empty()
    } else {
        node_box_lines(nodes, inner, (k - 1) as nat).push(
            fit_box_view(decimal(k) + ". "@ + body_kind_view(nodes[k - 1]), inner),
        )
    }
}

/// A drawing of the whole email: a box with the canvas width and one
/// numbered line per top-level node.
pub open spec fn email_ascii_view(t: SpecTemplate, width: nat) -> Seq<Seq<char>> {
    let inner = inner_width(width);
    let border = "+"@ + repeat_view('-', inner) + "+"@;
    let head = seq![border, fit_box_view(decimal(t.brand.content_width as nat) + "px canvas"@, inner)];
    let body = if t.body.nodes.len() == 0 {
        seq![fit_box_view("(empty body)"@, inner)]
    } else {
        node_box_lines(t.body.nodes, inner, t.body.nodes.len())
    };
    (head + body).push(border)
}

fn inner_of(width: usize) -> (r: usize)
    ensures
        r == inner_width(width as nat),
{
    if width >= 10 {
        width - 2
    } else {
        8
    }
}

fn border_line(inner: usize) -> (r: String)
    ensures
        r@ == "+"@ + repeat_view('-', inner as nat) + "+"@,
{
    let mut b = owned("+");
    let d = repeat('-', inner);
    push_str(&mut b, d.as_str());
    push_str(&mut b, "+");
    b
}

fn email_ascii(t: &Template, width: usize) -> (r: Vec<String>)
    ensures
        r@.map_values(|s: String| s@) == email_ascii_view(t@, width as nat),
{
    let inner = inner_of(width);
    let mut lines: Vec<String> = Vec::new();
    lines.push(border_line(inner));
    let mut label = usize_to_decimal(t.brand.content_width as usize);
    push_str(&mut label, "px canvas");
    lines.push(fit_box(label.as_str(), inner));
    let ghost head = lines@.map_values(|s: String| s@);
    if t.body.nodes.len() == 0 {
        lines.push(fit_box("(empty body)", inner));
        assert(lines@.map_values(|s: String| s@) =~= head + seq![fit_box_view("(empty body)"@, inner as nat)]);
    } else {
        let mut i: usize = 0;
        while i < t.body.nodes.len()
            invariant
                i <= t.body.nodes@.len(),
                t.body.nodes@.len() > 0,
                lines@.map_values(|s: String| s@) == head + node_box_lines(t@.body.nodes, inner as nat, i as nat),
            decreases t.body.nodes@.len() - i,
        {
            let ghost before = lines@.map_values(|s: String| s@);
            proof {
                lemma_seq_view_body_node(t.body.nodes@);
            }
            assert(t@.body.nodes[i as int] == t.body.nodes@[i as int]@);
            let mut l = usize_to_decimal(i + 1);
            push_str(&mut l, ". ");
            push_str(&mut l, body_kind(&t.body.nodes[i]));
            let b = fit_box(l.as_str(), inner);
            let ghost bv = b@;
            lines.push(b);
            i = i + 1;
            assert(lines@.map_values(|s: String| s@) =~= before.push(bv));
            assert((head + node_box_lines(t@.body.nodes, inner as nat, (i - 1) as nat)).push(bv)
                =~= head + node_box_lines(t@.body.nodes, inner as nat, i as nat));
        }
    }
    let ghost before = lines@.map_values(|s: String| s@);
    let b = border_line(inner);
    let ghost bv = b@;
    lines.push(b);
    assert(lines@.map_values(|s: String| s@) =~= before.push(bv));
    lines
}

/// The label of a section child in the drawing: a column's width (or
/// `col N` with its component count), or `group`.
pub open spec fn cell_label_view(c: SpecSectionChild) -> Seq<char> {
    match c {
        SpecSectionChild::MjColumn(col) => match col.width {
            Some(w) => w,
            None => "col "@ + decimal(col.components.len()),
        },
        SpecSectionChild::MjGroup(_) => "group"@,
    }
}

/// The width of one cell when `cols` columns share `inner`: at least 4.
pub open spec fn cell_width(inner: nat, cols: nat) -> nat {
    let gaps = (cols - 1) as nat;
    let avail = if inner >= gaps {
        (inner - gaps) as nat
    } else {
        0
    };
    if avail / cols >= 4 {
        avail / cols
    } else {
        4
    }
}

/// The middle row of a section drawing, for the first `k` children.
pub open spec fn cells_row(children: Seq<SpecSectionChild>, cell: nat, k: nat) -> Seq<char>
    decreases k,
{
    if k == 0 {
        "|"@
    } else {
        cells_row(children, cell, (k - 1) as nat) + pad_cell_view(cell_label_view(children[k - 1]), cell) + "|"@
    }
}

/// The top (and bottom) row of a section drawing with `k` cells.
pub open spec fn cells_border(cell: nat, k: nat) -> Seq<char>
    decreases k,
{
    if k == 0 {
        "+"@
    } else {
        cells_border(cell, (k - 1) as nat) + repeat_view('-', cell) + "+"@
    }
}

/// A drawing of a section: one cell per child, labeled.
pub open spec fn section_ascii_view(s: SpecMjSection, width: nat) -> Seq<Seq<char>> {
    let inner = inner_width(width);
    if s.children.len() == 0 {
        seq!["(no columns)"@]
    } else {
        let cols = s.children.len();
        let cell = cell_width(inner, cols);
        let top = cells_border(cell, cols);
        seq![top, cells_row(s.children, cell, cols), top]
    }
}

fn cell_label(c: &SectionChild) -> (r: String)
    ensures
        r@ == cell_label_view(c@),
{
    match c {
        SectionChild::MjColumn(col) => match &col.width {
            Some(w) => w.clone(),
            None => {
                let mut s = owned("col ");
                let d = usize_to_decimal(col.components.len());
                push_str(&mut s, d.as_str());
                s
            },
        },
        SectionChild::MjGroup(_) => owned("group"),
    }
}

fn section_ascii(s: &MjSection, width: usize) -> (r: Vec<String>)
    ensures
        r@.map_values(|x: String| x@) == section_ascii_view(s@, width as nat),
{
    let inner = inner_of(width);
    let mut out: Vec<String> = Vec::new();
    if s.children.len() == 0 {
        out.push(owned("(no columns)"));
        assert(out@.map_values(|x: String| x@) =~= section_ascii_view(s@, width as nat));
        return out;
    }
    let cols = s.children.len();
    let gaps = cols - 1;
    let avail = if inner >= gaps {
        inner - gaps
    } else {
        0
    };
    let cell = if avail / cols >= 4 {
        avail / cols
    } else {
        4
    };
    assert(cell == cell_width(inner as nat, cols as nat));
    let mut top = owned("+");
    let mut mid = owned("|");
    let mut i: usize = 0;
    while i < cols
        invariant
            i <= cols,
            cols == s.children@.len(),
            top@ == cells_border(cell as nat, i as nat),
            mid@ == cells_row(s@.children, cell as nat, i as nat),
        decreases cols - i,
    {
        let d = repeat('-', cell);
        push_str(&mut top, d.as_str());
        push_str(&mut top, "+");
        let label = cell_label(&s.children[i]);
        let c = pad_cell(label.as_str(), cell);
        push_str(&mut mid, c.as_str());
        push_str(&mut mid, "|");
        i = i + 1;
    }
    let top2 = top.clone();
    out.push(top);
    out.push(mid);
    out.push(top2);
    assert(out@.map_values(|x: String| x@) =~= section_ascii_view(s@, width as nat));
    out
}

/// `s` with each newline made a space.
pub open spec fn newlines_to_spaces(s: Seq<char>) -> Seq<char> {
    s.map_values(|c: char| if c == '\n' { ' ' } else { c })
}

/// `s` on one line, cut to `max` characters with a trailing `…` when longer.
pub open spec fn truncate_view(s: Seq<char>, max: nat) -> Seq<char> {
    let t = newlines_to_spaces(s);
    if t.len() <= max {
        t
    } else {
        t.take(if max >= 1 {
            max - 1
        } else {
            0
        }).push('…')
    }
}

fn truncate(s: &str, max: usize) -> (r: String)
    ensures
        r@ == truncate_view(s@, max as nat),
{
    let cs = chars_of(s);
    let mut t = String::new();
    let mut i: usize = 0;
    while i < cs.len()
        invariant
            i <= cs@.len(),
            cs@ == s@,
            t@ == newlines_to_spaces(s@).take(i as int),
        decreases cs@.len() - i,
    {
        let c = if cs[i] == '\n' {
            ' '
        } else {
            cs[i]
        };
        push_char(&mut t, c);
        i = i + 1;
        assert(t@ =~= newlines_to_spaces(s@).take(i as int));
    }
    assert(newlines_to_spaces(s@).take(s@.len() as int) =~= newlines_to_spaces(s@));
    if cs.len() <= max {
        return t;
    }
    let keep = if max >= 1 {
        max - 1
    } else {
        0
    };
    let mut out = owned(t.as_str().substring_char(0, keep));
    push_char(&mut out, '…');
    out
}

/// The one-line description of a content component.
pub open spec fn child_detail_view(c: SpecColumnChild) -> Seq<char> {
    match c {
        SpecColumnChild::MjText(t) => "mj-text  "@ + truncate_view(t.content, 40),
        SpecColumnChild::MjButton(b) => "mj-button  "@ + b.content + " → "@ + b.href,
        SpecColumnChild::MjImage(i) => "mj-image  "@ + i.src,
        SpecColumnChild::MjDivider(_) => "mj-divider"@,
        SpecColumnChild::MjSpacer(s) => "mj-spacer  "@ + s.height,
        SpecColumnChild::MjSocial(s) => "mj-social  "@ + decimal(s.elements.len()) + " icons"@,
        SpecColumnChild::MjTable(_) => "mj-table"@,
        SpecColumnChild::MjNavbar(_) => "mj-navbar"@,
        SpecColumnChild::MjAccordion(_) => "mj-accordion"@,
        SpecColumnChild::MjCarousel(_) => "mj-carousel"@,
    }
}

fn child_detail(c: &ColumnChild) -> (r: String)
    ensures
        r@ == child_detail_view(c@),
{
    match c {
        ColumnChild::MjText(t) => {
            let mut s = owned("mj-text  ");
            let x = truncate(t.content.as_str(), 40);
            push_str(&mut s, x.as_str());
            s
        },
        ColumnChild::MjButton(b) => {
            let mut s = owned("mj-button  ");
            push_str(&mut s, b.content.as_str());
            push_str(&mut s, " → ");
            push_str(&mut s, b.href.as_str());
            s
        },
        ColumnChild::MjImage(i) => {
            let mut s = owned("mj-image  ");
            push_str(&mut s, i.src.as_str());
            s
        },
        ColumnChild::MjDivider(_) => owned("mj-divider"),
        ColumnChild::MjSpacer(x) => {
            let mut s = owned("mj-spacer  ");
            push_str(&mut s, x.height.as_str());
            s
        },
        ColumnChild::MjSocial(x) => {
            let mut s = owned("mj-social  ");
            let d = usize_to_decimal(x.elements.len());
            push_str(&mut s, d.as_str());
            push_str(&mut s, " icons");
            s
        },
        ColumnChild::MjTable(_) => owned("mj-table"),
        ColumnChild::MjNavbar(_) => owned("mj-navbar"),
        ColumnChild::MjAccordion(_) => owned("mj-accordion"),
        ColumnChild::MjCarousel(_) => owned("mj-carousel"),
    }
}

/// What `serde_json` reads of a JSON-LD text: none when it is not JSON;
/// else the `@type` string of the top-level object (if any) and, when the
/// value is an array, the `@type` string of each element (if any).
pub uninterp spec fn json_ld_reading(raw: Seq<char>) -> Option<(Option<Seq<char>>, Option<Seq<Option<Seq<char>>>>)>;

/// The view of a JSON-LD reading.
pub open spec fn reading_view(r: Option<(Option<String>, Option<Vec<Option<String>>>)>) -> Option<(Option<Seq<char>>, Option<Seq<Option<Seq<char>>>>)> {
    match r {
        None => None,
        Some((top, arr)) => Some((
            opt_view(top),
            match arr {
                Some(v) => Some(v@.map_values(|o: Option<String>| opt_view(o))),
                None => None,
            },
        )),
    }
}

/// Parses JSON-LD text with `serde_json::from_str` into a `Value` and reads
/// its `@type` strings (`Value::get`, `Value::as_str`, `Value::as_array`).
/// The reading depends on the text alone; this contract claims that much,
/// by naming it [`json_ld_reading`].
#[verifier::external_body]
fn read_json_ld(raw: &str) -> (r: Option<(Option<String>, Option<Vec<Option<String>>>)>)
    ensures
        reading_view(r) == json_ld_reading(raw@),
{
    let v: serde_json::Value = serde_json::from_str(raw).ok()?;
    let ty = |x: &serde_json::Value| x.get("@type").and_then(|y| y.as_str()).map(|s| s.to_string());
    Some((ty(&v), v.as_array().map(|a| a.iter().map(ty).collect())))
}

/// The first `@type` among the elements of an array.
pub open spec fn first_type(a: Seq<Option<Seq<char>>>) -> Option<Seq<char>>
    decreases a.len(),
{
    if a.len() == 0 {
        None
    } else if a[0] is Some {
        a[0]
    } else {
        first_type(a.drop_first())
    }
}

/// The summary of a JSON-LD reading: the `@type` of the object, else of the
/// first array element that has one, else `(invalid JSON)`.
pub open spec fn reading_summary(r: Option<(Option<Seq<char>>, Option<Seq<Option<Seq<char>>>>)>) -> Seq<char> {
    match r {
        Some((Some(t), _)) => t,
        Some((None, Some(a))) => match first_type(a) {
            Some(t) => t,
            None => "(invalid JSON)"@,
        },
        _ => "(invalid JSON)"@,
    }
}

/// The JSON-LD line of the head: `(empty)` for blank text, else the summary
/// of what the trimmed text reads as.
pub open spec fn json_ld_summary_view(raw: Seq<char>) -> Seq<char> {
    if trim_seq(raw).len() == 0 {
        "(empty)"@
    } else {
        reading_summary(json_ld_reading(trim_seq(raw)))
    }
}

/// Summarizes a JSON-LD reading (see [`reading_summary`]).
pub fn summarize_reading(r: Option<(Option<String>, Option<Vec<Option<String>>>)>) -> (s: String)
    ensures
        s@ == reading_summary(reading_view(r)),
{
    match r {
        Some((Some(t), _)) => t,
        Some((None, Some(a))) => {
            let ghost av = a@.map_values(|o: Option<String>| opt_view(o));
            let mut i: usize = 0;
            assert(av.skip(0) =~= av);
            while i < a.len()
                invariant
                    i <= a@.len(),
                    av == a@.map_values(|o: Option<String>| opt_view(o)),
                    reading_view(r) == Some((None::<Seq<char>>, Some(av))),
                    first_type(av) == first_type(av.skip(i as int)),
                decreases a@.len() - i,
            {
                assert(av.skip(i as int)[0] == opt_view(a@[i as int]));
                assert(av.skip(i as int).drop_first() =~= av.skip(i + 1));
                match &a[i] {
                    Some(t) => {
                        return t.clone();
                    },
                    None => {},
                }
                i = i + 1;
            }
            assert(av.skip(i as int) =~= Seq::<Option<Seq<char>>>::empty());
            owned("(invalid JSON)")
        },
        _ => owned("(invalid JSON)"),
    }
}

fn json_ld_summary(raw: &str) -> (r: String)
    ensures
        r@ == json_ld_summary_view(raw@),
{
    let t = trim(raw);
    if t.unicode_len() == 0 {
        return owned("(empty)");
    }
    summarize_reading(read_json_ld(t))
}

/// The host part of a URL: its third `/`-separated piece, or the whole text.
pub open spec fn host_of_view(href: Seq<char>) -> Seq<char> {
    if split_on(href, '/').len() > 2 {
        split_on(href, '/')[2]
    } else {
        href
    }
}

fn host_of(href: &str) -> (r: String)
    ensures
        r@ == host_of_view(href@),
{
    let cs = chars_of(href);
    let mut done: usize = 0;
    let mut cur = String::new();
    let mut i: usize = 0;
    while i < cs.len()
        invariant
            i <= cs@.len(),
            cs@ == href@,
            done as nat == crate::text::split_acc(href@.take(i as int), '/').0.len(),
            done <= i,
            done <= 2 ==> cur@ == crate::text::split_acc(href@.take(i as int), '/').1,
            done > 2 ==> cur@ == crate::text::split_acc(href@.take(i as int), '/').0[2],
        decreases cs@.len() - i,
    {
        let c = cs[i];
        assert(href@.take(i + 1).drop_last() =~= href@.take(i as int));
        assert(href@.take(i + 1).last() == c);
        if c == '/' {
            if done == 2 {
                done = 3;
            } else if done < 2 {
                cur = String::new();
                done = done + 1;
            } else {
                done = done + 1;
            }
        } else if done <= 2 {
            push_char(&mut cur, c);
        }
        i = i + 1;
    }
    assert(href@.take(href@.len() as int) =~= href@);
    if done >= 2 {
        cur
    } else {
        owned(href)
    }
}

/// The number of newlines in `s`.
pub open spec fn newline_count(s: Seq<char>) -> nat
    decreases s.len(),
{
    if s.len() == 0 {
        0
    } else if s.last() == '\n' {
        newline_count(s.drop_last()) + 1
    } else {
        newline_count(s.drop_last())
    }
}

/// The number of lines of `s` (`str::lines().count()`): one per newline,
/// plus one for text after the last newline.
pub open spec fn line_count(s: Seq<char>) -> nat {
    if s.len() == 0 {
        0
    } else if s.last() == '\n' {
        newline_count(s)
    } else {
        newline_count(s) + 1
    }
}

proof fn lemma_newline_count_bound(s: Seq<char>)
    ensures
        newline_count(s) <= s.len(),
    decreases s.len(),
{
    if s.len() > 0 {
        lemma_newline_count_bound(s.drop_last());
    }
}

fn count_lines(s: &str) -> (r: usize)
    ensures
        r as nat == line_count(s@),
{
    let cs = chars_of(s);
    let mut n: usize = 0;
    let mut i: usize = 0;
    while i < cs.len()
        invariant
            i <= cs@.len(),
            cs@ == s@,
            n as nat == newline_count(s@.take(i as int)),
            n <= i,
        decreases cs@.len() - i,
    {
        assert(s@.take(i + 1).drop_last() =~= s@.take(i as int));
        if cs[i] == '\n' {
            n = n + 1;
        }
        i = i + 1;
    }
    assert(s@.take(s@.len() as int) =~= s@);
    if cs.len() > 0 && cs[cs.len() - 1] != '\n' {
        proof {
            lemma_newline_count_bound(s@.drop_last());
        }
        n + 1
    } else {
        n
    }
}

/// The head's lines: its fields, each labeled.
pub open spec fn head_lines_view(t: SpecTemplate) -> Seq<Seq<char>> {
    seq![
        "subject:     "@ + dash_view(t.subject),
        "preheader:   "@ + dash_view(t.preheader),
        "lang:        "@ + dash_view(t.lang),
        "title:       "@ + dash_view(t.head.title),
        "breakpoint:  "@ + dash_view(t.head.breakpoint),
        "base_url:    "@ + dash_view(t.base_url),
        "fonts:       "@ + fonts_text_view(t.head.fonts),
        "json_ld:     "@ + json_ld_summary_view(t.head.json_ld),
        "css:         "@ + css_text_view(t.head.css),
        "css_inline:  "@ + crate::cursor::values::bool_view(t.head.css_inline),
    ]
}

/// The fonts of the head, as `name (host)` joined by commas, or `(none)`.
pub open spec fn fonts_text_view(fonts: Seq<SpecWebFont>) -> Seq<char> {
    if fonts.len() == 0 {
        "(none)"@
    } else {
        join_seq(fonts.map_values(|f: SpecWebFont| f.name + " ("@ + host_of_view(f.href) + ")"@), ", "@)
    }
}

/// The custom CSS of the head: `(empty)` or its line count.
pub open spec fn css_text_view(css: Seq<char>) -> Seq<char> {
    if trim_seq(css).len() == 0 {
        "(empty)"@
    } else {
        decimal(line_count(css)) + " lines"@
    }
}

fn fonts_text(t: &Template) -> (r: String)
    ensures
        r@ == fonts_text_view(t@.head.fonts),
{
    if t.head.fonts.len() == 0 {
        return owned("(none)");
    }
    let mut items: Vec<String> = Vec::new();
    let mut i: usize = 0;
    while i < t.head.fonts.len()
        invariant
            i <= t.head.fonts@.len(),
            items@.len() == i,
            forall|k: int| 0 <= k < i ==> (#[trigger] items@[k])@ == t.head.fonts@[k].name@ + " ("@
                + host_of_view(t.head.fonts@[k].href@) + ")"@,
        decreases t.head.fonts@.len() - i,
    {
        let mut s = t.head.fonts[i].name.clone();
        push_str(&mut s, " (");
        let h = host_of(t.head.fonts[i].href.as_str());
        push_str(&mut s, h.as_str());
        push_str(&mut s, ")");
        items.push(s);
        i = i + 1;
    }
    assert(items@.map_values(|x: String| x@) =~= t@.head.fonts.map_values(
        |f: SpecWebFont| f.name + " ("@ + host_of_view(f.href) + ")"@,
    ));
    join_with(&items, ", ")
}

fn labeled(label: &str, value: &str) -> (r: String)
    ensures
        r@ == label@ + value@,
{
    let mut s = owned(label);
    push_str(&mut s, value);
    s
}

fn head_lines(t: &Template) -> (r: Vec<String>)
    ensures
        r@.map_values(|s: String| s@) == head_lines_view(t@),
{
    let mut v: Vec<String> = Vec::new();
    v.push(labeled("subject:     ", dash(t.subject.as_str())));
    v.push(labeled("preheader:   ", dash(t.preheader.as_str())));
    v.push(labeled("lang:        ", dash(t.lang.as_str())));
    v.push(labeled("title:       ", dash(t.head.title.as_str())));
    v.push(labeled("breakpoint:  ", dash(t.head.breakpoint.as_str())));
    v.push(labeled("base_url:    ", dash(t.base_url.as_str())));
    let f = fonts_text(t);
    v.push(labeled("fonts:       ", f.as_str()));
    let j = json_ld_summary(t.head.json_ld.as_str());
    v.push(labeled("json_ld:     ", j.as_str()));
    let css = if trim(t.head.css.as_str()).unicode_len() == 0 {
        owned("(empty)")
    } else {
        let n = count_lines(t.head.css.as_str());
        labeled(usize_to_decimal(n).as_str(), " lines")
    };
    v.push(labeled("css:         ", css.as_str()));
    v.push(labeled("css_inline:  ", crate::cursor::values::bool_str(t.head.css_inline)));
    assert(v@.map_values(|s: String| s@) =~= head_lines_view(t@));
    v
}

/// The brand's lines.
pub open spec fn brand_lines_view(t: SpecTemplate) -> Seq<Seq<char>> {
    seq![
        "font_family:         "@ + t.brand.font_family,
        "text_color:          "@ + t.brand.text_color,
        "background_color:    "@ + t.brand.background_color,
        "content_width:       "@ + decimal(t.brand.content_width as nat),
        "button_background:   "@ + t.brand.button_background,
        "button_color:        "@ + t.brand.button_color,
    ]
}

fn brand_lines(t: &Template) -> (r: Vec<String>)
    ensures
        r@.map_values(|s: String| s@) == brand_lines_view(t@),
{
    let mut v: Vec<String> = Vec::new();
    v.push(labeled("font_family:         ", t.brand.font_family.as_str()));
    v.push(labeled("text_color:          ", t.brand.text_color.as_str()));
    v.push(labeled("background_color:    ", t.brand.background_color.as_str()));
    let w = usize_to_decimal(t.brand.content_width as usize);
    v.push(labeled("content_width:       ", w.as_str()));
    v.push(labeled("button_background:   ", t.brand.button_background.as_str()));
    v.push(labeled("button_color:        ", t.brand.button_color.as_str()));
    assert(v@.map_values(|s: String| s@) =~= brand_lines_view(t@));
    v
}

/// How an image position is printed (`{:?}`).
pub open spec fn image_pos_debug(p: ImagePosition) -> Seq<char> {
    match p {
        ImagePosition::Top => "Top"@,
        ImagePosition::Left => "Left"@,
        ImagePosition::Right => "Right"@,
    }
}

fn image_pos_debug_str(p: ImagePosition) -> (r: &'static str)
    ensures
        r@ == image_pos_debug(p),
{
    match p {
        ImagePosition::Top => "Top",
        ImagePosition::Left => "Left",
        ImagePosition::Right => "Right",
    }
}

/// The lines describing a body node.
pub open spec fn body_node_lines_view(n: SpecBodyNode, width: nat) -> Seq<Seq<char>> {
    match n {
        SpecBodyNode::MjSection(s) => seq!["children: "@ + decimal(s.children.len())] + (match s.background_color {
            Some(bg) => seq!["background: "@ + bg],
            None => Seq::empty(),
        }) + seq![Seq::<char>::empty()] + section_ascii_view(s, width),
        SpecBodyNode::MjWrapper(w) => seq![
            "wrapper children: "@ + decimal(w.children.len()),
            "full_width: "@ + crate::cursor::values::bool_view(w.full_width),
        ],
        SpecBodyNode::MjHero(h) => seq!["hero children: "@ + decimal(h.children.len())] + (match h.background_url {
            Some(u) => seq!["background_url: "@ + u],
            None => Seq::empty(),
        }),
        SpecBodyNode::EmailHeader(h) => seq![
            "logo_src: "@ + dash_view(h.logo_src),
            "logo_alt: "@ + dash_view(h.logo_alt),
            "logo_width: "@ + h.logo_width,
        ],
        SpecBodyNode::EmailHero(h) => seq![
            "heading:    "@ + dash_view(h.heading),
            "subheading: "@ + dash_view(h.subheading),
            "image_src:  "@ + dash_view(h.image_src),
        ],
        SpecBodyNode::EmailCta(c) => seq![
            "heading: "@ + dash_view(c.heading),
            "copy:    "@ + dash_view(c.copy),
            "button:  "@ + dash_view(c.button_label) + " → "@ + dash_view(c.button_href),
        ],
        SpecBodyNode::EmailArticle(a) => seq![
            "title:     "@ + dash_view(a.title),
            "copy:      "@ + dash_view(a.copy),
            "image:     "@ + dash_view(a.image_src),
            "position:  "@ + image_pos_debug(a.image_position),
        ],
        SpecBodyNode::EmailFooter(f) => seq![
            "company: "@ + dash_view(f.company_name),
            "address: "@ + join_seq(f.address_lines, " / "@),
            "unsub:   "@ + dash_view(f.unsubscribe_href),
        ],
    }
}

fn push_all(v: &mut Vec<String>, w: Vec<String>)
    ensures
        final(v)@.map_values(|s: String| s@) == old(v)@.map_values(|s: String| s@) + w@.map_values(|s: String| s@),
{
    let mut w = w;
    let ghost wv = w@;
    let ghost v0 = v@;
    v.append(&mut w);
    assert(v@ == v0 + wv);
    assert(v@.map_values(|s: String| s@) =~= v0.map_values(|s: String| s@) + wv.map_values(|s: String| s@));
}

fn body_node_lines(n: &BodyNode, width: usize) -> (r: Vec<String>)
    ensures
        r@.map_values(|s: String| s@) == body_node_lines_view(n@, width as nat),
{
    let mut v: Vec<String> = Vec::new();
    match n {
        BodyNode::MjSection(s) => {
            let c = usize_to_decimal(s.children.len());
            v.push(labeled("children: ", c.as_str()));
            match &s.background_color {
                Some(bg) => v.push(labeled("background: ", bg.as_str())),
                None => {},
            }
            v.push(String::new());
            let a = section_ascii(s, width);
            push_all(&mut v, a);
        },
        BodyNode::MjWrapper(w) => {
            assert(n@ == SpecBodyNode::MjWrapper(w@));
            let c = usize_to_decimal(w.children.len());
            v.push(labeled("wrapper children: ", c.as_str()));
            v.push(labeled("full_width: ", crate::cursor::values::bool_str(w.full_width)));
            proof {
                lemma_seq_view_body_node(w.children@);
            }
        },
        BodyNode::MjHero(h) => {
            let c = usize_to_decimal(h.children.len());
            v.push(labeled("hero children: ", c.as_str()));
            match &h.background_url {
                Some(u) => v.push(labeled("background_url: ", u.as_str())),
                None => {},
            }
        },
        BodyNode::EmailHeader(h) => {
            v.push(labeled("logo_src: ", dash(h.logo_src.as_str())));
            v.push(labeled("logo_alt: ", dash(h.logo_alt.as_str())));
            v.push(labeled("logo_width: ", h.logo_width.as_str()));
        },
        BodyNode::EmailHero(h) => {
            v.push(labeled("heading:    ", dash(h.heading.as_str())));
            v.push(labeled("subheading: ", dash(h.subheading.as_str())));
            v.push(labeled("image_src:  ", dash(h.image_src.as_str())));
        },
        BodyNode::EmailCta(c) => {
            v.push(labeled("heading: ", dash(c.heading.as_str())));
            v.push(labeled("copy:    ", dash(c.copy.as_str())));
            let mut b = labeled("button:  ", dash(c.button_label.as_str()));
            push_str(&mut b, " → ");
            push_str(&mut b, dash(c.button_href.as_str()));
            v.push(b);
        },
        BodyNode::EmailArticle(a) => {
            v.push(labeled("title:     ", dash(a.title.as_str())));
            v.push(labeled("copy:      ", dash(a.copy.as_str())));
            v.push(labeled("image:     ", dash(a.image_src.as_str())));
            v.push(labeled("position:  ", image_pos_debug_str(a.image_position)));
        },
        BodyNode::EmailFooter(f) => {
            v.push(labeled("company: ", dash(f.company_name.as_str())));
            let j = join_with(&f.address_lines, " / ");
            v.push(labeled("address: ", j.as_str()));
            v.push(labeled("unsub:   ", dash(f.unsubscribe_href.as_str())));
        },
    }
    assert(v@.map_values(|s: String| s@) =~= body_node_lines_view(n@, width as nat));
    v
}

/// The lines describing a column: its width, its component count, and one
/// line per component.
pub open spec fn column_lines_view(c: SpecMjColumn) -> Seq<Seq<char>> {
    seq![
        "width: "@ + match c.width {
            Some(w) => w,
            None => "(equal split)"@,
        },
        "components: "@ + decimal(c.components.len()),
    ] + c.components.map_values(|x: SpecColumnChild| "  - "@ + child_detail_view(x))
}

fn column_lines(c: &MjColumn) -> (r: Vec<String>)
    ensures
        r@.map_values(|s: String| s@) == column_lines_view(c@),
{
    let mut v: Vec<String> = Vec::new();
    match &c.width {
        Some(w) => v.push(labeled("width: ", w.as_str())),
        None => v.push(labeled("width: ", "(equal split)")),
    }
    let n = usize_to_decimal(c.components.len());
    v.push(labeled("components: ", n.as_str()));
    let ghost head = v@.map_values(|s: String| s@);
    let mut i: usize = 0;
    while i < c.components.len()
        invariant
            i <= c.components@.len(),
            v@.map_values(|s: String| s@) == head + c@.components.take(i as int).map_values(
                |x: SpecColumnChild| "  - "@ + child_detail_view(x),
            ),
        decreases c.components@.len() - i,
    {
        let d = child_detail(&c.components[i]);
        let l = labeled("  - ", d.as_str());
        let ghost lv = l@;
        let ghost before = v@.map_values(|s: String| s@);
        v.push(l);
        assert(v@.map_values(|s: String| s@) =~= before.push(lv));
        i = i + 1;
        assert(head + c@.components.take(i as int).map_values(|x: SpecColumnChild| "  - "@ + child_detail_view(x))
            =~= before.push(lv));
    }
    assert(c@.components.take(c@.components.len() as int) =~= c@.components);
    assert(head =~= seq![
        "width: "@ + match c@.width {
            Some(w) => w,
            None => "(equal split)"@,
        },
        "components: "@ + decimal(c@.components.len()),
    ]);
    v
}

/// What the inspector shows for a path.
pub enum DetailTarget {
    Node(SpecBodyNode),
    Column(SpecMjColumn),
    Leaf(Seq<char>, Seq<Seq<char>>),
    Missing,
}

/// What a path shows inside a column: the column, or one component's line
/// (any steps after a component step are not read).
pub open spec fn detail_in_column(c: SpecMjColumn, p: Seq<Step>, k: int) -> DetailTarget {
    if k >= p.len() {
        DetailTarget::Column(c)
    } else {
        match p[k] {
            Step::ColComp(i) => if i < c.components.len() {
                DetailTarget::Leaf(child_detail_view(c.components[i as int]), Seq::empty())
            } else {
                DetailTarget::Missing
            },
            _ => DetailTarget::Missing,
        }
    }
}

/// What a path shows for a body node reached through wrappers.
pub open spec fn detail_in_node(n: SpecBodyNode, p: Seq<Step>, k: int) -> DetailTarget {
    if k >= p.len() {
        DetailTarget::Node(n)
    } else {
        match (n, p[k]) {
            (SpecBodyNode::MjSection(s), Step::SectionChild(j)) => if j < s.children.len() {
                match s.children[j as int] {
                    SpecSectionChild::MjColumn(c) => detail_in_column(c, p, k + 1),
                    SpecSectionChild::MjGroup(g) => if k + 1 >= p.len() {
                        DetailTarget::Leaf("mj-group"@, seq!["columns: "@ + decimal(g.children.len())])
                    } else {
                        match p[k + 1] {
                            Step::GroupCol(i) => if i < g.children.len() {
                                detail_in_column(g.children[i as int], p, k + 2)
                            } else {
                                DetailTarget::Missing
                            },
                            _ => DetailTarget::Missing,
                        }
                    },
                }
            } else {
                DetailTarget::Missing
            },
            (SpecBodyNode::MjHero(h), Step::HeroChild(j)) => if j < h.children.len() {
                DetailTarget::Leaf(child_detail_view(h.children[j as int]), Seq::empty())
            } else {
                DetailTarget::Missing
            },
            _ => DetailTarget::Missing,
        }
    }
}

/// What the inspector shows for a path.
pub open spec fn detail_target(t: SpecTemplate, p: Seq<Step>) -> DetailTarget {
    if p.len() == 0 {
        DetailTarget::Missing
    } else {
        match crate::nav::node_at(t, p.take(crate::cursor::wrapper_run(p, 1))) {
            None => DetailTarget::Missing,
            Some(n) => detail_in_node(n, p, crate::cursor::wrapper_run(p, 1)),
        }
    }
}

/// The lines for a path.
pub open spec fn path_lines_view(t: SpecTemplate, p: Seq<Step>, width: nat) -> Seq<Seq<char>> {
    match detail_target(t, p) {
        DetailTarget::Node(n) => body_node_lines_view(n, width),
        DetailTarget::Column(c) => column_lines_view(c),
        DetailTarget::Leaf(label, extra) => seq![label] + extra,
        DetailTarget::Missing => seq!["(missing node)"@],
    }
}

/// The inspector's lines: a notice without a template or a selection; the
/// head's or brand's fields; the node count and a drawing of the email for
/// the body; else the lines for the selected path.
pub open spec fn details_view(t: Option<SpecTemplate>, row: Option<SpecTreeId>, width: nat) -> Seq<Seq<char>> {
    match t {
        None => seq!["No template open."@],
        Some(t) => match row {
            None => seq!["Nothing selected."@],
            Some(SpecTreeId::Head) => head_lines_view(t),
            Some(SpecTreeId::Brand) => brand_lines_view(t),
            Some(SpecTreeId::Body) => seq!["nodes: "@ + decimal(t.body.nodes.len()), Seq::<char>::empty()]
                + email_ascii_view(t, width),
            Some(SpecTreeId::Path(p)) => path_lines_view(t, p, width),
        },
    }
}

fn one_line(s: String) -> (r: Vec<String>)
    ensures
        r@.map_values(|x: String| x@) == seq![s@],
{
    let mut v: Vec<String> = Vec::new();
    v.push(s);
    assert(v@.map_values(|x: String| x@) =~= seq![v@[0]@]);
    v
}

fn column_detail(c: &MjColumn, p: &[Step], k: usize) -> (r: Vec<String>)
    ensures
        r@.map_values(|s: String| s@) == match detail_in_column(c@, p@, k as int) {
            DetailTarget::Column(c) => column_lines_view(c),
            DetailTarget::Leaf(label, extra) => seq![label] + extra,
            _ => seq!["(missing node)"@],
        },
{
    if k >= p.len() {
        return column_lines(c);
    }
    match p[k] {
        Step::ColComp(i) => if i < c.components.len() {
            let d = child_detail(&c.components[i]);
            let r = one_line(d);
            assert(seq![c@.components[i as int]].len() == 1);
            proof {
                let label = child_detail_view(c@.components[i as int]);
                assert(seq![label] + Seq::<Seq<char>>::empty() =~= seq![label]);
            }
            r
        } else {
            one_line(owned("(missing node)"))
        },
        _ => one_line(owned("(missing node)")),
    }
}

fn node_detail(n: &BodyNode, p: &[Step], k: usize, width: usize) -> (r: Vec<String>)
    ensures
        r@.map_values(|s: String| s@) == match detail_in_node(n@, p@, k as int) {
            DetailTarget::Node(n) => body_node_lines_view(n, width as nat),
            DetailTarget::Column(c) => column_lines_view(c),
            DetailTarget::Leaf(label, extra) => seq![label] + extra,
            DetailTarget::Missing => seq!["(missing node)"@],
        },
{
    if k >= p.len() {
        return body_node_lines(n, width);
    }
    match (n, p[k]) {
        (BodyNode::MjSection(s), Step::SectionChild(j)) => if j < s.children.len() {
            match &s.children[j] {
                SectionChild::MjColumn(c) => column_detail(c, p, k + 1),
                SectionChild::MjGroup(g) => {
                    if k + 1 >= p.len() {
                        let mut v = one_line(owned("mj-group"));
                        let ghost before = v@.map_values(|x: String| x@);
                        let c = usize_to_decimal(g.children.len());
                        let l = labeled("columns: ", c.as_str());
                        let ghost lv = l@;
                        v.push(l);
                        assert(v@.map_values(|x: String| x@) =~= before.push(lv));
                        assert(seq!["mj-group"@] + seq![lv] =~= before.push(lv));
                        v
                    } else {
                        match p[k + 1] {
                            Step::GroupCol(i) => if i < g.children.len() {
                                column_detail(&g.children[i], p, k + 2)
                            } else {
                                one_line(owned("(missing node)"))
                            },
                            _ => one_line(owned("(missing node)")),
                        }
                    }
                },
            }
        } else {
            one_line(owned("(missing node)"))
        },
        (BodyNode::MjHero(h), Step::HeroChild(j)) => if j < h.children.len() {
            let d = child_detail(&h.children[j]);
            let r = one_line(d);
            proof {
                let label = child_detail_view(h@.children[j as int]);
                assert(seq![label] + Seq::<Seq<char>>::empty() =~= seq![label]);
            }
            r
        } else {
            one_line(owned("(missing node)"))
        },
        _ => {
            assert(detail_in_node(n@, p@, k as int) is Missing);
            one_line(owned("(missing node)"))
        },
    }
}

/// The inspector's lines for the selected row (`width` is the pane width).
pub fn details_lines(template: Option<&Template>, row: Option<&TreeId>, width: usize) -> (r: Vec<String>)
    ensures
        r@.map_values(|s: String| s@) == details_view(
            match template {
                Some(t) => Some(t@),
                None => None,
            },
            match row {
                Some(id) => Some(id@),
                None => None,
            },
            width as nat,
        ),
{
    let t = match template {
        None => {
            return one_line(owned("No template open."));
        },
        Some(t) => t,
    };
    let row = match row {
        None => {
            return one_line(owned("Nothing selected."));
        },
        Some(r) => r,
    };
    match row {
        TreeId::Head => head_lines(t),
        TreeId::Brand => brand_lines(t),
        TreeId::Body => {
            let c = usize_to_decimal(t.body.nodes.len());
            let mut v = one_line(labeled("nodes: ", c.as_str()));
            let ghost v1 = v@.map_values(|x: String| x@);
            v.push(String::new());
            assert(v@.map_values(|x: String| x@) =~= v1.push(Seq::<char>::empty()));
            let a = email_ascii(t, width);
            push_all(&mut v, a);
            proof {
                lemma_seq_view_body_node(t.body.nodes@);
            }
            v
        },
        TreeId::Path(p) => {
            if p.len() == 0 {
                return one_line(owned("(missing node)"));
            }
            let k = wrapper_run_of(p.as_slice());
            let q = prefix_of(p.as_slice(), k);
            match crate::nav::node_at_ref(t, q.as_slice()) {
                None => one_line(owned("(missing node)")),
                Some(n) => node_detail(n, p.as_slice(), k, width),
            }
        },
    }
}

fn wrapper_run_of(p: &[Step]) -> (r: usize)
    requires
        p@.len() >= 1,
    ensures
        r as int == crate::cursor::wrapper_run(p@, 1),
        1 <= r <= p@.len(),
{
    let mut k: usize = 1;
    while k < p.len() && matches!(p[k], Step::WrapperChild(_))
        invariant
            1 <= k <= p@.len(),
            crate::cursor::wrapper_run(p@, 1) == crate::cursor::wrapper_run(p@, k as int),
        decreases p@.len() - k,
    {
        k = k + 1;
    }
    k
}

fn prefix_of(p: &[Step], k: usize) -> (r: Vec<Step>)
    requires
        k <= p@.len(),
    ensures
        r@ == p@.take(k as int),
{
    let mut r: Vec<Step> = Vec::new();
    let mut i: usize = 0;
    while i < k
        invariant
            i <= k <= p@.len(),
            r@ == p@.take(i as int),
        decreases k - i,
    {
        r.push(p[i]);
        i = i + 1;
        assert(r@ =~= p@.take(i as int));
    }
    r
}

// ---------------------------------------------------------------------------
// What the inspector shows for a top-level email block
// ---------------------------------------------------------------------------

proof fn lemma_top_level_target(t: SpecTemplate, i: usize)
    requires
        i < t.body.nodes.len(),
    ensures
        detail_target(t, seq![Step::BodyNode(i)]) == DetailTarget::Node(t.body.nodes[i as int]),
{
    let p = seq![Step::BodyNode(i)];
    assert(crate::cursor::wrapper_run(p, 1) == 1);
    assert(p.take(1) =~= p);
}

/// Selecting a top-level call to action shows its heading, its copy, and
/// its button as the label, an arrow, then the link (a blank value shown as
/// a dash).
pub proof fn law_cta_details(t: SpecTemplate, i: usize, c: SpecEmailCta, width: nat)
    requires
        i < t.body.nodes.len(),
        t.body.nodes[i as int] == SpecBodyNode::EmailCta(c),
    ensures
        details_view(Some(t), Some(SpecTreeId::Path(seq![Step::BodyNode(i)])), width) == seq![
            "heading: "@ + dash_view(c.heading),
            "copy:    "@ + dash_view(c.copy),
            "button:  "@ + dash_view(c.button_label) + " → "@ + dash_view(c.button_href),
        ],
{
    lemma_top_level_target(t, i);
}

/// Selecting a top-level header shows its logo source, alt text and width.
pub proof fn law_header_details(t: SpecTemplate, i: usize, h: SpecEmailHeader, width: nat)
    requires
        i < t.body.nodes.len(),
        t.body.nodes[i as int] == SpecBodyNode::EmailHeader(h),
    ensures
        details_view(Some(t), Some(SpecTreeId::Path(seq![Step::BodyNode(i)])), width) == seq![
            "logo_src: "@ + dash_view(h.logo_src),
            "logo_alt: "@ + dash_view(h.logo_alt),
            "logo_width: "@ + h.logo_width,
        ],
{
    lemma_top_level_target(t, i);
}

/// Selecting a top-level hero block shows its heading, subheading and image.
pub proof fn law_email_hero_details(t: SpecTemplate, i: usize, h: SpecEmailHero, width: nat)
    requires
        i < t.body.nodes.len(),
        t.body.nodes[i as int] == SpecBodyNode::EmailHero(h),
    ensures
        details_view(Some(t), Some(SpecTreeId::Path(seq![Step::BodyNode(i)])), width) == seq![
            "heading:    "@ + dash_view(h.heading),
            "subheading: "@ + dash_view(h.subheading),
            "image_src:  "@ + dash_view(h.image_src),
        ],
{
    lemma_top_level_target(t, i);
}

/// Selecting a top-level article shows its title, copy, image and image
/// position.
pub proof fn law_article_details(t: SpecTemplate, i: usize, a: SpecEmailArticle, width: nat)
    requires
        i < t.body.nodes.len(),
        t.body.nodes[i as int] == SpecBodyNode::EmailArticle(a),
    ensures
        details_view(Some(t), Some(SpecTreeId::Path(seq![Step::BodyNode(i)])), width) == seq![
            "title:     "@ + dash_view(a.title),
            "copy:      "@ + dash_view(a.copy),
            "image:     "@ + dash_view(a.image_src),
            "position:  "@ + image_pos_debug(a.image_position),
        ],
{
    lemma_top_level_target(t, i);
}

/// Selecting a top-level footer shows its company, its address lines joined
/// with ` / `, and its unsubscribe link.
pub proof fn law_footer_details(t: SpecTemplate, i: usize, f: SpecEmailFooter, width: nat)
    requires
        i < t.body.nodes.len(),
        t.body.nodes[i as int] == SpecBodyNode::EmailFooter(f),
    ensures
        details_view(Some(t), Some(SpecTreeId::Path(seq![Step::BodyNode(i)])), width) == seq![
            "company: "@ + dash_view(f.company_name),
            "address: "@ + join_seq(f.address_lines, " / "@),
            "unsub:   "@ + dash_view(f.unsubscribe_href),
        ],
{
    lemma_top_level_target(t, i);
}


/// Selecting the head shows its subject, preheader, language, title,
/// breakpoint, base URL, fonts, JSON-LD summary, CSS summary and inline
/// flag, in that order, each under its label.
pub proof fn law_head_details(t: SpecTemplate, width: nat)
    ensures
        details_view(Some(t), Some(SpecTreeId::Head), width) == seq![
            "subject:     "@ + dash_view(t.subject),
            "preheader:   "@ + dash_view(t.preheader),
            "lang:        "@ + dash_view(t.lang),
            "title:       "@ + dash_view(t.head.title),
            "breakpoint:  "@ + dash_view(t.head.breakpoint),
            "base_url:    "@ + dash_view(t.base_url),
            "fonts:       "@ + fonts_text_view(t.head.fonts),
            "json_ld:     "@ + json_ld_summary_view(t.head.json_ld),
            "css:         "@ + css_text_view(t.head.css),
            "css_inline:  "@ + crate::cursor::values::bool_view(t.head.css_inline),
        ],
{
}

/// Selecting the brand shows its font family, text colour, background
/// colour, content width, button background and button colour, in that
/// order, each under its label.
pub proof fn law_brand_details(t: SpecTemplate, width: nat)
    ensures
        details_view(Some(t), Some(SpecTreeId::Brand), width) == seq![
            "font_family:         "@ + t.brand.font_family,
            "text_color:          "@ + t.brand.text_color,
            "background_color:    "@ + t.brand.background_color,
            "content_width:       "@ + decimal(t.brand.content_width as nat),
            "button_background:   "@ + t.brand.button_background,
            "button_color:        "@ + t.brand.button_color,
        ],
{
}

/// A column's lines give its width, its component count, then one line per
/// component, in order.
pub proof fn law_column_details(c: SpecMjColumn)
    ensures
        column_lines_view(c).len() == c.components.len() + 2,
        column_lines_view(c)[1] == "components: "@ + decimal(c.components.len()),
        forall|k: int| 0 <= k < c.components.len() ==> #[trigger] column_lines_view(c)[k + 2] == "  - "@
            + child_detail_view(c.components[k]),
{
}

/// A button's line gives its label, an arrow, then its link; an image's and
/// a spacer's give their source and height; a text's gives its content on
/// one line, cut to 40 characters.
pub proof fn law_component_detail(c: SpecColumnChild)
    ensures
        c matches SpecColumnChild::MjButton(b) ==> child_detail_view(c) == "mj-button  "@ + b.content + " → "@ + b.href,
        c matches SpecColumnChild::MjImage(i) ==> child_detail_view(c) == "mj-image  "@ + i.src,
        c matches SpecColumnChild::MjSpacer(x) ==> child_detail_view(c) == "mj-spacer  "@ + x.height,
        c matches SpecColumnChild::MjText(x) ==> child_detail_view(c) == "mj-text  "@ + truncate_view(x.content, 40),
{
}

/// Text is shown on one line (newlines become spaces); when that is longer
/// than `max` it is cut to `max - 1` characters followed by `…`.
pub proof fn law_truncate(s: Seq<char>, max: nat)
    ensures
        s.len() <= max ==> truncate_view(s, max).len() == s.len(),
        s.len() > max >= 1 ==> truncate_view(s, max).len() == max && truncate_view(s, max).last() == '…',
        forall|k: int| 0 <= k < s.len() && (s.len() <= max || k < max - 1) ==> #[trigger] truncate_view(s, max)[k]
            == (if s[k] == '\n' { ' ' } else { s[k] }),
{
}

/// Selecting column `j` of a top-level section shows that column's lines,
/// and selecting component `i` of it shows that component's line.
pub proof fn law_section_column_details(t: SpecTemplate, b: usize, j: usize, i: usize, width: nat)
    requires
        b < t.body.nodes.len(),
        t.body.nodes[b as int] is MjSection,
        j < t.body.nodes[b as int]->MjSection_0.children.len(),
        t.body.nodes[b as int]->MjSection_0.children[j as int] is MjColumn,
    ensures
        ({
            let c = t.body.nodes[b as int]->MjSection_0.children[j as int]->MjColumn_0;
            &&& details_view(Some(t), Some(SpecTreeId::Path(seq![Step::BodyNode(b), Step::SectionChild(j)])), width)
                == column_lines_view(c)
            &&& i < c.components.len() ==> details_view(
                Some(t),
                Some(SpecTreeId::Path(seq![Step::BodyNode(b), Step::SectionChild(j), Step::ColComp(i)])),
                width,
            ) == seq![child_detail_view(c.components[i as int])]
        }),
{
    let p2 = seq![Step::BodyNode(b), Step::SectionChild(j)];
    let p3 = seq![Step::BodyNode(b), Step::SectionChild(j), Step::ColComp(i)];
    assert(crate::cursor::wrapper_run(p2, 1) == 1);
    assert(crate::cursor::wrapper_run(p3, 1) == 1);
    assert(p2.take(1) =~= seq![Step::BodyNode(b)]);
    assert(p3.take(1) =~= seq![Step::BodyNode(b)]);
    assert(seq![child_detail_view(t.body.nodes[b as int]->MjSection_0.children[j as int]->MjColumn_0.components[i as int])]
        + Seq::<Seq<char>>::empty() =~= seq![child_detail_view(
        t.body.nodes[b as int]->MjSection_0.children[j as int]->MjColumn_0.components[i as int],
    )]);
}

/// A cell `width` wide is exactly that wide: a space, then the text (cut to
/// the room left), then spaces.
pub proof fn law_pad_cell(text: Seq<char>, width: nat)
    requires
        width > 0,
    ensures
        pad_cell_view(text, width).len() == width,
        pad_cell_view(text, width)[0] == ' ',
        forall|k: int| 0 <= k < text.len() && k < width - 1 ==> #[trigger] pad_cell_view(text, width)[k + 1] == text[k],
        forall|k: int| text.len() <= k < width - 1 ==> #[trigger] pad_cell_view(text, width)[k + 1] == ' ',
{
    let w = (width - 1) as nat;
    let t = if text.len() <= w { text } else { text.take(w as int) };
    let r = pad_cell_view(text, width);
    assert(r == seq![' '] + t + repeat_view(' ', (w - t.len()) as nat));
    assert forall|k: int| 0 <= k < text.len() && k < width - 1 implies #[trigger] r[k + 1] == text[k] by {
        assert(r[k + 1] == t[k]);
    }
    assert forall|k: int| text.len() <= k < width - 1 implies #[trigger] r[k + 1] == ' ' by {
        assert(r[k + 1] == repeat_view(' ', (w - t.len()) as nat)[k - t.len()]);
    }
}

proof fn lemma_node_box_lines(nodes: Seq<SpecBodyNode>, inner: nat, k: nat)
    requires
        k <= nodes.len(),
    ensures
        node_box_lines(nodes, inner, k).len() == k,
        forall|i: int| 0 <= i < k ==> #[trigger] node_box_lines(nodes, inner, k)[i] == fit_box_view(
            decimal((i + 1) as nat) + ". "@ + body_kind_view(nodes[i]),
            inner,
        ),
    decreases k,
{
    if k > 0 {
        lemma_node_box_lines(nodes, inner, (k - 1) as nat);
    }
}

/// The drawing of the email is a box: a border, the canvas width, then one
/// line per top-level node, numbered from 1 in order with the node's tag,
/// then the border again.
pub proof fn law_email_drawing(t: SpecTemplate, width: nat)
    requires
        t.body.nodes.len() > 0,
    ensures
        ({
            let lines = email_ascii_view(t, width);
            let inner = inner_width(width);
            &&& lines.len() == t.body.nodes.len() + 3
            &&& lines[1] == fit_box_view(decimal(t.brand.content_width as nat) + "px canvas"@, inner)
            &&& lines[0] == lines[lines.len() - 1]
            &&& forall|k: int| 0 <= k < t.body.nodes.len() ==> #[trigger] lines[k + 2] == fit_box_view(
                decimal((k + 1) as nat) + ". "@ + body_kind_view(t.body.nodes[k]),
                inner,
            )
        }),
{
    lemma_node_box_lines(t.body.nodes, inner_width(width), t.body.nodes.len());
}

proof fn lemma_cells_row(children: Seq<SpecSectionChild>, cell: nat, k: nat)
    requires
        cell > 0,
        k <= children.len(),
    ensures
        cells_row(children, cell, k).len() == 1 + k * (cell + 1),
        cells_row(children, cell, k)[0] == '|',
        forall|j: int| 0 <= j < k ==> #[trigger] cells_row(children, cell, k).subrange(
            1 + j * (cell + 1),
            1 + j * (cell + 1) + cell,
        ) == pad_cell_view(cell_label_view(children[j]), cell),
        forall|j: int| 0 <= j < k ==> #[trigger] cells_row(children, cell, k)[1 + j * (cell + 1) + cell] == '|',
    decreases k,
{
    reveal_strlit("|");
    if k > 0 {
        let k1 = (k - 1) as nat;
        lemma_cells_row(children, cell, k1);
        let prev = cells_row(children, cell, k1);
        let pad = pad_cell_view(cell_label_view(children[k1 as int]), cell);
        law_pad_cell(cell_label_view(children[k1 as int]), cell);
        let row = cells_row(children, cell, k);
        assert(row == prev + pad + "|"@);
        assert(1 + k1 * (cell + 1) + cell + 1 == 1 + k * (cell + 1)) by (nonlinear_arith)
            requires
                k1 + 1 == k,
        ;
        assert forall|j: int| 0 <= j < k implies #[trigger] row.subrange(1 + j * (cell + 1), 1 + j * (cell + 1) + cell)
            == pad_cell_view(cell_label_view(children[j]), cell) by {
            if j < k1 {
                assert(1 + j * (cell + 1) + cell < 1 + k1 * (cell + 1)) by (nonlinear_arith)
                    requires
                        0 <= j < k1,
                ;
                assert(row.subrange(1 + j * (cell + 1), 1 + j * (cell + 1) + cell) =~= prev.subrange(
                    1 + j * (cell + 1),
                    1 + j * (cell + 1) + cell,
                ));
            } else {
                assert(row.subrange(1 + j * (cell + 1), 1 + j * (cell + 1) + cell) =~= pad);
            }
        }
        assert forall|j: int| 0 <= j < k implies #[trigger] row[1 + j * (cell + 1) + cell] == '|' by {
            if j < k1 {
                assert(1 + j * (cell + 1) + cell < 1 + k1 * (cell + 1)) by (nonlinear_arith)
                    requires
                        0 <= j < k1,
                ;
                assert(row[1 + j * (cell + 1) + cell] == prev[1 + j * (cell + 1) + cell]);
            }
        }
    } else {
        assert(cells_row(children, cell, 0) == "|"@);
    }
}

/// The drawing of a section with children is a row of cells between two
/// borders, one cell per child in order, each holding the child's label,
/// with bars between the cells.
pub proof fn law_section_drawing(s: SpecMjSection, width: nat)
    requires
        s.children.len() > 0,
    ensures
        ({
            let lines = section_ascii_view(s, width);
            let cell = cell_width(inner_width(width), s.children.len());
            let row = lines[1];
            &&& lines.len() == 3
            &&& lines[0] == lines[2]
            &&& row.len() == 1 + s.children.len() * (cell + 1)
            &&& forall|j: int| 0 <= j < s.children.len() ==> #[trigger] row.subrange(
                1 + j * (cell + 1),
                1 + j * (cell + 1) + cell,
            ) == pad_cell_view(cell_label_view(s.children[j]), cell)
            &&& forall|j: int| 0 <= j < s.children.len() ==> #[trigger] row[1 + j * (cell + 1) + cell] == '|'
        }),
{
    let cell = cell_width(inner_width(width), s.children.len());
    assert(cell >= 4);
    lemma_cells_row(s.children, cell, s.children.len());
}

} // verus!
