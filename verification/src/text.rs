//! String helpers with exact specifications over `Seq<char>`.
use vstd::prelude::*;

verus! {

/// The ASCII digit for `d`.
pub open spec fn digit_char(d: nat) -> char {
    if d == 0 { '0' }
    else if d == 1 { '1' }
    else if d == 2 { '2' }
    else if d == 3 { '3' }
    else if d == 4 { '4' }
    else if d == 5 { '5' }
    else if d == 6 { '6' }
    else if d == 7 { '7' }
    else if d == 8 { '8' }
    else { '9' }
}

/// Decimal rendering of a natural number, without leading zeros.
pub open spec fn decimal(n: nat) -> Seq<char>
    decreases n,
{
    if n < 10 {
        seq![digit_char(n)]
    } else {
        decimal(n / 10).push(digit_char(n % 10))
    }
}

/// Appends one character (std `String::push`).
#[verifier::external_body]
pub(crate) fn push_char(s: &mut String, c: char)
    ensures
        final(s)@ == old(s)@.push(c),
{
    s.push(c);
}

/// Appends a string slice.
pub fn push_str(s: &mut String, t: &str)
    ensures
        final(s)@ == old(s)@ + t@,
{
    s.append(t);
}

/// Whether two string slices hold the same characters.
pub fn str_eq(a: &str, b: &str) -> (r: bool)
    ensures
        r == (a@ == b@),
{
    let x = String::from_str(a);
    let y = String::from_str(b);
    x == y
}

/// The characters of `s`, in order.
pub fn chars_of(s: &str) -> (r: Vec<char>)
    ensures
        r@ == s@,
{
    let mut r: Vec<char> = Vec::new();
    for c in it: s.chars()
        invariant
            r@ == it.seq().take(it.index() as int),
    {
        r.push(c);
    }
    r
}

/// A fresh empty string.
pub fn empty_string() -> (r: String)
    ensures
        r@ == Seq::<char>::empty(),
{
    String::new()
}

/// An owned copy of a string slice.
pub fn owned(s: &str) -> (r: String)
    ensures
        r@ == s@,
{
    String::from_str(s)
}

/// The decimal digits of `n`, as `format!("{n}")` writes them.
pub fn usize_to_decimal(n: usize) -> (r: String)
    ensures
        r@ == decimal(n as nat),
    decreases n,
{
    if n < 10 {
        let mut s = String::new();
        push_char(&mut s, digit_of(n));
        s
    } else {
        let mut s = usize_to_decimal(n / 10);
        push_char(&mut s, digit_of(n % 10));
        s
    }
}

fn digit_of(d: usize) -> (c: char)
    requires
        d < 10,
    ensures
        c == digit_char(d as nat),
{
    if d == 0 { '0' }
    else if d == 1 { '1' }
    else if d == 2 { '2' }
    else if d == 3 { '3' }
    else if d == 4 { '4' }
    else if d == 5 { '5' }
    else if d == 6 { '6' }
    else if d == 7 { '7' }
    else if d == 8 { '8' }
    else { '9' }
}

/// Unicode `White_Space`, the set `char::is_whitespace` tests.
pub open spec fn is_ws(c: char) -> bool {
    let n = c as u32;
    ||| 9 <= n <= 13
    ||| n == 32
    ||| n == 0x85
    ||| n == 0xa0
    ||| n == 0x1680
    ||| 0x2000 <= n <= 0x200a
    ||| n == 0x2028
    ||| n == 0x2029
    ||| n == 0x202f
    ||| n == 0x205f
    ||| n == 0x3000
}

/// `s` without its leading whitespace.
pub open spec fn trim_start_seq(s: Seq<char>) -> Seq<char>
    decreases s.len(),
{
    if s.len() > 0 && is_ws(s[0]) {
        trim_start_seq(s.drop_first())
    } else {
        s
    }
}

/// `s` without its trailing whitespace.
pub open spec fn trim_end_seq(s: Seq<char>) -> Seq<char>
    decreases s.len(),
{
    if s.len() > 0 && is_ws(s.last()) {
        trim_end_seq(s.drop_last())
    } else {
        s
    }
}

/// `s` without leading and trailing whitespace (what `str::trim` gives).
pub open spec fn trim_seq(s: Seq<char>) -> Seq<char> {
    trim_end_seq(trim_start_seq(s))
}

/// Whether `c` is whitespace.
pub fn char_is_ws(c: char) -> (r: bool)
    ensures
        r == is_ws(c),
{
    let n = c as u32;
    (9 <= n && n <= 13) || n == 32 || n == 0x85 || n == 0xa0 || n == 0x1680 || (0x2000 <= n && n
        <= 0x200a) || n == 0x2028 || n == 0x2029 || n == 0x202f || n == 0x205f || n == 0x3000
}

proof fn lemma_trim_start_skip(s: Seq<char>, i: int)
    requires
        0 <= i <= s.len(),
        forall|k: int| 0 <= k < i ==> is_ws(#[trigger] s[k]),
    ensures
        trim_start_seq(s) == trim_start_seq(s.skip(i)),
    decreases i,
{
    if i > 0 {
        assert(s.skip(1).skip(i - 1) =~= s.skip(i));
        assert forall|k: int| 0 <= k < i - 1 implies is_ws(#[trigger] s.skip(1)[k]) by {
            assert(s.skip(1)[k] == s[k + 1]);
        }
        lemma_trim_start_skip(s.skip(1), i - 1);
        assert(s.drop_first() =~= s.skip(1));
    } else {
        assert(s.skip(0) =~= s);
    }
}

proof fn lemma_trim_end_take(s: Seq<char>, j: int)
    requires
        0 <= j <= s.len(),
        forall|k: int| j <= k < s.len() ==> is_ws(#[trigger] s[k]),
    ensures
        trim_end_seq(s) == trim_end_seq(s.take(j)),
    decreases s.len() - j,
{
    if j < s.len() {
        assert forall|k: int| j <= k < s.drop_last().len() implies is_ws(#[trigger] s.drop_last()[k]) by {
            assert(s.drop_last()[k] == s[k]);
        }
        lemma_trim_end_take(s.drop_last(), j);
        assert(s.drop_last().take(j) =~= s.take(j));
    } else {
        assert(s.take(j) =~= s);
    }
}

/// `s` without leading and trailing whitespace.
pub fn trim(s: &str) -> (r: &str)
    ensures
        r@ == trim_seq(s@),
{
    let cs = chars_of(s);
    let n = cs.len();
    let mut a: usize = 0;
    while a < n && char_is_ws(cs[a])
        invariant
            a <= n,
            n == s@.len(),
            cs@ == s@,
            forall|k: int| 0 <= k < a ==> is_ws(#[trigger] s@[k]),
        decreases n - a,
    {
        a = a + 1;
    }
    proof {
        lemma_trim_start_skip(s@, a as int);
    }
    let ghost u = s@.skip(a as int);
    assert(a < n ==> !is_ws(u[0]));
    assert(trim_start_seq(u) == u);
    let mut b: usize = n;
    while b > a && char_is_ws(cs[b - 1])
        invariant
            a <= b <= n,
            n == s@.len(),
            cs@ == s@,
            u == s@.skip(a as int),
            forall|k: int| b - a <= k < u.len() ==> is_ws(#[trigger] u[k]),
        decreases b,
    {
        b = b - 1;
    }
    proof {
        lemma_trim_end_take(u, (b - a) as int);
        let w = u.take((b - a) as int);
        if w.len() > 0 {
            assert(!is_ws(w.last()));
        }
        assert(trim_end_seq(w) == w);
        assert(w =~= s@.subrange(a as int, b as int));
    }
    s.substring_char(a, b)
}
/// The pieces joined with `sep` between them.
pub open spec fn join_seq(pieces: Seq<Seq<char>>, sep: Seq<char>) -> Seq<char>
    decreases pieces.len(),
{
    if pieces.len() == 0 {
        Seq::empty()
    } else if pieces.len() == 1 {
        pieces[0]
    } else {
        join_seq(pieces.drop_last(), sep) + sep + pieces.last()
    }
}

/// Splitting `s` at each `c`, read left to right: the finished pieces and
/// the piece still open.
pub open spec fn split_acc(s: Seq<char>, c: char) -> (Seq<Seq<char>>, Seq<char>)
    decreases s.len(),
{
    if s.len() == 0 {
        (Seq::empty(), Seq::empty())
    } else {
        let (done, cur) = split_acc(s.drop_last(), c);
        if s.last() == c {
            (done.push(cur), Seq::empty())
        } else {
            (done, cur.push(s.last()))
        }
    }
}

/// The pieces of `s` between the occurrences of `c` (what `str::split(c)` yields).
pub open spec fn split_on(s: Seq<char>, c: char) -> Seq<Seq<char>> {
    split_acc(s, c).0.push(split_acc(s, c).1)
}

/// The pieces that are not blank, in order.
pub open spec fn keep_nonblank(pieces: Seq<Seq<char>>) -> Seq<Seq<char>>
    decreases pieces.len(),
{
    if pieces.len() == 0 {
        Seq::empty()
    } else if trim_seq(pieces.last()).len() > 0 {
        keep_nonblank(pieces.drop_last()).push(pieces.last())
    } else {
        keep_nonblank(pieces.drop_last())
    }
}

/// Reading on past the last `c`: text without `c` only grows the open piece.
proof fn lemma_split_acc_append(s: Seq<char>, t: Seq<char>, c: char)
    requires
        !t.contains(c),
    ensures
        split_acc(s + t, c) == (split_acc(s, c).0, split_acc(s, c).1 + t),
    decreases t.len(),
{
    if t.len() == 0 {
        assert(s + t =~= s);
        assert(split_acc(s, c).1 + t =~= split_acc(s, c).1);
    } else {
        assert((s + t).drop_last() =~= s + t.drop_last());
        assert(!t.drop_last().contains(c)) by {
            if t.drop_last().contains(c) {
                let i = choose|i: int| 0 <= i < t.drop_last().len() && t.drop_last()[i] == c;
                assert(t[i] == c);
            }
        }
        assert(t[t.len() - 1] != c);
        lemma_split_acc_append(s, t.drop_last(), c);
        assert((split_acc(s, c).1 + t.drop_last()).push(t.last()) =~= split_acc(s, c).1 + t);
    }
}

/// Splitting pieces joined with a one-character separator gives them back,
/// when no piece holds the separator.
pub proof fn lemma_split_join(pieces: Seq<Seq<char>>, c: char)
    requires
        forall|k: int| 0 <= k < pieces.len() ==> !(#[trigger] pieces[k]).contains(c),
    ensures
        split_on(join_seq(pieces, seq![c]), c) == (if pieces.len() == 0 {
            seq![Seq::<char>::empty()]
        } else {
            pieces
        }),
    decreases pieces.len(),
{
    if pieces.len() == 0 {
        assert(split_on(Seq::<char>::empty(), c) =~= seq![Seq::<char>::empty()]);
    } else {
        lemma_split_acc_join(pieces, c);
        assert(pieces.drop_last().push(pieces.last()) =~= pieces);
    }
}

proof fn lemma_split_acc_join(pieces: Seq<Seq<char>>, c: char)
    requires
        pieces.len() >= 1,
        forall|k: int| 0 <= k < pieces.len() ==> !(#[trigger] pieces[k]).contains(c),
    ensures
        split_acc(join_seq(pieces, seq![c]), c) == (pieces.drop_last(), pieces.last()),
    decreases pieces.len(),
{
    let last = pieces.last();
    assert(!last.contains(c)) by {
        assert(pieces[pieces.len() - 1] == last);
    }
    if pieces.len() == 1 {
        lemma_split_acc_append(Seq::<char>::empty(), last, c);
        assert(Seq::<char>::empty() + last =~= last);
        assert(Seq::<char>::empty() + last =~= last);
        assert(pieces.drop_last() =~= Seq::<Seq<char>>::empty());
    } else {
        let init = pieces.drop_last();
        assert forall|k: int| 0 <= k < init.len() implies !(#[trigger] init[k]).contains(c) by {
            assert(init[k] == pieces[k]);
        }
        lemma_split_acc_join(init, c);
        let j = join_seq(init, seq![c]);
        let jc = j + seq![c];
        assert(jc.drop_last() =~= j);
        assert(jc.last() == c);
        lemma_split_acc_append(jc, last, c);
        assert(Seq::<char>::empty() + last =~= last);
        assert(init.drop_last().push(init.last()) =~= init);
    }
}

/// Keeping the non-blank pieces of pieces that are all non-blank keeps them all.
pub proof fn lemma_keep_nonblank_all(pieces: Seq<Seq<char>>)
    requires
        forall|k: int| 0 <= k < pieces.len() ==> trim_seq(#[trigger] pieces[k]).len() > 0,
    ensures
        keep_nonblank(pieces) == pieces,
    decreases pieces.len(),
{
    if pieces.len() > 0 {
        let init = pieces.drop_last();
        assert forall|k: int| 0 <= k < init.len() implies trim_seq(#[trigger] init[k]).len() > 0 by {
            assert(init[k] == pieces[k]);
        }
        lemma_keep_nonblank_all(init);
        assert(trim_seq(pieces[pieces.len() - 1]).len() > 0);
        assert(init.push(pieces.last()) =~= pieces);
    }
}

/// The non-blank lines of `s`.
pub open spec fn nonblank_lines(s: Seq<char>) -> Seq<Seq<char>> {
    keep_nonblank(split_on(s, '\n'))
}

/// The strings joined with `sep` between them.
pub fn join_with(v: &Vec<String>, sep: &str) -> (r: String)
    ensures
        r@ == join_seq(v@.map_values(|x: String| x@), sep@),
{
    let ghost vs = v@.map_values(|x: String| x@);
    let mut r = String::new();
    let mut i: usize = 0;
    while i < v.len()
        invariant
            i <= v@.len(),
            vs == v@.map_values(|x: String| x@),
            r@ == join_seq(vs.take(i as int), sep@),
        decreases v@.len() - i,
    {
        assert(vs.take(i + 1).drop_last() =~= vs.take(i as int));
        if i > 0 {
            push_str(&mut r, sep);
        }
        push_str(&mut r, v[i].as_str());
        i = i + 1;
        assert(vs.take(i as int).last() == v@[i - 1]@);
        if i == 1 {
            assert(vs.take(1)[0] == v@[0]@);
            assert(r@ =~= v@[0]@);
        }
    }
    assert(vs.take(v@.len() as int) =~= vs);
    r
}

/// The non-blank lines of `s`, each as written.
pub fn nonblank_lines_of(s: &str) -> (r: Vec<String>)
    ensures
        r@.map_values(|x: String| x@) == nonblank_lines(s@),
{
    let cs = chars_of(s);
    let mut out: Vec<String> = Vec::new();
    let mut cur = String::new();
    let mut i: usize = 0;
    while i < cs.len()
        invariant
            i <= cs@.len(),
            cs@ == s@,
            out@.map_values(|x: String| x@) == keep_nonblank(split_acc(s@.take(i as int), '\n').0),
            cur@ == split_acc(s@.take(i as int), '\n').1,
        decreases cs@.len() - i,
    {
        let c = cs[i];
        assert(s@.take(i + 1).drop_last() =~= s@.take(i as int));
        assert(s@.take(i + 1).last() == c);
        let ghost done = split_acc(s@.take(i as int), '\n').0;
        let ghost old_out = out@.map_values(|x: String| x@);
        if c == '\n' {
            let line = cur;
            cur = String::new();
            assert(done.push(line@).drop_last() =~= done);
            if trim(line.as_str()).unicode_len() > 0 {
                out.push(line);
                assert(out@.map_values(|x: String| x@) =~= old_out.push(line@));
            }
        } else {
            push_char(&mut cur, c);
        }
        i = i + 1;
    }
    assert(s@.take(s@.len() as int) =~= s@);
    let ghost done = split_acc(s@, '\n').0;
    let ghost old_out = out@.map_values(|x: String| x@);
    assert(done.push(cur@).drop_last() =~= done);
    if trim(cur.as_str()).unicode_len() > 0 {
        out.push(cur);
        assert(out@.map_values(|x: String| x@) =~= old_out.push(cur@));
    }
    out
}
/// Whether `n` occurs in `h` as a contiguous run.
pub open spec fn seq_contains(h: Seq<char>, n: Seq<char>) -> bool {
    exists|i: int| 0 <= i && i + n.len() <= h.len() && #[trigger] h.subrange(i, i + n.len()) == n
}

/// Whether `h` begins with `p`.
pub open spec fn seq_starts_with(h: Seq<char>, p: Seq<char>) -> bool {
    p.len() <= h.len() && h.take(p.len() as int) == p
}

/// Whether `needle` occurs in `hay`.
pub fn contains(hay: &str, needle: &str) -> (r: bool)
    ensures
        r == seq_contains(hay@, needle@),
{
    let hc = chars_of(hay);
    let nc = chars_of(needle);
    let n = hc.len();
    let m = nc.len();
    if m > n {
        assert forall|i: int| 0 <= i && i + m <= n implies #[trigger] hay@.subrange(i, i + needle@.len()) != needle@ by {}
        return false;
    }
    let mut i: usize = 0;
    while i <= n - m
        invariant
            m <= n,
            hc@ == hay@,
            nc@ == needle@,
            n == hay@.len(),
            m == needle@.len(),
            forall|k: int| 0 <= k < i ==> #[trigger] hay@.subrange(k, k + m) != needle@,
        decreases n - m + 1 - i,
    {
        let mut j: usize = 0;
        while j < m && hc[i + j] == nc[j]
            invariant
                i + m <= n,
                j <= m,
                hc@ == hay@,
                nc@ == needle@,
                n == hay@.len(),
                m == needle@.len(),
                forall|q: int| 0 <= q < j ==> hay@[i + q] == needle@[q],
            decreases m - j,
        {
            j = j + 1;
        }
        if j == m {
            assert(hay@.subrange(i as int, i + m) =~= needle@);
            return true;
        }
        assert(hay@.subrange(i as int, i + m)[j as int] != needle@[j as int]);
        i = i + 1;
    }
    false
}

/// Whether `s` begins with `p`.
pub fn starts_with(s: &str, p: &str) -> (r: bool)
    ensures
        r == seq_starts_with(s@, p@),
{
    let sc = chars_of(s);
    let pc = chars_of(p);
    if pc.len() > sc.len() {
        return false;
    }
    let mut j: usize = 0;
    while j < pc.len()
        invariant
            j <= pc@.len() <= sc@.len(),
            sc@ == s@,
            pc@ == p@,
            forall|q: int| 0 <= q < j ==> s@[q] == p@[q],
        decreases pc@.len() - j,
    {
        if sc[j] != pc[j] {
            assert(s@.take(p@.len() as int)[j as int] != p@[j as int]);
            return false;
        }
        j = j + 1;
    }
    assert(s@.take(p@.len() as int) =~= p@);
    true
}

/// Whether `c` is an ASCII letter or digit.
pub open spec fn is_ascii_alnum(c: char) -> bool {
    ('0' <= c <= '9') || ('a' <= c <= 'z') || ('A' <= c <= 'Z')
}

/// `c` with an ASCII capital made small.
pub open spec fn ascii_lower(c: char) -> char {
    if 'A' <= c <= 'Z' {
        ((c as u32) + 32) as char
    } else {
        c
    }
}

/// `s` with its ASCII capitals made small (`str::to_ascii_lowercase`).
pub open spec fn lower_seq(s: Seq<char>) -> Seq<char> {
    s.map_values(|c: char| ascii_lower(c))
}

/// The small letter for an ASCII capital, other characters unchanged.
pub fn lower_char(c: char) -> (r: char)
    ensures
        r == ascii_lower(c),
{
    if 'A' <= c && c <= 'Z' {
        let n: u32 = (c as u32) + 32;
        let b: u8 = n as u8;
        assert(b as u32 == n);
        b as char
    } else {
        c
    }
}

/// `s` with its ASCII capitals made small.
pub fn to_ascii_lowercase(s: &str) -> (r: String)
    ensures
        r@ == lower_seq(s@),
{
    let cs = chars_of(s);
    let mut r = String::new();
    let mut i: usize = 0;
    while i < cs.len()
        invariant
            i <= cs@.len(),
            cs@ == s@,
            r@ == lower_seq(s@).take(i as int),
        decreases cs@.len() - i,
    {
        push_char(&mut r, lower_char(cs[i]));
        i = i + 1;
        assert(r@ =~= lower_seq(s@).take(i as int));
    }
    assert(lower_seq(s@).take(s@.len() as int) =~= lower_seq(s@));
    r
}

/// The decimal digits of a `u64`.
pub fn u64_to_decimal(n: u64) -> (r: String)
    ensures
        r@ == decimal(n as nat),
    decreases n,
{
    if n < 10 {
        let mut s = String::new();
        push_char(&mut s, digit_of(n as usize));
        s
    } else {
        let mut s = u64_to_decimal(n / 10);
        push_char(&mut s, digit_of((n % 10) as usize));
        s
    }
}
/// Keeping the non-blank pieces keeps no blank piece and never adds any:
/// every piece kept is one of the given pieces.
pub proof fn law_keep_nonblank_drops_blanks(pieces: Seq<Seq<char>>)
    ensures
        keep_nonblank(pieces).len() <= pieces.len(),
        forall|k: int| 0 <= k < keep_nonblank(pieces).len() ==> trim_seq(#[trigger] keep_nonblank(pieces)[k]).len() > 0
            && pieces.contains(keep_nonblank(pieces)[k]),
    decreases pieces.len(),
{
    if pieces.len() > 0 {
        let init = pieces.drop_last();
        law_keep_nonblank_drops_blanks(init);
        let r = keep_nonblank(pieces);
        let r0 = keep_nonblank(init);
        assert forall|k: int| 0 <= k < r.len() implies trim_seq(#[trigger] r[k]).len() > 0 && pieces.contains(r[k]) by {
            if k < r0.len() {
                assert(r[k] == r0[k]);
                let j = choose|j: int| 0 <= j < init.len() && init[j] == r0[k];
                assert(pieces[j] == init[j]);
            } else {
                assert(r[k] == pieces.last());
                assert(pieces[pieces.len() - 1] == pieces.last());
            }
        }
    }
}

proof fn lemma_trim_start_shape(s: Seq<char>)
    ensures
        trim_start_seq(s).len() <= s.len(),
        trim_start_seq(s) == s.skip(s.len() - trim_start_seq(s).len()),
        trim_start_seq(s).len() > 0 ==> !is_ws(trim_start_seq(s)[0]),
        forall|i: int| 0 <= i < s.len() - trim_start_seq(s).len() ==> is_ws(#[trigger] s[i]),
    decreases s.len(),
{
    if s.len() > 0 && is_ws(s[0]) {
        lemma_trim_start_shape(s.drop_first());
        let r = trim_start_seq(s.drop_first());
        assert(s.drop_first().skip(s.drop_first().len() - r.len()) =~= s.skip(s.len() - r.len()));
        assert forall|i: int| 0 <= i < s.len() - r.len() implies is_ws(#[trigger] s[i]) by {
            if i > 0 {
                assert(s[i] == s.drop_first()[i - 1]);
            }
        }
    } else {
        assert(s.skip(0) =~= s);
    }
}

proof fn lemma_trim_end_shape(s: Seq<char>)
    ensures
        trim_end_seq(s).len() <= s.len(),
        trim_end_seq(s) == s.take(trim_end_seq(s).len() as int),
        trim_end_seq(s).len() > 0 ==> !is_ws(trim_end_seq(s).last()),
        forall|i: int| trim_end_seq(s).len() <= i < s.len() ==> is_ws(#[trigger] s[i]),
    decreases s.len(),
{
    if s.len() > 0 && is_ws(s.last()) {
        lemma_trim_end_shape(s.drop_last());
        let r = trim_end_seq(s.drop_last());
        assert(s.drop_last().take(r.len() as int) =~= s.take(r.len() as int));
        assert forall|i: int| r.len() <= i < s.len() implies is_ws(#[trigger] s[i]) by {
            if i < s.len() - 1 {
                assert(s[i] == s.drop_last()[i]);
            }
        }
    } else {
        assert(s.take(s.len() as int) =~= s);
    }
}

/// Trimming keeps one unbroken stretch of the text and removes only
/// whitespace around it; what is kept neither starts nor ends with
/// whitespace.
pub proof fn law_trim_shape(s: Seq<char>)
    ensures
        ({
            let r = trim_seq(s);
            let a = s.len() - trim_start_seq(s).len();
            &&& 0 <= a && a + r.len() <= s.len()
            &&& r == s.subrange(a, a + r.len())
            &&& forall|i: int| 0 <= i < a ==> is_ws(#[trigger] s[i])
            &&& forall|i: int| a + r.len() <= i < s.len() ==> is_ws(#[trigger] s[i])
            &&& r.len() > 0 ==> !is_ws(r[0]) && !is_ws(r.last())
        }),
{
    lemma_trim_start_shape(s);
    let t = trim_start_seq(s);
    lemma_trim_end_shape(t);
    let r = trim_end_seq(t);
    let a = s.len() - t.len();
    assert(r =~= s.subrange(a, a + r.len()));
    assert forall|i: int| a + r.len() <= i < s.len() implies is_ws(#[trigger] s[i]) by {
        assert(s[i] == t[i - a]);
    }
    if r.len() > 0 {
        assert(r[0] == t[0]);
    }
}

} // verus!
