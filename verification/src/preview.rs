//! The loopback preview: the wrapper page around the compiled email, the
//! requests it answers, and the content types it serves.
use vstd::prelude::*;

use crate::paths::{file_name, path_file_name};
use crate::text::{
    chars_of, contains, is_ws, lower_seq, owned, push_char, push_str, seq_contains, seq_starts_with,
    split_on, starts_with, str_eq, to_ascii_lowercase, usize_to_decimal, decimal,
};

verus! {

/// What the preview page shows above the email.
#[derive(Debug)]
pub struct PreviewMeta {
    pub subject: String,
    pub preheader: String,
}

impl Clone for PreviewMeta {
    fn clone(&self) -> (r: Self)
        ensures
            r.subject@ == self.subject@,
            r.preheader@ == self.preheader@,
    {
        PreviewMeta { subject: self.subject.clone(), preheader: self.preheader.clone() }
    }
}

/// The index of the last `c` in `s`, or -1.
pub open spec fn last_index_of(s: Seq<char>, c: char) -> int
    decreases s.len(),
{
    if s.len() == 0 {
        -1
    } else if s.last() == c {
        s.len() - 1
    } else {
        last_index_of(s.drop_last(), c)
    }
}

/// The extension of a file name as `Path::extension` documents it: none
/// without a `.` or when the only `.` starts the name, else what follows
/// the last `.`.
pub open spec fn ext_of(name: Seq<char>) -> Option<Seq<char>> {
    if last_index_of(name, '.') <= 0 {
        None
    } else {
        Some(name.skip(last_index_of(name, '.') + 1))
    }
}

/// The content type served for a (lowercased) extension.
pub open spec fn mime_of_ext(e: Seq<char>) -> Seq<char> {
    if e == "html"@ || e == "htm"@ {
        "text/html; charset=utf-8"@
    } else if e == "css"@ {
        "text/css; charset=utf-8"@
    } else if e == "js"@ {
        "text/javascript; charset=utf-8"@
    } else if e == "json"@ {
        "application/json"@
    } else if e == "png"@ {
        "image/png"@
    } else if e == "jpg"@ || e == "jpeg"@ {
        "image/jpeg"@
    } else if e == "gif"@ {
        "image/gif"@
    } else if e == "svg"@ {
        "image/svg+xml"@
    } else if e == "webp"@ {
        "image/webp"@
    } else {
        "application/octet-stream"@
    }
}

/// The content type served for a path, by its extension in any case.
pub open spec fn mime_view(path: Seq<char>) -> Seq<char> {
    mime_of_ext(
        match path_file_name(path) {
            Some(n) => match ext_of(n) {
                Some(e) => lower_seq(e),
                None => ""@,
            },
            None => ""@,
        },
    )
}

fn last_dot(s: &Vec<char>) -> (r: Option<usize>)
    ensures
        match r {
            Some(i) => i == last_index_of(s@, '.') && i < s@.len(),
            None => last_index_of(s@, '.') == -1,
        },
{
    let mut i: usize = s.len();
    assert(s@.take(s@.len() as int) =~= s@);
    while i > 0
        invariant
            i <= s@.len(),
            last_index_of(s@, '.') == last_index_of(s@.take(i as int), '.'),
        decreases i,
    {
        assert(s@.take(i as int).drop_last() =~= s@.take(i - 1));
        if s[i - 1] == '.' {
            return Some(i - 1);
        }
        i = i - 1;
    }
    None
}

fn mime_of(e: &str) -> (r: &'static str)
    ensures
        r@ == mime_of_ext(e@),
{
    if str_eq(e, "html") || str_eq(e, "htm") {
        "text/html; charset=utf-8"
    } else if str_eq(e, "css") {
        "text/css; charset=utf-8"
    } else if str_eq(e, "js") {
        "text/javascript; charset=utf-8"
    } else if str_eq(e, "json") {
        "application/json"
    } else if str_eq(e, "png") {
        "image/png"
    } else if str_eq(e, "jpg") || str_eq(e, "jpeg") {
        "image/jpeg"
    } else if str_eq(e, "gif") {
        "image/gif"
    } else if str_eq(e, "svg") {
        "image/svg+xml"
    } else if str_eq(e, "webp") {
        "image/webp"
    } else {
        "application/octet-stream"
    }
}

/// The content type served for a file.
pub fn mime_for(path: &str) -> (r: &'static str)
    ensures
        r@ == mime_view(path@),
{
    match file_name(path) {
        None => {
            proof {
                reveal_strlit("");
            }
            mime_of("")
        },
        Some(n) => {
            let cs = chars_of(n.as_str());
            let d = last_dot(&cs);
            let dot: usize = match d {
                Some(i) => i,
                None => 0,
            };
            if dot > 0 {
                assert(d is Some);
                let len = cs.len();
                assert(dot < len);
                let e = n.as_str().substring_char(dot + 1, len);
                let l = to_ascii_lowercase(e);
                mime_of(l.as_str())
            } else {
                proof {
                    reveal_strlit("");
                }
                mime_of("")
            }
        },
    }
}

/// How one character appears in escaped HTML text.
pub open spec fn escape_char(c: char) -> Seq<char> {
    if c == '&' {
        "&amp;"@
    } else if c == '<' {
        "&lt;"@
    } else if c == '>' {
        "&gt;"@
    } else if c == '"' {
        "&quot;"@
    } else {
        seq![c]
    }
}

/// `s` escaped for HTML text: `&`, `<`, `>` and `"` become entities.
pub open spec fn escape_seq(s: Seq<char>) -> Seq<char>
    decreases s.len(),
{
    if s.len() == 0 {
        Seq::empty()
    } else {
        escape_seq(s.drop_last()) + escape_char(s.last())
    }
}

/// Escapes text for HTML.
pub fn html_escape(s: &str) -> (r: String)
    ensures
        r@ == escape_seq(s@),
{
    let cs = chars_of(s);
    let mut out = String::new();
    let mut i: usize = 0;
    while i < cs.len()
        invariant
            i <= cs@.len(),
            cs@ == s@,
            out@ == escape_seq(s@.take(i as int)),
        decreases cs@.len() - i,
    {
        let c = cs[i];
        assert(s@.take(i + 1).drop_last() =~= s@.take(i as int));
        assert(s@.take(i + 1).last() == c);
        if c == '&' {
            push_str(&mut out, "&amp;");
        } else if c == '<' {
            push_str(&mut out, "&lt;");
        } else if c == '>' {
            push_str(&mut out, "&gt;");
        } else if c == '"' {
            push_str(&mut out, "&quot;");
        } else {
            push_char(&mut out, c);
            assert(out@ =~= escape_seq(s@.take(i as int)) + seq![c]);
        }
        i = i + 1;
    }
    assert(s@.take(s@.len() as int) =~= s@);
    out
}

/// The page before the subject.
pub open spec fn wrapper_head_view() -> Seq<char> {
    "<!doctype html>\n<html lang=\"en\">\n<head>\n<meta charset=\"utf-8\">\n<title>dd_emailforge preview</title>\n<style>\n  body { margin:0; background:#111; color:#eee; font:14px/1.4 system-ui,sans-serif; }\n  header { padding:12px 16px; border-bottom:1px solid #333; }\n  .k { color:#888; font-size:11px; text-transform:uppercase; }\n  .canvases { display:flex; gap:24px; padding:16px; align-items:flex-start; overflow:auto; }\n  figure { margin:0; }\n  iframe { background:#fff; border:0; height:80vh; display:block; }\n  figcaption { text-align:center; margin-top:8px; color:#888; }\n</style>\n</head>\n<body>\n<header>\n  <div class=\"k\">Subject</div>\n  <div id=\"subject\">"@
}

/// The page between the subject and the preheader.
pub open spec fn wrapper_mid_view() -> Seq<char> {
    "</div>\n  <div class=\"k\" style=\"margin-top:8px\">Preheader</div>\n  <div id=\"preheader\">"@
}

/// The page after the preheader: the two frames and the reload script.
pub open spec fn wrapper_tail_view() -> Seq<char> {
    "</div>\n</header>\n<div class=\"canvases\">\n  <figure>\n    <iframe id=\"desk\" src=\"/compiled.html\" width=\"600\"></iframe>\n    <figcaption>600px</figcaption>\n  </figure>\n  <figure>\n    <iframe id=\"mob\" src=\"/compiled.html\" width=\"320\"></iframe>\n    <figcaption>320px</figcaption>\n  </figure>\n</div>\n<script>\nlet lastMtime = null;\nfunction applyMeta(data) {\n  document.getElementById('subject').textContent = data.subject || '';\n  document.getElementById('preheader').textContent = data.preheader || '';\n}\nasync function tick() {\n  try {\n    const m = await fetch('/__mtime').then(r => r.text());\n    if (lastMtime !== null && m !== lastMtime) {\n      const bust = '/compiled.html?t=' + m;\n      document.getElementById('desk').src = bust;\n      document.getElementById('mob').src = bust;\n    }\n    lastMtime = m;\n    const meta = await fetch('/__meta').then(r => r.json());\n    applyMeta(meta);\n  } catch (e) {}\n}\nsetInterval(tick, 700);\n</script>\n</body>\n</html>\n"@
}

/// The preview page: subject and preheader (escaped) above the compiled
/// email framed at 600px and 320px, reloaded when it changes.
pub open spec fn wrapper_view(subject: Seq<char>, preheader: Seq<char>) -> Seq<char> {
    wrapper_head_view() + escape_seq(subject) + wrapper_mid_view() + escape_seq(preheader) + wrapper_tail_view()
}

/// The preview page for the given subject and preheader.
pub fn wrapper_html(meta: &PreviewMeta) -> (r: String)
    ensures
        r@ == wrapper_view(meta.subject@, meta.preheader@),
{
    let subject = html_escape(meta.subject.as_str());
    let preheader = html_escape(meta.preheader.as_str());
    let mut s = owned("<!doctype html>\n<html lang=\"en\">\n<head>\n<meta charset=\"utf-8\">\n<title>dd_emailforge preview</title>\n<style>\n  body { margin:0; background:#111; color:#eee; font:14px/1.4 system-ui,sans-serif; }\n  header { padding:12px 16px; border-bottom:1px solid #333; }\n  .k { color:#888; font-size:11px; text-transform:uppercase; }\n  .canvases { display:flex; gap:24px; padding:16px; align-items:flex-start; overflow:auto; }\n  figure { margin:0; }\n  iframe { background:#fff; border:0; height:80vh; display:block; }\n  figcaption { text-align:center; margin-top:8px; color:#888; }\n</style>\n</head>\n<body>\n<header>\n  <div class=\"k\">Subject</div>\n  <div id=\"subject\">");
    push_str(&mut s, subject.as_str());
    push_str(&mut s, "</div>\n  <div class=\"k\" style=\"margin-top:8px\">Preheader</div>\n  <div id=\"preheader\">");
    push_str(&mut s, preheader.as_str());
    push_str(&mut s, "</div>\n</header>\n<div class=\"canvases\">\n  <figure>\n    <iframe id=\"desk\" src=\"/compiled.html\" width=\"600\"></iframe>\n    <figcaption>600px</figcaption>\n  </figure>\n  <figure>\n    <iframe id=\"mob\" src=\"/compiled.html\" width=\"320\"></iframe>\n    <figcaption>320px</figcaption>\n  </figure>\n</div>\n<script>\nlet lastMtime = null;\nfunction applyMeta(data) {\n  document.getElementById('subject').textContent = data.subject || '';\n  document.getElementById('preheader').textContent = data.preheader || '';\n}\nasync function tick() {\n  try {\n    const m = await fetch('/__mtime').then(r => r.text());\n    if (lastMtime !== null && m !== lastMtime) {\n      const bust = '/compiled.html?t=' + m;\n      document.getElementById('desk').src = bust;\n      document.getElementById('mob').src = bust;\n    }\n    lastMtime = m;\n    const meta = await fetch('/__meta').then(r => r.json());\n    applyMeta(meta);\n  } catch (e) {}\n}\nsetInterval(tick, 700);\n</script>\n</body>\n</html>\n");
    s
}

/// The marks of the preview page that must never reach an exported email.
pub open spec fn wrapper_markers_view() -> Seq<Seq<char>> {
    seq!["/__mtime"@, "compiled.html?t="@, "iframe"@]
}

/// The marks of the preview page that must never reach an exported email.
pub fn wrapper_markers() -> (r: Vec<&'static str>)
    ensures
        r@.map_values(|s: &str| s@) == wrapper_markers_view(),
{
    let mut r: Vec<&'static str> = Vec::new();
    r.push("/__mtime");
    r.push("compiled.html?t=");
    r.push("iframe");
    assert(r@.map_values(|s: &str| s@) =~= wrapper_markers_view());
    r
}

/// Whether `html` carries any mark of the preview page.
pub open spec fn has_wrapper_marker(html: Seq<char>) -> bool {
    exists|i: int| 0 <= i < wrapper_markers_view().len() && seq_contains(html, #[trigger] wrapper_markers_view()[i])
}

/// Whether `html` carries any mark of the preview page.
pub fn html_contains_wrapper_markers(html: &str) -> (r: bool)
    ensures
        r == has_wrapper_marker(html@),
{
    let ms = wrapper_markers();
    let mut i: usize = 0;
    while i < ms.len()
        invariant
            i <= ms@.len(),
            ms@.map_values(|s: &str| s@) == wrapper_markers_view(),
            forall|k: int| 0 <= k < i ==> !seq_contains(html@, #[trigger] wrapper_markers_view()[k]),
        decreases ms@.len() - i,
    {
        assert(wrapper_markers_view()[i as int] == ms@[i as int]@);
        if contains(html, ms[i]) {
            return true;
        }
        i = i + 1;
    }
    false
}

/// The part of `s` before its first `c` (what `s.split(c).next()` yields).
pub open spec fn before_first(s: Seq<char>, c: char) -> Seq<char>
    decreases s.len(),
{
    if s.len() == 0 {
        Seq::empty()
    } else if s[0] == c {
        Seq::empty()
    } else {
        seq![s[0]] + before_first(s.drop_first(), c)
    }
}

/// The first line of a request (`lines().next()`): up to the first `\n`,
/// less a `\r` just before it; none for an empty request.
pub open spec fn first_line(req: Seq<char>) -> Option<Seq<char>> {
    if req.len() == 0 {
        None
    } else {
        let l = before_first(req, '\n');
        if req.contains('\n') && l.len() > 0 && l.last() == '\r' {
            Some(l.drop_last())
        } else {
            Some(l)
        }
    }
}

/// Splitting at whitespace, read left to right: the words found and the one still open.
pub open spec fn words_acc(s: Seq<char>) -> (Seq<Seq<char>>, Seq<char>)
    decreases s.len(),
{
    if s.len() == 0 {
        (Seq::empty(), Seq::empty())
    } else {
        let (done, cur) = words_acc(s.drop_last());
        if is_ws(s.last()) {
            if cur.len() > 0 {
                (done.push(cur), Seq::empty())
            } else {
                (done, Seq::empty())
            }
        } else {
            (done, cur.push(s.last()))
        }
    }
}

/// The words of `s` (what `split_whitespace` yields).
pub open spec fn words(s: Seq<char>) -> Seq<Seq<char>> {
    let (done, cur) = words_acc(s);
    if cur.len() > 0 {
        done.push(cur)
    } else {
        done
    }
}

/// The path a request asks for: the target of a `GET` or `HEAD` request
/// line, without its query string.
pub open spec fn request_path(req: Seq<char>) -> Option<Seq<char>> {
    match first_line(req) {
        None => None,
        Some(l) => {
            let w = words(l);
            if w.len() == 0 {
                None
            } else if w[0] != "GET"@ && w[0] != "HEAD"@ {
                None
            } else if w.len() < 2 {
                None
            } else {
                Some(before_first(w[1], '?'))
            }
        },
    }
}

fn prefix_before(cs: &Vec<char>, c: char) -> (r: usize)
    ensures
        r <= cs@.len(),
        before_first(cs@, c) == cs@.take(r as int),
        r < cs@.len() ==> cs@[r as int] == c,
        r == cs@.len() ==> !cs@.contains(c),
{
    let mut i: usize = 0;
    assert(cs@.skip(0) =~= cs@);
    assert(cs@.take(0) =~= Seq::<char>::empty());
    while i < cs.len() && cs[i] != c
        invariant
            i <= cs@.len(),
            before_first(cs@, c) == cs@.take(i as int) + before_first(cs@.skip(i as int), c),
            forall|k: int| 0 <= k < i ==> cs@[k] != c,
        decreases cs@.len() - i,
    {
        assert(cs@.skip(i as int).drop_first() =~= cs@.skip(i + 1));
        assert(cs@.take(i + 1) =~= cs@.take(i as int) + seq![cs@[i as int]]);
        i = i + 1;
    }
    if i < cs.len() {
        assert(cs@.skip(i as int)[0] == c);
    } else {
        assert(cs@.skip(i as int) =~= Seq::<char>::empty());
    }
    assert(cs@.take(i as int) + Seq::<char>::empty() =~= cs@.take(i as int));
    i
}

fn words_of(cs: &Vec<char>, n: usize) -> (r: Vec<String>)
    requires
        n <= cs@.len(),
    ensures
        r@.map_values(|s: String| s@) == words(cs@.take(n as int)),
{
    let mut out: Vec<String> = Vec::new();
    let mut cur = String::new();
    let mut i: usize = 0;
    while i < n
        invariant
            i <= n <= cs@.len(),
            out@.map_values(|s: String| s@) == words_acc(cs@.take(i as int)).0,
            cur@ == words_acc(cs@.take(i as int)).1,
        decreases n - i,
    {
        let c = cs[i];
        assert(cs@.take(i + 1).drop_last() =~= cs@.take(i as int));
        assert(cs@.take(i + 1).last() == c);
        let ghost old_out = out@.map_values(|s: String| s@);
        if crate::text::char_is_ws(c) {
            if cur.as_str().unicode_len() > 0 {
                let w = cur;
                cur = String::new();
                let ghost wv = w@;
                out.push(w);
                assert(out@.map_values(|s: String| s@) =~= old_out.push(wv));
            } else {
                cur = String::new();
            }
        } else {
            push_char(&mut cur, c);
        }
        i = i + 1;
    }
    let ghost old_out = out@.map_values(|s: String| s@);
    if cur.as_str().unicode_len() > 0 {
        let ghost wv = cur@;
        out.push(cur);
        assert(out@.map_values(|s: String| s@) =~= old_out.push(wv));
    }
    out
}

/// The path a request asks for, if it is a `GET` or `HEAD`.
pub fn parse_path(req: &str) -> (r: Option<String>)
    ensures
        match (r, request_path(req@)) {
            (Some(a), Some(b)) => a@ == b,
            (None, None) => true,
            _ => false,
        },
{
    let cs = chars_of(req);
    if cs.len() == 0 {
        return None;
    }
    let nl = prefix_before(&cs, '\n');
    let mut end = nl;
    if nl < cs.len() && nl > 0 && cs[nl - 1] == '\r' {
        end = nl - 1;
        assert(req@.contains('\n'));
        assert(cs@.take(nl as int).drop_last() =~= cs@.take(end as int));
    }
    let w = words_of(&cs, end);
    if w.len() == 0 {
        return None;
    }
    let get = str_eq(w[0].as_str(), "GET");
    let head = str_eq(w[0].as_str(), "HEAD");
    assert(w@[0]@ == words(cs@.take(end as int))[0]);
    if !get && !head {
        return None;
    }
    if w.len() < 2 {
        return None;
    }
    assert(w@[1]@ == words(cs@.take(end as int))[1]);
    let tc = chars_of(w[1].as_str());
    let q = prefix_before(&tc, '?');
    let t = w[1].as_str().substring_char(0, q);
    Some(owned(t))
}

/// What the preview server answers a path with.
#[derive(Debug)]
pub enum Route {
    /// `404 Not Found` (also for any path with a `..` component).
    NotFound,
    /// The preview page.
    Wrapper,
    /// The compiled email (or a "compiling" page while there is none).
    Compiled,
    /// The compiled email's modification time.
    Mtime,
    /// The subject and preheader as JSON.
    Meta,
    /// A file under the template's `images/` folder, by its path relative to the folder.
    Image(String),
}

/// Whether a path has a `..` component.
pub open spec fn has_parent_dir(p: Seq<char>) -> bool {
    split_on(p, '/').contains(".."@)
}

/// `s` without leading `/`s.
pub open spec fn trim_slashes_start(s: Seq<char>) -> Seq<char>
    decreases s.len(),
{
    if s.len() > 0 && s[0] == '/' {
        trim_slashes_start(s.drop_first())
    } else {
        s
    }
}

/// How the preview server routes a path.
pub open spec fn route_view(p: Seq<char>) -> Route {
    if has_parent_dir(p) {
        Route::NotFound
    } else if p == "/"@ {
        Route::Wrapper
    } else if p == "/compiled.html"@ {
        Route::Compiled
    } else if p == "/__mtime"@ {
        Route::Mtime
    } else if p == "/__meta"@ {
        Route::Meta
    } else if seq_starts_with(p, "/images/"@) {
        Route::Image(arbitrary())
    } else {
        Route::NotFound
    }
}

fn path_has_parent_dir(p: &str) -> (r: bool)
    ensures
        r == has_parent_dir(p@),
{
    let cs = chars_of(p);
    let mut found = false;
    let mut cur = String::new();
    let mut i: usize = 0;
    while i < cs.len()
        invariant
            i <= cs@.len(),
            cs@ == p@,
            cur@ == crate::text::split_acc(p@.take(i as int), '/').1,
            found == crate::text::split_acc(p@.take(i as int), '/').0.contains(".."@),
        decreases cs@.len() - i,
    {
        let c = cs[i];
        assert(p@.take(i + 1).drop_last() =~= p@.take(i as int));
        assert(p@.take(i + 1).last() == c);
        let ghost done = crate::text::split_acc(p@.take(i as int), '/').0;
        if c == '/' {
            let is_dots = str_eq(cur.as_str(), "..");
            proof {
                let d2 = done.push(cur@);
                assert(d2.contains(".."@) == (done.contains(".."@) || cur@ == ".."@)) by {
                    if cur@ == ".."@ {
                        assert(d2[done.len() as int] == ".."@);
                    }
                    if d2.contains(".."@) {
                        let k = choose|k: int| 0 <= k < d2.len() && d2[k] == ".."@;
                        if k < done.len() {
                            assert(done[k] == ".."@);
                        }
                    }
                    if done.contains(".."@) {
                        let k = choose|k: int| 0 <= k < done.len() && done[k] == ".."@;
                        assert(d2[k] == ".."@);
                    }
                }
            }
            found = found || is_dots;
            cur = String::new();
        } else {
            push_char(&mut cur, c);
        }
        i = i + 1;
    }
    assert(p@.take(p@.len() as int) =~= p@);
    let ghost done = crate::text::split_acc(p@, '/').0;
    let last = str_eq(cur.as_str(), "..");
    proof {
        let d2 = done.push(cur@);
        assert(d2.contains(".."@) == (done.contains(".."@) || cur@ == ".."@)) by {
            if cur@ == ".."@ {
                assert(d2[done.len() as int] == ".."@);
            }
            if d2.contains(".."@) {
                let k = choose|k: int| 0 <= k < d2.len() && d2[k] == ".."@;
                if k < done.len() {
                    assert(done[k] == ".."@);
                }
            }
            if done.contains(".."@) {
                let k = choose|k: int| 0 <= k < done.len() && done[k] == ".."@;
                assert(d2[k] == ".."@);
            }
        }
    }
    found || last
}

/// `s` without leading `/`s.
fn trim_start_slashes(s: &str) -> (r: String)
    ensures
        r@ == trim_slashes_start(s@),
{
    let cs = chars_of(s);
    let mut a: usize = 0;
    assert(s@.skip(0) =~= s@);
    while a < cs.len() && cs[a] == '/'
        invariant
            a <= cs@.len(),
            cs@ == s@,
            trim_slashes_start(s@) == trim_slashes_start(s@.skip(a as int)),
        decreases cs@.len() - a,
    {
        assert(s@.skip(a as int).drop_first() =~= s@.skip(a + 1));
        a = a + 1;
    }
    let t = s.substring_char(a, cs.len());
    assert(t@ =~= s@.skip(a as int));
    owned(t)
}

/// Routes a request path; an image route carries the path relative to the
/// template folder (leading `/`s removed).
pub fn route_for(path: &str) -> (r: Route)
    ensures
        match (r, route_view(path@)) {
            (Route::Image(rel), Route::Image(_)) => rel@ == trim_slashes_start(path@),
            (Route::NotFound, Route::NotFound) => true,
            (Route::Wrapper, Route::Wrapper) => true,
            (Route::Compiled, Route::Compiled) => true,
            (Route::Mtime, Route::Mtime) => true,
            (Route::Meta, Route::Meta) => true,
            _ => false,
        },
{
    if path_has_parent_dir(path) {
        Route::NotFound
    } else if str_eq(path, "/") {
        Route::Wrapper
    } else if str_eq(path, "/compiled.html") {
        Route::Compiled
    } else if str_eq(path, "/__mtime") {
        Route::Mtime
    } else if str_eq(path, "/__meta") {
        Route::Meta
    } else if starts_with(path, "/images/") {
        Route::Image(trim_start_slashes(path))
    } else {
        Route::NotFound
    }
}

/// The page served while the email is still compiling.
pub fn compiling_page() -> (r: &'static str)
    ensures
        r@ == "<!doctype html><title>compiling</title><p>compiling...</p>"@,
{
    "<!doctype html><title>compiling</title><p>compiling...</p>"
}

/// The header of a response with a body of `len` bytes.
pub open spec fn response_header_view(status: Seq<char>, ctype: Seq<char>, len: nat) -> Seq<char> {
    "HTTP/1.1 "@ + status + "\r\nContent-Type: "@ + ctype + "\r\nContent-Length: "@ + decimal(len)
        + "\r\nCache-Control: no-store\r\nConnection: close\r\n\r\n"@
}

/// The header of a response with a body of `len` bytes.
pub fn response_header(status: &str, ctype: &str, len: usize) -> (r: String)
    ensures
        r@ == response_header_view(status@, ctype@, len as nat),
{
    let mut s = owned("HTTP/1.1 ");
    push_str(&mut s, status);
    push_str(&mut s, "\r\nContent-Type: ");
    push_str(&mut s, ctype);
    push_str(&mut s, "\r\nContent-Length: ");
    let d = usize_to_decimal(len);
    push_str(&mut s, d.as_str());
    push_str(&mut s, "\r\nCache-Control: no-store\r\nConnection: close\r\n\r\n");
    s
}

proof fn lemma_escape_concat(a: Seq<char>, b: Seq<char>)
    ensures
        escape_seq(a + b) == escape_seq(a) + escape_seq(b),
    decreases b.len(),
{
    if b.len() == 0 {
        assert(a + b =~= a);
        assert(escape_seq(a) + Seq::<char>::empty() =~= escape_seq(a));
    } else {
        assert((a + b).drop_last() =~= a + b.drop_last());
        assert((a + b).last() == b.last());
        lemma_escape_concat(a, b.drop_last());
        assert(escape_seq(a) + escape_seq(b.drop_last()) + escape_char(b.last())
            =~= escape_seq(a) + (escape_seq(b.drop_last()) + escape_char(b.last())));
    }
}

/// Whether `c` is one of the characters HTML escaping replaces.
pub open spec fn html_special(c: char) -> bool {
    c == '&' || c == '<' || c == '>' || c == '"'
}

/// Escaping works character by character: escaping two texts one after the
/// other is escaping each; `&`, `<`, `>` and `"` become `&amp;`, `&lt;`,
/// `&gt;` and `&quot;`, and every other character stays as it is.
pub proof fn law_escape_per_char(a: Seq<char>, b: Seq<char>, c: char)
    ensures
        escape_seq(a + b) == escape_seq(a) + escape_seq(b),
        c == '&' ==> escape_seq(seq![c]) == "&amp;"@,
        c == '<' ==> escape_seq(seq![c]) == "&lt;"@,
        c == '>' ==> escape_seq(seq![c]) == "&gt;"@,
        c == '"' ==> escape_seq(seq![c]) == "&quot;"@,
        !html_special(c) ==> escape_seq(seq![c]) == seq![c],
{
    lemma_escape_concat(a, b);
    assert(escape_seq(Seq::<char>::empty()) == Seq::<char>::empty());
    assert(seq![c].drop_last() =~= Seq::<char>::empty());
    assert(Seq::<char>::empty() + escape_char(c) =~= escape_char(c));
}

/// Text without `&`, `<`, `>` or `"` is left as it is.
pub proof fn law_escape_plain(s: Seq<char>)
    requires
        forall|k: int| 0 <= k < s.len() ==> !html_special(#[trigger] s[k]),
    ensures
        escape_seq(s) == s,
    decreases s.len(),
{
    if s.len() > 0 {
        assert forall|k: int| 0 <= k < s.drop_last().len() implies !html_special(#[trigger] s.drop_last()[k]) by {
            assert(s.drop_last()[k] == s[k]);
        }
        law_escape_plain(s.drop_last());
        assert(!html_special(s[s.len() - 1]));
        assert(s.drop_last().push(s.last()) =~= s);
    }
}

/// Escaped text holds no `<`, `>` or `"`.
pub proof fn law_escape_is_safe(s: Seq<char>)
    ensures
        forall|k: int| 0 <= k < escape_seq(s).len() ==> {
            let c = #[trigger] escape_seq(s)[k];
            c != '<' && c != '>' && c != '"'
        },
    decreases s.len(),
{
    reveal_strlit("&amp;");
    reveal_strlit("&lt;");
    reveal_strlit("&gt;");
    reveal_strlit("&quot;");
    if s.len() > 0 {
        law_escape_is_safe(s.drop_last());
        let a = escape_seq(s.drop_last());
        let e = escape_char(s.last());
        assert forall|k: int| 0 <= k < (a + e).len() implies {
            let c = #[trigger] (a + e)[k];
            c != '<' && c != '>' && c != '"'
        } by {
            if k >= a.len() {
                assert((a + e)[k] == e[k - a.len()]);
            } else {
                assert((a + e)[k] == a[k]);
            }
        }
    }
}

/// The content type of each known extension.
pub proof fn law_mime_table()
    ensures
        mime_of_ext("html"@) == "text/html; charset=utf-8"@,
        mime_of_ext("htm"@) == "text/html; charset=utf-8"@,
        mime_of_ext("css"@) == "text/css; charset=utf-8"@,
        mime_of_ext("js"@) == "text/javascript; charset=utf-8"@,
        mime_of_ext("json"@) == "application/json"@,
        mime_of_ext("png"@) == "image/png"@,
        mime_of_ext("jpg"@) == "image/jpeg"@,
        mime_of_ext("jpeg"@) == "image/jpeg"@,
        mime_of_ext("gif"@) == "image/gif"@,
        mime_of_ext("svg"@) == "image/svg+xml"@,
        mime_of_ext("webp"@) == "image/webp"@,
        mime_of_ext(""@) == "application/octet-stream"@,
{
    reveal_strlit("html");
    reveal_strlit("htm");
    reveal_strlit("css");
    reveal_strlit("js");
    reveal_strlit("json");
    reveal_strlit("png");
    reveal_strlit("jpg");
    reveal_strlit("jpeg");
    reveal_strlit("gif");
    reveal_strlit("svg");
    reveal_strlit("webp");
    reveal_strlit("");
    assert("htm"@.len() != "html"@.len());
    assert("css"@.len() != "html"@.len());
    assert("css"@[0] != "htm"@[0]);
    assert("js"@.len() != "html"@.len());
    assert("js"@.len() != "htm"@.len());
    assert("js"@.len() != "css"@.len());
    assert("json"@[0] != "html"@[0]);
    assert("json"@.len() != "htm"@.len());
    assert("json"@.len() != "css"@.len());
    assert("json"@.len() != "js"@.len());
    assert("png"@.len() != "html"@.len());
    assert("png"@[0] != "htm"@[0]);
    assert("png"@[0] != "css"@[0]);
    assert("png"@.len() != "js"@.len());
    assert("png"@.len() != "json"@.len());
    assert("jpg"@.len() != "html"@.len());
    assert("jpg"@[0] != "htm"@[0]);
    assert("jpg"@[0] != "css"@[0]);
    assert("jpg"@.len() != "js"@.len());
    assert("jpg"@.len() != "json"@.len());
    assert("jpg"@[0] != "png"@[0]);
    assert("jpeg"@[0] != "html"@[0]);
    assert("jpeg"@.len() != "htm"@.len());
    assert("jpeg"@.len() != "css"@.len());
    assert("jpeg"@.len() != "js"@.len());
    assert("jpeg"@[1] != "json"@[1]);
    assert("jpeg"@.len() != "png"@.len());
    assert("jpeg"@.len() != "jpg"@.len());
    assert("gif"@.len() != "html"@.len());
    assert("gif"@[0] != "htm"@[0]);
    assert("gif"@[0] != "css"@[0]);
    assert("gif"@.len() != "js"@.len());
    assert("gif"@.len() != "json"@.len());
    assert("gif"@[0] != "png"@[0]);
    assert("gif"@[0] != "jpg"@[0]);
    assert("gif"@.len() != "jpeg"@.len());
    assert("svg"@.len() != "html"@.len());
    assert("svg"@[0] != "htm"@[0]);
    assert("svg"@[0] != "css"@[0]);
    assert("svg"@.len() != "js"@.len());
    assert("svg"@.len() != "json"@.len());
    assert("svg"@[0] != "png"@[0]);
    assert("svg"@[0] != "jpg"@[0]);
    assert("svg"@.len() != "jpeg"@.len());
    assert("svg"@[0] != "gif"@[0]);
    assert("webp"@[0] != "html"@[0]);
    assert("webp"@.len() != "htm"@.len());
    assert("webp"@.len() != "css"@.len());
    assert("webp"@.len() != "js"@.len());
    assert("webp"@[0] != "json"@[0]);
    assert("webp"@.len() != "png"@.len());
    assert("webp"@.len() != "jpg"@.len());
    assert("webp"@[0] != "jpeg"@[0]);
    assert("webp"@.len() != "gif"@.len());
    assert("webp"@.len() != "svg"@.len());
    assert(""@.len() != "html"@.len());
    assert(""@.len() != "htm"@.len());
    assert(""@.len() != "css"@.len());
    assert(""@.len() != "js"@.len());
    assert(""@.len() != "json"@.len());
    assert(""@.len() != "png"@.len());
    assert(""@.len() != "jpg"@.len());
    assert(""@.len() != "jpeg"@.len());
    assert(""@.len() != "gif"@.len());
    assert(""@.len() != "svg"@.len());
    assert(""@.len() != "webp"@.len());
}

} // verus!
