//! The official MJML 5 command line: where it is looked for, the flags it
//! is run with, how its output is read, and what its failures say.
use vstd::prelude::*;

use crate::paths::{join, join_path};
use crate::text::{
    contains, decimal, lower_seq, owned, push_str, seq_contains, split_on, to_ascii_lowercase,
    u64_to_decimal,
};

verus! {

/// Why MJML could not be found or run.
#[derive(Debug)]
pub enum MjmlError {
    /// No `mjml` binary; the places looked in.
    NotFound { searched: Vec<String> },
    /// The compiler exited with an error; what it printed.
    Compile { stderr: String },
    /// The compiler ran longer than the time limit.
    Timeout,
    /// The compiler could not be started or read (the reader's message).
    Io(String),
}

/// The result of a one-shot compile: the size of the HTML written.
#[derive(Debug)]
pub struct CompileResult {
    pub html_bytes: u64,
}

/// The lines naming the places looked in, each indented by two spaces.
pub open spec fn searched_lines(searched: Seq<Seq<char>>) -> Seq<char>
    decreases searched.len(),
{
    if searched.len() == 0 {
        Seq::empty()
    } else {
        searched_lines(searched.drop_last()) + "  "@ + searched.last() + "\n"@
    }
}

/// The message for a missing `mjml`: how to install it, then where it was looked for.
pub open spec fn not_found_view(searched: Seq<Seq<char>>) -> Seq<char> {
    "mjml CLI not found. Install the pin from this template:\n  cd <template-dir> && npm install\nLooked in:\n"@
        + searched_lines(searched)
}

/// The message for a missing `mjml`.
pub fn not_found_message(searched: &[String]) -> (r: String)
    ensures
        r@ == not_found_view(searched@.map_values(|s: String| s@)),
{
    let ghost sv = searched@.map_values(|s: String| s@);
    let mut s = owned(
        "mjml CLI not found. Install the pin from this template:\n  cd <template-dir> && npm install\nLooked in:\n",
    );
    let mut i: usize = 0;
    while i < searched.len()
        invariant
            i <= searched@.len(),
            sv == searched@.map_values(|s: String| s@),
            s@ == "mjml CLI not found. Install the pin from this template:\n  cd <template-dir> && npm install\nLooked in:\n"@
                + searched_lines(sv.take(i as int)),
        decreases searched@.len() - i,
    {
        assert(sv.take(i + 1).drop_last() =~= sv.take(i as int));
        assert(sv.take(i + 1).last() == searched@[i as int]@);
        push_str(&mut s, "  ");
        push_str(&mut s, searched[i].as_str());
        push_str(&mut s, "\n");
        i = i + 1;
        assert(s@ =~= "mjml CLI not found. Install the pin from this template:\n  cd <template-dir> && npm install\nLooked in:\n"@
            + searched_lines(sv.take(i as int)));
    }
    assert(sv.take(searched@.len() as int) =~= sv);
    s
}

/// The message of an MJML error.
pub open spec fn mjml_error_message(e: MjmlError) -> Seq<char> {
    match e {
        MjmlError::NotFound { searched } => not_found_view(searched@.map_values(|s: String| s@)),
        MjmlError::Compile { stderr } => "mjml compile failed:\n"@ + stderr@,
        MjmlError::Timeout => "mjml compile timed out after 30s"@,
        MjmlError::Io(m) => "mjml io error: "@ + m@,
    }
}

impl MjmlError {
    /// The message shown for this error.
    pub fn message(&self) -> (r: String)
        ensures
            r@ == mjml_error_message(*self),
    {
        match self {
            MjmlError::NotFound { searched } => not_found_message(searched.as_slice()),
            MjmlError::Compile { stderr } => {
                let mut r = owned("mjml compile failed:\n");
                push_str(&mut r, stderr.as_str());
                r
            },
            MjmlError::Timeout => owned("mjml compile timed out after 30s"),
            MjmlError::Io(m) => {
                let mut r = owned("mjml io error: ");
                push_str(&mut r, m.as_str());
                r
            },
        }
    }
}

/// The `mjml` a template pins: `node_modules/.bin/mjml` in its folder.
pub open spec fn local_mjml_view(root: Seq<char>) -> Seq<char> {
    join_path(join_path(join_path(root, "node_modules"@), ".bin"@), "mjml"@)
}

/// The `mjml` a template pins.
pub fn local_mjml_path(template_root: &str) -> (r: String)
    ensures
        r@ == local_mjml_view(template_root@),
{
    let a = join(template_root, "node_modules");
    let b = join(a.as_str(), ".bin");
    join(b.as_str(), "mjml")
}

/// Choosing the `mjml` to run, from what the file system reports: the
/// template's own pin when it is a file, else the first one on `PATH`, else
/// an error naming both places.
pub fn discover_mjml(template_root: &str, local_is_file: bool, on_path: Option<String>) -> (r: Result<String, MjmlError>)
    ensures
        local_is_file ==> r is Ok && r->Ok_0@ == local_mjml_view(template_root@),
        !local_is_file && on_path is Some ==> r is Ok && r->Ok_0@ == on_path->0@,
        !local_is_file && on_path is None ==> (r matches Err(MjmlError::NotFound { searched })
            && searched@.map_values(|s: String| s@) == seq![local_mjml_view(template_root@), "$PATH"@]),
{
    let local = local_mjml_path(template_root);
    if local_is_file {
        return Ok(local);
    }
    match on_path {
        Some(p) => Ok(p),
        None => {
            let mut searched: Vec<String> = Vec::new();
            searched.push(local);
            searched.push(owned("$PATH"));
            assert(searched@.map_values(|s: String| s@) =~= seq![local_mjml_view(template_root@), "$PATH"@]);
            Err(MjmlError::NotFound { searched })
        },
    }
}

/// The `mjml` candidates on a `PATH` value, in order: each entry (split at
/// `:`) joined with `mjml`.
pub open spec fn path_candidates_view(path_var: Seq<char>) -> Seq<Seq<char>> {
    split_on(path_var, ':').map_values(|d: Seq<char>| join_path(d, "mjml"@))
}

/// The `mjml` candidates on a `PATH` value.
pub fn path_candidates(path_var: &str) -> (r: Vec<String>)
    ensures
        r@.map_values(|s: String| s@) == path_candidates_view(path_var@),
{
    let cs = crate::text::chars_of(path_var);
    let ghost want = path_candidates_view(path_var@);
    let mut out: Vec<String> = Vec::new();
    let mut cur = String::new();
    let mut i: usize = 0;
    while i < cs.len()
        invariant
            i <= cs@.len(),
            cs@ == path_var@,
            out@.map_values(|s: String| s@) == crate::text::split_acc(path_var@.take(i as int), ':').0.map_values(
                |d: Seq<char>| join_path(d, "mjml"@),
            ),
            cur@ == crate::text::split_acc(path_var@.take(i as int), ':').1,
        decreases cs@.len() - i,
    {
        let c = cs[i];
        assert(path_var@.take(i + 1).drop_last() =~= path_var@.take(i as int));
        assert(path_var@.take(i + 1).last() == c);
        let ghost old_out = out@.map_values(|s: String| s@);
        let ghost done = crate::text::split_acc(path_var@.take(i as int), ':').0;
        if c == ':' {
            let entry = join(cur.as_str(), "mjml");
            let ghost ev = entry@;
            out.push(entry);
            cur = String::new();
            assert(out@.map_values(|s: String| s@) =~= old_out.push(ev));
            assert(done.push(crate::text::split_acc(path_var@.take(i as int), ':').1).map_values(
                |d: Seq<char>| join_path(d, "mjml"@),
            ) =~= done.map_values(|d: Seq<char>| join_path(d, "mjml"@)).push(ev));
        } else {
            crate::text::push_char(&mut cur, c);
        }
        i = i + 1;
    }
    assert(path_var@.take(path_var@.len() as int) =~= path_var@);
    let ghost old_out = out@.map_values(|s: String| s@);
    let ghost done = crate::text::split_acc(path_var@, ':').0;
    let entry = join(cur.as_str(), "mjml");
    let ghost ev = entry@;
    out.push(entry);
    assert(out@.map_values(|s: String| s@) =~= old_out.push(ev));
    assert(done.push(cur@).map_values(|d: Seq<char>| join_path(d, "mjml"@)) =~= done.map_values(
        |d: Seq<char>| join_path(d, "mjml"@),
    ).push(ev));
    out
}

/// The template delimiters MJML must leave alone.
pub open spec fn template_syntax_view() -> Seq<char> {
    "[{\"prefix\":\"{{\",\"suffix\":\"}}\"},{\"prefix\":\"[[\",\"suffix\":\"]]\"},{\"prefix\":\"*|\",\"suffix\":\"|*\"},{\"prefix\":\"{%\",\"suffix\":\"%}\"},{\"prefix\":\"%%\",\"suffix\":\"%%\"},{\"prefix\":\"<%\",\"suffix\":\"%>\"}]"@
}

/// The template delimiters MJML must leave alone.
pub fn template_syntax() -> (r: &'static str)
    ensures
        r@ == template_syntax_view(),
{
    "[{\"prefix\":\"{{\",\"suffix\":\"}}\"},{\"prefix\":\"[[\",\"suffix\":\"]]\"},{\"prefix\":\"*|\",\"suffix\":\"|*\"},{\"prefix\":\"{%\",\"suffix\":\"%}\"},{\"prefix\":\"%%\",\"suffix\":\"%%\"},{\"prefix\":\"<%\",\"suffix\":\"%>\"}]"
}

/// The configuration flags every compile runs with: strict validation,
/// beautified output, comments kept, styles sanitized, and the template
/// delimiters allowed. No include paths are ever allowed.
pub open spec fn mjml_flags_view() -> Seq<Seq<char>> {
    seq![
        "--config.validationLevel"@,
        "strict"@,
        "--config.beautify"@,
        "true"@,
        "--config.keepComments"@,
        "true"@,
        "--config.sanitizeStyles"@,
        "true"@,
        "--config.allowMixedSyntax"@,
        "true"@,
        "--config.templateSyntax"@,
        template_syntax_view(),
    ]
}

/// The configuration flags every compile runs with.
pub fn mjml_flags() -> (r: Vec<String>)
    ensures
        r@.map_values(|s: String| s@) == mjml_flags_view(),
{
    let mut r: Vec<String> = Vec::new();
    r.push(owned("--config.validationLevel"));
    r.push(owned("strict"));
    r.push(owned("--config.beautify"));
    r.push(owned("true"));
    r.push(owned("--config.keepComments"));
    r.push(owned("true"));
    r.push(owned("--config.sanitizeStyles"));
    r.push(owned("true"));
    r.push(owned("--config.allowMixedSyntax"));
    r.push(owned("true"));
    r.push(owned("--config.templateSyntax"));
    r.push(owned(template_syntax()));
    assert(r@.map_values(|s: String| s@) =~= mjml_flags_view());
    r
}

/// Whether a line MJML prints while watching reports an error.
pub open spec fn looks_like_error(line: Seq<char>) -> bool {
    seq_contains(lower_seq(line), "error"@) || seq_contains(lower_seq(line), "validationerror"@)
}

/// Whether a line MJML prints while watching reports an error (any case).
pub fn line_looks_like_error(line: &str) -> (r: bool)
    ensures
        r == looks_like_error(line@),
{
    let l = to_ascii_lowercase(line);
    contains(l.as_str(), "error") || contains(l.as_str(), "validationerror")
}

/// The size from which Gmail clips a message.
pub open spec fn gmail_clip_bytes() -> u64 {
    100_000
}

/// The warning for compiled HTML large enough for Gmail to clip.
pub open spec fn gmail_clip_view(html_bytes: u64) -> Option<Seq<char>> {
    if html_bytes >= gmail_clip_bytes() {
        Some("Compiled HTML is "@ + decimal(html_bytes as nat) + " bytes. Gmail clips near 100KB."@)
    } else {
        None
    }
}

/// Warns when compiled HTML is large enough for Gmail to clip it.
pub fn gmail_clip_warning(html_bytes: u64) -> (r: Option<String>)
    ensures
        match (r, gmail_clip_view(html_bytes)) {
            (Some(a), Some(b)) => a@ == b,
            (None, None) => true,
            _ => false,
        },
{
    if html_bytes >= 100_000 {
        let mut s = owned("Compiled HTML is ");
        let d = u64_to_decimal(html_bytes);
        push_str(&mut s, d.as_str());
        push_str(&mut s, " bytes. Gmail clips near 100KB.");
        Some(s)
    } else {
        None
    }
}

/// Listing directories joined with `:` as a `PATH` gives one candidate per
/// directory, in order: the directory joined with `mjml`.
pub proof fn law_path_candidates(dirs: Seq<Seq<char>>)
    requires
        dirs.len() > 0,
        forall|k: int| 0 <= k < dirs.len() ==> !(#[trigger] dirs[k]).contains(':'),
    ensures
        path_candidates_view(crate::text::join_seq(dirs, seq![':'])) == dirs.map_values(|d: Seq<char>| join_path(d, "mjml"@)),
{
    crate::text::lemma_split_join(dirs, ':');
}

/// Only compiled HTML of at least 100 000 bytes gets a warning, and the
/// warning gives the size.
pub proof fn law_gmail_clip(html_bytes: u64)
    ensures
        gmail_clip_view(html_bytes) is Some <==> html_bytes >= 100_000,
        gmail_clip_view(html_bytes) is Some ==> gmail_clip_view(html_bytes)->0 == "Compiled HTML is "@ + decimal(
            html_bytes as nat,
        ) + " bytes. Gmail clips near 100KB."@,
{
}

} // verus!
