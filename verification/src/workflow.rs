//! What export (Shift+E), preview (`p`) and validation (F3) decide at each
//! step: whether they may start, what a validation report, a missing or
//! failing compiler and a finished compile are answered with.  The editor
//! runs the validation, the compiler and the browser in between.
use vstd::prelude::*;

use crate::editor::{Notice, ToastLevel};
use crate::mjml::{CompileResult, MjmlError, gmail_clip_view, gmail_clip_warning, mjml_error_message};
use crate::modal::{Modal, SpecModal, modal_view};
use crate::text::{decimal, owned, push_str, u64_to_decimal};

verus! {

/// The view of a list of notices.
pub open spec fn notices_view(v: Seq<Notice>) -> Seq<(ToastLevel, Seq<char>)> {
    v.map_values(|n: Notice| (n.level, n.message@))
}

fn notice(level: ToastLevel, msg: &str) -> (r: Notice)
    ensures
        r.level == level,
        r.message@ == msg@,
{
    Notice { level, message: owned(msg) }
}

/// The warning shown when a command needs a template and none is open.
pub open spec fn no_template_text() -> Seq<char> {
    "No template open. Run: dd_emailforge init <dir>"@
}

/// Which command is starting.
#[derive(Clone, Copy, Debug, PartialEq, Eq, Structural)]
pub enum Task {
    Export,
    Preview,
}

/// Whether export or preview may start: both need an open template that
/// was saved somewhere (the warning says which is missing).
pub open spec fn task_gate(task: Task, has_template: bool, has_path: bool) -> Option<(ToastLevel, Seq<char>)> {
    if !has_template {
        Some((ToastLevel::Warning, no_template_text()))
    } else if !has_path {
        Some((ToastLevel::Warning, match task {
            Task::Export => "Save the template before exporting."@,
            Task::Preview => "Save the template before previewing."@,
        }))
    } else {
        None
    }
}

/// Whether export or preview may start; the warning to show if not.
pub fn start_task(task: Task, has_template: bool, has_path: bool) -> (r: Option<Notice>)
    ensures
        match (r, task_gate(task, has_template, has_path)) {
            (Some(n), Some((l, m))) => n.level == l && n.message@ == m,
            (None, None) => true,
            _ => false,
        },
{
    if !has_template {
        Some(notice(ToastLevel::Warning, "No template open. Run: dd_emailforge init <dir>"))
    } else if !has_path {
        match task {
            Task::Export => Some(notice(ToastLevel::Warning, "Save the template before exporting.")),
            Task::Preview => Some(notice(ToastLevel::Warning, "Save the template before previewing.")),
        }
    } else {
        None
    }
}

/// The warning that F3 (and `s`) show without a template.
pub fn no_template_notice() -> (r: Notice)
    ensures
        r.level == ToastLevel::Warning,
        r.message@ == no_template_text(),
{
    notice(ToastLevel::Warning, "No template open. Run: dd_emailforge init <dir>")
}

/// Warnings as notices, in order.
pub open spec fn warnings_as_notices(w: Seq<Seq<char>>) -> Seq<(ToastLevel, Seq<char>)> {
    w.map_values(|s: Seq<char>| (ToastLevel::Warning, s))
}

fn warning_notices(warnings: Vec<String>, out: &mut Vec<Notice>)
    ensures
        notices_view(final(out)@) == notices_view(old(out)@) + warnings_as_notices(warnings@.map_values(|s: String| s@)),
{
    let ghost o0 = notices_view(out@);
    let ghost ws = warnings@.map_values(|s: String| s@);
    let mut i: usize = 0;
    let n = warnings.len();
    while i < n
        invariant
            n == ws.len(),
            i <= n,
            warnings@.len() == n,
            ws == warnings@.map_values(|s: String| s@),
            notices_view(out@) == o0 + warnings_as_notices(ws.take(i as int)),
        decreases n - i,
    {
        let w = warnings[i].clone();
        assert(w@ == ws[i as int]);
        let ghost before = notices_view(out@);
        out.push(Notice { level: ToastLevel::Warning, message: w });
        assert(notices_view(out@) =~= before.push((ToastLevel::Warning, ws[i as int])));
        assert(warnings_as_notices(ws.take(i + 1)) =~= warnings_as_notices(ws.take(i as int)).push(
            (ToastLevel::Warning, ws[i as int]),
        ));
        i = i + 1;
        assert(notices_view(out@) =~= o0 + warnings_as_notices(ws.take(i as int)));
    }
    assert(ws.take(i as int) =~= ws);
}

/// A validation report before export or preview: errors open the error list
/// (scrolled to the top) and stop; otherwise every warning is shown and the
/// task goes on.
pub open spec fn validation_gate(errors: Seq<Seq<char>>, warnings: Seq<Seq<char>>) -> Result<
    Seq<(ToastLevel, Seq<char>)>,
    SpecModal,
> {
    if errors.len() > 0 {
        Err(SpecModal::ValidationErrors { errors, scroll_offset: 0 })
    } else {
        Ok(warnings_as_notices(warnings))
    }
}

/// Answers a validation report before export or preview.
pub fn check_report(errors: Vec<String>, warnings: Vec<String>) -> (r: Result<Vec<Notice>, Modal>)
    ensures
        match (r, validation_gate(errors@.map_values(|s: String| s@), warnings@.map_values(|s: String| s@))) {
            (Ok(v), Ok(w)) => notices_view(v@) == w,
            (Err(m), Err(sm)) => m@ == sm,
            _ => false,
        },
{
    if errors.len() > 0 {
        return Err(Modal::ValidationErrors { errors, scroll_offset: 0 });
    }
    let mut out: Vec<Notice> = Vec::new();
    assert(notices_view(out@) =~= Seq::empty());
    warning_notices(warnings, &mut out);
    assert(notices_view(out@) =~= warnings_as_notices(warnings@.map_values(|s: String| s@)));
    Ok(out)
}

/// F3: errors open the error list; a clean report says so and lists the
/// warnings after it.
pub open spec fn validation_answer(errors: Seq<Seq<char>>, warnings: Seq<Seq<char>>) -> Result<
    Seq<(ToastLevel, Seq<char>)>,
    SpecModal,
> {
    if errors.len() > 0 {
        Err(SpecModal::ValidationErrors { errors, scroll_offset: 0 })
    } else {
        Ok(seq![(ToastLevel::Success, "Validation passed"@)] + warnings_as_notices(warnings))
    }
}

/// Answers F3's validation report.
pub fn answer_validation(errors: Vec<String>, warnings: Vec<String>) -> (r: Result<Vec<Notice>, Modal>)
    ensures
        match (r, validation_answer(errors@.map_values(|s: String| s@), warnings@.map_values(|s: String| s@))) {
            (Ok(v), Ok(w)) => notices_view(v@) == w,
            (Err(m), Err(sm)) => m@ == sm,
            _ => false,
        },
{
    if errors.len() > 0 {
        return Err(Modal::ValidationErrors { errors, scroll_offset: 0 });
    }
    let mut out: Vec<Notice> = Vec::new();
    out.push(notice(ToastLevel::Success, "Validation passed"));
    assert(notices_view(out@) =~= seq![(ToastLevel::Success, "Validation passed"@)]);
    warning_notices(warnings, &mut out);
    Ok(out)
}

/// The modal a compiler failure opens: the places searched when there is no
/// compiler, else the compiler's output (or the error's message).
pub open spec fn failure_modal(e: MjmlError) -> SpecModal {
    match e {
        MjmlError::NotFound { searched } => SpecModal::MjmlMissing { searched: searched@.map_values(|s: String| s@) },
        MjmlError::Compile { stderr } => SpecModal::MjmlCompileError { stderr: stderr@, scroll: 0 },
        _ => SpecModal::MjmlCompileError { stderr: mjml_error_message(e), scroll: 0 },
    }
}

/// The modal for a compiler failure during export.
pub fn compile_failure(e: MjmlError) -> (r: Modal)
    ensures
        r@ == failure_modal(e),
{
    let msg = e.message();
    match e {
        MjmlError::NotFound { searched } => Modal::MjmlMissing { searched },
        MjmlError::Compile { stderr } => Modal::MjmlCompileError { stderr, scroll: 0 },
        _ => Modal::MjmlCompileError { stderr: msg, scroll: 0 },
    }
}

/// The modal when looking for the compiler fails (before anything runs):
/// the places searched, or the error's message.
pub open spec fn discovery_modal(e: MjmlError) -> SpecModal {
    match e {
        MjmlError::NotFound { searched } => SpecModal::MjmlMissing { searched: searched@.map_values(|s: String| s@) },
        _ => SpecModal::MjmlCompileError { stderr: mjml_error_message(e), scroll: 0 },
    }
}

/// The modal when looking for the compiler fails.
pub fn discovery_failure(e: MjmlError) -> (r: Modal)
    ensures
        r@ == discovery_modal(e),
{
    let msg = e.message();
    match e {
        MjmlError::NotFound { searched } => Modal::MjmlMissing { searched },
        _ => Modal::MjmlCompileError { stderr: msg, scroll: 0 },
    }
}

/// A finished export compile: success names the HTML file and adds the
/// Gmail clipping warning when the file is large.
pub open spec fn export_done(html_path: Seq<char>, html_bytes: u64) -> Seq<(ToastLevel, Seq<char>)> {
    let done = seq![(ToastLevel::Success, "Exported "@ + html_path)];
    match gmail_clip_view(html_bytes) {
        Some(w) => done.push((ToastLevel::Warning, w)),
        None => done,
    }
}

/// Answers a finished export compile.
pub fn export_finished(r: Result<CompileResult, MjmlError>, html_path: &str) -> (out: Result<Vec<Notice>, Modal>)
    ensures
        match (r, out) {
            (Ok(c), Ok(v)) => notices_view(v@) == export_done(html_path@, c.html_bytes),
            (Err(e), Err(m)) => m@ == failure_modal(e),
            _ => false,
        },
{
    match r {
        Ok(c) => {
            let mut msg = owned("Exported ");
            push_str(&mut msg, html_path);
            let mut v: Vec<Notice> = Vec::new();
            v.push(Notice { level: ToastLevel::Success, message: msg });
            let ghost v1 = notices_view(v@);
            match gmail_clip_warning(c.html_bytes) {
                Some(w) => {
                    v.push(Notice { level: ToastLevel::Warning, message: w });
                    assert(notices_view(v@) =~= v1.push((ToastLevel::Warning, gmail_clip_view(c.html_bytes)->0)));
                },
                None => {},
            }
            assert(notices_view(v@) =~= export_done(html_path@, c.html_bytes));
            Ok(v)
        },
        Err(e) => Err(compile_failure(e)),
    }
}

/// The address the preview server answers on.
pub open spec fn preview_origin_view(port: u16) -> Seq<char> {
    "http://127.0.0.1:"@ + decimal(port as nat)
}

/// The address the preview server answers on.
pub fn preview_origin(port: u16) -> (r: String)
    ensures
        r@ == preview_origin_view(port),
{
    let mut r = owned("http://127.0.0.1:");
    let d = u64_to_decimal(port as u64);
    push_str(&mut r, d.as_str());
    r
}

/// What opening the browser on the preview is answered with.
pub open spec fn browser_answer(url: Seq<char>, opened: Result<(), Seq<char>>) -> (ToastLevel, Seq<char>) {
    match opened {
        Ok(()) => (ToastLevel::Success, "Preview "@ + url),
        Err(e) => (ToastLevel::Warning, "Open browser failed: "@ + e),
    }
}

/// Answers the attempt to open the browser on the preview.
pub fn browser_opened(url: &str, opened: Result<(), String>) -> (r: Notice)
    ensures
        (r.level, r.message@) == browser_answer(url@, match opened {
            Ok(()) => Ok(()),
            Err(e) => Err(e@),
        }),
{
    match opened {
        Ok(()) => {
            let mut m = owned("Preview ");
            push_str(&mut m, url);
            Notice { level: ToastLevel::Success, message: m }
        },
        Err(e) => {
            let mut m = owned("Open browser failed: ");
            push_str(&mut m, e.as_str());
            Notice { level: ToastLevel::Warning, message: m }
        },
    }
}

/// A report with errors opens the error list holding exactly those errors,
/// at the top, and stops the task (F3 answers the same); a report without
/// errors lets the task go on with one warning notice per warning, in
/// order, and F3 says that validation passed before listing them.
pub proof fn law_validation_report(errors: Seq<Seq<char>>, warnings: Seq<Seq<char>>)
    ensures
        errors.len() > 0 ==> validation_gate(errors, warnings) == Err::<Seq<(ToastLevel, Seq<char>)>, SpecModal>(
            SpecModal::ValidationErrors { errors, scroll_offset: 0 },
        ) && validation_answer(errors, warnings) == validation_gate(errors, warnings),
        errors.len() == 0 ==> (validation_gate(errors, warnings) matches Ok(v) && v.len() == warnings.len()
            && forall|k: int| 0 <= k < warnings.len() ==> #[trigger] v[k] == (ToastLevel::Warning, warnings[k])),
        errors.len() == 0 ==> (validation_answer(errors, warnings) matches Ok(v) && v.len() == warnings.len() + 1
            && v[0] == (ToastLevel::Success, "Validation passed"@)
            && forall|k: int| 0 <= k < warnings.len() ==> #[trigger] v[k + 1] == (ToastLevel::Warning, warnings[k])),
{
    if errors.len() == 0 {
        let v = validation_answer(errors, warnings)->Ok_0;
        assert forall|k: int| 0 <= k < warnings.len() implies #[trigger] v[k + 1] == (ToastLevel::Warning, warnings[k]) by {
            assert(v[k + 1] == warnings_as_notices(warnings)[k]);
        }
    }
}

/// Export and preview start only with an open template that was saved
/// somewhere; otherwise a warning says what is missing, the template first.
pub proof fn law_task_gate(task: Task, has_template: bool, has_path: bool)
    ensures
        task_gate(task, has_template, has_path) is None <==> (has_template && has_path),
        !has_template ==> task_gate(task, has_template, has_path) == Some((ToastLevel::Warning, no_template_text())),
        task_gate(task, has_template, has_path) is Some ==> task_gate(task, has_template, has_path).unwrap().0 == ToastLevel::Warning,
{
}

} // verus!
