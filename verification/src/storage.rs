//! Where a template lives on disk and what loading one may fail with: the
//! decisions around reading and writing `template.json`.
use vstd::prelude::*;

use crate::paths::{file_name, join, join_path, parent, path_file_name, path_parent};
use crate::text::{decimal, owned, push_char, push_str, usize_to_decimal};

verus! {

/// Why a template could not be loaded.
#[derive(Debug)]
pub enum LoadError {
    /// The file has no `version`.
    MissingVersion,
    /// The file declares a version other than 1.
    UnsupportedVersion(u32),
    /// The file is not a template (the parser's message).
    Parse(String),
    /// The file could not be read (the reader's message).
    Io(String),
}

/// The message of a load error.
pub open spec fn load_error_message(e: LoadError) -> Seq<char> {
    match e {
        LoadError::MissingVersion => "missing template.json version (expected 1)"@,
        LoadError::UnsupportedVersion(n) => "unsupported template.json version "@ + decimal(n as nat)
            + " (expected 1)"@,
        LoadError::Parse(m) => "failed to parse template.json: "@ + m@,
        LoadError::Io(m) => "failed to read template.json: "@ + m@,
    }
}

impl LoadError {
    /// The message shown for this error.
    pub fn message(&self) -> (r: String)
        ensures
            r@ == load_error_message(*self),
    {
        match self {
            LoadError::MissingVersion => owned("missing template.json version (expected 1)"),
            LoadError::UnsupportedVersion(n) => {
                let mut r = owned("unsupported template.json version ");
                let d = usize_to_decimal(*n as usize);
                push_str(&mut r, d.as_str());
                push_str(&mut r, " (expected 1)");
                r
            },
            LoadError::Parse(m) => {
                let mut r = owned("failed to parse template.json: ");
                push_str(&mut r, m.as_str());
                r
            },
            LoadError::Io(m) => {
                let mut r = owned("failed to read template.json: ");
                push_str(&mut r, m.as_str());
                r
            },
        }
    }
}

/// The version check made before a template is parsed: only version 1 loads.
pub fn check_version(version: Option<u32>) -> (r: Result<(), LoadError>)
    ensures
        match version {
            None => r matches Err(LoadError::MissingVersion),
            Some(1) => r is Ok,
            Some(n) => r matches Err(LoadError::UnsupportedVersion(m)) && m == n,
        },
{
    match version {
        None => Err(LoadError::MissingVersion),
        Some(1) => Ok(()),
        Some(n) => Err(LoadError::UnsupportedVersion(n)),
    }
}

/// Why a template path could not be resolved.
#[derive(Debug)]
pub enum ResolveError {
    /// The directory holds no `template.json`.
    NoTemplateJson(String),
    /// Nothing exists at the path.
    NotFound(String),
}

/// The message of a resolve error.
pub open spec fn resolve_error_message(e: ResolveError) -> Seq<char> {
    match e {
        ResolveError::NoTemplateJson(p) => "no template.json in directory '"@ + p@ + "'"@,
        ResolveError::NotFound(p) => "template path not found: '"@ + p@ + "'"@,
    }
}

impl ResolveError {
    /// The message shown for this error.
    pub fn message(&self) -> (r: String)
        ensures
            r@ == resolve_error_message(*self),
    {
        match self {
            ResolveError::NoTemplateJson(p) => {
                let mut r = owned("no template.json in directory '");
                push_str(&mut r, p.as_str());
                push_str(&mut r, "'");
                r
            },
            ResolveError::NotFound(p) => {
                let mut r = owned("template path not found: '");
                push_str(&mut r, p.as_str());
                push_str(&mut r, "'");
                r
            },
        }
    }
}

/// The `template.json` inside a directory.
pub fn template_json_in(dir: &str) -> (r: String)
    ensures
        r@ == join_path(dir@, "template.json"@),
{
    join(dir, "template.json")
}

/// Resolving the path given on the command line, from what the file system
/// reports of it: a directory must hold a `template.json` (whose path is
/// returned), a file is returned as is, anything else is not found.
pub fn resolve_template_path(arg: &str, arg_is_dir: bool, json_is_file: bool, arg_is_file: bool) -> (r: Result<String, ResolveError>)
    ensures
        arg_is_dir && json_is_file ==> r is Ok && r->Ok_0@ == join_path(arg@, "template.json"@),
        arg_is_dir && !json_is_file ==> (r matches Err(ResolveError::NoTemplateJson(p)) && p@ == arg@),
        !arg_is_dir && arg_is_file ==> r is Ok && r->Ok_0@ == arg@,
        !arg_is_dir && !arg_is_file ==> (r matches Err(ResolveError::NotFound(p)) && p@ == arg@),
{
    if arg_is_dir {
        if json_is_file {
            return Ok(template_json_in(arg));
        }
        return Err(ResolveError::NoTemplateJson(owned(arg)));
    }
    if arg_is_file {
        return Ok(owned(arg));
    }
    Err(ResolveError::NotFound(owned(arg)))
}

/// The folder a template lives in: the parent of its `template.json`, or
/// `.` when that is empty or absent.
pub fn template_root(json_path: &str) -> (r: String)
    ensures
        r@ == match path_parent(json_path@) {
            Some(p) => if p.len() > 0 {
                p
            } else {
                "."@
            },
            None => "."@,
        },
{
    match parent(json_path) {
        Some(p) => if p.as_str().unicode_len() > 0 {
            p
        } else {
            owned(".")
        },
        None => owned("."),
    }
}

/// The backup copy of a file: its path with `.backup` appended.
pub fn backup_path_for(path: &str) -> (r: String)
    ensures
        r@ == path@ + ".backup"@,
{
    let mut s = owned(path);
    push_str(&mut s, ".backup");
    s
}

/// The temporary file a save writes before renaming it over `path`: the
/// file name (or `template.json`) with `.tmp` appended, next to `path` (or
/// in `.` when `path` has no parent folder).
pub fn temp_path_for(path: &str) -> (r: String)
    ensures
        ({
            let name = match path_file_name(path@) {
                Some(n) => n,
                None => "template.json"@,
            } + ".tmp"@;
            r@ == match path_parent(path@) {
                Some(p) => if p.len() > 0 {
                    join_path(p, name)
                } else {
                    join_path("."@, name)
                },
                None => join_path("."@, name),
            }
        }),
{
    let mut name = match file_name(path) {
        Some(n) => n,
        None => owned("template.json"),
    };
    push_str(&mut name, ".tmp");
    match parent(path) {
        Some(p) => if p.as_str().unicode_len() > 0 {
            join(p.as_str(), name.as_str())
        } else {
            join(".", name.as_str())
        },
        None => join(".", name.as_str()),
    }
}

/// Saved JSON text ends with exactly the newline it had, or one is added.
pub fn with_trailing_newline(json: String) -> (r: String)
    ensures
        r@ == if json@.len() > 0 && json@.last() == '\n' {
            json@
        } else {
            json@.push('\n')
        },
{
    let mut json = json;
    let n = json.as_str().unicode_len();
    if n == 0 || json.as_str().get_char(n - 1) != '\n' {
        push_char(&mut json, '\n');
    }
    json
}

} // verus!
