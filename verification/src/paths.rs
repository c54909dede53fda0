//! Paths as text: joining components, the configuration directory, the
//! theme and template library locations, and what `std::path` reports of a
//! path's last component and parent.
use vstd::prelude::*;

use crate::text::{owned, push_str};

verus! {

/// `base` with the relative component `comp` appended, a `/` separating them
/// unless `base` is empty or already ends in one; an absolute `comp`
/// replaces `base` (`PathBuf::push` on Unix).
pub open spec fn join_path(base: Seq<char>, comp: Seq<char>) -> Seq<char> {
    if comp.len() > 0 && comp[0] == '/' {
        comp
    } else if base.len() == 0 || base.last() == '/' {
        base + comp
    } else {
        base + seq!['/'] + comp
    }
}

/// Appends a path component, as `Path::join` does on Unix.
pub fn join(base: &str, comp: &str) -> (r: String)
    ensures
        r@ == join_path(base@, comp@),
{
    let nc = comp.unicode_len();
    if nc > 0 && comp.get_char(0) == '/' {
        return owned(comp);
    }
    let mut r = owned(base);
    let nb = base.unicode_len();
    if nb > 0 && base.get_char(nb - 1) != '/' {
        crate::text::push_char(&mut r, '/');
    }
    push_str(&mut r, comp);
    r
}

/// The last component of a path as `std::path::Path::file_name` reports it.
pub uninterp spec fn path_file_name(p: Seq<char>) -> Option<Seq<char>>;

/// The parent of a path as `std::path::Path::parent` reports it.
pub uninterp spec fn path_parent(p: Seq<char>) -> Option<Seq<char>>;

/// `std::path::Path::file_name`. Its result (the final normal component, or
/// none when the path ends in `..`, is a root, or is empty) depends on the
/// path's text alone; that is all this contract claims, by naming it
/// [`path_file_name`].
#[verifier::external_body]
pub(crate) fn file_name(p: &str) -> (r: Option<String>)
    ensures
        match r {
            Some(s) => path_file_name(p@) == Some(s@),
            None => path_file_name(p@) is None,
        },
{
    std::path::Path::new(p).file_name().map(|s| s.to_string_lossy().into_owned())
}

/// `std::path::Path::parent`. Its result (the path without its final
/// component; empty for a relative one-component path; none for a root or
/// the empty path) depends on the path's text alone; that is all this
/// contract claims, by naming it [`path_parent`].
#[verifier::external_body]
pub(crate) fn parent(p: &str) -> (r: Option<String>)
    ensures
        match r {
            Some(s) => path_parent(p@) == Some(s@),
            None => path_parent(p@) is None,
        },
{
    std::path::Path::new(p).parent().map(|q| q.to_string_lossy().into_owned())
}

/// The configuration directory: `$XDG_CONFIG_HOME/ldnddev` when that is set
/// and not empty, else `$HOME/.config/ldnddev` (an unset home reads as empty).
pub open spec fn config_dir_view(xdg: Option<Seq<char>>, home: Option<Seq<char>>) -> Seq<char> {
    match xdg {
        Some(x) if x.len() > 0 => join_path(x, "ldnddev"@),
        _ => join_path(
            join_path(
                match home {
                    Some(h) => h,
                    None => Seq::empty(),
                },
                ".config"@,
            ),
            "ldnddev"@,
        ),
    }
}

/// The configuration directory for the given `XDG_CONFIG_HOME` and `HOME`.
pub fn config_dir_from(xdg: Option<&str>, home: Option<&str>) -> (r: String)
    ensures
        r@ == config_dir_view(
            match xdg {
                Some(x) => Some(x@),
                None => None,
            },
            match home {
                Some(h) => Some(h@),
                None => None,
            },
        ),
{
    match xdg {
        Some(x) => if x.unicode_len() > 0 {
            return join(x, "ldnddev");
        },
        None => {},
    }
    let h = match home {
        Some(h) => h,
        None => {
            proof {
                reveal_strlit("");
            }
            ""
        },
    };
    let c = join(h, ".config");
    join(c.as_str(), "ldnddev")
}

/// The global theme file inside the configuration directory.
pub fn theme_global(config_dir: &str) -> (r: String)
    ensures
        r@ == join_path(config_dir@, "dd_emailforge_theme.yml"@),
{
    join(config_dir, "dd_emailforge_theme.yml")
}

/// The template library inside the configuration directory.
pub fn library_dir(config_dir: &str) -> (r: String)
    ensures
        r@ == join_path(join_path(config_dir@, "dd_emailforge"@), "templates"@),
{
    let d = join(config_dir, "dd_emailforge");
    join(d.as_str(), "templates")
}

/// The theme files to try, first match wins: the local file, then the
/// global one when a configuration directory can be named.
pub fn theme_candidates_from(local: &str, xdg: Option<&str>, home: Option<&str>) -> (r: Vec<(String, &'static str)>)
    ensures
        r@.len() >= 1,
        r@[0].0@ == local@,
        r@[0].1@ == "local"@,
        ({
            let named = match xdg {
                Some(x) => x@.len() > 0,
                None => false,
            } || home is Some;
            if named {
                &&& r@.len() == 2
                &&& r@[1].0@ == join_path(
                    config_dir_view(
                        match xdg {
                            Some(x) => Some(x@),
                            None => None,
                        },
                        match home {
                            Some(h) => Some(h@),
                            None => None,
                        },
                    ),
                    "dd_emailforge_theme.yml"@,
                )
                &&& r@[1].1@ == "global"@
            } else {
                r@.len() == 1
            }
        }),
{
    let mut c: Vec<(String, &'static str)> = Vec::new();
    c.push((owned(local), "local"));
    let named = match xdg {
        Some(x) => x.unicode_len() > 0,
        None => false,
    } || home.is_some();
    if named {
        let dir = config_dir_from(xdg, home);
        c.push((theme_global(dir.as_str()), "global"));
    }
    c
}

/// A set, non-empty `XDG_CONFIG_HOME` wins and `HOME` is then not read;
/// otherwise the directory is `.config/ldnddev` under the home.
pub proof fn law_config_dir_choice(x: Seq<char>, home: Option<Seq<char>>, other_home: Option<Seq<char>>, h: Seq<char>)
    ensures
        x.len() > 0 ==> config_dir_view(Some(x), home) == join_path(x, "ldnddev"@)
            && config_dir_view(Some(x), home) == config_dir_view(Some(x), other_home),
        config_dir_view(None, Some(h)) == join_path(join_path(h, ".config"@), "ldnddev"@),
        config_dir_view(Some(Seq::empty()), Some(h)) == config_dir_view(None, Some(h)),
{
}

} // verus!
