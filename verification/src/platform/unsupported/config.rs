//! Policy for platforms without a dedicated system-safety configuration.
use crate::paths::{path_eq, path_eq_spec, path_join, path_join_spec};
use crate::protection::{PathStyle, ProtectedRoots};
use vstd::prelude::*;

verus! {

broadcast use vstd::string::group_string_axioms;

/// `home` joined with `relative`, when the home directory is known.
pub fn home_path(home: Option<&str>, relative: &str) -> (r: Option<String>)
    ensures
        match home {
            Some(h) => r matches Some(p) && p@ == path_join_spec(h@, relative@),
            None => r is None,
        },
{
    match home {
        Some(h) => Some(path_join(h, relative)),
        None => None,
    }
}

pub fn default_scan_root() -> (r: &'static str)
    ensures
        r@ == "/"@,
{
    "/"
}

pub fn is_default_scan_root(path: &str) -> (r: bool)
    ensures
        r == path_eq_spec(path@, "/"@),
{
    path_eq(path, "/")
}

/// Nothing below the root is skipped.
pub fn excluded_root_paths(root: &str) -> (out: Vec<String>)
    ensures
        out@.len() == 0,
{
    Vec::new()
}

/// No path is protected.
pub fn is_protected_path(path: &str) -> (r: bool)
    ensures
        !r,
{
    false
}

/// Nothing is protected on this platform.
pub fn protected_table() -> (t: ProtectedRoots)
    ensures
        t.style == PathStyle::Posix,
        t.roots@.len() == 0,
{
    ProtectedRoots { style: PathStyle::Posix, roots: Vec::new() }
}

/// There is no read-only report.
pub fn read_only_report_paths() -> (out: Vec<(String, &'static str)>)
    ensures
        out@.len() == 0,
{
    Vec::new()
}

pub fn read_only_advice() -> (r: &'static str)
    ensures
        r@ == "No platform-specific read-only system paths are configured."@,
{
    "No platform-specific read-only system paths are configured."
}

} // verus!
