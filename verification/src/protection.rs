//! The protected system trees of the platform the tool runs on.
//!
//! Each platform's configuration builds its table: macOS protects its fixed
//! system and mount trees, Windows the system folders its environment names,
//! and other platforms nothing. Every safety decision takes the table as an
//! input, so the same gate serves each platform.
use crate::paths::{path_starts_with, path_starts_with_spec};
use crate::platform::windows::config::{win_starts_with, win_starts_with_spec};
use vstd::prelude::*;

verus! {

/// How the paths of a table are compared.
#[derive(Clone, Copy, Debug, PartialEq, Eq)]
pub enum PathStyle {
    /// `/`-separated paths, compared as `std::path::Path` does on Unix.
    Posix,
    /// Drive-letter paths, compared as `std::path::Path` does on Windows.
    Windows,
}

/// The protected trees: a path is protected when it is one of the roots or
/// lies below one of them.
pub struct ProtectedRoots {
    pub style: PathStyle,
    pub roots: Vec<String>,
}

/// Whether `path` starts with `base`, compared in `style`.
pub open spec fn starts_with_in(style: PathStyle, path: Seq<char>, base: Seq<char>) -> bool {
    match style {
        PathStyle::Posix => path_starts_with_spec(path, base),
        PathStyle::Windows => win_starts_with_spec(path, base),
    }
}

/// Whether `path` lies in (or is) one of the protected trees of `t`.
pub open spec fn protected_in(t: ProtectedRoots, path: Seq<char>) -> bool {
    exists|j: int| 0 <= j < t.roots@.len() && starts_with_in(t.style, path, #[trigger] t.roots@[j]@)
}

/// Whether `path` lies in (or is) one of the protected trees of `t`.
pub fn is_protected_in(t: &ProtectedRoots, path: &str) -> (r: bool)
    ensures
        r == protected_in(*t, path@),
{
    let mut i: usize = 0;
    while i < t.roots.len()
        invariant
            i <= t.roots@.len(),
            forall|j: int| 0 <= j < i ==> !starts_with_in(t.style, path@, #[trigger] t.roots@[j]@),
        decreases t.roots.len() - i,
    {
        let hit = match t.style {
            PathStyle::Posix => path_starts_with(path, t.roots[i].as_str()),
            PathStyle::Windows => win_starts_with(path, t.roots[i].as_str()),
        };
        if hit {
            return true;
        }
        i = i + 1;
    }
    false
}

} // verus!
