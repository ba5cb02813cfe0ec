//! Windows paths and system-safety policy.
//!
//! Paths are drive-letter paths such as `C:\Users\me`; `\` and `/` both
//! separate components. Two paths are compared as `std::path::Path` does on
//! Windows: the same drive (letters compare case-insensitively), then the
//! same root and components. Values that come from the environment
//! (`USERPROFILE`, `SystemDrive`, `SystemRoot`, ...) are passed in by the
//! caller.
use crate::paths::{path_eq, path_eq_spec, path_starts_with, path_starts_with_spec};
use crate::text::{chars_of, is_alpha, is_ascii_alphabetic, lower_char, push_char, push_str, to_ascii_lower};
use crate::protection::{PathStyle, ProtectedRoots};
use vstd::prelude::*;

verus! {

broadcast use vstd::string::group_string_axioms;

pub open spec fn is_sep(c: char) -> bool {
    c == '\\' || c == '/'
}

/// The path begins with a drive letter and a colon, such as `C:`.
pub open spec fn has_drive(p: Seq<char>) -> bool {
    p.len() >= 2 && p[1] == ':' && is_alpha(p[0])
}

/// The drive letter of a path, in lower case.
pub open spec fn drive_letter(p: Seq<char>) -> Option<char> {
    if has_drive(p) {
        Some(lower_char(p[0]))
    } else {
        None
    }
}

/// The path after its drive.
pub open spec fn after_drive(p: Seq<char>) -> Seq<char> {
    if has_drive(p) {
        p.skip(2)
    } else {
        p
    }
}

/// The text with every `\` written as `/`.
pub open spec fn slashed(p: Seq<char>) -> Seq<char> {
    p.map_values(|c: char| if c == '\\' { '/' } else { c })
}

/// `Path` equality on Windows.
pub open spec fn win_path_eq_spec(a: Seq<char>, b: Seq<char>) -> bool {
    drive_letter(a) == drive_letter(b) && path_eq_spec(slashed(after_drive(a)), slashed(after_drive(b)))
}

/// `Path::starts_with` on Windows.
pub open spec fn win_starts_with_spec(p: Seq<char>, base: Seq<char>) -> bool {
    drive_letter(p) == drive_letter(base) && path_starts_with_spec(
        slashed(after_drive(p)),
        slashed(after_drive(base)),
    )
}

/// `PathBuf::join` on Windows: a path with a drive replaces `base`; a path
/// with a root keeps only the drive of `base`; otherwise a `\` is inserted
/// unless `base` is empty, ends with a separator or is a bare drive.
pub open spec fn win_join_spec(base: Seq<char>, rel: Seq<char>) -> Seq<char> {
    if has_drive(rel) {
        rel
    } else if rel.len() > 0 && is_sep(rel[0]) {
        (if has_drive(base) {
            base.take(2)
        } else {
            Seq::empty()
        }) + rel
    } else if base.len() == 0 || is_sep(base.last()) || (has_drive(base) && base.len() == 2) {
        base + rel
    } else {
        base + seq!['\\'] + rel
    }
}

fn drive_of(p: &[char]) -> (r: bool)
    ensures
        r == has_drive(p@),
{
    p.len() >= 2 && p[1] == ':' && is_ascii_alphabetic(p[0])
}

/// The drive letter of `p` and the rest of it with `/` separators.
fn split_drive(p: &str) -> (r: (Option<char>, String))
    ensures
        r.0 == drive_letter(p@),
        r.1@ == slashed(after_drive(p@)),
{
    let pc = chars_of(p);
    let drive = drive_of(pc.as_slice());
    let start: usize = if drive {
        2
    } else {
        0
    };
    let letter = if drive {
        Some(to_ascii_lower(pc[0]))
    } else {
        None
    };
    let ghost rest = after_drive(p@);
    assert(rest =~= pc@.skip(start as int));
    let mut out = String::new();
    let mut i: usize = start;
    while i < pc.len()
        invariant
            start <= i <= pc.len(),
            pc@ == p@,
            rest =~= pc@.skip(start as int),
            out@ =~= slashed(rest.take(i - start)),
        decreases pc.len() - i,
    {
        let c = pc[i];
        assert(rest.take(i + 1 - start) =~= rest.take(i - start).push(c));
        if c == '\\' {
            push_char(&mut out, '/');
        } else {
            push_char(&mut out, c);
        }
        i = i + 1;
    }
    assert(rest.take(pc.len() - start) =~= rest);
    (letter, out)
}

/// `Path` equality on Windows; see [`win_path_eq_spec`].
pub fn win_path_eq(a: &str, b: &str) -> (r: bool)
    ensures
        r == win_path_eq_spec(a@, b@),
{
    let (da, ra) = split_drive(a);
    let (db, rb) = split_drive(b);
    let same_drive = match (da, db) {
        (Some(x), Some(y)) => x == y,
        (None, None) => true,
        _ => false,
    };
    same_drive && path_eq(ra.as_str(), rb.as_str())
}

/// `Path::starts_with` on Windows; see [`win_starts_with_spec`].
pub fn win_starts_with(p: &str, base: &str) -> (r: bool)
    ensures
        r == win_starts_with_spec(p@, base@),
{
    let (dp, rp) = split_drive(p);
    let (db, rb) = split_drive(base);
    let same_drive = match (dp, db) {
        (Some(x), Some(y)) => x == y,
        (None, None) => true,
        _ => false,
    };
    same_drive && path_starts_with(rp.as_str(), rb.as_str())
}

/// `PathBuf::join` on Windows; see [`win_join_spec`].
pub fn win_join(base: &str, rel: &str) -> (out: String)
    ensures
        out@ == win_join_spec(base@, rel@),
{
    let bc = chars_of(base);
    let rc = chars_of(rel);
    if drive_of(rc.as_slice()) {
        return rel.to_string();
    }
    if rc.len() > 0 && (rc[0] == '\\' || rc[0] == '/') {
        let mut out = String::new();
        if drive_of(bc.as_slice()) {
            push_char(&mut out, bc[0]);
            push_char(&mut out, bc[1]);
            assert(out@ =~= base@.take(2));
        }
        push_str(&mut out, rel);
        return out;
    }
    let mut out = base.to_string();
    let bare_drive = drive_of(bc.as_slice()) && bc.len() == 2;
    if !(bc.len() == 0 || bc[bc.len() - 1] == '\\' || bc[bc.len() - 1] == '/' || bare_drive) {
        push_char(&mut out, '\\');
    }
    push_str(&mut out, rel);
    out
}

/// The home directory: `USERPROFILE` when it is set, otherwise
/// `HOMEDRIVE` joined with `HOMEPATH` when both are.
pub open spec fn home_dir_spec(
    user_profile: Option<Seq<char>>,
    home_drive: Option<Seq<char>>,
    home_path: Option<Seq<char>>,
) -> Option<Seq<char>> {
    match user_profile {
        Some(p) => Some(p),
        None => match (home_drive, home_path) {
            (Some(d), Some(p)) => Some(win_join_spec(d, p)),
            _ => None,
        },
    }
}

pub fn home_dir(user_profile: Option<&str>, home_drive: Option<&str>, home_path: Option<&str>) -> (r:
    Option<String>)
    ensures
        match r {
            Some(h) => home_dir_spec(
                crate::scanner::opt_str_view(user_profile),
                crate::scanner::opt_str_view(home_drive),
                crate::scanner::opt_str_view(home_path),
            ) == Some(h@),
            None => home_dir_spec(
                crate::scanner::opt_str_view(user_profile),
                crate::scanner::opt_str_view(home_drive),
                crate::scanner::opt_str_view(home_path),
            ) is None,
        },
{
    match user_profile {
        Some(p) => Some(p.to_string()),
        None => match (home_drive, home_path) {
            (Some(d), Some(p)) => Some(win_join(d, p)),
            _ => None,
        },
    }
}

/// `home` joined with `relative`, when the home directory is known.
pub fn home_path(home: Option<&str>, relative: &str) -> (r: Option<String>)
    ensures
        match home {
            Some(h) => r matches Some(p) && p@ == win_join_spec(h@, relative@),
            None => r is None,
        },
{
    match home {
        Some(h) => Some(win_join(h, relative)),
        None => None,
    }
}

/// The system drive's root: `SystemDrive` with a `\` added unless it
/// already ends with a separator, or `C:\` when it is not set.
pub open spec fn default_scan_root_spec(system_drive: Option<Seq<char>>) -> Seq<char> {
    match system_drive {
        Some(d) => if d.len() > 0 && is_sep(d.last()) {
            d
        } else {
            d + seq!['\\']
        },
        None => seq!['C', ':', '\\'],
    }
}

pub fn default_scan_root(system_drive: Option<&str>) -> (r: String)
    ensures
        r@ == default_scan_root_spec(crate::scanner::opt_str_view(system_drive)),
{
    match system_drive {
        Some(d) => {
            let dc = chars_of(d);
            let mut r = d.to_string();
            if !(dc.len() > 0 && (dc[dc.len() - 1] == '\\' || dc[dc.len() - 1] == '/')) {
                push_char(&mut r, '\\');
            }
            r
        },
        None => {
            let mut r = String::new();
            push_char(&mut r, 'C');
            push_char(&mut r, ':');
            push_char(&mut r, '\\');
            assert(r@ =~= seq!['C', ':', '\\']);
            r
        },
    }
}

/// Whether `path` is the system drive's root.
pub fn is_default_scan_root(path: &str, system_drive: Option<&str>) -> (r: bool)
    ensures
        r == win_path_eq_spec(path@, default_scan_root_spec(crate::scanner::opt_str_view(system_drive))),
{
    let root = default_scan_root(system_drive);
    win_path_eq(path, root.as_str())
}

/// The system folders (`SystemRoot`, `ProgramFiles`, `ProgramFiles(x86)`,
/// `ProgramData`) that are set, in that order; the caller keeps those that
/// exist.
pub fn excluded_root_paths(
    system_root: Option<&str>,
    program_files: Option<&str>,
    program_files_x86: Option<&str>,
    program_data: Option<&str>,
) -> (out: Vec<String>)
    ensures
        out.deep_view() == seq![
            crate::scanner::opt_str_view(system_root),
            crate::scanner::opt_str_view(program_files),
            crate::scanner::opt_str_view(program_files_x86),
            crate::scanner::opt_str_view(program_data),
        ].filter(|o: Option<Seq<char>>| o is Some).map_values(|o: Option<Seq<char>>| o->0),
{
    let ghost all = seq![
        crate::scanner::opt_str_view(system_root),
        crate::scanner::opt_str_view(program_files),
        crate::scanner::opt_str_view(program_files_x86),
        crate::scanner::opt_str_view(program_data),
    ];
    let ghost pred = |o: Option<Seq<char>>| o is Some;
    let mut out: Vec<String> = Vec::new();
    proof {
        all.take(0).lemma_filter_push(all[0], pred);
        assert(all.take(1) =~= all.take(0).push(all[0]));
    }
    if let Some(p) = system_root {
        out.push(p.to_string());
    }
    assert(out.deep_view() =~= all.take(1).filter(pred).map_values(|o: Option<Seq<char>>| o->0));
    proof {
        all.take(1).lemma_filter_push(all[1], pred);
        assert(all.take(2) =~= all.take(1).push(all[1]));
    }
    if let Some(p) = program_files {
        out.push(p.to_string());
    }
    assert(out.deep_view() =~= all.take(2).filter(pred).map_values(|o: Option<Seq<char>>| o->0));
    proof {
        all.take(2).lemma_filter_push(all[2], pred);
        assert(all.take(3) =~= all.take(2).push(all[2]));
    }
    if let Some(p) = program_files_x86 {
        out.push(p.to_string());
    }
    assert(out.deep_view() =~= all.take(3).filter(pred).map_values(|o: Option<Seq<char>>| o->0));
    proof {
        all.take(3).lemma_filter_push(all[3], pred);
        assert(all.take(4) =~= all.take(3).push(all[3]));
    }
    if let Some(p) = program_data {
        out.push(p.to_string());
    }
    assert(all.take(4) =~= all);
    assert(out.deep_view() =~= all.filter(pred).map_values(|o: Option<Seq<char>>| o->0));
    out
}

/// Whether a path lies in (or is) one of the protected system folders.
pub fn is_protected_path(path: &str, protected_roots: &Vec<String>) -> (r: bool)
    ensures
        r == exists|j: int|
            0 <= j < protected_roots@.len() && win_starts_with_spec(path@, #[trigger] protected_roots@[j]@),
{
    let mut i: usize = 0;
    while i < protected_roots.len()
        invariant
            i <= protected_roots.len(),
            forall|j: int| 0 <= j < i ==> !win_starts_with_spec(path@, #[trigger] protected_roots@[j]@),
        decreases protected_roots.len() - i,
    {
        if win_starts_with(path, protected_roots[i].as_str()) {
            return true;
        }
        i = i + 1;
    }
    false
}

/// The protected trees of Windows: the system folders that exist (see
/// [`excluded_root_paths`]), compared as Windows paths.
pub fn protected_table(roots: Vec<String>) -> (t: ProtectedRoots)
    ensures
        t.style == PathStyle::Windows,
        t.roots == roots,
{
    ProtectedRoots { style: PathStyle::Windows, roots }
}

/// There is no read-only report on Windows.
pub fn read_only_report_paths() -> (out: Vec<(String, &'static str)>)
    ensures
        out@.len() == 0,
{
    Vec::new()
}

pub fn read_only_advice() -> (r: &'static str)
    ensures
        r@ == "Read-only Windows system report. cleanrs will never delete protected system paths."@,
{
    "Read-only Windows system report. cleanrs will never delete protected system paths."
}

} // verus!
