//! macOS paths and system-safety policy.
use crate::paths::{
    is_child_of, is_child_of_spec, path_eq, path_eq_spec, path_join, path_join_spec,
    path_starts_with, path_starts_with_spec,
};
use crate::protection::{protected_in, PathStyle, ProtectedRoots};
use vstd::prelude::*;

verus! {

broadcast use vstd::string::group_string_axioms;

/// The user folders that a home inventory always keeps.
pub open spec fn standard_home_directories_spec() -> Seq<Seq<char>> {
    seq!["Desktop"@, "Documents"@, "Downloads"@]
}

pub fn standard_home_directories() -> (out: Vec<&'static str>)
    ensures
        out@.map_values(|s: &str| s@) == standard_home_directories_spec(),
{
    let out = vec!["Desktop", "Documents", "Downloads"];
    assert(out@.map_values(|s: &str| s@) =~= standard_home_directories_spec());
    out
}

/// `home` joined with `relative`, when the home directory is known.
pub fn home_path(home: Option<&str>, relative: &str) -> (r: Option<String>)
    ensures
        match home {
            Some(h) => r matches Some(p) && p@ == path_join_spec(h@, relative@),
            None => r is None,
        },
{
    match home {
        Some(h) => Some(path_join(h, relative)),
        None => None,
    }
}

/// The whole-disk inventory starts at the file-system root.
pub fn default_scan_root() -> (r: &'static str)
    ensures
        r@ == "/"@,
{
    "/"
}

pub fn is_default_scan_root(path: &str) -> (r: bool)
    ensures
        r == path_eq_spec(path@, "/"@),
{
    path_eq(path, "/")
}

/// The names of the system-managed entries below the root that a whole-disk
/// scan does not traverse.
pub open spec fn excluded_root_names() -> Seq<Seq<char>> {
    seq![
        "System"@,
        "Library"@,
        "Volumes"@,
        "private"@,
        "dev"@,
        "cores"@,
        "usr"@,
        "bin"@,
        "sbin"@,
    ]
}

/// The system-managed paths below `root` that a whole-disk scan skips and
/// reports read-only (those of them that exist).
pub fn excluded_root_paths(root: &str) -> (out: Vec<String>)
    ensures
        out.deep_view() == excluded_root_names().map_values(|n: Seq<char>| path_join_spec(root@, n)),
{
    let names = vec!["System", "Library", "Volumes", "private", "dev", "cores", "usr", "bin", "sbin"];
    assert(names@.map_values(|s: &str| s@) =~= excluded_root_names());
    let mut out: Vec<String> = Vec::new();
    for i in 0..names.len()
        invariant
            names@.map_values(|s: &str| s@) == excluded_root_names(),
            out.deep_view() =~= excluded_root_names().take(i as int).map_values(
                |n: Seq<char>| path_join_spec(root@, n),
            ),
    {
        let ghost before = out.deep_view();
        assert(names@.map_values(|s: &str| s@)[i as int] == names@[i as int]@);
        out.push(path_join(root, names[i]));
        assert(excluded_root_names().take(i + 1) =~= excluded_root_names().take(i as int).push(
            excluded_root_names()[i as int],
        ));
        assert(out.deep_view() =~= before.push(path_join_spec(root@, excluded_root_names()[i as int])));
    }
    assert(excluded_root_names().take(9) =~= excluded_root_names());
    out
}

/// The paths that the whole-disk inventory lists only by size: the
/// excluded root folders that exist (`existing`), where, for the root `/`,
/// `/Volumes` gives way to the volumes mounted in it (`mounted`) when there
/// are any.
pub open spec fn readonly_inventory_spec(root: Seq<char>, existing: Seq<Seq<char>>, mounted: Seq<Seq<char>>) -> Seq<Seq<char>> {
    if path_eq_spec(root, "/"@) && mounted.len() > 0 {
        existing.filter(|p: Seq<char>| !path_eq_spec(p, path_join_spec(root, "Volumes"@))) + mounted
    } else {
        existing
    }
}

pub fn readonly_inventory_paths(root: &str, existing: Vec<String>, mounted: Vec<String>) -> (out: Vec<String>)
    ensures
        out.deep_view() == readonly_inventory_spec(root@, existing.deep_view(), mounted.deep_view()),
{
    if !path_eq(root, "/") || mounted.len() == 0 {
        return existing;
    }
    let volumes = path_join(root, "Volumes");
    let ghost ev = existing.deep_view();
    let ghost keep = |p: Seq<char>| !path_eq_spec(p, volumes@);
    let mut out: Vec<String> = Vec::new();
    for i in 0..existing.len()
        invariant
            ev == existing.deep_view(),
            volumes@ == path_join_spec(root@, "Volumes"@),
            keep == (|p: Seq<char>| !path_eq_spec(p, volumes@)),
            out.deep_view() == ev.take(i as int).filter(keep),
    {
        let ghost before = out.deep_view();
        proof {
            assert(ev.take(i + 1).drop_last() =~= ev.take(i as int));
            reveal_with_fuel(Seq::<Seq<char>>::filter, 1);
        }
        if !path_eq(existing[i].as_str(), volumes.as_str()) {
            out.push(existing[i].clone());
            assert(out.deep_view() =~= before.push(ev[i as int]));
        }
        assert(ev.take(i + 1).filter(keep) == if keep(ev[i as int]) {
            ev.take(i as int).filter(keep).push(ev[i as int])
        } else {
            ev.take(i as int).filter(keep)
        });
    }
    assert(ev.take(existing.len() as int) =~= ev);
    let ghost head = out.deep_view();
    for j in 0..mounted.len()
        invariant
            out.deep_view() == head + mounted.deep_view().take(j as int),
    {
        let ghost before = out.deep_view();
        out.push(mounted[j].clone());
        assert(out.deep_view() =~= before.push(mounted.deep_view()[j as int]));
        assert(mounted.deep_view().take(j + 1) =~= mounted.deep_view().take(j as int).push(mounted.deep_view()[j as int]));
    }
    assert(mounted.deep_view().take(mounted.len() as int) =~= mounted.deep_view());
    out
}

/// A mounted volume: a direct child of `/Volumes`.
pub open spec fn is_volume_root_spec(path: Seq<char>) -> bool {
    is_child_of_spec(path, "/Volumes"@) && !path_eq_spec(path, "/Volumes"@)
}

pub fn is_volume_root(path: &str) -> (r: bool)
    ensures
        r == is_volume_root_spec(path@),
{
    is_child_of(path, "/Volumes") && !path_eq(path, "/Volumes")
}

/// The system and mount trees that are never cleaned.
pub open spec fn protected_roots() -> Seq<Seq<char>> {
    seq![
        "/System"@,
        "/Library"@,
        "/Volumes"@,
        "/private"@,
        "/dev"@,
        "/cores"@,
        "/usr"@,
        "/bin"@,
        "/sbin"@,
    ]
}

/// A path is protected when it is one of the protected roots or lies below
/// one of them.
pub open spec fn is_protected_spec(path: Seq<char>) -> bool {
    exists|i: int| 0 <= i < protected_roots().len() && path_starts_with_spec(path, #[trigger] protected_roots()[i])
}

pub fn is_protected_path(path: &str) -> (r: bool)
    ensures
        r == is_protected_spec(path@),
{
    let roots = vec!["/System", "/Library", "/Volumes", "/private", "/dev", "/cores", "/usr", "/bin", "/sbin"];
    assert(roots@.map_values(|s: &str| s@) =~= protected_roots());
    let mut i: usize = 0;
    while i < roots.len()
        invariant
            i <= roots.len(),
            roots@.map_values(|s: &str| s@) == protected_roots(),
            forall|j: int| 0 <= j < i ==> !path_starts_with_spec(path@, #[trigger] protected_roots()[j]),
        decreases roots.len() - i,
    {
        assert(roots@.map_values(|s: &str| s@)[i as int] == roots@[i as int]@);
        if path_starts_with(path, roots[i]) {
            assert(path_starts_with_spec(path@, protected_roots()[i as int]));
            return true;
        }
        i = i + 1;
    }
    false
}

/// The protected trees of macOS, [`protected_roots`], compared as Unix
/// paths.
pub fn protected_table() -> (t: ProtectedRoots)
    ensures
        t.style == PathStyle::Posix,
        t.roots@.map_values(|s: String| s@) == protected_roots(),
        forall|p: Seq<char>| #[trigger] protected_in(t, p) == is_protected_spec(p),
{
    let names = vec!["/System", "/Library", "/Volumes", "/private", "/dev", "/cores", "/usr", "/bin", "/sbin"];
    assert(names@.map_values(|s: &str| s@) =~= protected_roots());
    let mut roots: Vec<String> = Vec::new();
    for i in 0..names.len()
        invariant
            names@.map_values(|s: &str| s@) == protected_roots(),
            roots@.map_values(|s: String| s@) =~= protected_roots().take(i as int),
    {
        assert(names@.map_values(|s: &str| s@)[i as int] == names@[i as int]@);
        roots.push(names[i].to_string());
        assert(protected_roots().take(i + 1) =~= protected_roots().take(i as int).push(protected_roots()[i as int]));
    }
    assert(protected_roots().take(9) =~= protected_roots());
    let t = ProtectedRoots { style: PathStyle::Posix, roots };
    assert forall|p: Seq<char>| #[trigger] protected_in(t, p) == is_protected_spec(p) by {
        if protected_in(t, p) {
            let j = choose|j: int| 0 <= j < t.roots@.len() && crate::protection::starts_with_in(t.style, p, #[trigger] t.roots@[j]@);
            assert(t.roots@.map_values(|s: String| s@)[j] == t.roots@[j]@);
        }
        if is_protected_spec(p) {
            let j = choose|j: int| 0 <= j < protected_roots().len() && path_starts_with_spec(p, #[trigger] protected_roots()[j]);
            assert(t.roots@.map_values(|s: String| s@)[j] == t.roots@[j]@);
        }
    }
    t
}

/// The fixed macOS report locations, then each entry found under
/// `/System/Volumes`.
pub open spec fn read_only_report_spec(volume_entries: Seq<Seq<char>>) -> Seq<(Seq<char>, Seq<char>)> {
    seq![
        ("/Library/Updates"@, "macOS update leftovers"@),
        ("/macOS Install Data"@, "macOS installer data"@),
    ] + volume_entries.map_values(|p: Seq<char>| (p, "System volume (read-only)"@))
}

/// The read-only report paths with their descriptions; `volume_entries` are
/// the entries of `/System/Volumes` as listed by the caller.
pub fn read_only_report_paths(volume_entries: &Vec<String>) -> (out: Vec<(String, &'static str)>)
    ensures
        out@.map_values(|e: (String, &'static str)| (e.0@, e.1@)) == read_only_report_spec(
            volume_entries.deep_view(),
        ),
{
    let mut out: Vec<(String, &'static str)> = Vec::new();
    out.push(("/Library/Updates".to_string(), "macOS update leftovers"));
    out.push(("/macOS Install Data".to_string(), "macOS installer data"));
    let ghost fixed = seq![
        ("/Library/Updates"@, "macOS update leftovers"@),
        ("/macOS Install Data"@, "macOS installer data"@),
    ];
    assert(out@.map_values(|e: (String, &'static str)| (e.0@, e.1@)) =~= fixed);
    for i in 0..volume_entries.len()
        invariant
            out@.map_values(|e: (String, &'static str)| (e.0@, e.1@)) =~= fixed
                + volume_entries.deep_view().take(i as int).map_values(
                |p: Seq<char>| (p, "System volume (read-only)"@),
            ),
    {
        let ghost before = out@;
        out.push((volume_entries[i].clone(), "System volume (read-only)"));
        assert(out@ =~= before.push((volume_entries@[i as int], "System volume (read-only)")));
        assert(volume_entries.deep_view()[i as int] == volume_entries@[i as int]@);
        assert(out@.map_values(|e: (String, &'static str)| (e.0@, e.1@)) =~= before.map_values(
            |e: (String, &'static str)| (e.0@, e.1@),
        ).push((volume_entries.deep_view()[i as int], "System volume (read-only)"@)));
        assert(volume_entries.deep_view().take(i + 1) =~= volume_entries.deep_view().take(
            i as int,
        ).push(volume_entries.deep_view()[i as int]));
    }
    assert(volume_entries.deep_view().take(volume_entries.len() as int)
        =~= volume_entries.deep_view());
    out
}

pub fn read_only_advice() -> (r: &'static str)
    ensures
        r@ == "Read-only macOS system report. Use macOS system tools; cleanrs will never delete these paths."@,
{
    "Read-only macOS system report. Use macOS system tools; cleanrs will never delete these paths."
}

} // verus!
