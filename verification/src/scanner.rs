//! Disk inventory policy: which paths are protected, which folders and files
//! receive a cleanup suggestion, and how scan results are ordered.
//!
//! Sizes, directory listings and file types are measured by the caller; the
//! functions here decide what those measurements mean. A suggestion is never
//! a delete authorisation by itself.
use crate::paths::{
    file_name, file_name_spec, path_eq, path_eq_spec, path_join, path_join_spec,
    path_starts_with, path_starts_with_spec,
};
use crate::protection::{is_protected_in, protected_in, ProtectedRoots};
use crate::path_order::{path_less, path_lt, path_order_is_strict_weak};
use crate::sort::{stable_sort, stable_sorted, Ordered};
use crate::text::{chars_eq_str, lemma_chars_deep_view, push_str, starts_with_seq, starts_with_str};
use vstd::prelude::*;

verus! {

broadcast use vstd::string::group_string_axioms;

/// Space of a mounted volume as the file system reports it.
#[derive(Clone, Copy, Debug)]
pub struct VolumeUsage {
    pub total_bytes: u64,
    pub available_bytes: u64,
}

impl VolumeUsage {
    /// Bytes in use: total minus available, never below zero.
    pub fn used_bytes(&self) -> (r: u64)
        ensures
            r == if self.total_bytes >= self.available_bytes {
                (self.total_bytes - self.available_bytes) as u64
            } else {
                0u64
            },
    {
        self.total_bytes.saturating_sub(self.available_bytes)
    }
}

/// Whether a path belongs to a protected system or mount tree of the
/// platform's table `protected`.
///
/// User-owned paths such as `~/Library/Developer/CoreSimulator` are not
/// protected by the macOS table.
pub fn is_protected_path(path: &str, protected: &ProtectedRoots) -> (r: bool)
    ensures
        r == protected_in(*protected, path@),
{
    is_protected_in(protected, path)
}

/// A cleanup hint for an explorer entry.
#[derive(Clone, Debug)]
pub struct DirectorySuggestion {
    pub reason: String,
    /// Whether the explorer may move the entry to Trash after an explicit
    /// confirmation. Sensitive data stays suggestion-only.
    pub can_delete: bool,
}

pub open spec fn suggestion_view(s: Option<DirectorySuggestion>) -> Option<(Seq<char>, bool)> {
    match s {
        Some(s) => Some((s.reason@, s.can_delete)),
        None => None,
    }
}

/// The user folders whose contents may be trashed item by item.
pub open spec fn user_areas() -> Seq<Seq<char>> {
    seq!["Downloads"@, "Desktop"@, "Documents"@]
}

pub open spec fn strictly_inside(path: Seq<char>, root: Seq<char>) -> bool {
    path_starts_with_spec(path, root) && !path_eq_spec(path, root)
}

/// The first of the user areas of `home` that strictly contains `path`.
pub open spec fn user_file_area_spec(path: Seq<char>, home: Option<Seq<char>>) -> Option<Seq<char>> {
    match home {
        None => None,
        Some(h) => if strictly_inside(path, path_join_spec(h, user_areas()[0])) {
            Some(user_areas()[0])
        } else if strictly_inside(path, path_join_spec(h, user_areas()[1])) {
            Some(user_areas()[1])
        } else if strictly_inside(path, path_join_spec(h, user_areas()[2])) {
            Some(user_areas()[2])
        } else {
            None
        },
    }
}

pub open spec fn opt_str_view(o: Option<&str>) -> Option<Seq<char>> {
    match o {
        Some(s) => Some(s@),
        None => None,
    }
}

fn inside(path: &str, home: &str, area: &str) -> (r: bool)
    ensures
        r == strictly_inside(path@, path_join_spec(home@, area@)),
{
    let root = path_join(home, area);
    path_starts_with(path, root.as_str()) && !path_eq(path, root.as_str())
}

/// Which of `~/Downloads`, `~/Desktop` or `~/Documents` an item lies in.
pub fn user_file_area(path: &str, home: Option<&str>) -> (r: Option<&'static str>)
    ensures
        opt_str_view(r) == user_file_area_spec(path@, opt_str_view(home)),
{
    match home {
        None => None,
        Some(h) => {
            if inside(path, h, "Downloads") {
                Some("Downloads")
            } else if inside(path, h, "Desktop") {
                Some("Desktop")
            } else if inside(path, h, "Documents") {
                Some("Documents")
            } else {
                None
            }
        },
    }
}

/// Folder names known to hold regenerable or reviewable data.
pub open spec fn folder_rule(name: Seq<char>) -> Option<(Seq<char>, bool)> {
    if name == "node_modules"@ {
        Some(("regenerable Node dependencies"@, true))
    } else if name == "target"@ {
        Some(("Rust build artifacts"@, true))
    } else if name == ".dart_tool"@ {
        Some(("Dart/Flutter tool cache"@, true))
    } else if name == "build"@ {
        Some(("generated build output"@, true))
    } else if name == "coverage"@ {
        Some(("generated test coverage"@, true))
    } else if name == ".next"@ {
        Some(("Next.js build output"@, true))
    } else if name == ".nuxt"@ {
        Some(("Nuxt build output"@, true))
    } else if name == ".turbo"@ {
        Some(("Turborepo cache"@, true))
    } else if name == ".gradle"@ {
        Some(("Gradle project cache"@, true))
    } else if name == "Pods"@ {
        Some(("CocoaPods dependencies"@, true))
    } else if name == ".venv"@ {
        Some(("Python virtual environment"@, true))
    } else if name == "__pycache__"@ {
        Some(("Python bytecode cache"@, true))
    } else if name == ".pytest_cache"@ {
        Some(("pytest cache"@, true))
    } else if name == "DerivedData"@ {
        Some(("Xcode build intermediates"@, true))
    } else if name == "CoreSimulator"@ {
        Some(("iOS Simulator data; review devices and runtimes before deleting"@, false))
    } else {
        None
    }
}

/// The suggestion for a folder: allowlisted folders and folders inside a
/// user area may be trashed; known build and cache folders get their rule.
pub open spec fn directory_suggestion_spec(path: Seq<char>, allowlisted: bool, home: Option<Seq<char>>) -> Option<(Seq<char>, bool)> {
    match file_name_spec(path) {
        None => None,
        Some(name) => if allowlisted {
            Some(("user-approved delete allowlist entry; review contents before Trash"@, true))
        } else {
            match user_file_area_spec(path, home) {
                Some(area) => Some(("item inside "@ + area + "; move to Trash after confirmation"@, true)),
                None => folder_rule(name),
            }
        },
    }
}

fn suggestion(reason: &str, can_delete: bool) -> (r: Option<DirectorySuggestion>)
    ensures
        suggestion_view(r) == Some((reason@, can_delete)),
{
    Some(DirectorySuggestion { reason: reason.to_string(), can_delete })
}

fn folder_rule_exec(name: &[char]) -> (r: Option<DirectorySuggestion>)
    ensures
        suggestion_view(r) == folder_rule(name@),
{
    if chars_eq_str(name, "node_modules") {
        suggestion("regenerable Node dependencies", true)
    } else if chars_eq_str(name, "target") {
        suggestion("Rust build artifacts", true)
    } else if chars_eq_str(name, ".dart_tool") {
        suggestion("Dart/Flutter tool cache", true)
    } else if chars_eq_str(name, "build") {
        suggestion("generated build output", true)
    } else if chars_eq_str(name, "coverage") {
        suggestion("generated test coverage", true)
    } else if chars_eq_str(name, ".next") {
        suggestion("Next.js build output", true)
    } else if chars_eq_str(name, ".nuxt") {
        suggestion("Nuxt build output", true)
    } else if chars_eq_str(name, ".turbo") {
        suggestion("Turborepo cache", true)
    } else if chars_eq_str(name, ".gradle") {
        suggestion("Gradle project cache", true)
    } else if chars_eq_str(name, "Pods") {
        suggestion("CocoaPods dependencies", true)
    } else if chars_eq_str(name, ".venv") {
        suggestion("Python virtual environment", true)
    } else if chars_eq_str(name, "__pycache__") {
        suggestion("Python bytecode cache", true)
    } else if chars_eq_str(name, ".pytest_cache") {
        suggestion("pytest cache", true)
    } else if chars_eq_str(name, "DerivedData") {
        suggestion("Xcode build intermediates", true)
    } else if chars_eq_str(name, "CoreSimulator") {
        suggestion("iOS Simulator data; review devices and runtimes before deleting", false)
    } else {
        None
    }
}

fn area_suggestion(kind: &str, area: &str) -> (r: Option<DirectorySuggestion>)
    ensures
        suggestion_view(r) == Some((kind@ + area@ + "; move to Trash after confirmation"@, true)),
{
    let mut reason = kind.to_string();
    push_str(&mut reason, area);
    push_str(&mut reason, "; move to Trash after confirmation");
    Some(DirectorySuggestion { reason, can_delete: true })
}

/// The cleanup suggestion for a folder of the explorer.
pub fn directory_suggestion(path: &str, allowlisted: bool, home: Option<&str>) -> (r: Option<
    DirectorySuggestion,
>)
    ensures
        suggestion_view(r) == directory_suggestion_spec(path@, allowlisted, opt_str_view(home)),
{
    let name = match file_name(path) {
        Some(n) => n,
        None => {
            return None;
        },
    };
    proof {
        lemma_chars_deep_view(name);
    }
    if allowlisted {
        return suggestion("user-approved delete allowlist entry; review contents before Trash", true);
    }
    match user_file_area(path, home) {
        Some(area) => area_suggestion("item inside ", area),
        None => folder_rule_exec(name.as_slice()),
    }
}

/// The suggestion for a file: items of a user area may be trashed, as may
/// crash dumps under `/cores` and system temporary files.
pub open spec fn file_suggestion_spec(path: Seq<char>, home: Option<Seq<char>>) -> Option<(Seq<char>, bool)> {
    match file_name_spec(path) {
        None => None,
        Some(name) => match user_file_area_spec(path, home) {
            Some(area) => Some(("file inside "@ + area + "; move to Trash after confirmation"@, true)),
            None => if path_starts_with_spec(path, "/cores"@) && (name == "core"@
                || starts_with_seq(name, "core."@)) {
                Some(("crash dump; keep only if it is still needed for debugging"@, true))
            } else if path_starts_with_spec(path, "/private/tmp"@) || path_starts_with_spec(
                path,
                "/private/var/tmp"@,
            ) {
                Some(("system temporary file; verify it is stale and not in use"@, true))
            } else {
                None
            },
        },
    }
}

/// The cleanup suggestion for a file of the explorer.
pub fn file_suggestion(path: &str, home: Option<&str>) -> (r: Option<DirectorySuggestion>)
    ensures
        suggestion_view(r) == file_suggestion_spec(path@, opt_str_view(home)),
{
    let name = match file_name(path) {
        Some(n) => n,
        None => {
            return None;
        },
    };
    proof {
        lemma_chars_deep_view(name);
    }
    match user_file_area(path, home) {
        Some(area) => {
            return area_suggestion("file inside ", area);
        },
        None => {},
    }
    if path_starts_with(path, "/cores") && (chars_eq_str(name.as_slice(), "core")
        || starts_with_str(name.as_slice(), "core.")) {
        return suggestion("crash dump; keep only if it is still needed for debugging", true);
    }
    if path_starts_with(path, "/private/tmp") || path_starts_with(path, "/private/var/tmp") {
        return suggestion("system temporary file; verify it is stale and not in use", true);
    }
    None
}

/// Whether an explorer-selected path may be moved to Trash: anything outside
/// the protected trees, and inside them only a single file whose suggestion
/// allows it.
pub open spec fn can_delete_spec(path: Seq<char>, is_file: bool, home: Option<Seq<char>>, protected: ProtectedRoots) -> bool {
    !protected_in(protected, path) || (is_file && match file_suggestion_spec(path, home) {
        Some(s) => s.1,
        None => false,
    })
}

/// `is_file` says whether the path is a regular file (not followed through
/// a symlink); `home` is the user's home directory; `protected` is the
/// platform's table of protected trees.
pub fn can_delete_path(path: &str, is_file: bool, home: Option<&str>, protected: &ProtectedRoots) -> (r: bool)
    ensures
        r == can_delete_spec(path@, is_file, opt_str_view(home), *protected),
{
    if !is_protected_path(path, protected) {
        return true;
    }
    if !is_file {
        return false;
    }
    match file_suggestion(path, home) {
        Some(s) => s.can_delete,
        None => false,
    }
}

/// A protected directory can never be deleted from the explorer, whatever
/// its suggestion.
pub proof fn protected_directories_are_never_deletable(path: Seq<char>, home: Option<Seq<char>>, protected: ProtectedRoots)
    requires
        protected_in(protected, path),
    ensures
        !can_delete_spec(path, false, home, protected),
{
}

// ---------------------------------------------------------------------------
// Inventory entries and their order
// ---------------------------------------------------------------------------

/// One row of the whole-disk inventory.
#[derive(Clone, Debug)]
pub struct DiskScanEntry {
    pub path: String,
    /// Bytes visible through recursive directory enumeration.
    pub size_bytes: u64,
    /// File-system usage, present for mounted volume roots.
    pub volume_usage: Option<VolumeUsage>,
    /// Number of traversal or metadata failures below this entry.
    pub inaccessible_paths: usize,
    /// The path is protected by the system-safety policy.
    pub read_only: bool,
}

impl DiskScanEntry {
    /// An identical copy.
    pub fn duplicate(&self) -> (r: DiskScanEntry)
        ensures
            r == *self,
    {
        DiskScanEntry {
            path: self.path.clone(),
            size_bytes: self.size_bytes,
            volume_usage: self.volume_usage,
            inaccessible_paths: self.inaccessible_paths,
            read_only: self.read_only,
        }
    }
}

impl Ordered for DiskScanEntry {
    /// Larger entries first.
    open spec fn precedes(&self, other: &Self) -> bool {
        self.size_bytes > other.size_bytes
    }

    fn precedes_exec(&self, other: &Self) -> (r: bool) {
        self.size_bytes > other.size_bytes
    }

    proof fn precedes_asymmetric(a: &Self, b: &Self) {
    }

    proof fn precedes_negatively_transitive(a: &Self, b: &Self, c: &Self) {
    }
}

/// Read-only inventory entries are listed by path.
pub struct EntryByPath(pub DiskScanEntry);

impl Ordered for EntryByPath {
    open spec fn precedes(&self, other: &Self) -> bool {
        path_lt(self.0.path@, other.0.path@)
    }

    fn precedes_exec(&self, other: &Self) -> (r: bool) {
        path_less(self.0.path.as_str(), other.0.path.as_str())
    }

    proof fn precedes_asymmetric(a: &Self, b: &Self) {
        path_order_is_strict_weak(a.0.path@, b.0.path@, b.0.path@);
    }

    proof fn precedes_negatively_transitive(a: &Self, b: &Self, c: &Self) {
        path_order_is_strict_weak(a.0.path@, b.0.path@, c.0.path@);
    }
}

/// Keeps the `limit` largest entries, largest first; entries of equal size
/// keep their order.
pub fn trim_entries(entries: &mut Vec<DiskScanEntry>, limit: usize)
    ensures
        final(entries)@ == {
            let sorted = stable_sorted(old(entries)@);
            if limit < sorted.len() {
                sorted.take(limit as int)
            } else {
                sorted
            }
        },
{
    let mut taken: Vec<DiskScanEntry> = Vec::new();
    std::mem::swap(entries, &mut taken);
    let mut sorted = stable_sort(taken);
    sorted.truncate(limit);
    std::mem::swap(entries, &mut sorted);
}

/// An entry of the inventory built for a child of the scanned root; it is
/// read-only when it lies in one of the `protected` trees.
pub fn disk_entry(path: String, size_bytes: u64, volume_usage: Option<VolumeUsage>, inaccessible_paths: usize, protected: &ProtectedRoots) -> (e: DiskScanEntry)
    ensures
        e.path@ == path@,
        e.size_bytes == size_bytes,
        e.volume_usage == volume_usage,
        e.inaccessible_paths == inaccessible_paths,
        e.read_only == protected_in(*protected, path@),
{
    let read_only = is_protected_path(path.as_str(), protected);
    DiskScanEntry { path, size_bytes, volume_usage, inaccessible_paths, read_only }
}

/// An entry for a system or mount path that the inventory lists but never
/// traverses for cleanup: read-only whatever its location.
pub fn protected_entry(path: String, size_bytes: u64, volume_usage: Option<VolumeUsage>, inaccessible_paths: usize) -> (e: DiskScanEntry)
    ensures
        e.path@ == path@,
        e.size_bytes == size_bytes,
        e.volume_usage == volume_usage,
        e.inaccessible_paths == inaccessible_paths,
        e.read_only,
{
    DiskScanEntry { path, size_bytes, volume_usage, inaccessible_paths, read_only: true }
}

/// Whether `p` is one of `paths` (compared as paths).
pub open spec fn listed_path(p: Seq<char>, paths: Seq<Seq<char>>) -> bool {
    exists|j: int| 0 <= j < paths.len() && path_eq_spec(p, #[trigger] paths[j])
}

fn is_listed(p: &str, paths: &Vec<String>) -> (r: bool)
    ensures
        r == listed_path(p@, paths.deep_view()),
{
    let mut j: usize = 0;
    while j < paths.len()
        invariant
            j <= paths.len(),
            forall|k: int| 0 <= k < j ==> !path_eq_spec(p@, #[trigger] paths.deep_view()[k]),
        decreases paths.len() - j,
    {
        assert(paths.deep_view()[j as int] == paths@[j as int]@);
        if path_eq(p, paths[j].as_str()) {
            return true;
        }
        j = j + 1;
    }
    false
}

/// The entries of `s` that are (or are not) among `paths`, in order.
pub open spec fn entries_listed(s: Seq<DiskScanEntry>, paths: Seq<Seq<char>>, listed: bool) -> Seq<DiskScanEntry>
    decreases s.len(),
{
    if s.len() == 0 {
        s
    } else {
        let rest = entries_listed(s.drop_last(), paths, listed);
        if listed_path(s.last().path@, paths) == listed {
            rest.push(s.last())
        } else {
            rest
        }
    }
}

fn split_listed(s: &Vec<DiskScanEntry>, paths: &Vec<String>) -> (r: (Vec<DiskScanEntry>, Vec<DiskScanEntry>))
    ensures
        r.0@ == entries_listed(s@, paths.deep_view(), true),
        r.1@ == entries_listed(s@, paths.deep_view(), false),
{
    let mut yes: Vec<DiskScanEntry> = Vec::new();
    let mut no: Vec<DiskScanEntry> = Vec::new();
    for i in 0..s.len()
        invariant
            yes@ == entries_listed(s@.take(i as int), paths.deep_view(), true),
            no@ == entries_listed(s@.take(i as int), paths.deep_view(), false),
    {
        assert(s@.take(i + 1).drop_last() =~= s@.take(i as int));
        let e = s[i].duplicate();
        if is_listed(s[i].path.as_str(), paths) {
            yes.push(e);
        } else {
            no.push(e);
        }
    }
    assert(s@.take(s.len() as int) =~= s@);
    (yes, no)
}

/// Whether some entry has path `p` (compared as paths).
pub open spec fn covered(entries: Seq<DiskScanEntry>, p: Seq<char>) -> bool {
    exists|i: int| 0 <= i < entries.len() && path_eq_spec(#[trigger] entries[i].path@, p)
}

/// The standard folders that no entry covers, in order.
pub open spec fn missing_spec(entries: Seq<DiskScanEntry>, standard: Seq<Seq<char>>) -> Seq<Seq<char>>
    decreases standard.len(),
{
    if standard.len() == 0 {
        standard
    } else {
        let rest = missing_spec(entries, standard.drop_last());
        if covered(entries, standard.last()) {
            rest
        } else {
            rest.push(standard.last())
        }
    }
}

/// The standard user folders that the listed entries do not already cover;
/// their sizes are measured and added before selection.
pub fn missing_standard_paths(entries: &Vec<DiskScanEntry>, standard_paths: &Vec<String>) -> (out:
    Vec<String>)
    ensures
        out.deep_view() == missing_spec(entries@, standard_paths.deep_view()),
{
    let mut out: Vec<String> = Vec::new();
    let ghost std = standard_paths.deep_view();
    for j in 0..standard_paths.len()
        invariant
            std == standard_paths.deep_view(),
            out.deep_view() =~= missing_spec(entries@, std.take(j as int)),
    {
        assert(std.take(j + 1).drop_last() =~= std.take(j as int));
        assert(std[j as int] == standard_paths@[j as int]@);
        let mut found = false;
        let mut i: usize = 0;
        while i < entries.len()
            invariant
                i <= entries.len(),
                j < standard_paths.len(),
                std == standard_paths.deep_view(),
                std[j as int] == standard_paths@[j as int]@,
                found == exists|k: int|
                    0 <= k < i && path_eq_spec(#[trigger] entries@[k].path@, std[j as int]),
            decreases entries.len() - i,
        {
            if path_eq(entries[i].path.as_str(), standard_paths[j].as_str()) {
                found = true;
            }
            i = i + 1;
        }
        if !found {
            let ghost before = out.deep_view();
            out.push(standard_paths[j].clone());
            assert(out.deep_view() =~= before.push(std[j as int]));
        }
    }
    assert(std.take(standard_paths.len() as int) =~= std);
    out
}

/// The home inventory: every standard folder, plus the `limit` largest other
/// entries, all ordered largest first.
pub open spec fn home_selection(entries: Seq<DiskScanEntry>, standard: Seq<Seq<char>>, limit: nat) -> Seq<DiskScanEntry> {
    let sorted = stable_sorted(entries);
    let others = entries_listed(sorted, standard, false);
    stable_sorted(
        entries_listed(sorted, standard, true) + if limit < others.len() {
            others.take(limit as int)
        } else {
            others
        },
    )
}

/// Keeps the largest home entries while always retaining the standard user
/// folders, so a small Documents folder stays inspectable.
pub fn select_home_entries(entries: Vec<DiskScanEntry>, standard_paths: &Vec<String>, limit: usize) -> (out: Vec<DiskScanEntry>)
    ensures
        out@ == home_selection(entries@, standard_paths.deep_view(), limit as nat),
{
    let sorted = stable_sort(entries);
    let (mut chosen, mut others) = split_listed(&sorted, standard_paths);
    let ghost all_others = others@;
    others.truncate(limit);
    assert(others@ =~= if (limit as nat) < all_others.len() {
        all_others.take(limit as int)
    } else {
        all_others
    });
    let ghost kept = chosen@ + others@;
    chosen.append(&mut others);
    assert(chosen@ =~= kept);
    stable_sort(chosen)
}

// ---------------------------------------------------------------------------
// The one-level directory explorer
// ---------------------------------------------------------------------------

/// One child of an explored directory.
#[derive(Clone, Debug)]
pub struct DirectoryScanEntry {
    pub path: String,
    pub size_bytes: u64,
    pub inaccessible_paths: usize,
    pub is_dir: bool,
    pub read_only: bool,
    pub allowlisted: bool,
    pub suggestion: Option<DirectorySuggestion>,
}

/// Whether an explorer child is read-only: a `.git` folder, or a protected
/// path other than a protected file whose suggestion allows deletion.
pub open spec fn explorer_read_only(path: Seq<char>, is_dir: bool, suggestion: Option<(Seq<char>, bool)>, table: ProtectedRoots) -> bool {
    let protected = protected_in(table, path);
    let deletable_protected_file = !is_dir && protected && match suggestion {
        Some(s) => s.1,
        None => false,
    };
    file_name_spec(path) == Some(".git"@) || (protected && !deletable_protected_file)
}

/// Classifies one measured child of an explored directory. `in_allowlist`
/// says whether the path is on the user's delete allowlist; `protected` is
/// the platform's table of protected trees.
pub fn directory_entry(
    path: String,
    size_bytes: u64,
    inaccessible_paths: usize,
    is_dir: bool,
    in_allowlist: bool,
    home: Option<&str>,
    protected: &ProtectedRoots,
) -> (e: DirectoryScanEntry)
    ensures
        e.path@ == path@,
        e.size_bytes == size_bytes,
        e.inaccessible_paths == inaccessible_paths,
        e.is_dir == is_dir,
        e.allowlisted == (is_dir && in_allowlist),
        suggestion_view(e.suggestion) == if is_dir {
            directory_suggestion_spec(path@, is_dir && in_allowlist, opt_str_view(home))
        } else {
            file_suggestion_spec(path@, opt_str_view(home))
        },
        e.read_only == explorer_read_only(path@, is_dir, suggestion_view(e.suggestion), *protected),
{
    let allowlisted = is_dir && in_allowlist;
    let suggestion = if is_dir {
        directory_suggestion(path.as_str(), allowlisted, home)
    } else {
        file_suggestion(path.as_str(), home)
    };
    let in_protected = is_protected_path(path.as_str(), protected);
    let deletable_protected_file = !is_dir && in_protected && match &suggestion {
        Some(s) => s.can_delete,
        None => false,
    };
    let is_git = match file_name(path.as_str()) {
        Some(n) => {
            proof {
                lemma_chars_deep_view(n);
            }
            chars_eq_str(n.as_slice(), ".git")
        },
        None => false,
    };
    let read_only = is_git || (in_protected && !deletable_protected_file);
    DirectoryScanEntry {
        path,
        size_bytes,
        inaccessible_paths,
        is_dir,
        read_only,
        allowlisted,
        suggestion,
    }
}

/// A system path listed in the explorer only with its size: read-only, with
/// no suggestion.
pub fn readonly_directory_entry(path: String, size_bytes: u64, inaccessible_paths: usize) -> (e:
    DirectoryScanEntry)
    ensures
        e.path@ == path@,
        e.size_bytes == size_bytes,
        e.inaccessible_paths == inaccessible_paths,
        e.is_dir,
        e.read_only,
        !e.allowlisted,
        e.suggestion is None,
{
    DirectoryScanEntry {
        path,
        size_bytes,
        inaccessible_paths,
        is_dir: true,
        read_only: true,
        allowlisted: false,
        suggestion: None,
    }
}

impl Ordered for DirectoryScanEntry {
    /// Larger entries first.
    open spec fn precedes(&self, other: &Self) -> bool {
        self.size_bytes > other.size_bytes
    }

    fn precedes_exec(&self, other: &Self) -> (r: bool) {
        self.size_bytes > other.size_bytes
    }

    proof fn precedes_asymmetric(a: &Self, b: &Self) {
    }

    proof fn precedes_negatively_transitive(a: &Self, b: &Self, c: &Self) {
    }
}

/// The entries of `s` whose read-only flag is `ro`, in order.
pub open spec fn with_read_only(s: Seq<DirectoryScanEntry>, ro: bool) -> Seq<DirectoryScanEntry>
    decreases s.len(),
{
    if s.len() == 0 {
        s
    } else {
        let rest = with_read_only(s.drop_last(), ro);
        if s.last().read_only == ro {
            rest.push(s.last())
        } else {
            rest
        }
    }
}

/// The explorer's order: the `limit` largest writable entries, then every
/// read-only entry, each group largest first.
pub open spec fn explorer_order(entries: Seq<DirectoryScanEntry>, limit: nat) -> Seq<DirectoryScanEntry> {
    let sorted = stable_sorted(entries);
    let writable = with_read_only(sorted, false);
    (if limit < writable.len() {
        writable.take(limit as int)
    } else {
        writable
    }) + with_read_only(sorted, true)
}

pub fn arrange_directory_entries(entries: Vec<DirectoryScanEntry>, limit: usize) -> (out: Vec<
    DirectoryScanEntry,
>)
    ensures
        out@ == explorer_order(entries@, limit as nat),
{
    let mut sorted = stable_sort(entries);
    let ghost all = sorted@;
    let mut writable: Vec<DirectoryScanEntry> = Vec::new();
    let mut readonly: Vec<DirectoryScanEntry> = Vec::new();
    let mut rev: Vec<DirectoryScanEntry> = Vec::new();
    while sorted.len() > 0
        invariant
            sorted@ == all.take(sorted@.len() as int),
            sorted@.len() <= all.len(),
            rev@.len() == all.len() - sorted@.len(),
            forall|k: int| 0 <= k < rev@.len() ==> #[trigger] rev@[k] == all[all.len() - 1 - k],
        decreases sorted.len(),
    {
        let ghost n = sorted@.len();
        let e = sorted.pop().unwrap();
        rev.push(e);
        assert(sorted@ =~= all.take(n - 1));
    }
    let mut i: usize = rev.len();
    while i > 0
        invariant
            i <= all.len(),
            rev@.len() == i,
            forall|k: int| 0 <= k < rev@.len() ==> #[trigger] rev@[k] == all[all.len() - 1 - k],
            writable@ == with_read_only(all.take(all.len() - i), false),
            readonly@ == with_read_only(all.take(all.len() - i), true),
        decreases i,
    {
        let ghost m = all.len() - i;
        let e = rev.pop().unwrap();
        assert(e == all[m]);
        assert(all.take(m + 1).drop_last() =~= all.take(m));
        if e.read_only {
            readonly.push(e);
        } else {
            writable.push(e);
        }
        i = i - 1;
    }
    assert(all.take(all.len() as int) =~= all);
    let ghost w = writable@;
    writable.truncate(limit);
    assert(writable@ =~= if (limit as nat) < w.len() {
        w.take(limit as int)
    } else {
        w
    });
    let ghost kept = writable@ + readonly@;
    writable.append(&mut readonly);
    assert(writable@ =~= kept);
    writable
}

/// The whole-disk inventory.
#[derive(Clone, Debug)]
pub struct FullDiskScan {
    pub root: String,
    pub root_entries: Vec<DiskScanEntry>,
    pub home_entries: Vec<DiskScanEntry>,
    /// Protected system and mount roots with their sizes.
    pub readonly_entries: Vec<DiskScanEntry>,
    /// System and mount paths that the inventory does not traverse.
    pub readonly_paths: Vec<String>,
    pub inaccessible_paths: usize,
}

/// One level of the directory explorer.
#[derive(Clone, Debug)]
pub struct DirectoryScan {
    pub path: String,
    pub entries: Vec<DirectoryScanEntry>,
    pub volume_usage: Option<VolumeUsage>,
    pub is_git_repo: bool,
    pub git_dirty: bool,
    pub inaccessible_paths: usize,
}

/// A snapshot of a whole-disk scan in progress: the phase being measured,
/// how many of its items are done, and the report so far.
pub struct FullDiskScanProgress {
    pub phase: String,
    pub completed: usize,
    pub total: usize,
    pub report: FullDiskScan,
    pub finished: bool,
}

/// `s` with `e` appended when there is one.
pub open spec fn with_found(s: Seq<DiskScanEntry>, e: Option<DiskScanEntry>) -> Seq<DiskScanEntry> {
    match e {
        Some(x) => s.push(x),
        None => s,
    }
}

/// The `limit` largest of `s`, largest first, ties in their order.
pub open spec fn largest(s: Seq<DiskScanEntry>, limit: usize) -> Seq<DiskScanEntry> {
    let sorted = stable_sorted(s);
    if limit < sorted.len() {
        sorted.take(limit as int)
    } else {
        sorted
    }
}

/// `s` ordered by path, equal paths in their order.
pub open spec fn by_path(s: Seq<DiskScanEntry>) -> Seq<DiskScanEntry> {
    stable_sorted(s.map_values(|e: DiskScanEntry| EntryByPath(e))).map_values(|w: EntryByPath| w.0)
}

/// The same report with only the fields that a scan step changes replaced.
pub open spec fn report_fields(r: FullDiskScan, root: Seq<DiskScanEntry>, home: Seq<DiskScanEntry>, readonly: Seq<DiskScanEntry>, inaccessible: usize) -> bool {
    &&& r.root_entries@ == root
    &&& r.home_entries@ == home
    &&& r.readonly_entries@ == readonly
    &&& r.inaccessible_paths == inaccessible
}

fn copy_entries(v: &Vec<DiskScanEntry>) -> (out: Vec<DiskScanEntry>)
    ensures
        out@ == v@,
{
    let mut out: Vec<DiskScanEntry> = Vec::new();
    for i in 0..v.len()
        invariant
            out@ == v@.take(i as int),
    {
        out.push(v[i].duplicate());
        assert(v@.take(i + 1) =~= v@.take(i as int).push(v@[i as int]));
    }
    assert(v@.take(v.len() as int) =~= v@);
    out
}

fn copy_strings(v: &Vec<String>) -> (out: Vec<String>)
    ensures
        out@ == v@,
{
    let mut out: Vec<String> = Vec::new();
    for i in 0..v.len()
        invariant
            out@ == v@.take(i as int),
    {
        out.push(v[i].clone());
        assert(v@.take(i + 1) =~= v@.take(i as int).push(v@[i as int]));
    }
    assert(v@.take(v.len() as int) =~= v@);
    out
}

fn push_found(v: &mut Vec<DiskScanEntry>, entry: Option<DiskScanEntry>)
    ensures
        final(v)@ == with_found(old(v)@, entry),
{
    match entry {
        Some(e) => v.push(e),
        None => {},
    }
}

impl FullDiskScan {
    /// The report before anything is measured: no entries, nothing blocked.
    pub fn started(root: String, readonly_paths: Vec<String>) -> (r: FullDiskScan)
        ensures
            r.root == root,
            r.readonly_paths == readonly_paths,
            report_fields(r, Seq::empty(), Seq::empty(), Seq::empty(), 0),
    {
        FullDiskScan {
            root,
            root_entries: Vec::new(),
            home_entries: Vec::new(),
            readonly_entries: Vec::new(),
            readonly_paths,
            inaccessible_paths: 0,
        }
    }

    /// One measured child of the root (`None` for an excluded one): the
    /// `limit` largest children are kept and its unreadable paths counted.
    pub fn add_root_child(&mut self, entry: Option<DiskScanEntry>, inaccessible: usize, limit: usize)
        ensures
            final(self).root == old(self).root,
            final(self).readonly_paths == old(self).readonly_paths,
            report_fields(
                *final(self),
                largest(with_found(old(self).root_entries@, entry), limit),
                old(self).home_entries@,
                old(self).readonly_entries@,
                old(self).inaccessible_paths.saturating_add(inaccessible),
            ),
    {
        push_found(&mut self.root_entries, entry);
        trim_entries(&mut self.root_entries, limit);
        self.inaccessible_paths = self.inaccessible_paths.saturating_add(inaccessible);
    }

    /// One measured child of the home directory, kept as the root's are.
    pub fn add_home_child(&mut self, entry: Option<DiskScanEntry>, inaccessible: usize, limit: usize)
        ensures
            final(self).root == old(self).root,
            final(self).readonly_paths == old(self).readonly_paths,
            report_fields(
                *final(self),
                old(self).root_entries@,
                largest(with_found(old(self).home_entries@, entry), limit),
                old(self).readonly_entries@,
                old(self).inaccessible_paths.saturating_add(inaccessible),
            ),
    {
        push_found(&mut self.home_entries, entry);
        trim_entries(&mut self.home_entries, limit);
        self.inaccessible_paths = self.inaccessible_paths.saturating_add(inaccessible);
    }

    /// One measured protected or mounted path: all of them are kept, in path
    /// order.
    pub fn add_readonly_path(&mut self, entry: Option<DiskScanEntry>, inaccessible: usize)
        ensures
            final(self).root == old(self).root,
            final(self).readonly_paths == old(self).readonly_paths,
            report_fields(
                *final(self),
                old(self).root_entries@,
                old(self).home_entries@,
                by_path(with_found(old(self).readonly_entries@, entry)),
                old(self).inaccessible_paths.saturating_add(inaccessible),
            ),
    {
        let mut taken: Vec<DiskScanEntry> = Vec::new();
        std::mem::swap(&mut taken, &mut self.readonly_entries);
        push_found(&mut taken, entry);
        let ghost found = taken@;
        let n = taken.len();
        assert(found.len() == n);
        let mut wrapped: Vec<EntryByPath> = Vec::new();
        let mut i: usize = 0;
        while taken.len() > 0
            invariant
                i + taken@.len() == found.len(),
                found.len() <= usize::MAX,
                taken@ == found.skip(i as int),
                wrapped@ == found.take(i as int).map_values(|e: DiskScanEntry| EntryByPath(e)),
            decreases taken.len(),
        {
            let e = taken.remove(0);
            wrapped.push(EntryByPath(e));
            assert(found.take(i + 1) =~= found.take(i as int).push(found[i as int]));
            assert(found.skip(i + 1) =~= found.skip(i as int).drop_first());
            i = i + 1;
        }
        assert(found.take(i as int) =~= found);
        let sorted = stable_sort(wrapped);
        let mut out: Vec<DiskScanEntry> = Vec::new();
        for j in 0..sorted.len()
            invariant
                out@ == sorted@.take(j as int).map_values(|w: EntryByPath| w.0),
        {
            out.push(sorted[j].0.duplicate());
            assert(sorted@.take(j + 1) =~= sorted@.take(j as int).push(sorted@[j as int]));
        }
        assert(sorted@.take(sorted.len() as int) =~= sorted@);
        self.readonly_entries = out;
        self.inaccessible_paths = self.inaccessible_paths.saturating_add(inaccessible);
    }

    /// A snapshot of this report for the phase `phase`, with `completed` of
    /// its `total` items measured.
    pub fn progress(&self, phase: &str, completed: usize, total: usize, finished: bool) -> (p: FullDiskScanProgress)
        ensures
            p.phase@ == phase@,
            p.completed == completed,
            p.total == total,
            p.finished == finished,
            p.report.root@ == self.root@,
            p.report.readonly_paths@ == self.readonly_paths@,
            report_fields(p.report, self.root_entries@, self.home_entries@, self.readonly_entries@, self.inaccessible_paths),
    {
        FullDiskScanProgress {
            phase: phase.to_string(),
            completed,
            total,
            report: FullDiskScan {
                root: self.root.clone(),
                root_entries: copy_entries(&self.root_entries),
                home_entries: copy_entries(&self.home_entries),
                readonly_entries: copy_entries(&self.readonly_entries),
                readonly_paths: copy_strings(&self.readonly_paths),
                inaccessible_paths: self.inaccessible_paths,
            },
            finished,
        }
    }
}

/// The folder names that get a suggestion, with its reason and whether the
/// folder may be moved to Trash.
pub open spec fn known_folders() -> Seq<(Seq<char>, Seq<char>, bool)> {
    seq![
        ("node_modules"@, "regenerable Node dependencies"@, true),
        ("target"@, "Rust build artifacts"@, true),
        (".dart_tool"@, "Dart/Flutter tool cache"@, true),
        ("build"@, "generated build output"@, true),
        ("coverage"@, "generated test coverage"@, true),
        (".next"@, "Next.js build output"@, true),
        (".nuxt"@, "Nuxt build output"@, true),
        (".turbo"@, "Turborepo cache"@, true),
        (".gradle"@, "Gradle project cache"@, true),
        ("Pods"@, "CocoaPods dependencies"@, true),
        (".venv"@, "Python virtual environment"@, true),
        ("__pycache__"@, "Python bytecode cache"@, true),
        (".pytest_cache"@, "pytest cache"@, true),
        ("DerivedData"@, "Xcode build intermediates"@, true),
        ("CoreSimulator"@, "iOS Simulator data; review devices and runtimes before deleting"@, false),
    ]
}

/// A folder named like an entry of [`known_folders`] gets that entry's
/// reason and delete permission; any other name gets no rule. Outside the
/// user areas and the allowlist, that is the explorer's suggestion.
pub proof fn known_folders_get_their_rule(path: Seq<char>, name: Seq<char>, home: Option<Seq<char>>)
    ensures
        forall|i: int|
            0 <= i < known_folders().len() && name == #[trigger] known_folders()[i].0 ==> folder_rule(name)
                == Some((known_folders()[i].1, known_folders()[i].2)),
        (forall|i: int| 0 <= i < known_folders().len() ==> name != #[trigger] known_folders()[i].0)
            ==> folder_rule(name) is None,
        file_name_spec(path) == Some(name) && user_file_area_spec(path, home) is None
            ==> directory_suggestion_spec(path, false, home) == folder_rule(name),
{
    reveal_strlit("node_modules");
    reveal_strlit("target");
    reveal_strlit(".dart_tool");
    reveal_strlit("build");
    reveal_strlit("coverage");
    reveal_strlit(".next");
    reveal_strlit(".nuxt");
    reveal_strlit(".turbo");
    reveal_strlit(".gradle");
    reveal_strlit("Pods");
    reveal_strlit(".venv");
    reveal_strlit("__pycache__");
    reveal_strlit(".pytest_cache");
    reveal_strlit("DerivedData");
    reveal_strlit("CoreSimulator");
    assert(known_folders()[0] == ("node_modules"@, "regenerable Node dependencies"@, true));
    assert(known_folders()[1] == ("target"@, "Rust build artifacts"@, true));
    assert(known_folders()[2] == (".dart_tool"@, "Dart/Flutter tool cache"@, true));
    assert(known_folders()[3] == ("build"@, "generated build output"@, true));
    assert(known_folders()[4] == ("coverage"@, "generated test coverage"@, true));
    assert(known_folders()[5] == (".next"@, "Next.js build output"@, true));
    assert(known_folders()[6] == (".nuxt"@, "Nuxt build output"@, true));
    assert(known_folders()[7] == (".turbo"@, "Turborepo cache"@, true));
    assert(known_folders()[8] == (".gradle"@, "Gradle project cache"@, true));
    assert(known_folders()[9] == ("Pods"@, "CocoaPods dependencies"@, true));
    assert(known_folders()[10] == (".venv"@, "Python virtual environment"@, true));
    assert(known_folders()[11] == ("__pycache__"@, "Python bytecode cache"@, true));
    assert(known_folders()[12] == (".pytest_cache"@, "pytest cache"@, true));
    assert(known_folders()[13] == ("DerivedData"@, "Xcode build intermediates"@, true));
    assert(known_folders()[14] == ("CoreSimulator"@, "iOS Simulator data; review devices and runtimes before deleting"@, false));
    if forall|i: int| 0 <= i < known_folders().len() ==> name != #[trigger] known_folders()[i].0 {
        assert(name != known_folders()[0].0);
        assert(name != known_folders()[1].0);
        assert(name != known_folders()[2].0);
        assert(name != known_folders()[3].0);
        assert(name != known_folders()[4].0);
        assert(name != known_folders()[5].0);
        assert(name != known_folders()[6].0);
        assert(name != known_folders()[7].0);
        assert(name != known_folders()[8].0);
        assert(name != known_folders()[9].0);
        assert(name != known_folders()[10].0);
        assert(name != known_folders()[11].0);
        assert(name != known_folders()[12].0);
        assert(name != known_folders()[13].0);
        assert(name != known_folders()[14].0);
    }
    assert forall|i: int|
        0 <= i < known_folders().len() && name == #[trigger] known_folders()[i].0 implies folder_rule(name)
            == Some((known_folders()[i].1, known_folders()[i].2)) by {
        if i == 0 {
            assert(name == "node_modules"@);
        } else if i == 1 {
            assert(name == "target"@);
            assert(name != "node_modules"@) by { assert(name.len() == 6); }
        } else if i == 2 {
            assert(name == ".dart_tool"@);
            assert(name != "node_modules"@) by { assert(name.len() == 10); }
            assert(name != "target"@) by { assert(name.len() == 10); }
        } else if i == 3 {
            assert(name == "build"@);
            assert(name != "node_modules"@) by { assert(name.len() == 5); }
            assert(name != "target"@) by { assert(name.len() == 5); }
            assert(name != ".dart_tool"@) by { assert(name.len() == 5); }
        } else if i == 4 {
            assert(name == "coverage"@);
            assert(name != "node_modules"@) by { assert(name.len() == 8); }
            assert(name != "target"@) by { assert(name.len() == 8); }
            assert(name != ".dart_tool"@) by { assert(name.len() == 8); }
            assert(name != "build"@) by { assert(name.len() == 8); }
        } else if i == 5 {
            assert(name == ".next"@);
            assert(name != "node_modules"@) by { assert(name.len() == 5); }
            assert(name != "target"@) by { assert(name.len() == 5); }
            assert(name != ".dart_tool"@) by { assert(name.len() == 5); }
            assert(name != "build"@) by { assert(name[0] == '.'); }
            assert(name != "coverage"@) by { assert(name.len() == 5); }
        } else if i == 6 {
            assert(name == ".nuxt"@);
            assert(name != "node_modules"@) by { assert(name.len() == 5); }
            assert(name != "target"@) by { assert(name.len() == 5); }
            assert(name != ".dart_tool"@) by { assert(name.len() == 5); }
            assert(name != "build"@) by { assert(name[0] == '.'); }
            assert(name != "coverage"@) by { assert(name.len() == 5); }
            assert(name != ".next"@) by { assert(name[2] == 'u'); }
        } else if i == 7 {
            assert(name == ".turbo"@);
            assert(name != "node_modules"@) by { assert(name.len() == 6); }
            assert(name != "target"@) by { assert(name[0] == '.'); }
            assert(name != ".dart_tool"@) by { assert(name.len() == 6); }
            assert(name != "build"@) by { assert(name.len() == 6); }
            assert(name != "coverage"@) by { assert(name.len() == 6); }
            assert(name != ".next"@) by { assert(name.len() == 6); }
            assert(name != ".nuxt"@) by { assert(name.len() == 6); }
        } else if i == 8 {
            assert(name == ".gradle"@);
            assert(name != "node_modules"@) by { assert(name.len() == 7); }
            assert(name != "target"@) by { assert(name.len() == 7); }
            assert(name != ".dart_tool"@) by { assert(name.len() == 7); }
            assert(name != "build"@) by { assert(name.len() == 7); }
            assert(name != "coverage"@) by { assert(name.len() == 7); }
            assert(name != ".next"@) by { assert(name.len() == 7); }
            assert(name != ".nuxt"@) by { assert(name.len() == 7); }
            assert(name != ".turbo"@) by { assert(name.len() == 7); }
        } else if i == 9 {
            assert(name == "Pods"@);
            assert(name != "node_modules"@) by { assert(name.len() == 4); }
            assert(name != "target"@) by { assert(name.len() == 4); }
            assert(name != ".dart_tool"@) by { assert(name.len() == 4); }
            assert(name != "build"@) by { assert(name.len() == 4); }
            assert(name != "coverage"@) by { assert(name.len() == 4); }
            assert(name != ".next"@) by { assert(name.len() == 4); }
            assert(name != ".nuxt"@) by { assert(name.len() == 4); }
            assert(name != ".turbo"@) by { assert(name.len() == 4); }
            assert(name != ".gradle"@) by { assert(name.len() == 4); }
        } else if i == 10 {
            assert(name == ".venv"@);
            assert(name != "node_modules"@) by { assert(name.len() == 5); }
            assert(name != "target"@) by { assert(name.len() == 5); }
            assert(name != ".dart_tool"@) by { assert(name.len() == 5); }
            assert(name != "build"@) by { assert(name[0] == '.'); }
            assert(name != "coverage"@) by { assert(name.len() == 5); }
            assert(name != ".next"@) by { assert(name[1] == 'v'); }
            assert(name != ".nuxt"@) by { assert(name[1] == 'v'); }
            assert(name != ".turbo"@) by { assert(name.len() == 5); }
            assert(name != ".gradle"@) by { assert(name.len() == 5); }
            assert(name != "Pods"@) by { assert(name.len() == 5); }
        } else if i == 11 {
            assert(name == "__pycache__"@);
            assert(name != "node_modules"@) by { assert(name.len() == 11); }
            assert(name != "target"@) by { assert(name.len() == 11); }
            assert(name != ".dart_tool"@) by { assert(name.len() == 11); }
            assert(name != "build"@) by { assert(name.len() == 11); }
            assert(name != "coverage"@) by { assert(name.len() == 11); }
            assert(name != ".next"@) by { assert(name.len() == 11); }
            assert(name != ".nuxt"@) by { assert(name.len() == 11); }
            assert(name != ".turbo"@) by { assert(name.len() == 11); }
            assert(name != ".gradle"@) by { assert(name.len() == 11); }
            assert(name != "Pods"@) by { assert(name.len() == 11); }
            assert(name != ".venv"@) by { assert(name.len() == 11); }
        } else if i == 12 {
            assert(name == ".pytest_cache"@);
            assert(name != "node_modules"@) by { assert(name.len() == 13); }
            assert(name != "target"@) by { assert(name.len() == 13); }
            assert(name != ".dart_tool"@) by { assert(name.len() == 13); }
            assert(name != "build"@) by { assert(name.len() == 13); }
            assert(name != "coverage"@) by { assert(name.len() == 13); }
            assert(name != ".next"@) by { assert(name.len() == 13); }
            assert(name != ".nuxt"@) by { assert(name.len() == 13); }
            assert(name != ".turbo"@) by { assert(name.len() == 13); }
            assert(name != ".gradle"@) by { assert(name.len() == 13); }
            assert(name != "Pods"@) by { assert(name.len() == 13); }
            assert(name != ".venv"@) by { assert(name.len() == 13); }
            assert(name != "__pycache__"@) by { assert(name.len() == 13); }
        } else if i == 13 {
            assert(name == "DerivedData"@);
            assert(name != "node_modules"@) by { assert(name.len() == 11); }
            assert(name != "target"@) by { assert(name.len() == 11); }
            assert(name != ".dart_tool"@) by { assert(name.len() == 11); }
            assert(name != "build"@) by { assert(name.len() == 11); }
            assert(name != "coverage"@) by { assert(name.len() == 11); }
            assert(name != ".next"@) by { assert(name.len() == 11); }
            assert(name != ".nuxt"@) by { assert(name.len() == 11); }
            assert(name != ".turbo"@) by { assert(name.len() == 11); }
            assert(name != ".gradle"@) by { assert(name.len() == 11); }
            assert(name != "Pods"@) by { assert(name.len() == 11); }
            assert(name != ".venv"@) by { assert(name.len() == 11); }
            assert(name != "__pycache__"@) by { assert(name[0] == 'D'); }
            assert(name != ".pytest_cache"@) by { assert(name.len() == 11); }
        } else if i == 14 {
            assert(name == "CoreSimulator"@);
            assert(name != "node_modules"@) by { assert(name.len() == 13); }
            assert(name != "target"@) by { assert(name.len() == 13); }
            assert(name != ".dart_tool"@) by { assert(name.len() == 13); }
            assert(name != "build"@) by { assert(name.len() == 13); }
            assert(name != "coverage"@) by { assert(name.len() == 13); }
            assert(name != ".next"@) by { assert(name.len() == 13); }
            assert(name != ".nuxt"@) by { assert(name.len() == 13); }
            assert(name != ".turbo"@) by { assert(name.len() == 13); }
            assert(name != ".gradle"@) by { assert(name.len() == 13); }
            assert(name != "Pods"@) by { assert(name.len() == 13); }
            assert(name != ".venv"@) by { assert(name.len() == 13); }
            assert(name != "__pycache__"@) by { assert(name.len() == 13); }
            assert(name != ".pytest_cache"@) by { assert(name[0] == 'C'); }
            assert(name != "DerivedData"@) by { assert(name.len() == 13); }
        }
    }
}

} // verus!
