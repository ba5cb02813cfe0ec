//! Inventory and recoverable removal of standalone user-installed binaries.
//!
//! Package managers have their own flow (see the global module). This one is
//! narrower: executables placed directly in common user-owned binary
//! directories, and old runtimes kept in known version stores. Removal only
//! ever moves an item to the Trash.
use crate::history::{record_history, sanitize_spec, HistoryRecord};
use crate::path_order::{path_less, path_lt, path_order_is_strict_weak};
use crate::paths::{is_child_of, is_child_of_spec, path_join, path_join_spec};
use crate::scanner::opt_str_view;
use crate::sort::{stable_sort, stable_sorted, Ordered};
use crate::text::{push_str, starts_with_seq, starts_with_str, chars_of};
use vstd::prelude::*;

verus! {

broadcast use vstd::string::group_string_axioms;

/// The user binary directories, relative to the home directory, with the
/// way they are shown.
pub open spec fn binary_roots_spec() -> Seq<(Seq<char>, Seq<char>)> {
    seq![
        (".local/bin"@, "~/.local/bin"@),
        ("bin"@, "~/bin"@),
        (".deno/bin"@, "~/.deno/bin"@),
        (".bun/bin"@, "~/.bun/bin"@),
        (".volta/bin"@, "~/.volta/bin"@),
    ]
}

pub fn binary_roots() -> (out: Vec<(&'static str, &'static str)>)
    ensures
        out@.map_values(|r: (&'static str, &'static str)| (r.0@, r.1@)) == binary_roots_spec(),
{
    let out = vec![
        (".local/bin", "~/.local/bin"),
        ("bin", "~/bin"),
        (".deno/bin", "~/.deno/bin"),
        (".bun/bin", "~/.bun/bin"),
        (".volta/bin", "~/.volta/bin"),
    ];
    assert(out@.map_values(|r: (&'static str, &'static str)| (r.0@, r.1@)) =~= binary_roots_spec());
    out
}

/// Version stores of self-updating CLIs: the store (relative to home), how
/// it is shown, the path of the active version (relative to home), and what
/// the stored items are.
pub open spec fn version_stores_spec() -> Seq<(Seq<char>, Seq<char>, Seq<char>, Seq<char>)> {
    seq![
        (
            ".codex/packages/standalone/releases"@,
            "~/.codex/packages/standalone/releases"@,
            ".codex/packages/standalone/current"@,
            "Codex CLI standalone runtime"@,
        ),
    ]
}

pub fn version_stores() -> (out: Vec<(&'static str, &'static str, &'static str, &'static str)>)
    ensures
        out@.map_values(
            |r: (&'static str, &'static str, &'static str, &'static str)| (r.0@, r.1@, r.2@, r.3@),
        ) == version_stores_spec(),
{
    let out = vec![
        (
            ".codex/packages/standalone/releases",
            "~/.codex/packages/standalone/releases",
            ".codex/packages/standalone/current",
            "Codex CLI standalone runtime",
        ),
    ];
    assert(out@.map_values(
        |r: (&'static str, &'static str, &'static str, &'static str)| (r.0@, r.1@, r.2@, r.3@),
    ) =~= version_stores_spec());
    out
}

/// A standalone binary or stored runtime.
#[derive(Clone, Debug)]
pub struct StandaloneTool {
    pub name: String,
    pub path: String,
    pub source_root: String,
    pub size_bytes: u64,
    pub is_directory: bool,
    pub can_remove: bool,
    pub warning: Option<String>,
}

pub open spec fn opt_string(o: Option<String>) -> Option<Seq<char>> {
    match o {
        Some(s) => Some(s@),
        None => None,
    }
}

pub open spec fn removal_description_spec(is_directory: bool, path: Seq<char>) -> Seq<char> {
    "move "@ + (if is_directory {
        "folder"@
    } else {
        "file"@
    }) + " "@ + path + " to Trash"@
}

impl StandaloneTool {
    /// What removing the item does, in words.
    pub fn removal_description(&self) -> (s: String)
        ensures
            s@ == removal_description_spec(self.is_directory, self.path@),
    {
        let mut s = "move ".to_string();
        push_str(&mut s, if self.is_directory {
            "folder"
        } else {
            "file"
        });
        push_str(&mut s, " ");
        push_str(&mut s, self.path.as_str());
        push_str(&mut s, " to Trash");
        s
    }

    /// An identical copy.
    pub fn duplicate(&self) -> (t: StandaloneTool)
        ensures
            t == *self,
    {
        StandaloneTool {
            name: self.name.clone(),
            path: self.path.clone(),
            source_root: self.source_root.clone(),
            size_bytes: self.size_bytes,
            is_directory: self.is_directory,
            can_remove: self.can_remove,
            warning: match &self.warning {
                Some(w) => Some(w.clone()),
                None => None,
            },
        }
    }
}

/// A directory entry of a user binary directory, as the file system
/// describes it.
pub struct BinaryEntry {
    pub name: String,
    pub path: String,
    pub is_file: bool,
    pub is_symlink: bool,
    /// Any execute permission bit is set (not followed through a symlink).
    pub is_executable: bool,
    /// The entry's own length, when its metadata could be read.
    pub size_bytes: Option<u64>,
    /// The entry is the binary of the running program.
    pub running: bool,
}

pub open spec fn running_warning() -> Seq<char> {
    "This is the currently running cleanrs binary; use the documented uninstall command instead"@
}

/// Hidden entries, anything but files and symlinks, non-executable files and
/// entries without metadata are skipped; the running binary is listed but
/// cannot be removed.
pub open spec fn binary_tool_spec(e: BinaryEntry, display_root: Seq<char>, t: Option<StandaloneTool>) -> bool {
    if starts_with_seq(e.name@, "."@) || (!e.is_file && !e.is_symlink) || (!e.is_symlink
        && !e.is_executable) || e.size_bytes is None {
        t is None
    } else {
        match t {
            Some(t) => {
                &&& t.name@ == e.name@
                &&& t.path@ == e.path@
                &&& t.source_root@ == display_root
                &&& Some(t.size_bytes) == e.size_bytes
                &&& !t.is_directory
                &&& t.can_remove == !e.running
                &&& opt_string(t.warning) == if e.running {
                    Some(running_warning())
                } else {
                    None
                }
            },
            None => false,
        }
    }
}

pub fn binary_tool(entry: BinaryEntry, display_root: &str) -> (t: Option<StandaloneTool>)
    ensures
        binary_tool_spec(entry, display_root@, t),
{
    let name = chars_of(entry.name.as_str());
    if starts_with_str(name.as_slice(), ".") {
        return None;
    }
    if !entry.is_file && !entry.is_symlink {
        return None;
    }
    if !entry.is_symlink && !entry.is_executable {
        return None;
    }
    let size_bytes = match entry.size_bytes {
        Some(s) => s,
        None => {
            return None;
        },
    };
    let warning = if entry.running {
        Some(
            "This is the currently running cleanrs binary; use the documented uninstall command instead".to_string(),
        )
    } else {
        None
    };
    Some(
        StandaloneTool {
            name: entry.name,
            path: entry.path,
            source_root: display_root.to_string(),
            size_bytes,
            is_directory: false,
            can_remove: !entry.running,
            warning,
        },
    )
}

/// An entry of a version store, as the file system describes it.
pub struct VersionEntry {
    pub name: String,
    pub path: String,
    pub is_dir: bool,
    pub is_file: bool,
    pub is_symlink: bool,
    /// Recursive size for a directory, own length otherwise.
    pub size_bytes: u64,
    /// The entry is the version currently in use.
    pub active: bool,
}

pub open spec fn active_warning(description: Seq<char>) -> Seq<char> {
    description + " is active; update or uninstall it through its own installer"@
}

/// Hidden entries, entries of other kinds and empty entries are skipped;
/// the active version is listed but cannot be removed.
pub open spec fn version_tool_spec(e: VersionEntry, display_root: Seq<char>, description: Seq<char>, t: Option<StandaloneTool>) -> bool {
    if starts_with_seq(e.name@, "."@) || (!e.is_dir && !e.is_file && !e.is_symlink) || e.size_bytes
        == 0 {
        t is None
    } else {
        match t {
            Some(t) => {
                &&& t.name@ == e.name@
                &&& t.path@ == e.path@
                &&& t.source_root@ == display_root
                &&& t.size_bytes == e.size_bytes
                &&& t.is_directory == e.is_dir
                &&& t.can_remove == !e.active
                &&& opt_string(t.warning) == if e.active {
                    Some(active_warning(description))
                } else {
                    None
                }
            },
            None => false,
        }
    }
}

pub fn version_tool(entry: VersionEntry, display_root: &str, description: &str) -> (t: Option<
    StandaloneTool,
>)
    ensures
        version_tool_spec(entry, display_root@, description@, t),
{
    let name = chars_of(entry.name.as_str());
    if starts_with_str(name.as_slice(), ".") {
        return None;
    }
    if !entry.is_dir && !entry.is_file && !entry.is_symlink {
        return None;
    }
    if entry.size_bytes == 0 {
        return None;
    }
    let warning = if entry.active {
        let mut w = description.to_string();
        push_str(&mut w, " is active; update or uninstall it through its own installer");
        Some(w)
    } else {
        None
    };
    Some(
        StandaloneTool {
            name: entry.name,
            path: entry.path,
            source_root: display_root.to_string(),
            size_bytes: entry.size_bytes,
            is_directory: entry.is_dir,
            can_remove: !entry.active,
            warning,
        },
    )
}

impl Ordered for StandaloneTool {
    /// Larger items first, then by path.
    open spec fn precedes(&self, other: &Self) -> bool {
        self.size_bytes > other.size_bytes || (self.size_bytes == other.size_bytes && path_lt(
            self.path@,
            other.path@,
        ))
    }

    fn precedes_exec(&self, other: &Self) -> (r: bool) {
        if self.size_bytes != other.size_bytes {
            self.size_bytes > other.size_bytes
        } else {
            path_less(self.path.as_str(), other.path.as_str())
        }
    }

    proof fn precedes_asymmetric(a: &Self, b: &Self) {
        path_order_is_strict_weak(a.path@, b.path@, b.path@);
    }

    proof fn precedes_negatively_transitive(a: &Self, b: &Self, c: &Self) {
        path_order_is_strict_weak(a.path@, b.path@, c.path@);
    }
}

/// What listing one root produced.
pub struct RootListing {
    pub display_root: String,
    pub found: Result<Vec<StandaloneTool>, String>,
}

pub open spec fn listed_tools(rs: Seq<RootListing>) -> Seq<StandaloneTool>
    decreases rs.len(),
{
    if rs.len() == 0 {
        Seq::empty()
    } else {
        (match rs[0].found {
            Ok(v) => v@,
            Err(_) => Seq::empty(),
        }) + listed_tools(rs.drop_first())
    }
}

pub open spec fn listing_errors(rs: Seq<RootListing>) -> Seq<Seq<char>>
    decreases rs.len(),
{
    if rs.len() == 0 {
        Seq::empty()
    } else {
        (match rs[0].found {
            Ok(_) => Seq::empty(),
            Err(e) => seq![rs[0].display_root@ + ": "@ + e@],
        }) + listing_errors(rs.drop_first())
    }
}

#[derive(Clone, Debug)]
pub struct StandaloneToolScan {
    pub tools: Vec<StandaloneTool>,
    pub errors: Vec<String>,
}

/// Collects the roots' listings: all items, largest first (then by path),
/// and one error line per root that could not be read.
pub fn scan_standalone_tools(listings: Vec<RootListing>) -> (scan: StandaloneToolScan)
    ensures
        scan.tools@ == stable_sorted(listed_tools(listings@)),
        scan.errors.deep_view() == listing_errors(listings@),
{
    let ghost all = listings@;
    let mut listings = listings;
    let mut tools: Vec<StandaloneTool> = Vec::new();
    let mut errors: Vec<String> = Vec::new();
    assert(all.skip(all.len() as int) =~= Seq::<RootListing>::empty());
    while listings.len() > 0
        invariant
            listings@ == all.take(listings@.len() as int),
            listings@.len() <= all.len(),
            tools@ == listed_tools(all.skip(listings@.len() as int)),
            errors.deep_view() == listing_errors(all.skip(listings@.len() as int)),
        decreases listings.len(),
    {
        let ghost n = listings@.len();
        let r = listings.pop().unwrap();
        proof {
            assert(all.skip(n - 1).drop_first() =~= all.skip(n as int));
            assert(all.skip(n - 1)[0] == r);
            assert(listings@ =~= all.take(n - 1));
        }
        match r.found {
            Ok(found) => {
                let mut head = found;
                let ghost h = head@;
                head.append(&mut tools);
                tools = head;
                assert(tools@ =~= h + listed_tools(all.skip(n as int)));
                assert(errors.deep_view() =~= Seq::<Seq<char>>::empty() + listing_errors(
                    all.skip(n as int),
                ));
            },
            Err(e) => {
                let mut msg = r.display_root;
                push_str(&mut msg, ": ");
                push_str(&mut msg, e.as_str());
                let mut head: Vec<String> = Vec::new();
                head.push(msg);
                let ghost before = errors.deep_view();
                head.append(&mut errors);
                errors = head;
                assert(errors.deep_view() =~= seq![r.display_root@ + ": "@ + e@] + before);
                assert(tools@ =~= Seq::<StandaloneTool>::empty() + listed_tools(all.skip(n as int)));
            },
        }
    }
    assert(all.skip(0) =~= all);
    StandaloneToolScan { tools: stable_sort(tools), errors }
}

/// The directories whose direct children may be removed: every binary root
/// and version store below `home`.
pub open spec fn approved_parent(path: Seq<char>, home: Seq<char>) -> bool {
    (exists|i: int|
        0 <= i < binary_roots_spec().len() && is_child_of_spec(
            path,
            path_join_spec(home, #[trigger] binary_roots_spec()[i].0),
        )) || (exists|i: int|
        0 <= i < version_stores_spec().len() && is_child_of_spec(
            path,
            path_join_spec(home, #[trigger] version_stores_spec()[i].0),
        ))
}

pub open spec fn supported_spec(path: Seq<char>, home: Option<Seq<char>>) -> bool {
    match home {
        Some(h) => approved_parent(path, h),
        None => false,
    }
}

/// Whether `path` sits directly inside an approved user binary root or
/// version store.
pub fn is_supported_path(path: &str, home: Option<&str>) -> (r: bool)
    ensures
        r == supported_spec(path@, opt_str_view(home)),
{
    let h = match home {
        Some(h) => h,
        None => {
            return false;
        },
    };
    let roots = binary_roots();
    let mut i: usize = 0;
    while i < roots.len()
        invariant
            home == Some(h),
            i <= roots.len(),
            roots@.map_values(|r: (&'static str, &'static str)| (r.0@, r.1@)) == binary_roots_spec(),
            forall|k: int|
                0 <= k < i ==> !is_child_of_spec(
                    path@,
                    path_join_spec(h@, #[trigger] binary_roots_spec()[k].0),
                ),
        decreases roots.len() - i,
    {
        assert(binary_roots_spec()[i as int].0 == roots@[i as int].0@);
        let dir = path_join(h, roots[i].0);
        if is_child_of(path, dir.as_str()) {
            assert(is_child_of_spec(path@, path_join_spec(h@, binary_roots_spec()[i as int].0)));
            return true;
        }
        i = i + 1;
    }
    let stores = version_stores();
    let mut j: usize = 0;
    while j < stores.len()
        invariant
            home == Some(h),
            j <= stores.len(),
            stores@.map_values(
                |r: (&'static str, &'static str, &'static str, &'static str)| (r.0@, r.1@, r.2@, r.3@),
            ) == version_stores_spec(),
            forall|k: int|
                0 <= k < binary_roots_spec().len() ==> !is_child_of_spec(
                    path@,
                    path_join_spec(h@, #[trigger] binary_roots_spec()[k].0),
                ),
            forall|k: int|
                0 <= k < j ==> !is_child_of_spec(
                    path@,
                    path_join_spec(h@, #[trigger] version_stores_spec()[k].0),
                ),
        decreases stores.len() - j,
    {
        assert(version_stores_spec()[j as int].0 == stores@[j as int].0@);
        let dir = path_join(h, stores[j].0);
        if is_child_of(path, dir.as_str()) {
            assert(is_child_of_spec(path@, path_join_spec(h@, version_stores_spec()[j as int].0)));
            return true;
        }
        j = j + 1;
    }
    false
}

/// The outcome of removing (or previewing the removal of) a standalone item.
#[derive(Clone, Debug)]
pub struct StandaloneToolResult {
    pub name: String,
    pub path: String,
    pub dry_run: bool,
    pub executed: bool,
    pub success: bool,
    pub message: String,
}

/// A decided removal request and the history entry due for it.
pub struct StandaloneOutcome {
    pub result: Result<StandaloneToolResult, String>,
    pub history: Option<HistoryRecord>,
}

/// What to do next for a removal request.
pub enum StandaloneStep {
    Finished(StandaloneOutcome),
    /// Move the path to the Trash, then call [`finish_standalone_removal`].
    MoveToTrash(String),
}

pub open spec fn standalone_refusal(t: StandaloneTool) -> Seq<char> {
    t.name@ + " cannot be removed by cleanrs: "@ + match opt_string(t.warning) {
        Some(w) => w,
        None => "protected standalone binary"@,
    }
}

pub open spec fn outside_roots_error(path: Seq<char>) -> Seq<char> {
    "refusing to remove standalone path outside approved user binary roots: "@ + path
}

pub open spec fn standalone_history(h: HistoryRecord, path: Seq<char>, status: Seq<char>, detail: Seq<char>) -> bool {
    &&& h.operation@ == sanitize_spec("uninstall"@)
    &&& h.actor@ == sanitize_spec("Standalone/user-installed"@)
    &&& h.target@ == sanitize_spec(path)
    &&& h.status@ == sanitize_spec(status)
    &&& h.detail@ == sanitize_spec(detail)
}

/// A refusal: the error, recorded as failed unless this is a dry run.
pub open spec fn refused_spec(s: StandaloneStep, tool: StandaloneTool, dry_run: bool, error: Seq<char>) -> bool {
    match s {
        StandaloneStep::Finished(o) => match o.result {
            Err(e) => e@ == error && if dry_run {
                o.history is None
            } else {
                match o.history {
                    Some(h) => standalone_history(h, tool.path@, "failed"@, error),
                    None => false,
                }
            },
            Ok(_) => false,
        },
        StandaloneStep::MoveToTrash(_) => false,
    }
}

/// A protected item is refused; so is a path outside the approved roots. A
/// dry run describes the removal; otherwise the item is moved to the Trash.
pub open spec fn standalone_step_spec(s: StandaloneStep, tool: StandaloneTool, dry_run: bool, home: Option<Seq<char>>) -> bool {
    if !tool.can_remove {
        refused_spec(s, tool, dry_run, standalone_refusal(tool))
    } else if !supported_spec(tool.path@, home) {
        refused_spec(s, tool, dry_run, outside_roots_error(tool.path@))
    } else if dry_run {
        match s {
            StandaloneStep::Finished(o) => o.history is None && match o.result {
                Ok(r) => r.name@ == tool.name@ && r.path@ == tool.path@ && r.dry_run && !r.executed
                    && r.success && r.message@ == "dry-run: would "@ + removal_description_spec(
                    tool.is_directory,
                    tool.path@,
                ),
                Err(_) => false,
            },
            StandaloneStep::MoveToTrash(_) => false,
        }
    } else {
        match s {
            StandaloneStep::MoveToTrash(p) => p@ == tool.path@,
            _ => false,
        }
    }
}

fn refuse(tool: &StandaloneTool, dry_run: bool, error: String) -> (s: StandaloneStep)
    ensures
        refused_spec(s, *tool, dry_run, error@),
{
    let history = if dry_run {
        None
    } else {
        Some(
            record_history(
                "uninstall",
                "Standalone/user-installed",
                tool.path.as_str(),
                "failed",
                error.as_str(),
            ),
        )
    };
    StandaloneStep::Finished(StandaloneOutcome { result: Err(error), history })
}

/// Decides a removal request; see [`standalone_step_spec`]. `home` is the
/// user's home directory.
pub fn remove_standalone_tool(tool: &StandaloneTool, dry_run: bool, home: Option<&str>) -> (s:
    StandaloneStep)
    ensures
        standalone_step_spec(s, *tool, dry_run, opt_str_view(home)),
{
    if !tool.can_remove {
        let mut e = tool.name.clone();
        push_str(&mut e, " cannot be removed by cleanrs: ");
        match &tool.warning {
            Some(w) => push_str(&mut e, w.as_str()),
            None => push_str(&mut e, "protected standalone binary"),
        }
        return refuse(tool, dry_run, e);
    }
    if !is_supported_path(tool.path.as_str(), home) {
        let mut e = "refusing to remove standalone path outside approved user binary roots: ".to_string();
        push_str(&mut e, tool.path.as_str());
        return refuse(tool, dry_run, e);
    }
    if dry_run {
        let mut message = "dry-run: would ".to_string();
        let d = tool.removal_description();
        push_str(&mut message, d.as_str());
        return StandaloneStep::Finished(
            StandaloneOutcome {
                result: Ok(
                    StandaloneToolResult {
                        name: tool.name.clone(),
                        path: tool.path.clone(),
                        dry_run: true,
                        executed: false,
                        success: true,
                        message,
                    },
                ),
                history: None,
            },
        );
    }
    StandaloneStep::MoveToTrash(tool.path.clone())
}

/// Reports a move to the Trash: success or failure, each recorded.
pub fn finish_standalone_removal(tool: &StandaloneTool, moved: bool) -> (o: StandaloneOutcome)
    ensures
        if moved {
            match o.result {
                Ok(r) => r.name@ == tool.name@ && r.path@ == tool.path@ && !r.dry_run && r.executed
                    && r.success && r.message@ == "moved "@ + tool.path@ + " to Trash"@ && match o.history {
                    Some(h) => standalone_history(h, tool.path@, "success"@, r.message@),
                    None => false,
                },
                Err(_) => false,
            }
        } else {
            match o.result {
                Err(e) => e@ == "failed to move "@ + tool.path@
                    + " to Trash; check file ownership, parent-directory write permission, or macOS Full Disk Access"@
                    && match o.history {
                    Some(h) => standalone_history(h, tool.path@, "failed"@, e@),
                    None => false,
                },
                Ok(_) => false,
            }
        },
{
    if moved {
        let mut message = "moved ".to_string();
        push_str(&mut message, tool.path.as_str());
        push_str(&mut message, " to Trash");
        let h = record_history(
            "uninstall",
            "Standalone/user-installed",
            tool.path.as_str(),
            "success",
            message.as_str(),
        );
        StandaloneOutcome {
            result: Ok(
                StandaloneToolResult {
                    name: tool.name.clone(),
                    path: tool.path.clone(),
                    dry_run: false,
                    executed: true,
                    success: true,
                    message,
                },
            ),
            history: Some(h),
        }
    } else {
        let mut e = "failed to move ".to_string();
        push_str(&mut e, tool.path.as_str());
        push_str(
            &mut e,
            " to Trash; check file ownership, parent-directory write permission, or macOS Full Disk Access",
        );
        let h = record_history(
            "uninstall",
            "Standalone/user-installed",
            tool.path.as_str(),
            "failed",
            e.as_str(),
        );
        StandaloneOutcome { result: Err(e), history: Some(h) }
    }
}

/// Which items may be removed: a removable item sitting directly inside one
/// of the binary roots or version stores below the home directory is moved
/// to the Trash (or only previewed in a dry run); a removable item anywhere
/// else, or with no home directory, is refused as outside the approved
/// roots.
pub proof fn removal_follows_the_roots_and_stores(
    s: StandaloneStep,
    tool: StandaloneTool,
    dry_run: bool,
    home: Option<Seq<char>>,
)
    requires
        standalone_step_spec(s, tool, dry_run, home),
        tool.can_remove,
    ensures
        home matches Some(h) && ((exists|i: int|
            0 <= i < binary_roots_spec().len() && is_child_of_spec(
                tool.path@,
                path_join_spec(h, #[trigger] binary_roots_spec()[i].0),
            )) || (exists|i: int|
            0 <= i < version_stores_spec().len() && is_child_of_spec(
                tool.path@,
                path_join_spec(h, #[trigger] version_stores_spec()[i].0),
            ))) ==> if dry_run {
            s matches StandaloneStep::Finished(o) && o.result is Ok && o.history is None
        } else {
            s matches StandaloneStep::MoveToTrash(p) && p@ == tool.path@
        },
        (home is None || (home matches Some(h) && (forall|i: int|
            0 <= i < binary_roots_spec().len() ==> !is_child_of_spec(
                tool.path@,
                path_join_spec(h, #[trigger] binary_roots_spec()[i].0),
            )) && (forall|i: int|
            0 <= i < version_stores_spec().len() ==> !is_child_of_spec(
                tool.path@,
                path_join_spec(h, #[trigger] version_stores_spec()[i].0),
            )))) ==> (s matches StandaloneStep::Finished(o) && o.result matches Err(e) && e@
            == outside_roots_error(tool.path@)),
{
}

/// The user binary folders and runtime stores a removal may reach into,
/// relative to the home directory.
pub open spec fn documented_roots() -> Seq<Seq<char>> {
    seq![
        ".local/bin"@,
        "bin"@,
        ".deno/bin"@,
        ".bun/bin"@,
        ".volta/bin"@,
        ".codex/packages/standalone/releases"@,
    ]
}

/// Every direct child of one of the [`documented_roots`] below the home
/// directory is a supported removal path.
pub proof fn documented_roots_are_approved(path: Seq<char>, h: Seq<char>)
    ensures
        forall|i: int|
            0 <= i < documented_roots().len() && is_child_of_spec(path, path_join_spec(h, #[trigger] documented_roots()[i]))
                ==> supported_spec(path, Some(h)),
{
    assert forall|i: int|
        0 <= i < documented_roots().len() && is_child_of_spec(path, path_join_spec(h, #[trigger] documented_roots()[i]))
            implies supported_spec(path, Some(h)) by {
        if i < 5 {
            assert(documented_roots()[i] == binary_roots_spec()[i].0);
        } else {
            assert(documented_roots()[i] == version_stores_spec()[0].0);
        }
    }
}

} // verus!
