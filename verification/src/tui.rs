//! The state of the interactive review screen and its transitions.
//!
//! The terminal loop, the worker threads and the drawing live with the
//! caller; every decision about what a key press or a finished job does to
//! the state is made here.
use crate::cleaner::CleanerScan;
use crate::global::{GlobalTool, GlobalToolScan};
use crate::model::{risk_rank, Category, CleanResult, CleanTarget, RiskLevel};
use crate::path_order::{path_less, path_lt, path_order_is_strict_weak};
use crate::report::ReadOnlyScan;
use crate::scanner::{DirectoryScan, DiskScanEntry, FullDiskScan};
use crate::sort::{lemma_lex_total, lemma_lex_transitive, lex_less, lex_lt, stable_sort, stable_sorted, Ordered};
use crate::standalone::{StandaloneTool, StandaloneToolScan};
use crate::text::{chars_eq_str, chars_of, join, join_seq, push_char, push_str, slice_chars, string_of};
use crate::size_format::{decimal_size, format_size_decimal};
use crate::report::ReadOnlyTarget;
use crate::update::UpdateInfo;
use vstd::prelude::*;

verus! {

broadcast use vstd::string::group_string_axioms;

/// One reviewable target, with the rule that proposed it.
#[derive(Clone, Debug)]
pub struct TargetRow {
    pub cleaner_id: String,
    pub cleaner_name: String,
    pub category: Category,
    pub risk: RiskLevel,
    pub target: CleanTarget,
    pub selected: bool,
}

/// Which phase the screen is in.
#[derive(Clone, Copy, Debug, PartialEq, Eq, Structural)]
pub enum Mode {
    Scanning,
    Reviewing,
    Confirming,
    Cleaning,
}

/// The state of the release check.
#[derive(Clone, Debug)]
pub enum UpdateState {
    Checking,
    UpToDate,
    Available(UpdateInfo),
    Unavailable(String),
}

/// Space of the system volume.
#[derive(Clone, Copy, Debug)]
pub struct DiskUsage {
    pub total_bytes: u64,
    pub free_bytes: u64,
}

impl DiskUsage {
    /// Bytes in use: total minus free, never below zero.
    pub fn used_bytes(self) -> (r: u64)
        ensures
            r == if self.total_bytes >= self.free_bytes {
                (self.total_bytes - self.free_bytes) as u64
            } else {
                0u64
            },
    {
        self.total_bytes.saturating_sub(self.free_bytes)
    }
}

/// A key as the screen distinguishes keys.
#[derive(Clone, Copy, Debug, PartialEq, Eq, Structural)]
pub enum Key {
    Char(char),
    Enter,
    Esc,
    Backspace,
    Up,
    Down,
    Other,
}

/// What the caller does after a key press.
#[derive(Clone, Copy, Debug, PartialEq, Eq, Structural)]
pub enum KeyAction {
    ToggleAllowlist,
    BackDirectory,
    BackGlobalTools,
    BackStandaloneTools,
    Continue,
    DeleteFile,
    FullDisk,
    GlobalTools,
    StandaloneTools,
    OpenDirectory,
    Quit,
    Rescan,
    UninstallGlobal,
    UninstallStandalone,
    Upgrade,
    /// Start the confirmed clean (see [`App::start_cleaning`]).
    StartCleaning,
    /// Start the confirmed global-tool removal.
    StartGlobalUninstall,
    /// Start the confirmed standalone-tool removal.
    StartStandaloneUninstall,
    /// Start the confirmed explorer deletion.
    StartExplorerDelete,
}

/// What the screen shows and what the user has typed.
#[derive(Clone, Debug)]
pub struct Screen {
    pub mode: Mode,
    pub dry_run: bool,
    pub confirm_text: String,
    pub info_overlay: Option<String>,
    pub last_action: Option<String>,
}

/// The review list: targets, their selection and the Trash.
#[derive(Clone, Debug)]
pub struct Review {
    pub rows: Vec<TargetRow>,
    pub cursor: usize,
    pub trash_target: Option<CleanTarget>,
    pub trash_selected: bool,
    pub pending_empty_trash: bool,
    pub readonly_report: Option<ReadOnlyScan>,
    pub received_scans: usize,
    pub expected_scans: usize,
}

/// Versions, disk usage, and the progress and outcome of running work.
#[derive(Clone, Debug)]
pub struct Progress {
    pub current_version: String,
    pub update_state: UpdateState,
    pub disk: Option<DiskUsage>,
    pub results: Vec<CleanResult>,
    pub errors: Vec<String>,
    pub cleaning_completed: usize,
    pub cleaning_total: usize,
    pub cleaning_disk_before: Option<DiskUsage>,
    pub active_cleaner: Option<String>,
    pub active_target: Option<String>,
    pub active_target_size: u64,
    pub active_detail: Option<String>,
}

/// The whole-disk inventory and the directory explorer.
#[derive(Clone, Debug)]
pub struct Explorer {
    pub full_disk: Option<FullDiskScan>,
    pub full_disk_scanning: bool,
    pub full_disk_error: Option<String>,
    pub show_full_disk: bool,
    pub full_disk_cursor: usize,
    pub full_disk_phase: String,
    pub full_disk_completed: usize,
    pub full_disk_total: usize,
    pub directory_scan: Option<DirectoryScan>,
    pub directory_scanning: bool,
    pub directory_error: Option<String>,
    pub directory_history: Vec<String>,
    pub directory_cursor: usize,
    pub pending_explorer_delete: Option<CleanTarget>,
    pub explorer_deleting: bool,
}

/// The globally installed tools view.
#[derive(Clone, Debug)]
pub struct GlobalView {
    pub show: bool,
    pub tools: Option<GlobalToolScan>,
    pub scanning: bool,
    pub error: Option<String>,
    pub cursor: usize,
    pub pending_uninstall: Option<GlobalTool>,
    pub uninstalling: bool,
}

/// The standalone binaries view.
#[derive(Clone, Debug)]
pub struct StandaloneView {
    pub show: bool,
    pub tools: Option<StandaloneToolScan>,
    pub scanning: bool,
    pub error: Option<String>,
    pub cursor: usize,
    pub pending_uninstall: Option<StandaloneTool>,
    pub uninstalling: bool,
}

/// The whole screen state.
#[derive(Clone, Debug)]
pub struct App {
    pub screen: Screen,
    pub review: Review,
    pub progress: Progress,
    pub explorer: Explorer,
    pub global: GlobalView,
    pub standalone: StandaloneView,
}

// ---------------------------------------------------------------------------
// Ordering of the review rows
// ---------------------------------------------------------------------------

impl Ordered for TargetRow {
    /// Largest targets first, then by path, then by rule name.
    open spec fn precedes(&self, other: &Self) -> bool {
        self.target.size_bytes > other.target.size_bytes || (self.target.size_bytes
            == other.target.size_bytes && (path_lt(self.target.path@, other.target.path@) || (
        !path_lt(self.target.path@, other.target.path@) && !path_lt(
            other.target.path@,
            self.target.path@,
        ) && lex_lt(self.cleaner_name@, other.cleaner_name@))))
    }

    fn precedes_exec(&self, other: &Self) -> (r: bool) {
        if self.target.size_bytes != other.target.size_bytes {
            return self.target.size_bytes > other.target.size_bytes;
        }
        if path_less(self.target.path.as_str(), other.target.path.as_str()) {
            return true;
        }
        if path_less(other.target.path.as_str(), self.target.path.as_str()) {
            return false;
        }
        let a = chars_of(self.cleaner_name.as_str());
        let b = chars_of(other.cleaner_name.as_str());
        lex_less(a.as_slice(), b.as_slice())
    }

    proof fn precedes_asymmetric(a: &Self, b: &Self) {
        path_order_is_strict_weak(a.target.path@, b.target.path@, b.target.path@);
        if !path_lt(a.target.path@, b.target.path@) && !path_lt(b.target.path@, a.target.path@)
            && lex_lt(a.cleaner_name@, b.cleaner_name@) {
            crate::sort::lemma_lex_asymmetric(a.cleaner_name@, b.cleaner_name@);
        }
    }

    proof fn precedes_negatively_transitive(a: &Self, b: &Self, c: &Self) {
        let (x, y, z) = (a.target.path@, b.target.path@, c.target.path@);
        path_order_is_strict_weak(x, y, z);
        path_order_is_strict_weak(x, z, y);
        path_order_is_strict_weak(y, x, z);
        path_order_is_strict_weak(y, z, x);
        path_order_is_strict_weak(z, x, y);
        path_order_is_strict_weak(z, y, x);
        path_order_is_strict_weak(x, y, y);
        path_order_is_strict_weak(y, z, z);
        path_order_is_strict_weak(x, z, z);
        let (p, q, r) = (a.cleaner_name@, b.cleaner_name@, c.cleaner_name@);
        lemma_lex_total(p, q);
        if lex_lt(q, p) && lex_lt(p, r) {
            lemma_lex_transitive(q, p, r);
        }
    }
}

// ---------------------------------------------------------------------------
// Construction and rescans
// ---------------------------------------------------------------------------

pub open spec fn review_cleared(r: Review) -> bool {
    &&& r.rows@.len() == 0
    &&& r.cursor == 0
    &&& r.trash_target is None
    &&& !r.trash_selected
    &&& !r.pending_empty_trash
    &&& r.readonly_report is None
    &&& r.received_scans == 0
}

pub open spec fn explorer_cleared(e: Explorer) -> bool {
    &&& !e.show_full_disk
    &&& e.full_disk_cursor == 0
    &&& e.full_disk_phase@.len() == 0
    &&& e.full_disk_completed == 0
    &&& e.full_disk_total == 0
    &&& e.directory_scan is None
    &&& !e.directory_scanning
    &&& e.directory_error is None
    &&& e.directory_history@.len() == 0
    &&& e.directory_cursor == 0
    &&& e.pending_explorer_delete is None
    &&& !e.explorer_deleting
}

pub open spec fn global_cleared(g: GlobalView) -> bool {
    &&& !g.show
    &&& g.tools is None
    &&& !g.scanning
    &&& g.error is None
    &&& g.cursor == 0
    &&& g.pending_uninstall is None
    &&& !g.uninstalling
}

pub open spec fn standalone_cleared(g: StandaloneView) -> bool {
    &&& !g.show
    &&& g.tools is None
    &&& !g.scanning
    &&& g.error is None
    &&& g.cursor == 0
    &&& g.pending_uninstall is None
    &&& !g.uninstalling
}

/// No work is running and nothing is being reported on.
pub open spec fn work_cleared(p: Progress) -> bool {
    &&& p.cleaning_completed == 0
    &&& p.cleaning_total == 0
    &&& p.cleaning_disk_before is None
    &&& p.active_cleaner is None
    &&& p.active_target is None
    &&& p.active_target_size == 0
    &&& p.active_detail is None
}

fn fresh_review(expected_scans: usize) -> (r: Review)
    ensures
        review_cleared(r),
        r.expected_scans == expected_scans,
{
    Review {
        rows: Vec::new(),
        cursor: 0,
        trash_target: None,
        trash_selected: false,
        pending_empty_trash: false,
        readonly_report: None,
        received_scans: 0,
        expected_scans,
    }
}

fn fresh_global() -> (g: GlobalView)
    ensures
        global_cleared(g),
{
    GlobalView {
        show: false,
        tools: None,
        scanning: false,
        error: None,
        cursor: 0,
        pending_uninstall: None,
        uninstalling: false,
    }
}

fn fresh_standalone() -> (g: StandaloneView)
    ensures
        standalone_cleared(g),
{
    StandaloneView {
        show: false,
        tools: None,
        scanning: false,
        error: None,
        cursor: 0,
        pending_uninstall: None,
        uninstalling: false,
    }
}

impl App {
    /// The screen at start-up: scanning, in dry-run mode, with the release
    /// check pending and nothing open.
    pub fn new(expected_scans: usize, current_version: &str, disk: Option<DiskUsage>) -> (app: App)
        ensures
            app.screen.mode == Mode::Scanning,
            app.screen.dry_run,
            app.screen.confirm_text@.len() == 0,
            app.screen.info_overlay is None,
            app.screen.last_action is None,
            review_cleared(app.review),
            app.review.expected_scans == expected_scans,
            app.progress.current_version@ == current_version@,
            app.progress.update_state is Checking,
            app.progress.disk == disk,
            app.progress.results@.len() == 0,
            app.progress.errors@.len() == 0,
            work_cleared(app.progress),
            explorer_cleared(app.explorer),
            app.explorer.full_disk is None,
            !app.explorer.full_disk_scanning,
            app.explorer.full_disk_error is None,
            global_cleared(app.global),
            standalone_cleared(app.standalone),
    {
        App {
            screen: Screen {
                mode: Mode::Scanning,
                dry_run: true,
                confirm_text: String::new(),
                info_overlay: None,
                last_action: None,
            },
            review: fresh_review(expected_scans),
            progress: Progress {
                current_version: current_version.to_string(),
                update_state: UpdateState::Checking,
                disk,
                results: Vec::new(),
                errors: Vec::new(),
                cleaning_completed: 0,
                cleaning_total: 0,
                cleaning_disk_before: None,
                active_cleaner: None,
                active_target: None,
                active_target_size: 0,
                active_detail: None,
            },
            explorer: Explorer {
                full_disk: None,
                full_disk_scanning: false,
                full_disk_error: None,
                show_full_disk: false,
                full_disk_cursor: 0,
                full_disk_phase: String::new(),
                full_disk_completed: 0,
                full_disk_total: 0,
                directory_scan: None,
                directory_scanning: false,
                directory_error: None,
                directory_history: Vec::new(),
                directory_cursor: 0,
                pending_explorer_delete: None,
                explorer_deleting: false,
            },
            global: fresh_global(),
            standalone: fresh_standalone(),
        }
    }

    /// Clears the screen for a new scan of `expected_scans` rules. The
    /// dry-run choice, the last message, the version and release check, the
    /// last results and errors, and the whole-disk inventory are kept; the
    /// disk usage is refreshed when `disk_now` could be read.
    pub fn reset_for_scan(&mut self, expected_scans: usize, disk_now: Option<DiskUsage>)
        ensures
            final(self).screen.mode == Mode::Scanning,
            final(self).screen.confirm_text@.len() == 0,
            final(self).screen.info_overlay is None,
            final(self).screen.dry_run == old(self).screen.dry_run,
            final(self).screen.last_action == old(self).screen.last_action,
            review_cleared(final(self).review),
            final(self).review.expected_scans == expected_scans,
            work_cleared(final(self).progress),
            final(self).progress.disk == match disk_now {
                Some(d) => Some(d),
                None => old(self).progress.disk,
            },
            final(self).progress.current_version == old(self).progress.current_version,
            final(self).progress.update_state == old(self).progress.update_state,
            final(self).progress.results == old(self).progress.results,
            final(self).progress.errors == old(self).progress.errors,
            explorer_cleared(final(self).explorer),
            final(self).explorer.full_disk == old(self).explorer.full_disk,
            final(self).explorer.full_disk_scanning == old(self).explorer.full_disk_scanning,
            final(self).explorer.full_disk_error == old(self).explorer.full_disk_error,
            global_cleared(final(self).global),
            standalone_cleared(final(self).standalone),
    {
        self.screen.mode = Mode::Scanning;
        self.screen.confirm_text = String::new();
        self.screen.info_overlay = None;
        self.review = fresh_review(expected_scans);
        self.progress.cleaning_completed = 0;
        self.progress.cleaning_total = 0;
        self.progress.cleaning_disk_before = None;
        self.progress.active_cleaner = None;
        self.progress.active_target = None;
        self.progress.active_target_size = 0;
        self.progress.active_detail = None;
        match disk_now {
            Some(d) => {
                self.progress.disk = Some(d);
            },
            None => {},
        }
        self.explorer.show_full_disk = false;
        self.explorer.full_disk_cursor = 0;
        self.explorer.full_disk_phase = String::new();
        self.explorer.full_disk_completed = 0;
        self.explorer.full_disk_total = 0;
        self.explorer.directory_scan = None;
        self.explorer.directory_scanning = false;
        self.explorer.directory_error = None;
        self.explorer.directory_history = Vec::new();
        self.explorer.directory_cursor = 0;
        self.explorer.pending_explorer_delete = None;
        self.explorer.explorer_deleting = false;
        self.global = fresh_global();
        self.standalone = fresh_standalone();
    }

    /// The release that can be installed, if the check found one.
    pub fn available_update(&self) -> (r: Option<UpdateInfo>)
        ensures
            match self.progress.update_state {
                UpdateState::Available(u) => r == Some(u),
                _ => r is None,
            },
    {
        match &self.progress.update_state {
            UpdateState::Available(update) => Some(update.duplicate()),
            _ => None,
        }
    }
}

// ---------------------------------------------------------------------------
// Scan results and selection
// ---------------------------------------------------------------------------

/// The review rows of a rule's report: Safe targets start selected.
pub open spec fn report_rows(r: CleanerScan) -> Seq<TargetRow> {
    r.targets@.map_values(
        |t: CleanTarget|
            TargetRow {
                cleaner_id: r.cleaner_id,
                cleaner_name: r.display_name,
                category: r.category,
                risk: r.risk_level,
                target: t,
                selected: r.risk_level == RiskLevel::Safe,
            },
    )
}

/// The number of selected rows.
pub open spec fn count_selected(rows: Seq<TargetRow>) -> nat
    decreases rows.len(),
{
    if rows.len() == 0 {
        0
    } else {
        count_selected(rows.drop_last()) + if rows.last().selected {
            1nat
        } else {
            0nat
        }
    }
}

/// The bytes of the selected rows.
pub open spec fn size_selected(rows: Seq<TargetRow>) -> nat
    decreases rows.len(),
{
    if rows.len() == 0 {
        0
    } else {
        size_selected(rows.drop_last()) + if rows.last().selected {
            rows.last().target.size_bytes as nat
        } else {
            0nat
        }
    }
}

/// Whether some selected row needs manual review.
pub open spec fn manual_selected(rows: Seq<TargetRow>) -> bool {
    exists|i: int| 0 <= i < rows.len() && #[trigger] rows[i].selected && rows[i].risk == RiskLevel::Manual
}

/// Whether a real (not dry-run) clean would include a Manual target.
pub open spec fn manual_selection(a: App) -> bool {
    !a.screen.dry_run && manual_selected(a.review.rows@)
}

pub open spec fn trash_counted(r: Review) -> bool {
    r.trash_selected && r.trash_target is Some
}

pub open spec fn selected_count_spec(r: Review) -> nat {
    count_selected(r.rows@) + if trash_counted(r) {
        1nat
    } else {
        0nat
    }
}

pub open spec fn selected_size_spec(r: Review) -> nat {
    size_selected(r.rows@) + if trash_counted(r) {
        r.trash_target.unwrap().size_bytes as nat
    } else {
        0nat
    }
}

/// Where a cursor goes when moved by `delta` over a list of `len` items: up
/// stops at the first item, down at the last; nothing moves in an empty
/// list.
pub open spec fn moved_cursor(cursor: int, len: int, delta: int) -> int {
    if len == 0 {
        cursor
    } else if delta < 0 {
        if cursor + delta < 0 {
            0
        } else {
            cursor + delta
        }
    } else if cursor + delta > len - 1 {
        len - 1
    } else {
        cursor + delta
    }
}

fn move_index(cursor: usize, len: usize, delta: i32) -> (r: usize)
    requires
        delta >= 0 ==> cursor + delta <= usize::MAX,
    ensures
        r == moved_cursor(cursor as int, len as int, delta as int),
{
    if len == 0 {
        return cursor;
    }
    let max = len - 1;
    if delta < 0 {
        let step: u64 = (0i64 - (delta as i64)) as u64;
        if (cursor as u64) < step {
            0
        } else {
            cursor - (step as usize)
        }
    } else {
        let next = cursor + (delta as usize);
        if next > max {
            max
        } else {
            next
        }
    }
}

/// The rows with the row at `i` toggled.
pub open spec fn toggled(rows: Seq<TargetRow>, i: int) -> Seq<TargetRow> {
    if 0 <= i < rows.len() {
        rows.update(i, TargetRow { selected: !rows[i].selected, ..rows[i] })
    } else {
        rows
    }
}

/// The rows with every Safe row selected.
pub open spec fn safe_selected(rows: Seq<TargetRow>) -> Seq<TargetRow> {
    rows.map_values(
        |r: TargetRow|
            if r.risk == RiskLevel::Safe {
                TargetRow { selected: true, ..r }
            } else {
                r
            },
    )
}

impl TargetRow {
    fn from_target(cleaner_id: &String, cleaner_name: &String, category: Category, risk: RiskLevel, t: CleanTarget) -> (row: TargetRow)
        ensures
            row == (TargetRow {
                cleaner_id: *cleaner_id,
                cleaner_name: *cleaner_name,
                category,
                risk,
                target: t,
                selected: risk == RiskLevel::Safe,
            }),
    {
        let safe = match risk {
            RiskLevel::Safe => true,
            _ => false,
        };
        TargetRow {
            cleaner_id: cleaner_id.clone(),
            cleaner_name: cleaner_name.clone(),
            category,
            risk,
            target: t,
            selected: safe,
        }
    }
}

impl Review {
    /// Takes in one rule's report; see [`App::add_scan`].
    pub fn add_scan(&mut self, report: CleanerScan)
        requires
            old(self).received_scans < usize::MAX,
        ensures
            report.risk_level == RiskLevel::Destructive ==> *final(self) == (Review {
                received_scans: (old(self).received_scans + 1) as usize,
                trash_target: if report.targets@.len() > 0 {
                    Some(report.targets@[0])
                } else {
                    None::<CleanTarget>
                },
                trash_selected: false,
                ..*old(self)
            }),
            report.risk_level != RiskLevel::Destructive ==> *final(self) == (Review {
                received_scans: (old(self).received_scans + 1) as usize,
                rows: final(self).rows,
                ..*old(self)
            }) && final(self).rows@ == stable_sorted(old(self).rows@ + report_rows(report)),
    {
        self.received_scans = self.received_scans + 1;
        let destructive = match report.risk_level {
            RiskLevel::Destructive => true,
            _ => false,
        };
        if destructive {
            let mut targets = report.targets;
            self.trash_target = if targets.len() > 0 {
                Some(targets.remove(0))
            } else {
                None
            };
            self.trash_selected = false;
            return;
        }
        let mut rows: Vec<TargetRow> = Vec::new();
        std::mem::swap(&mut rows, &mut self.rows);
        let ghost start = rows@;
        let id = report.cleaner_id.clone();
        let name = report.display_name.clone();
        let category = report.category;
        let risk = report.risk_level;
        let mut targets = report.targets;
        let ghost ts = targets@;
        let mut rev: Vec<CleanTarget> = Vec::new();
        while targets.len() > 0
            invariant
                targets@ == ts.take(targets@.len() as int),
                targets@.len() <= ts.len(),
                rev@.len() == ts.len() - targets@.len(),
                forall|k: int| 0 <= k < rev@.len() ==> #[trigger] rev@[k] == ts[ts.len() - 1 - k],
            decreases targets.len(),
        {
            let ghost m = targets@.len();
            let t = targets.pop().unwrap();
            rev.push(t);
            assert(targets@ =~= ts.take(m - 1));
        }
        let mut i: usize = rev.len();
        while i > 0
            invariant
                i <= ts.len(),
                rev@.len() == i,
                ts == report.targets@,
                id == report.cleaner_id,
                name == report.display_name,
                category == report.category,
                risk == report.risk_level,
                forall|k: int| 0 <= k < rev@.len() ==> #[trigger] rev@[k] == ts[ts.len() - 1 - k],
                rows@ =~= start + report_rows(report).take(ts.len() - i),
            decreases i,
        {
            let ghost m = ts.len() - i;
            let t = rev.pop().unwrap();
            assert(t == ts[m]);
            let row = TargetRow::from_target(&id, &name, category, risk, t);
            rows.push(row);
            assert(report_rows(report).take(m + 1) =~= report_rows(report).take(m).push(
                report_rows(report)[m],
            ));
            i = i - 1;
        }
        assert(report_rows(report).take(ts.len() as int) =~= report_rows(report));
        self.rows = stable_sort(rows);
    }

    /// The number of selected targets, the Trash included.
    pub fn selected_count(&self) -> (n: usize)
        requires
            self.rows@.len() < usize::MAX,
        ensures
            n == selected_count_spec(*self),
    {
        let mut n: usize = 0;
        for i in 0..self.rows.len()
            invariant
                n == count_selected(self.rows@.take(i as int)),
                n <= i,
                self.rows@.len() < usize::MAX,
        {
            assert(self.rows@.take(i + 1).drop_last() =~= self.rows@.take(i as int));
            if self.rows[i].selected {
                n = n + 1;
            }
        }
        assert(self.rows@.take(self.rows.len() as int) =~= self.rows@);
        if self.trash_selected && self.trash_target.is_some() {
            n = n + 1;
        }
        n
    }

    /// The bytes of the selected targets, the Trash included, when that sum
    /// fits in 64 bits.
    pub fn selected_size_checked(&self) -> (r: Option<u64>)
        ensures
            match r {
                Some(n) => n == selected_size_spec(*self),
                None => selected_size_spec(*self) > u64::MAX,
            },
    {
        let mut total: u64 = 0;
        for i in 0..self.rows.len()
            invariant
                total == size_selected(self.rows@.take(i as int)),
        {
            assert(self.rows@.take(i + 1).drop_last() =~= self.rows@.take(i as int));
            if self.rows[i].selected {
                let size = self.rows[i].target.size_bytes;
                if total > u64::MAX - size {
                    proof {
                        lemma_size_prefix(self.rows@, i + 1);
                    }
                    return None;
                }
                total = total + size;
            }
        }
        assert(self.rows@.take(self.rows.len() as int) =~= self.rows@);
        if self.trash_selected {
            match &self.trash_target {
                Some(t) => {
                    if total > u64::MAX - t.size_bytes {
                        return None;
                    }
                    total = total + t.size_bytes;
                },
                None => {},
            }
        }
        Some(total)
    }

    /// The bytes of the selected targets, the Trash included.
    pub fn selected_size(&self) -> (n: u64)
        requires
            selected_size_spec(*self) <= u64::MAX,
        ensures
            n == selected_size_spec(*self),
    {
        match self.selected_size_checked() {
            Some(n) => n,
            None => 0,
        }
    }

    /// Whether some selected row needs manual review.
    pub fn has_manual_row(&self) -> (r: bool)
        ensures
            r == manual_selected(self.rows@),
    {
        let mut i: usize = 0;
        while i < self.rows.len()
            invariant
                i <= self.rows@.len(),
                forall|k: int| 0 <= k < i ==> !(#[trigger] self.rows@[k].selected && self.rows@[k].risk == RiskLevel::Manual),
            decreases self.rows.len() - i,
        {
            let manual = match self.rows[i].risk {
                RiskLevel::Manual => true,
                _ => false,
            };
            if self.rows[i].selected && manual {
                assert(self.rows@[i as int].selected && self.rows@[i as int].risk == RiskLevel::Manual);
                return true;
            }
            i = i + 1;
        }
        false
    }

    /// Flips the selection of the row under the cursor.
    pub fn toggle_current(&mut self)
        ensures
            *final(self) == (Review { rows: final(self).rows, ..*old(self) }),
            final(self).rows@ == toggled(old(self).rows@, old(self).cursor as int),
    {
        if self.cursor < self.rows.len() {
            let i = self.cursor;
            let mut rows: Vec<TargetRow> = Vec::new();
            std::mem::swap(&mut rows, &mut self.rows);
            let ghost before = rows@;
            let mut row = rows.remove(i);
            row.selected = !row.selected;
            rows.insert(i, row);
            assert(rows@ =~= before.update(i as int, row));
            self.rows = rows;
        }
    }

    /// Flips the selection of the Trash, when there is a Trash target.
    pub fn toggle_trash(&mut self)
        ensures
            *final(self) == (Review {
                trash_selected: if old(self).trash_target is Some {
                    !old(self).trash_selected
                } else {
                    old(self).trash_selected
                },
                ..*old(self)
            }),
    {
        if self.trash_target.is_some() {
            self.trash_selected = !self.trash_selected;
        }
    }

    /// Selects every Safe row; other rows keep their selection.
    pub fn select_all_safe(&mut self)
        ensures
            *final(self) == (Review { rows: final(self).rows, ..*old(self) }),
            final(self).rows@ == safe_selected(old(self).rows@),
    {
        let mut rows: Vec<TargetRow> = Vec::new();
        std::mem::swap(&mut rows, &mut self.rows);
        let ghost orig = rows@;
        let mut i: usize = 0;
        while i < rows.len()
            invariant
                i <= rows@.len(),
                rows@.len() == orig.len(),
                forall|k: int| 0 <= k < i ==> #[trigger] rows@[k] == safe_selected(orig)[k],
                forall|k: int| i <= k < rows@.len() ==> #[trigger] rows@[k] == orig[k],
            decreases rows.len() - i,
        {
            let safe = match rows[i].risk {
                RiskLevel::Safe => true,
                _ => false,
            };
            if safe {
                let mut row = rows.remove(i);
                row.selected = true;
                rows.insert(i, row);
            }
            i = i + 1;
        }
        assert(rows@ =~= safe_selected(orig));
        self.rows = rows;
    }

    /// Moves the review cursor.
    pub fn move_cursor(&mut self, delta: i32)
        requires
            delta >= 0 ==> old(self).cursor + delta <= usize::MAX,
        ensures
            *final(self) == (Review {
                cursor: moved_cursor(old(self).cursor as int, old(self).rows@.len() as int, delta as int) as usize,
                ..*old(self)
            }),
    {
        self.cursor = move_index(self.cursor, self.rows.len(), delta);
    }
}

impl App {
    /// Takes in one rule's report. The Destructive rule (the Trash) becomes
    /// the separate, unselected Trash target; every other rule's targets join
    /// the review rows, which stay ordered largest first.
    pub fn add_scan(&mut self, report: CleanerScan)
        requires
            old(self).review.received_scans < usize::MAX,
        ensures
            *final(self) == (App { review: final(self).review, ..*old(self) }),
            report.risk_level == RiskLevel::Destructive ==> final(self).review == (Review {
                received_scans: (old(self).review.received_scans + 1) as usize,
                trash_target: if report.targets@.len() > 0 {
                    Some(report.targets@[0])
                } else {
                    None::<CleanTarget>
                },
                trash_selected: false,
                ..old(self).review
            }),
            report.risk_level != RiskLevel::Destructive ==> final(self).review == (Review {
                received_scans: (old(self).review.received_scans + 1) as usize,
                rows: final(self).review.rows,
                ..old(self).review
            }) && final(self).review.rows@ == stable_sorted(old(self).review.rows@ + report_rows(report)),
    {
        self.review.add_scan(report);
    }

    pub fn selected_count(&self) -> (n: usize)
        requires
            self.review.rows@.len() < usize::MAX,
        ensures
            n == selected_count_spec(self.review),
    {
        self.review.selected_count()
    }

    pub fn selected_size(&self) -> (n: u64)
        requires
            selected_size_spec(self.review) <= u64::MAX,
        ensures
            n == selected_size_spec(self.review),
    {
        self.review.selected_size()
    }

    /// Whether a real (not dry-run) clean would include a target that needs
    /// manual review.
    pub fn has_manual_selection(&self) -> (r: bool)
        ensures
            r == manual_selection(*self),
    {
        !self.screen.dry_run && self.review.has_manual_row()
    }
}

proof fn lemma_size_prefix(rows: Seq<TargetRow>, k: int)
    requires
        0 <= k <= rows.len(),
    ensures
        size_selected(rows.take(k)) <= size_selected(rows),
    decreases rows.len() - k,
{
    if k < rows.len() {
        lemma_size_prefix(rows, k + 1);
        assert(rows.take(k + 1).drop_last() =~= rows.take(k));
    } else {
        assert(rows.take(k) =~= rows);
    }
}

/// A cursor inside a non-empty list stays inside it, whichever way it
/// moves.
pub proof fn cursor_stays_in_range(cursor: int, len: int, delta: int)
    requires
        0 <= cursor < len,
    ensures
        0 <= moved_cursor(cursor, len, delta) < len,
{
}

/// Toggling the same row twice restores the selection.
pub proof fn toggling_twice_restores(rows: Seq<TargetRow>, i: int)
    ensures
        toggled(toggled(rows, i), i) =~= rows,
{
}

/// Selecting every Safe row twice is the same as doing it once.
pub proof fn selecting_safe_rows_is_idempotent(rows: Seq<TargetRow>)
    ensures
        safe_selected(safe_selected(rows)) =~= safe_selected(rows),
{
}

// ---------------------------------------------------------------------------
// Lists shown by the other views
// ---------------------------------------------------------------------------

pub open spec fn full_disk_entries_spec(e: Explorer) -> Seq<DiskScanEntry> {
    match e.full_disk {
        Some(r) => r.root_entries@ + r.home_entries@ + r.readonly_entries@,
        None => Seq::empty(),
    }
}

pub open spec fn global_len(g: GlobalView) -> int {
    match g.tools {
        Some(s) => s.tools@.len() as int,
        None => 0,
    }
}

pub open spec fn standalone_len(g: StandaloneView) -> int {
    match g.tools {
        Some(s) => s.tools@.len() as int,
        None => 0,
    }
}

/// The number of rows the explorer shows: the opened folder's entries, or
/// the whole-disk inventory when no folder is open.
pub open spec fn directory_len(e: Explorer) -> int {
    match e.directory_scan {
        Some(s) => s.entries@.len() as int,
        None => full_disk_entries_spec(e).len() as int,
    }
}

fn append_entries(out: &mut Vec<DiskScanEntry>, v: &Vec<DiskScanEntry>)
    ensures
        final(out)@ == old(out)@ + v@,
{
    let ghost start = out@;
    for i in 0..v.len()
        invariant
            out@ == start + v@.take(i as int),
    {
        out.push(v[i].duplicate());
        assert(start + v@.take(i + 1) =~= (start + v@.take(i as int)).push(v@[i as int]));
    }
    assert(v@.take(v.len() as int) =~= v@);
}

impl Explorer {
    /// The path of the whole-disk row under the cursor, when no folder is
    /// open and the cursor is on a row.
    pub fn inventory_row(&self) -> (r: Option<String>)
        ensures
            r == (if self.directory_scan is Some || self.full_disk_cursor >= full_disk_entries_spec(*self).len() {
                None::<String>
            } else {
                Some(full_disk_entries_spec(*self)[self.full_disk_cursor as int].path)
            }),
    {
        if self.directory_scan.is_some() {
            return None;
        }
        let entries = self.full_disk_entries();
        if self.full_disk_cursor < entries.len() {
            Some(entries[self.full_disk_cursor].path.clone())
        } else {
            None
        }
    }

    /// The folder to open for an inventory row at `path`: the row itself when
    /// it is a directory (`is_dir`), else its parent folder, else `root`.
    pub fn inventory_folder(path: String, is_dir: bool, parent: Option<String>, root: &str) -> (r: String)
        ensures
            r@ == if is_dir {
                path@
            } else {
                match parent {
                    Some(q) => q@,
                    None => root@,
                }
            },
    {
        if is_dir {
            path
        } else {
            match parent {
                Some(q) => q,
                None => root.to_string(),
            }
        }
    }

    /// The whole-disk inventory as one list: root entries, then home
    /// entries, then read-only entries.
    pub fn full_disk_entries(&self) -> (out: Vec<DiskScanEntry>)
        ensures
            out@ == full_disk_entries_spec(*self),
    {
        let mut out: Vec<DiskScanEntry> = Vec::new();
        match &self.full_disk {
            Some(r) => {
                append_entries(&mut out, &r.root_entries);
                append_entries(&mut out, &r.home_entries);
                append_entries(&mut out, &r.readonly_entries);
            },
            None => {},
        }
        out
    }

    pub fn entries_len(&self) -> (n: usize)
        ensures
            n == directory_len(*self),
    {
        match &self.directory_scan {
            Some(s) => s.entries.len(),
            None => self.full_disk_entries().len(),
        }
    }

    /// Moves the explorer cursor; the inventory cursor follows it.
    pub fn move_directory_cursor(&mut self, delta: i32)
        requires
            delta >= 0 ==> old(self).directory_cursor + delta <= usize::MAX,
        ensures
            directory_len(*old(self)) == 0 ==> *final(self) == *old(self),
            directory_len(*old(self)) > 0 ==> *final(self) == (Explorer {
                directory_cursor: moved_cursor(old(self).directory_cursor as int, directory_len(*old(self)), delta as int) as usize,
                full_disk_cursor: moved_cursor(old(self).directory_cursor as int, directory_len(*old(self)), delta as int) as usize,
                ..*old(self)
            }),
    {
        let n = self.entries_len();
        if n == 0 {
            return;
        }
        let c = move_index(self.directory_cursor, n, delta);
        self.directory_cursor = c;
        self.full_disk_cursor = c;
    }
}

impl GlobalView {
    pub fn tools_len(&self) -> (n: usize)
        ensures
            n == global_len(*self),
    {
        match &self.tools {
            Some(s) => s.tools.len(),
            None => 0,
        }
    }

    pub fn move_cursor(&mut self, delta: i32)
        requires
            delta >= 0 ==> old(self).cursor + delta <= usize::MAX,
        ensures
            *final(self) == (GlobalView {
                cursor: moved_cursor(old(self).cursor as int, global_len(*old(self)), delta as int) as usize,
                ..*old(self)
            }),
    {
        let n = self.tools_len();
        self.cursor = move_index(self.cursor, n, delta);
    }
}

impl StandaloneView {
    pub fn tools_len(&self) -> (n: usize)
        ensures
            n == standalone_len(*self),
    {
        match &self.tools {
            Some(s) => s.tools.len(),
            None => 0,
        }
    }

    pub fn move_cursor(&mut self, delta: i32)
        requires
            delta >= 0 ==> old(self).cursor + delta <= usize::MAX,
        ensures
            *final(self) == (StandaloneView {
                cursor: moved_cursor(old(self).cursor as int, standalone_len(*old(self)), delta as int) as usize,
                ..*old(self)
            }),
    {
        let n = self.tools_len();
        self.cursor = move_index(self.cursor, n, delta);
    }
}

// ---------------------------------------------------------------------------
// Keys
// ---------------------------------------------------------------------------

pub open spec fn is_down(k: Key) -> bool {
    k == Key::Down || k == Key::Char('j')
}

pub open spec fn is_up(k: Key) -> bool {
    k == Key::Up || k == Key::Char('k')
}

pub open spec fn is_cancel(k: Key) -> bool {
    k == Key::Esc || k == Key::Char('n')
}

/// `1` for a downward move, `-1` for an upward one.
pub open spec fn step_of(k: Key) -> int {
    if is_down(k) {
        1
    } else {
        -1
    }
}

/// One line of the read-only overlay: the path and its size.
pub open spec fn info_line(t: ReadOnlyTarget) -> Seq<char> {
    t.path@ + "  ·  "@ + decimal_size(t.size_bytes)
}

/// The read-only overlay: the report's advice, a blank line, then one line
/// per location (or a note that there is none).
pub open spec fn info_text(r: ReadOnlyScan) -> Seq<char> {
    r.advice@ + "\n\n"@ + if r.targets@.len() == 0 {
        "No current read-only items reported."@
    } else {
        join_seq(r.targets@.map_values(|t: ReadOnlyTarget| info_line(t)), "\n"@)
    }
}

fn info_overlay_text(r: &ReadOnlyScan) -> (s: String)
    ensures
        s@ == info_text(*r),
{
    let mut s = r.advice.clone();
    push_str(&mut s, "\n\n");
    if r.targets.len() == 0 {
        push_str(&mut s, "No current read-only items reported.");
        return s;
    }
    let mut lines: Vec<Vec<char>> = Vec::new();
    for i in 0..r.targets.len()
        invariant
            lines.deep_view() =~= r.targets@.take(i as int).map_values(|t: ReadOnlyTarget| info_line(t)),
    {
        let t = &r.targets[i];
        let mut line = t.path.clone();
        push_str(&mut line, "  ·  ");
        let size = format_size_decimal(t.size_bytes);
        push_str(&mut line, size.as_str());
        let c = chars_of(line.as_str());
        proof {
            crate::text::lemma_chars_deep_view(c);
        }
        let ghost before = lines.deep_view();
        lines.push(c);
        assert(lines.deep_view() =~= before.push(info_line(r.targets@[i as int])));
        assert(r.targets@.take(i + 1) =~= r.targets@.take(i as int).push(r.targets@[i as int]));
    }
    assert(r.targets@.take(r.targets.len() as int) =~= r.targets@);
    let sep = chars_of("\n");
    let joined = string_of(&join(&lines, sep.as_slice()));
    push_str(&mut s, joined.as_str());
    s
}

/// `s` without its last character.
fn pop_char(s: &mut String)
    ensures
        final(s)@ == if old(s)@.len() > 0 {
            old(s)@.drop_last()
        } else {
            old(s)@
        },
{
    let c = chars_of(s.as_str());
    if c.len() > 0 {
        let kept = slice_chars(c.as_slice(), 0, c.len() - 1);
        *s = string_of(&kept);
    }
}

/// What a key does in a tool list (global or standalone).
pub open spec fn list_key(key: Key, scanning: bool, reload: KeyAction, other: KeyAction, other_key: char, back: KeyAction, uninstall: KeyAction) -> KeyAction {
    if scanning {
        if key == Key::Char('b') {
            back
        } else if key == Key::Char('f') {
            KeyAction::FullDisk
        } else {
            KeyAction::Continue
        }
    } else if key == Key::Enter || key == Key::Char('x') {
        uninstall
    } else if key == Key::Char('r') {
        reload
    } else if key == Key::Char(other_key) {
        other
    } else if key == Key::Char('b') {
        back
    } else if key == Key::Char('f') {
        KeyAction::FullDisk
    } else {
        KeyAction::Continue
    }
}

/// What a key does in the explorer or whole-disk view when it does not move
/// the cursor.
pub open spec fn explorer_key(key: Key, scanning: bool) -> KeyAction {
    if key == Key::Char('b') {
        KeyAction::BackDirectory
    } else if key == Key::Char('f') {
        KeyAction::FullDisk
    } else if scanning {
        KeyAction::Continue
    } else if key == Key::Enter {
        KeyAction::OpenDirectory
    } else if key == Key::Char('w') {
        KeyAction::ToggleAllowlist
    } else if key == Key::Char('x') {
        KeyAction::DeleteFile
    } else {
        KeyAction::Continue
    }
}

/// The screen with only its review list changed.
pub open spec fn review_changed(old: App, new: App) -> bool {
    new == (App { review: new.review, ..old })
}

/// The screen with only its screen part changed.
pub open spec fn screen_changed(old: App, new: App) -> bool {
    new == (App { screen: new.screen, ..old })
}

/// What a key does on the main review list.
#[verifier::opaque]
pub open spec fn review_effect(old: App, key: Key, new: App, action: KeyAction) -> bool {
    if is_down(key) || is_up(key) {
        action == KeyAction::Continue && review_changed(old, new) && new.review == (Review {
            cursor: moved_cursor(old.review.cursor as int, old.review.rows@.len() as int, step_of(key)) as usize,
            ..old.review
        })
    } else if key == Key::Char(' ') {
        action == KeyAction::Continue && review_changed(old, new) && new.review == (Review {
            rows: new.review.rows,
            ..old.review
        }) && new.review.rows@ == toggled(old.review.rows@, old.review.cursor as int)
    } else if key == Key::Char('a') {
        action == KeyAction::Continue && review_changed(old, new) && new.review == (Review {
            rows: new.review.rows,
            ..old.review
        }) && new.review.rows@ == safe_selected(old.review.rows@)
    } else if key == Key::Char('t') {
        action == KeyAction::Continue && review_changed(old, new) && new.review == (Review {
            trash_selected: if old.review.trash_target is Some {
                !old.review.trash_selected
            } else {
                old.review.trash_selected
            },
            ..old.review
        })
    } else if key == Key::Char('i') {
        action == KeyAction::Continue && screen_changed(old, new) && match old.review.readonly_report {
            Some(r) => new.screen == (Screen { info_overlay: new.screen.info_overlay, ..old.screen })
                && match new.screen.info_overlay {
                Some(t) => t@ == info_text(r),
                None => false,
            },
            None => new.screen == (Screen { last_action: new.screen.last_action, ..old.screen })
                && match new.screen.last_action {
                Some(t) => t@ == "Read-only inventory is still scanning"@,
                None => false,
            },
        }
    } else if key == Key::Char('d') {
        action == KeyAction::Continue && new == (App {
            screen: Screen { dry_run: !old.screen.dry_run, ..old.screen },
            ..old
        })
    } else if key == Key::Enter {
        action == KeyAction::Continue && if old.review.trash_selected {
            new == (App {
                screen: Screen { confirm_text: new.screen.confirm_text, mode: Mode::Confirming, ..old.screen },
                review: Review { pending_empty_trash: true, ..old.review },
                ..old
            }) && new.screen.confirm_text@.len() == 0
        } else if selected_count_spec(old.review) > 0 {
            new == (App {
                screen: Screen { confirm_text: new.screen.confirm_text, mode: Mode::Confirming, ..old.screen },
                ..old
            }) && new.screen.confirm_text@.len() == 0
        } else {
            new == old
        }
    } else {
        new == old && action == if key == Key::Char('f') {
            KeyAction::FullDisk
        } else if key == Key::Char('g') {
            KeyAction::GlobalTools
        } else if key == Key::Char('s') {
            KeyAction::StandaloneTools
        } else if key == Key::Char('r') {
            KeyAction::Rescan
        } else {
            KeyAction::Continue
        }
    }
}

/// What a key does in the global tools view.
#[verifier::opaque]
pub open spec fn global_view_effect(old: App, key: Key, new: App, action: KeyAction) -> bool {
    if !old.global.scanning && (is_down(key) || is_up(key)) {
        action == KeyAction::Continue && new == (App {
            global: GlobalView {
                cursor: moved_cursor(old.global.cursor as int, global_len(old.global), step_of(key)) as usize,
                ..old.global
            },
            ..old
        })
    } else {
        new == old && action == list_key(
            key,
            old.global.scanning,
            KeyAction::GlobalTools,
            KeyAction::StandaloneTools,
            's',
            KeyAction::BackGlobalTools,
            KeyAction::UninstallGlobal,
        )
    }
}

/// What a key does in the standalone tools view.
#[verifier::opaque]
pub open spec fn standalone_view_effect(old: App, key: Key, new: App, action: KeyAction) -> bool {
    if !old.standalone.scanning && (is_down(key) || is_up(key)) {
        action == KeyAction::Continue && new == (App {
            standalone: StandaloneView {
                cursor: moved_cursor(old.standalone.cursor as int, standalone_len(old.standalone), step_of(key)) as usize,
                ..old.standalone
            },
            ..old
        })
    } else {
        new == old && action == list_key(
            key,
            old.standalone.scanning,
            KeyAction::StandaloneTools,
            KeyAction::GlobalTools,
            'g',
            KeyAction::BackStandaloneTools,
            KeyAction::UninstallStandalone,
        )
    }
}

/// What a key does in the explorer.
#[verifier::opaque]
pub open spec fn explorer_view_effect(old: App, key: Key, new: App, action: KeyAction) -> bool {
    if !old.explorer.directory_scanning && (is_down(key) || is_up(key)) {
        action == KeyAction::Continue && if directory_len(old.explorer) == 0 {
            new == old
        } else {
            let c = moved_cursor(old.explorer.directory_cursor as int, directory_len(old.explorer), step_of(key)) as usize;
            new == (App {
                explorer: Explorer { directory_cursor: c, full_disk_cursor: c, ..old.explorer },
                ..old
            })
        }
    } else {
        new == old && action == explorer_key(key, old.explorer.directory_scanning)
    }
}

/// What a key does while the review screen is shown: the open view
/// decides.
pub open spec fn reviewing_effect(old: App, key: Key, new: App, action: KeyAction) -> bool {
    if old.global.show {
        global_view_effect(old, key, new, action)
    } else if old.standalone.show {
        standalone_view_effect(old, key, new, action)
    } else if old.explorer.show_full_disk {
        explorer_view_effect(old, key, new, action)
    } else {
        review_effect(old, key, new, action)
    }
}

/// Typing into the confirmation field: a character is appended, Backspace
/// removes the last one, other keys do nothing.
pub open spec fn typed(old: App, key: Key, new: App) -> bool {
    match key {
        Key::Char(c) => new == (App { screen: Screen { confirm_text: new.screen.confirm_text, ..old.screen }, ..old })
            && new.screen.confirm_text@ == old.screen.confirm_text@.push(c),
        Key::Backspace => new == (App { screen: Screen { confirm_text: new.screen.confirm_text, ..old.screen }, ..old })
            && new.screen.confirm_text@ == if old.screen.confirm_text@.len() > 0 {
            old.screen.confirm_text@.drop_last()
        } else {
            old.screen.confirm_text@
        },
        _ => new == old,
    }
}

/// The screen back on the review list, with the typed text cleared.
pub open spec fn back_to_review(old: Screen, new: Screen) -> bool {
    new == (Screen { confirm_text: new.confirm_text, mode: Mode::Reviewing, ..old }) && new.confirm_text@.len() == 0
}

/// Confirming Empty Trash: Esc or `n` cancels; Enter with exactly
/// `EMPTY TRASH` typed starts the clean, unless a Manual target is selected
/// for a real run; other keys edit the typed text.
#[verifier::opaque]
pub open spec fn empty_trash_effect(old: App, key: Key, new: App, action: KeyAction) -> bool {
    if is_cancel(key) {
        action == KeyAction::Continue && back_to_review(old.screen, new.screen) && new == (App {
            screen: new.screen,
            review: Review { pending_empty_trash: false, ..old.review },
            ..old
        })
    } else if key == Key::Enter && old.screen.confirm_text@ == "EMPTY TRASH"@ {
        if manual_selection(old) {
            action == KeyAction::Continue && new == (App {
                screen: new.screen,
                review: Review { pending_empty_trash: false, ..old.review },
                ..old
            }) && new.screen == (Screen {
                confirm_text: new.screen.confirm_text,
                mode: Mode::Reviewing,
                last_action: new.screen.last_action,
                ..old.screen
            }) && new.screen.confirm_text@.len() == 0 && match new.screen.last_action {
                Some(t) => t@ == "Deselect Manual targets before confirming Empty Trash"@,
                None => false,
            }
        } else {
            action == KeyAction::StartCleaning && new == (App {
                screen: Screen { confirm_text: new.screen.confirm_text, ..old.screen },
                review: Review { pending_empty_trash: false, ..old.review },
                ..old
            }) && new.screen.confirm_text@.len() == 0
        }
    } else {
        action == KeyAction::Continue && typed(old, key, new)
    }
}

/// Confirming a global-tool removal.
#[verifier::opaque]
pub open spec fn global_confirm_effect(old: App, key: Key, new: App, action: KeyAction) -> bool {
    if is_cancel(key) {
        action == KeyAction::Continue && back_to_review(old.screen, new.screen) && new == (App {
            screen: new.screen,
            global: GlobalView { pending_uninstall: None, ..old.global },
            ..old
        })
    } else {
        new == old && action == if key == Key::Char('y') {
            KeyAction::StartGlobalUninstall
        } else {
            KeyAction::Continue
        }
    }
}

/// Confirming a standalone-tool removal.
#[verifier::opaque]
pub open spec fn standalone_confirm_effect(old: App, key: Key, new: App, action: KeyAction) -> bool {
    if is_cancel(key) {
        action == KeyAction::Continue && back_to_review(old.screen, new.screen) && new == (App {
            screen: new.screen,
            standalone: StandaloneView { pending_uninstall: None, ..old.standalone },
            ..old
        })
    } else {
        new == old && action == if key == Key::Char('y') {
            KeyAction::StartStandaloneUninstall
        } else {
            KeyAction::Continue
        }
    }
}

/// Confirming an explorer deletion.
#[verifier::opaque]
pub open spec fn explorer_confirm_effect(old: App, key: Key, new: App, action: KeyAction) -> bool {
    if is_cancel(key) {
        action == KeyAction::Continue && back_to_review(old.screen, new.screen) && new == (App {
            screen: new.screen,
            explorer: Explorer { pending_explorer_delete: None, ..old.explorer },
            ..old
        })
    } else {
        new == old && action == if key == Key::Char('y') {
            KeyAction::StartExplorerDelete
        } else {
            KeyAction::Continue
        }
    }
}

/// Confirming a clean: `y` starts it when no Manual target is selected for
/// a real run; with one, only Enter after typing exactly `FORCE` does, and
/// keys edit the typed text. Esc or `n` cancels.
#[verifier::opaque]
pub open spec fn clean_confirm_effect(old: App, key: Key, new: App, action: KeyAction) -> bool {
    let manual = manual_selection(old);
    if is_cancel(key) {
        action == KeyAction::Continue && back_to_review(old.screen, new.screen) && screen_changed(old, new)
    } else if key == Key::Char('y') && !manual {
        action == KeyAction::StartCleaning && new == old
    } else if key == Key::Enter && manual && old.screen.confirm_text@ == "FORCE"@ {
        action == KeyAction::StartCleaning && new == old
    } else if manual {
        action == KeyAction::Continue && typed(old, key, new)
    } else {
        action == KeyAction::Continue && new == old
    }
}

/// What a key does while a confirmation is asked for: the pending dialog
/// decides.
pub open spec fn confirmation_effect(old: App, key: Key, new: App, action: KeyAction) -> bool {
    if old.review.pending_empty_trash {
        empty_trash_effect(old, key, new, action)
    } else if old.global.pending_uninstall is Some {
        global_confirm_effect(old, key, new, action)
    } else if old.standalone.pending_uninstall is Some {
        standalone_confirm_effect(old, key, new, action)
    } else if old.explorer.pending_explorer_delete is Some {
        explorer_confirm_effect(old, key, new, action)
    } else {
        clean_confirm_effect(old, key, new, action)
    }
}

/// The effect of a key press on the screen.
pub open spec fn key_effect(old: App, key: Key, new: App, action: KeyAction) -> bool {
    if key == Key::Char('q') {
        action == KeyAction::Quit && new == old
    } else if old.screen.info_overlay is Some {
        action == KeyAction::Continue && if key == Key::Esc || key == Key::Char('i') {
            new == (App { screen: Screen { info_overlay: None, ..old.screen }, ..old })
        } else {
            new == old
        }
    } else if old.screen.mode == Mode::Reviewing && key == Key::Char('u')
        && old.progress.update_state is Available {
        action == KeyAction::Upgrade && new == old
    } else {
        match old.screen.mode {
            Mode::Reviewing => reviewing_effect(old, key, new, action),
            Mode::Confirming => confirmation_effect(old, key, new, action),
            _ => action == KeyAction::Continue && new == old,
        }
    }
}

/// Every cursor can move down by one, and the row count fits.
pub open spec fn cursors_movable(a: App) -> bool {
    &&& a.review.cursor < usize::MAX
    &&& a.global.cursor < usize::MAX
    &&& a.standalone.cursor < usize::MAX
    &&& a.explorer.directory_cursor < usize::MAX
    &&& a.review.rows@.len() < usize::MAX
}

impl App {
    fn back_to_review(&mut self)
        ensures
            back_to_review(old(self).screen, final(self).screen),
            *final(self) == (App { screen: final(self).screen, ..*old(self) }),
    {
        self.screen.confirm_text = String::new();
        self.screen.mode = Mode::Reviewing;
    }

    fn type_key(&mut self, key: Key)
        ensures
            typed(*old(self), key, *final(self)),
    {
        match key {
            Key::Char(c) => push_char(&mut self.screen.confirm_text, c),
            Key::Backspace => pop_char(&mut self.screen.confirm_text),
            _ => {},
        }
    }

    fn confirm_text_is(&self, text: &str) -> (r: bool)
        ensures
            r == (self.screen.confirm_text@ == text@),
    {
        let c = chars_of(self.screen.confirm_text.as_str());
        chars_eq_str(c.as_slice(), text)
    }

    fn confirm_empty_trash(&mut self, key: Key) -> (action: KeyAction)
        ensures
            empty_trash_effect(*old(self), key, *final(self), action),
    {
        reveal(empty_trash_effect);
        if key == Key::Esc || key == Key::Char('n') {
            self.review.pending_empty_trash = false;
            self.back_to_review();
            return KeyAction::Continue;
        }
        if key == Key::Enter && self.confirm_text_is("EMPTY TRASH") {
            if self.has_manual_selection() {
                self.review.pending_empty_trash = false;
                self.back_to_review();
                self.screen.last_action = Some("Deselect Manual targets before confirming Empty Trash".to_string());
                return KeyAction::Continue;
            }
            self.review.pending_empty_trash = false;
            self.screen.confirm_text = String::new();
            return KeyAction::StartCleaning;
        }
        self.type_key(key);
        KeyAction::Continue
    }

    fn confirm_global(&mut self, key: Key) -> (action: KeyAction)
        ensures
            global_confirm_effect(*old(self), key, *final(self), action),
    {
        reveal(global_confirm_effect);
        if key == Key::Esc || key == Key::Char('n') {
            self.global.pending_uninstall = None;
            self.back_to_review();
            return KeyAction::Continue;
        }
        if key == Key::Char('y') {
            KeyAction::StartGlobalUninstall
        } else {
            KeyAction::Continue
        }
    }

    fn confirm_standalone(&mut self, key: Key) -> (action: KeyAction)
        ensures
            standalone_confirm_effect(*old(self), key, *final(self), action),
    {
        reveal(standalone_confirm_effect);
        if key == Key::Esc || key == Key::Char('n') {
            self.standalone.pending_uninstall = None;
            self.back_to_review();
            return KeyAction::Continue;
        }
        if key == Key::Char('y') {
            KeyAction::StartStandaloneUninstall
        } else {
            KeyAction::Continue
        }
    }

    fn confirm_explorer(&mut self, key: Key) -> (action: KeyAction)
        ensures
            explorer_confirm_effect(*old(self), key, *final(self), action),
    {
        reveal(explorer_confirm_effect);
        if key == Key::Esc || key == Key::Char('n') {
            self.explorer.pending_explorer_delete = None;
            self.back_to_review();
            return KeyAction::Continue;
        }
        if key == Key::Char('y') {
            KeyAction::StartExplorerDelete
        } else {
            KeyAction::Continue
        }
    }

    fn confirm_clean(&mut self, key: Key) -> (action: KeyAction)
        ensures
            clean_confirm_effect(*old(self), key, *final(self), action),
    {
        reveal(clean_confirm_effect);
        let manual = self.has_manual_selection();
        if key == Key::Esc || key == Key::Char('n') {
            self.back_to_review();
            return KeyAction::Continue;
        }
        if key == Key::Char('y') && !manual {
            return KeyAction::StartCleaning;
        }
        if key == Key::Enter && manual && self.confirm_text_is("FORCE") {
            return KeyAction::StartCleaning;
        }
        if manual {
            self.type_key(key);
        }
        KeyAction::Continue
    }

    /// Handles a key while a confirmation is asked for; see
    /// [`confirmation_effect`].
    pub fn handle_confirmation(&mut self, key: Key) -> (action: KeyAction)
        ensures
            confirmation_effect(*old(self), key, *final(self), action),
    {
        if self.review.pending_empty_trash {
            self.confirm_empty_trash(key)
        } else if self.global.pending_uninstall.is_some() {
            self.confirm_global(key)
        } else if self.standalone.pending_uninstall.is_some() {
            self.confirm_standalone(key)
        } else if self.explorer.pending_explorer_delete.is_some() {
            self.confirm_explorer(key)
        } else {
            self.confirm_clean(key)
        }
    }

    fn global_key(&mut self, key: Key) -> (action: KeyAction)
        requires
            old(self).global.cursor < usize::MAX,
        ensures
            global_view_effect(*old(self), key, *final(self), action),
    {
        reveal(global_view_effect);
        let down = key == Key::Down || key == Key::Char('j');
        let up = key == Key::Up || key == Key::Char('k');
        if !self.global.scanning && (down || up) {
            self.global.move_cursor(if down { 1 } else { -1 });
            return KeyAction::Continue;
        }
        if self.global.scanning {
            return if key == Key::Char('b') {
                KeyAction::BackGlobalTools
            } else if key == Key::Char('f') {
                KeyAction::FullDisk
            } else {
                KeyAction::Continue
            };
        }
        if key == Key::Enter || key == Key::Char('x') {
            KeyAction::UninstallGlobal
        } else if key == Key::Char('r') {
            KeyAction::GlobalTools
        } else if key == Key::Char('s') {
            KeyAction::StandaloneTools
        } else if key == Key::Char('b') {
            KeyAction::BackGlobalTools
        } else if key == Key::Char('f') {
            KeyAction::FullDisk
        } else {
            KeyAction::Continue
        }
    }

    fn standalone_key(&mut self, key: Key) -> (action: KeyAction)
        requires
            old(self).standalone.cursor < usize::MAX,
        ensures
            standalone_view_effect(*old(self), key, *final(self), action),
    {
        reveal(standalone_view_effect);
        let down = key == Key::Down || key == Key::Char('j');
        let up = key == Key::Up || key == Key::Char('k');
        if !self.standalone.scanning && (down || up) {
            self.standalone.move_cursor(if down { 1 } else { -1 });
            return KeyAction::Continue;
        }
        if self.standalone.scanning {
            return if key == Key::Char('b') {
                KeyAction::BackStandaloneTools
            } else if key == Key::Char('f') {
                KeyAction::FullDisk
            } else {
                KeyAction::Continue
            };
        }
        if key == Key::Enter || key == Key::Char('x') {
            KeyAction::UninstallStandalone
        } else if key == Key::Char('r') {
            KeyAction::StandaloneTools
        } else if key == Key::Char('g') {
            KeyAction::GlobalTools
        } else if key == Key::Char('b') {
            KeyAction::BackStandaloneTools
        } else if key == Key::Char('f') {
            KeyAction::FullDisk
        } else {
            KeyAction::Continue
        }
    }

    fn explorer_key(&mut self, key: Key) -> (action: KeyAction)
        requires
            old(self).explorer.directory_cursor < usize::MAX,
        ensures
            explorer_view_effect(*old(self), key, *final(self), action),
    {
        reveal(explorer_view_effect);
        let down = key == Key::Down || key == Key::Char('j');
        let up = key == Key::Up || key == Key::Char('k');
        if !self.explorer.directory_scanning && (down || up) {
            self.explorer.move_directory_cursor(if down { 1 } else { -1 });
            return KeyAction::Continue;
        }
        if key == Key::Char('b') {
            KeyAction::BackDirectory
        } else if key == Key::Char('f') {
            KeyAction::FullDisk
        } else if self.explorer.directory_scanning {
            KeyAction::Continue
        } else if key == Key::Enter {
            KeyAction::OpenDirectory
        } else if key == Key::Char('w') {
            KeyAction::ToggleAllowlist
        } else if key == Key::Char('x') {
            KeyAction::DeleteFile
        } else {
            KeyAction::Continue
        }
    }

    fn review_key(&mut self, key: Key) -> (action: KeyAction)
        requires
            old(self).review.cursor < usize::MAX,
            old(self).review.rows@.len() < usize::MAX,
        ensures
            review_effect(*old(self), key, *final(self), action),
    {
        reveal(review_effect);
        let down = key == Key::Down || key == Key::Char('j');
        let up = key == Key::Up || key == Key::Char('k');
        if down || up {
            self.review.move_cursor(if down { 1 } else { -1 });
            return KeyAction::Continue;
        }
        match key {
            Key::Char(' ') => {
                self.review.toggle_current();
                KeyAction::Continue
            },
            Key::Char('a') => {
                self.review.select_all_safe();
                KeyAction::Continue
            },
            Key::Char('t') => {
                self.review.toggle_trash();
                KeyAction::Continue
            },
            Key::Char('i') => {
                match &self.review.readonly_report {
                    Some(report) => {
                        let text = info_overlay_text(report);
                        self.screen.info_overlay = Some(text);
                    },
                    None => {
                        self.screen.last_action = Some("Read-only inventory is still scanning".to_string());
                    },
                }
                KeyAction::Continue
            },
            Key::Char('d') => {
                self.screen.dry_run = !self.screen.dry_run;
                KeyAction::Continue
            },
            Key::Char('f') => KeyAction::FullDisk,
            Key::Char('g') => KeyAction::GlobalTools,
            Key::Char('s') => KeyAction::StandaloneTools,
            Key::Char('r') => KeyAction::Rescan,
            Key::Enter => {
                if self.review.trash_selected {
                    self.screen.confirm_text = String::new();
                    self.review.pending_empty_trash = true;
                    self.screen.mode = Mode::Confirming;
                } else if self.review.selected_count() > 0 {
                    self.screen.confirm_text = String::new();
                    self.screen.mode = Mode::Confirming;
                }
                KeyAction::Continue
            },
            _ => KeyAction::Continue,
        }
    }

    /// Handles a key press; see [`key_effect`].
    pub fn handle_key(&mut self, key: Key) -> (action: KeyAction)
        requires
            cursors_movable(*old(self)),
        ensures
            key_effect(*old(self), key, *final(self), action),
    {
        if key == Key::Char('q') {
            return KeyAction::Quit;
        }
        if self.screen.info_overlay.is_some() {
            if key == Key::Esc || key == Key::Char('i') {
                self.screen.info_overlay = None;
            }
            return KeyAction::Continue;
        }
        let reviewing = match self.screen.mode {
            Mode::Reviewing => true,
            _ => false,
        };
        if reviewing && key == Key::Char('u') && match self.progress.update_state {
            UpdateState::Available(_) => true,
            _ => false,
        } {
            return KeyAction::Upgrade;
        }
        match self.screen.mode {
            Mode::Reviewing => {
                if self.global.show {
                    self.global_key(key)
                } else if self.standalone.show {
                    self.standalone_key(key)
                } else if self.explorer.show_full_disk {
                    self.explorer_key(key)
                } else {
                    self.review_key(key)
                }
            },
            Mode::Confirming => self.handle_confirmation(key),
            _ => KeyAction::Continue,
        }
    }
}

/// Emptying the Trash starts only from its confirmation, after exactly
/// `EMPTY TRASH` has been typed and Enter pressed, and never while a Manual
/// target is selected for a real run.
pub proof fn empty_trash_needs_typed_confirmation(old: App, key: Key, new: App, action: KeyAction)
    requires
        key_effect(old, key, new, action),
        old.screen.mode == Mode::Confirming,
        old.review.pending_empty_trash,
        action == KeyAction::StartCleaning,
    ensures
        key == Key::Enter,
        old.screen.confirm_text@ == "EMPTY TRASH"@,
        !manual_selection(old),
{
    reveal(empty_trash_effect);
}

/// A clean that includes a Manual target for a real run starts only after
/// exactly `FORCE` has been typed and Enter pressed.
pub proof fn manual_targets_need_force(old: App, key: Key, new: App, action: KeyAction)
    requires
        key_effect(old, key, new, action),
        old.screen.mode == Mode::Confirming,
        !old.review.pending_empty_trash,
        old.global.pending_uninstall is None,
        old.standalone.pending_uninstall is None,
        old.explorer.pending_explorer_delete is None,
        manual_selection(old),
        action == KeyAction::StartCleaning,
    ensures
        key == Key::Enter,
        old.screen.confirm_text@ == "FORCE"@,
{
    reveal(clean_confirm_effect);
}

/// `q` always quits, and changes nothing.
pub proof fn q_always_quits(old: App, new: App, action: KeyAction)
    requires
        key_effect(old, Key::Char('q'), new, action),
    ensures
        action == KeyAction::Quit,
        new == old,
{
}

/// No work starts from the review list itself: a key there only edits the
/// screen or asks for a confirmation.
pub proof fn review_keys_start_nothing(old: App, key: Key, new: App, action: KeyAction)
    requires
        key_effect(old, key, new, action),
        old.screen.mode == Mode::Reviewing,
    ensures
        action != KeyAction::StartCleaning,
        action != KeyAction::StartGlobalUninstall,
        action != KeyAction::StartStandaloneUninstall,
        action != KeyAction::StartExplorerDelete,
{
    reveal(review_effect);
    reveal(global_view_effect);
    reveal(standalone_view_effect);
    reveal(explorer_view_effect);
}

} // verus!
