//! What starting and finishing background work does to the review screen.
//!
//! The caller runs the work (a clean, a scan, an uninstall) and reports back
//! what came of it; each function here decides the next state of the screen
//! and, where more work follows, what to run next.
use crate::global::{GlobalTool, GlobalToolResult, GlobalToolScan};
use crate::model::{same_target, CleanResult, CleanTarget};
use crate::global::manager_label;
use crate::size_format::{decimal_size, format_size_decimal};
use crate::standalone::{StandaloneTool, StandaloneToolResult, StandaloneToolScan};
use crate::text::{decimal, decimal_string, push_str};
use crate::paths::{path_eq, path_eq_spec};
use crate::model::CleanMethod;
use crate::scanner::{DirectoryScan, DirectoryScanEntry, FullDiskScan};
use crate::update::UpdateInfo;
use crate::tui::{count_selected, KeyAction, Explorer, GlobalView, StandaloneView, UpdateState, selected_count_spec, App, DiskUsage, Mode, Progress, Review, Screen, TargetRow};
use vstd::prelude::*;

verus! {

broadcast use vstd::string::group_string_axioms;

/// What the cleaning worker reports, in order.
#[derive(Debug)]
pub enum CleanMessage {
    /// Work on a target begins.
    Started { cleaner_id: String, target: CleanTarget },
    /// A line of progress from the running command.
    Progress(String),
    /// A target is done.
    Target(Result<CleanResult, String>),
    /// Every target is done.
    Finished,
}

/// The selected rows, in list order.
pub open spec fn selected_rows(rows: Seq<TargetRow>) -> Seq<TargetRow>
    decreases rows.len(),
{
    if rows.len() == 0 {
        Seq::empty()
    } else if rows.last().selected {
        selected_rows(rows.drop_last()).push(rows.last())
    } else {
        selected_rows(rows.drop_last())
    }
}

/// A job for the rule `cleaner_id` on a copy of `target`.
pub open spec fn job_is(job: (String, CleanTarget), cleaner_id: Seq<char>, target: CleanTarget) -> bool {
    job.0@ == cleaner_id && same_target(job.1, target)
}

/// The jobs of a clean: every selected row's rule and target in list order,
/// then the Trash when it is selected.
pub open spec fn clean_jobs(jobs: Seq<(String, CleanTarget)>, r: Review) -> bool {
    let rows = selected_rows(r.rows@);
    let trash = r.trash_selected && r.trash_target is Some;
    &&& jobs.len() == rows.len() + if trash {
        1int
    } else {
        0int
    }
    &&& forall|i: int| 0 <= i < rows.len() ==> job_is(#[trigger] jobs[i], rows[i].cleaner_id@, rows[i].target)
    &&& trash ==> job_is(jobs[rows.len() as int], "trash"@, r.trash_target.unwrap())
}

proof fn lemma_selected_rows_count(rows: Seq<TargetRow>)
    ensures
        selected_rows(rows).len() == count_selected(rows),
    decreases rows.len(),
{
    if rows.len() > 0 {
        lemma_selected_rows_count(rows.drop_last());
    }
}

proof fn lemma_selected_rows_step(rows: Seq<TargetRow>, i: int)
    requires
        0 <= i < rows.len(),
    ensures
        selected_rows(rows.take(i + 1)) == if rows[i].selected {
            selected_rows(rows.take(i)).push(rows[i])
        } else {
            selected_rows(rows.take(i))
        },
{
    assert(rows.take(i + 1).drop_last() =~= rows.take(i));
}

/// The disk usage to measure a run against: the one shown, or else a fresh
/// reading.
pub open spec fn baseline(shown: Option<DiskUsage>, fresh: Option<DiskUsage>) -> Option<DiskUsage> {
    match shown {
        Some(d) => Some(d),
        None => fresh,
    }
}

fn pick_baseline(shown: Option<DiskUsage>, fresh: Option<DiskUsage>) -> (r: Option<DiskUsage>)
    ensures
        r == baseline(shown, fresh),
{
    match shown {
        Some(d) => Some(d),
        None => fresh,
    }
}

/// The confirmed clean begins: the jobs to run are returned, and the screen
/// switches to progress with no results, no errors and nothing active yet.
/// `disk_now` is a fresh reading of the disk, used when none is shown.
pub open spec fn cleaning_started(old: App, new: App, jobs: Seq<(String, CleanTarget)>, disk_now: Option<DiskUsage>) -> bool {
    &&& clean_jobs(jobs, old.review)
    &&& new.screen == (crate::tui::Screen { mode: Mode::Cleaning, ..old.screen })
    &&& new.review == old.review
    &&& new.explorer == old.explorer
    &&& new.global == old.global
    &&& new.standalone == old.standalone
    &&& new.progress.current_version == old.progress.current_version
    &&& new.progress.update_state == old.progress.update_state
    &&& new.progress.disk == old.progress.disk
    &&& new.progress.results@.len() == 0
    &&& new.progress.errors@.len() == 0
    &&& new.progress.cleaning_completed == 0
    &&& new.progress.cleaning_total == jobs.len()
    &&& new.progress.cleaning_disk_before == baseline(old.progress.disk, disk_now)
    &&& new.progress.active_cleaner is None
    &&& new.progress.active_target is None
    &&& new.progress.active_target_size == 0
    &&& new.progress.active_detail is None
}

impl App {
    /// Starts the confirmed clean; see [`cleaning_started`]. The caller runs
    /// the returned jobs in order, in the screen's dry-run mode, and reports
    /// each step with [`App::on_clean_message`].
    pub fn start_cleaning(&mut self, disk_now: Option<DiskUsage>) -> (jobs: Vec<(String, CleanTarget)>)
        ensures
            cleaning_started(*old(self), *final(self), jobs@, disk_now),
    {
        let mut jobs: Vec<(String, CleanTarget)> = Vec::new();
        let n = self.review.rows.len();
        for i in 0..n
            invariant
                n == self.review.rows@.len(),
                jobs@.len() == selected_rows(self.review.rows@.take(i as int)).len(),
                forall|k: int|
                    0 <= k < jobs@.len() ==> job_is(
                        #[trigger] jobs@[k],
                        selected_rows(self.review.rows@.take(i as int))[k].cleaner_id@,
                        selected_rows(self.review.rows@.take(i as int))[k].target,
                    ),
        {
            proof {
                lemma_selected_rows_step(self.review.rows@, i as int);
            }
            let row = &self.review.rows[i];
            if row.selected {
                jobs.push((row.cleaner_id.clone(), row.target.duplicate()));
            }
        }
        assert(self.review.rows@.take(n as int) =~= self.review.rows@);
        match &self.review.trash_target {
            Some(t) => {
                if self.review.trash_selected {
                    jobs.push(("trash".to_string(), t.duplicate()));
                }
            },
            None => {},
        }
        self.screen.mode = Mode::Cleaning;
        self.progress.results = Vec::new();
        self.progress.errors = Vec::new();
        self.progress.cleaning_completed = 0;
        self.progress.cleaning_total = jobs.len();
        self.progress.cleaning_disk_before = pick_baseline(self.progress.disk, disk_now);
        self.progress.active_cleaner = None;
        self.progress.active_target = None;
        self.progress.active_target_size = 0;
        self.progress.active_detail = None;
        jobs
    }
}

/// `o` holds a string whose text is `s`.
pub open spec fn text_is(o: Option<String>, s: Seq<char>) -> bool {
    match o {
        Some(x) => x@ == s,
        None => false,
    }
}

/// A single piece of work begins: one step to go, measured against
/// `disk_before`, with `who`, `what`, `size` and `detail` shown as active.
pub open spec fn single_job_started(
    old: Progress,
    new: Progress,
    disk_before: Option<DiskUsage>,
    who: Seq<char>,
    what: Seq<char>,
    size: u64,
    detail: Seq<char>,
) -> bool {
    &&& new == (Progress {
        cleaning_completed: 0,
        cleaning_total: 1,
        cleaning_disk_before: disk_before,
        active_cleaner: new.active_cleaner,
        active_target: new.active_target,
        active_target_size: size,
        active_detail: new.active_detail,
        ..old
    })
    &&& text_is(new.active_cleaner, who)
    &&& text_is(new.active_target, what)
    &&& text_is(new.active_detail, detail)
}

impl App {
    fn set_single_job(&mut self, disk_now: Option<DiskUsage>, who: String, what: String, size: u64, detail: &str)
        ensures
            single_job_started(
                old(self).progress,
                final(self).progress,
                baseline(old(self).progress.disk, disk_now),
                who@,
                what@,
                size,
                detail@,
            ),
            *final(self) == (App { progress: final(self).progress, ..*old(self) }),
    {
        self.progress.cleaning_completed = 0;
        self.progress.cleaning_total = 1;
        self.progress.cleaning_disk_before = pick_baseline(self.progress.disk, disk_now);
        self.progress.active_cleaner = Some(who);
        self.progress.active_target = Some(what);
        self.progress.active_target_size = size;
        self.progress.active_detail = Some(detail.to_string());
    }

    /// Starts the confirmed explorer deletion. Without a pending target the
    /// screen just returns to the review list. Otherwise the pending target
    /// is handed back for the caller to move to the Trash, and progress
    /// shows it as the one active step.
    pub fn start_explorer_delete(&mut self, disk_now: Option<DiskUsage>) -> (target: Option<CleanTarget>)
        ensures
            target == old(self).explorer.pending_explorer_delete,
            match target {
                None => *final(self) == (App {
                    screen: Screen { mode: Mode::Reviewing, ..old(self).screen },
                    ..*old(self)
                }),
                Some(t) => {
                    &&& final(self).screen == (Screen { mode: Mode::Cleaning, ..old(self).screen })
                    &&& final(self).explorer == (crate::tui::Explorer {
                        pending_explorer_delete: None,
                        explorer_deleting: true,
                        ..old(self).explorer
                    })
                    &&& single_job_started(
                        old(self).progress,
                        final(self).progress,
                        baseline(old(self).progress.disk, disk_now),
                        "explorer"@,
                        t.path@,
                        t.size_bytes,
                        "moving selected item to Trash"@,
                    )
                    &&& final(self).review == old(self).review
                    &&& final(self).global == old(self).global
                    &&& final(self).standalone == old(self).standalone
                },
            },
    {
        let pending = self.explorer.pending_explorer_delete.take();
        match pending {
            None => {
                self.screen.mode = Mode::Reviewing;
                None
            },
            Some(t) => {
                self.screen.mode = Mode::Cleaning;
                self.explorer.explorer_deleting = true;
                self.set_single_job(disk_now, "explorer".to_string(), t.path.clone(), t.size_bytes, "moving selected item to Trash");
                Some(t)
            },
        }
    }

    /// Starts the confirmed global-tool removal; the pending tool is handed
    /// back for the caller to remove through its package manager.
    pub fn start_global_uninstall(&mut self, disk_now: Option<DiskUsage>) -> (tool: Option<GlobalTool>)
        ensures
            tool == old(self).global.pending_uninstall,
            match tool {
                None => *final(self) == (App {
                    screen: Screen { mode: Mode::Reviewing, ..old(self).screen },
                    ..*old(self)
                }),
                Some(t) => {
                    &&& final(self).screen == (Screen { mode: Mode::Cleaning, ..old(self).screen })
                    &&& final(self).global == (crate::tui::GlobalView {
                        pending_uninstall: None,
                        uninstalling: true,
                        ..old(self).global
                    })
                    &&& single_job_started(
                        old(self).progress,
                        final(self).progress,
                        baseline(old(self).progress.disk, disk_now),
                        manager_label(t.manager),
                        t.name@,
                        0,
                        "waiting for package manager"@,
                    )
                    &&& final(self).review == old(self).review
                    &&& final(self).explorer == old(self).explorer
                    &&& final(self).standalone == old(self).standalone
                },
            },
    {
        let pending = self.global.pending_uninstall.take();
        match pending {
            None => {
                self.screen.mode = Mode::Reviewing;
                None
            },
            Some(t) => {
                self.screen.mode = Mode::Cleaning;
                self.global.uninstalling = true;
                self.set_single_job(disk_now, t.manager.label().to_string(), t.name.clone(), 0, "waiting for package manager");
                Some(t)
            },
        }
    }

    /// Starts the confirmed standalone-tool removal; the pending tool is
    /// handed back for the caller to move to the Trash.
    pub fn start_standalone_uninstall(&mut self, disk_now: Option<DiskUsage>) -> (tool: Option<StandaloneTool>)
        ensures
            tool == old(self).standalone.pending_uninstall,
            match tool {
                None => *final(self) == (App {
                    screen: Screen { mode: Mode::Reviewing, ..old(self).screen },
                    ..*old(self)
                }),
                Some(t) => {
                    &&& final(self).screen == (Screen { mode: Mode::Cleaning, ..old(self).screen })
                    &&& final(self).standalone == (crate::tui::StandaloneView {
                        pending_uninstall: None,
                        uninstalling: true,
                        ..old(self).standalone
                    })
                    &&& single_job_started(
                        old(self).progress,
                        final(self).progress,
                        baseline(old(self).progress.disk, disk_now),
                        "standalone"@,
                        t.path@,
                        t.size_bytes,
                        "moving selected tool to Trash"@,
                    )
                    &&& final(self).review == old(self).review
                    &&& final(self).explorer == old(self).explorer
                    &&& final(self).global == old(self).global
                },
            },
    {
        let pending = self.standalone.pending_uninstall.take();
        match pending {
            None => {
                self.screen.mode = Mode::Reviewing;
                None
            },
            Some(t) => {
                self.screen.mode = Mode::Cleaning;
                self.standalone.uninstalling = true;
                self.set_single_job(disk_now, "standalone".to_string(), t.path.clone(), t.size_bytes, "moving selected tool to Trash");
                Some(t)
            },
        }
    }
}

/// The effect of one report from the cleaning worker; `None` means the
/// worker is gone. The result says whether the clean is over.
pub open spec fn clean_message_effect(old: App, message: Option<CleanMessage>, new: App, finished: bool) -> bool {
    match message {
        Some(CleanMessage::Started { cleaner_id, target }) => {
            &&& !finished
            &&& new == (App {
                progress: Progress {
                    active_cleaner: Some(cleaner_id),
                    active_target: new.progress.active_target,
                    active_target_size: target.size_bytes,
                    active_detail: new.progress.active_detail,
                    ..old.progress
                },
                ..old
            })
            &&& text_is(new.progress.active_target, target.path@)
            &&& text_is(new.progress.active_detail, "starting cleanup command"@)
        },
        Some(CleanMessage::Progress(detail)) => !finished && new == (App {
            progress: Progress { active_detail: Some(detail), ..old.progress },
            ..old
        }),
        Some(CleanMessage::Target(Ok(r))) => !finished && new == (App {
            progress: Progress {
                cleaning_completed: old.progress.cleaning_completed.saturating_add(1),
                results: new.progress.results,
                ..old.progress
            },
            ..old
        }) && new.progress.results@ == old.progress.results@.push(r),
        Some(CleanMessage::Target(Err(e))) => !finished && new == (App {
            progress: Progress {
                cleaning_completed: old.progress.cleaning_completed.saturating_add(1),
                errors: new.progress.errors,
                ..old.progress
            },
            ..old
        }) && new.progress.errors@ == old.progress.errors@.push(e),
        Some(CleanMessage::Finished) => finished && new == old,
        None => finished && if old.progress.cleaning_completed < old.progress.cleaning_total {
            new == (App { progress: Progress { errors: new.progress.errors, ..old.progress }, ..old })
                && new.progress.errors@.len() == old.progress.errors@.len() + 1
                && new.progress.errors@.drop_last() == old.progress.errors@
                && new.progress.errors@.last()@ == "cleanup worker stopped unexpectedly"@
        } else {
            new == old
        },
    }
}

/// The sum of the bytes the results expected to free.
pub open spec fn freed_sum(results: Seq<CleanResult>) -> nat
    decreases results.len(),
{
    if results.len() == 0 {
        0
    } else {
        freed_sum(results.drop_last()) + results.last().expected_freed_bytes as nat
    }
}

/// The bytes the results expected to free, or `u64::MAX` when the sum does
/// not fit in 64 bits.
pub open spec fn capped_freed(results: Seq<CleanResult>) -> u64 {
    if freed_sum(results) <= u64::MAX {
        freed_sum(results) as u64
    } else {
        u64::MAX
    }
}

/// Free space gained between two readings, when both were made; never
/// negative.
pub open spec fn free_change(before: Option<DiskUsage>, after: Option<DiskUsage>) -> u64 {
    match (before, after) {
        (Some(b), Some(a)) => if a.free_bytes >= b.free_bytes {
            (a.free_bytes - b.free_bytes) as u64
        } else {
            0
        },
        _ => 0,
    }
}

/// The line shown when a clean is over.
pub open spec fn clean_summary(dry_run: bool, completed: nat, total: nat, estimated: u64, actual: u64, errors: nat) -> Seq<char> {
    (if dry_run {
        "Previewed"@
    } else {
        "Cleaned"@
    }) + " "@ + decimal(completed) + "/"@ + decimal(total) + " target(s), estimated "@ + decimal_size(estimated)
        + " freed, actual free change "@ + decimal_size(actual) + "; "@ + decimal(errors) + " error(s); "@ + (
    if dry_run {
        "no files changed; targets kept"@
    } else {
        "scan refreshed"@
    })
}

impl App {
    /// Takes in one report from the cleaning worker; see
    /// [`clean_message_effect`].
    pub fn on_clean_message(&mut self, message: Option<CleanMessage>) -> (finished: bool)
        ensures
            clean_message_effect(*old(self), message, *final(self), finished),
    {
        match message {
            Some(CleanMessage::Started { cleaner_id, target }) => {
                self.progress.active_cleaner = Some(cleaner_id);
                self.progress.active_target_size = target.size_bytes;
                self.progress.active_target = Some(target.path);
                self.progress.active_detail = Some("starting cleanup command".to_string());
                false
            },
            Some(CleanMessage::Progress(detail)) => {
                self.progress.active_detail = Some(detail);
                false
            },
            Some(CleanMessage::Target(outcome)) => {
                self.progress.cleaning_completed = self.progress.cleaning_completed.saturating_add(1);
                match outcome {
                    Ok(r) => self.progress.results.push(r),
                    Err(e) => self.progress.errors.push(e),
                }
                false
            },
            Some(CleanMessage::Finished) => true,
            None => {
                if self.progress.cleaning_completed < self.progress.cleaning_total {
                    self.progress.errors.push("cleanup worker stopped unexpectedly".to_string());
                    assert(self.progress.errors@.drop_last() =~= old(self).progress.errors@);
                }
                true
            },
        }
    }

    /// Closes a finished clean. The disk is read again (`disk_now`, or the
    /// reading taken before the clean when none could be made), the summary
    /// line is shown and nothing stays active. A preview returns to the
    /// review list; after a real clean the result is `true` and the caller
    /// starts a fresh scan.
    pub fn finish_cleaning(&mut self, disk_now: Option<DiskUsage>) -> (rescan: bool)
        ensures
            rescan == !old(self).screen.dry_run,
            final(self).screen == (Screen {
                mode: if rescan {
                    old(self).screen.mode
                } else {
                    Mode::Reviewing
                },
                last_action: final(self).screen.last_action,
                ..old(self).screen
            }),
            text_is(
                final(self).screen.last_action,
                clean_summary(
                    old(self).screen.dry_run,
                    old(self).progress.cleaning_completed as nat,
                    old(self).progress.cleaning_total as nat,
                    capped_freed(old(self).progress.results@),
                    free_change(
                        old(self).progress.cleaning_disk_before,
                        baseline(disk_now, old(self).progress.cleaning_disk_before),
                    ),
                    old(self).progress.errors@.len(),
                ),
            ),
            final(self).progress == (Progress {
                disk: baseline(disk_now, old(self).progress.cleaning_disk_before),
                cleaning_disk_before: None,
                active_cleaner: None,
                active_target: None,
                active_target_size: 0,
                active_detail: None,
                ..old(self).progress
            }),
            final(self).review == old(self).review,
            final(self).explorer == old(self).explorer,
            final(self).global == old(self).global,
            final(self).standalone == old(self).standalone,
    {
        let dry_run = self.screen.dry_run;
        let before = self.progress.cleaning_disk_before;
        let after = pick_baseline(disk_now, before);
        let actual: u64 = match (before, after) {
            (Some(b), Some(a)) => a.free_bytes.saturating_sub(b.free_bytes),
            _ => 0,
        };
        let mut estimated: u64 = 0;
        let n = self.progress.results.len();
        for i in 0..n
            invariant
                n == self.progress.results@.len(),
                estimated == capped_freed(self.progress.results@.take(i as int)),
        {
            proof {
                assert(self.progress.results@.take(i + 1).drop_last() =~= self.progress.results@.take(i as int));
            }
            estimated = estimated.saturating_add(self.progress.results[i].expected_freed_bytes);
        }
        assert(self.progress.results@.take(n as int) =~= self.progress.results@);
        let mut line = String::new();
        if dry_run {
            push_str(&mut line, "Previewed");
        } else {
            push_str(&mut line, "Cleaned");
        }
        push_str(&mut line, " ");
        push_str(&mut line, decimal_string(self.progress.cleaning_completed as u64).as_str());
        push_str(&mut line, "/");
        push_str(&mut line, decimal_string(self.progress.cleaning_total as u64).as_str());
        push_str(&mut line, " target(s), estimated ");
        push_str(&mut line, format_size_decimal(estimated).as_str());
        push_str(&mut line, " freed, actual free change ");
        push_str(&mut line, format_size_decimal(actual).as_str());
        push_str(&mut line, "; ");
        push_str(&mut line, decimal_string(self.progress.errors.len() as u64).as_str());
        push_str(&mut line, " error(s); ");
        if dry_run {
            push_str(&mut line, "no files changed; targets kept");
        } else {
            push_str(&mut line, "scan refreshed");
        }
        self.progress.disk = after;
        self.screen.last_action = Some(line);
        self.progress.cleaning_disk_before = None;
        self.progress.active_cleaner = None;
        self.progress.active_target = None;
        self.progress.active_target_size = 0;
        self.progress.active_detail = None;
        if dry_run {
            self.screen.mode = Mode::Reviewing;
            false
        } else {
            true
        }
    }
}

/// What an answer (or, as `None`, a vanished worker) does to a background
/// job's state: `Ok` stores the report and clears the error, `Err` keeps
/// the error, and a vanished worker leaves `lost` as the error. The job is
/// no longer running in every case.
pub open spec fn job_answered<T>(
    outcome: Option<Result<T, String>>,
    report: Option<T>,
    old_report: Option<T>,
    scanning: bool,
    error: Option<String>,
    lost: Seq<char>,
) -> bool {
    &&& !scanning
    &&& match outcome {
        Some(Ok(r)) => report == Some(r) && error is None,
        Some(Err(e)) => report == old_report && error == Some(e),
        None => report == old_report && text_is(error, lost),
    }
}

impl App {
    /// After the rule scans: once every expected report arrived, or the
    /// scanning workers are gone (`workers_gone`), a screen that is still
    /// scanning switches to the review list and shows `disk_now` (or keeps
    /// the disk usage it had when none could be read). Otherwise nothing
    /// changes.
    pub fn finish_scanning_if_done(&mut self, workers_gone: bool, disk_now: Option<DiskUsage>)
        ensures
            if old(self).screen.mode == Mode::Scanning && (workers_gone || old(self).review.received_scans
                == old(self).review.expected_scans) {
                *final(self) == (App {
                    screen: Screen { mode: Mode::Reviewing, ..old(self).screen },
                    progress: Progress { disk: baseline(disk_now, old(self).progress.disk), ..old(self).progress },
                    ..*old(self)
                })
            } else {
                *final(self) == *old(self)
            },
    {
        let scanning = match self.screen.mode {
            Mode::Scanning => true,
            _ => false,
        };
        if scanning && (workers_gone || self.review.received_scans == self.review.expected_scans) {
            self.progress.disk = pick_baseline(disk_now, self.progress.disk);
            self.screen.mode = Mode::Reviewing;
        }
    }

    /// Takes in the release check's answer (`None`: the check vanished).
    pub fn on_update_check(&mut self, outcome: Option<Result<Option<UpdateInfo>, String>>)
        ensures
            *final(self) == (App {
                progress: Progress { update_state: final(self).progress.update_state, ..old(self).progress },
                ..*old(self)
            }),
            match outcome {
                Some(Ok(Some(u))) => final(self).progress.update_state == UpdateState::Available(u),
                Some(Ok(None)) => final(self).progress.update_state == UpdateState::UpToDate,
                Some(Err(e)) => final(self).progress.update_state == UpdateState::Unavailable(e),
                None => match final(self).progress.update_state {
                    UpdateState::Unavailable(e) => e@ == "update check stopped unexpectedly"@,
                    _ => false,
                },
            },
    {
        self.progress.update_state = match outcome {
            Some(Ok(Some(u))) => UpdateState::Available(u),
            Some(Ok(None)) => UpdateState::UpToDate,
            Some(Err(e)) => UpdateState::Unavailable(e),
            None => UpdateState::Unavailable("update check stopped unexpectedly".to_string()),
        };
    }

    /// Takes in the whole-disk inventory's answer.
    pub fn on_full_disk_scan(&mut self, outcome: Option<Result<FullDiskScan, String>>)
        ensures
            *final(self) == (App {
                explorer: Explorer {
                    full_disk: final(self).explorer.full_disk,
                    full_disk_scanning: false,
                    full_disk_error: final(self).explorer.full_disk_error,
                    ..old(self).explorer
                },
                ..*old(self)
            }),
            job_answered(
                outcome,
                final(self).explorer.full_disk,
                old(self).explorer.full_disk,
                final(self).explorer.full_disk_scanning,
                final(self).explorer.full_disk_error,
                "full-disk scan stopped unexpectedly"@,
            ),
    {
        self.explorer.full_disk_scanning = false;
        match outcome {
            Some(Ok(r)) => {
                self.explorer.full_disk = Some(r);
                self.explorer.full_disk_error = None;
            },
            Some(Err(e)) => {
                self.explorer.full_disk_error = Some(e);
            },
            None => {
                self.explorer.full_disk_error = Some("full-disk scan stopped unexpectedly".to_string());
            },
        }
    }

    /// Takes in the global tools scan's answer; a new list starts at its
    /// first tool.
    pub fn on_global_scan(&mut self, outcome: Option<Result<GlobalToolScan, String>>)
        ensures
            *final(self) == (App {
                global: GlobalView {
                    tools: final(self).global.tools,
                    scanning: false,
                    error: final(self).global.error,
                    cursor: final(self).global.cursor,
                    ..old(self).global
                },
                ..*old(self)
            }),
            job_answered(
                outcome,
                final(self).global.tools,
                old(self).global.tools,
                final(self).global.scanning,
                final(self).global.error,
                "global tools scan stopped unexpectedly"@,
            ),
            final(self).global.cursor == match outcome {
                Some(Ok(_)) => 0,
                _ => old(self).global.cursor,
            },
    {
        self.global.scanning = false;
        match outcome {
            Some(Ok(r)) => {
                self.global.tools = Some(r);
                self.global.error = None;
                self.global.cursor = 0;
            },
            Some(Err(e)) => {
                self.global.error = Some(e);
            },
            None => {
                self.global.error = Some("global tools scan stopped unexpectedly".to_string());
            },
        }
    }

    /// Takes in the standalone tools scan's answer; a new list starts at its
    /// first tool.
    pub fn on_standalone_scan(&mut self, outcome: Option<Result<StandaloneToolScan, String>>)
        ensures
            *final(self) == (App {
                standalone: StandaloneView {
                    tools: final(self).standalone.tools,
                    scanning: false,
                    error: final(self).standalone.error,
                    cursor: final(self).standalone.cursor,
                    ..old(self).standalone
                },
                ..*old(self)
            }),
            job_answered(
                outcome,
                final(self).standalone.tools,
                old(self).standalone.tools,
                final(self).standalone.scanning,
                final(self).standalone.error,
                "standalone tools scan stopped unexpectedly"@,
            ),
            final(self).standalone.cursor == match outcome {
                Some(Ok(_)) => 0,
                _ => old(self).standalone.cursor,
            },
    {
        self.standalone.scanning = false;
        match outcome {
            Some(Ok(r)) => {
                self.standalone.tools = Some(r);
                self.standalone.error = None;
                self.standalone.cursor = 0;
            },
            Some(Err(e)) => {
                self.standalone.error = Some(e);
            },
            None => {
                self.standalone.error = Some("standalone tools scan stopped unexpectedly".to_string());
            },
        }
    }

    /// Takes in a directory scan's answer; a new listing starts at its first
    /// entry.
    pub fn on_directory_scan(&mut self, outcome: Option<Result<DirectoryScan, String>>)
        ensures
            *final(self) == (App {
                explorer: Explorer {
                    directory_scan: final(self).explorer.directory_scan,
                    directory_scanning: false,
                    directory_error: final(self).explorer.directory_error,
                    directory_cursor: final(self).explorer.directory_cursor,
                    ..old(self).explorer
                },
                ..*old(self)
            }),
            job_answered(
                outcome,
                final(self).explorer.directory_scan,
                old(self).explorer.directory_scan,
                final(self).explorer.directory_scanning,
                final(self).explorer.directory_error,
                "directory scan stopped unexpectedly"@,
            ),
            final(self).explorer.directory_cursor == match outcome {
                Some(Ok(_)) => 0,
                _ => old(self).explorer.directory_cursor,
            },
    {
        self.explorer.directory_scanning = false;
        match outcome {
            Some(Ok(r)) => {
                self.explorer.directory_scan = Some(r);
                self.explorer.directory_error = None;
                self.explorer.directory_cursor = 0;
            },
            Some(Err(e)) => {
                self.explorer.directory_error = Some(e);
            },
            None => {
                self.explorer.directory_error = Some("directory scan stopped unexpectedly".to_string());
            },
        }
    }
}

/// A directory scan is queued: the explorer waits for it with no listing,
/// no error and the cursor on top.
pub open spec fn directory_queued(old: Explorer, new: Explorer) -> bool {
    new == (Explorer {
        directory_scanning: true,
        directory_error: None,
        directory_scan: None,
        directory_cursor: 0,
        ..old
    })
}

impl App {
    /// Prepares the explorer for a directory scan that the caller starts.
    pub fn queue_directory_scan(&mut self)
        ensures
            directory_queued(old(self).explorer, final(self).explorer),
            *final(self) == (App { explorer: final(self).explorer, ..*old(self) }),
    {
        self.explorer.directory_scanning = true;
        self.explorer.directory_error = None;
        self.explorer.directory_scan = None;
        self.explorer.directory_cursor = 0;
    }
}

impl App {
    fn clear_active(&mut self)
        ensures
            final(self).progress == (Progress {
                active_cleaner: None,
                active_target: None,
                active_target_size: 0,
                active_detail: None,
                ..old(self).progress
            }),
            *final(self) == (App { progress: final(self).progress, ..*old(self) }),
    {
        self.progress.active_cleaner = None;
        self.progress.active_target = None;
        self.progress.active_target_size = 0;
        self.progress.active_detail = None;
    }

    fn show_message(&mut self, text: String)
        ensures
            *final(self) == (App {
                screen: Screen { last_action: Some(text), ..old(self).screen },
                ..*old(self)
            }),
    {
        self.screen.last_action = Some(text);
    }
}

/// The progress after a single piece of work answered: one step done,
/// nothing active, the disk shown as `disk`, and no reading kept from before.
pub open spec fn single_job_done(old: Progress, new: Progress, disk: Option<DiskUsage>) -> bool {
    new == (Progress {
        cleaning_completed: 1,
        disk,
        cleaning_disk_before: None,
        active_cleaner: None,
        active_target: None,
        active_target_size: 0,
        active_detail: None,
        results: new.results,
        errors: new.errors,
        ..old
    })
}

/// The screen back on the review list with `text` shown.
pub open spec fn reviewing_with(old: Screen, new: Screen, text: Seq<char>) -> bool {
    new == (Screen { mode: Mode::Reviewing, last_action: new.last_action, ..old }) && text_is(new.last_action, text)
}

impl App {
    /// Takes in the explorer deletion's answer (`None`: the worker
    /// vanished). An answer is recorded as the one finished step, the disk is
    /// read again, and the open folder (if any) is queued for a rescan; its
    /// path is returned for the caller to scan.
    pub fn on_explorer_delete(&mut self, outcome: Option<Result<CleanResult, String>>, disk_now: Option<DiskUsage>) -> (rescan: Option<String>)
        ensures
            final(self).review == old(self).review,
            final(self).global == old(self).global,
            final(self).standalone == old(self).standalone,
            match outcome {
                Some(o) => {
                    &&& rescan == match old(self).explorer.directory_scan {
                        Some(s) => Some(s.path),
                        None => None,
                    }
                    &&& final(self).explorer == match old(self).explorer.directory_scan {
                        Some(_) => Explorer {
                            explorer_deleting: false,
                            directory_scanning: true,
                            directory_error: None,
                            directory_scan: None,
                            directory_cursor: 0,
                            ..old(self).explorer
                        },
                        None => Explorer { explorer_deleting: false, ..old(self).explorer },
                    }
                    &&& single_job_done(
                        old(self).progress,
                        final(self).progress,
                        baseline(disk_now, old(self).progress.cleaning_disk_before),
                    )
                    &&& match o {
                        Ok(r) => {
                            &&& final(self).progress.results@ == old(self).progress.results@.push(r)
                            &&& final(self).progress.errors == old(self).progress.errors
                            &&& reviewing_with(
                                old(self).screen,
                                final(self).screen,
                                "Item moved to Trash; folder is rescanning"@,
                            )
                        },
                        Err(e) => {
                            &&& final(self).progress.results == old(self).progress.results
                            &&& final(self).progress.errors@ == old(self).progress.errors@.push(e)
                            &&& reviewing_with(
                                old(self).screen,
                                final(self).screen,
                                "Item was not moved to Trash: "@ + e@,
                            )
                        },
                    }
                },
                None => {
                    &&& rescan is None
                    &&& final(self).explorer == (Explorer { explorer_deleting: false, ..old(self).explorer })
                    &&& final(self).progress == (Progress {
                        active_cleaner: None,
                        active_target: None,
                        active_target_size: 0,
                        active_detail: None,
                        ..old(self).progress
                    })
                    &&& reviewing_with(
                        old(self).screen,
                        final(self).screen,
                        "File delete worker stopped unexpectedly"@,
                    )
                },
            },
    {
        self.explorer.explorer_deleting = false;
        self.clear_active();
        self.screen.mode = Mode::Reviewing;
        match outcome {
            Some(o) => {
                self.progress.cleaning_completed = 1;
                self.progress.disk = pick_baseline(disk_now, self.progress.cleaning_disk_before);
                match o {
                    Ok(r) => {
                        self.progress.results.push(r);
                        self.show_message("Item moved to Trash; folder is rescanning".to_string());
                    },
                    Err(e) => {
                        let mut text = "Item was not moved to Trash: ".to_string();
                        push_str(&mut text, e.as_str());
                        self.progress.errors.push(e);
                        self.show_message(text);
                    },
                }
                self.progress.cleaning_disk_before = None;
                let path = match &self.explorer.directory_scan {
                    Some(scan) => Some(scan.path.clone()),
                    None => None,
                };
                match &path {
                    Some(_) => self.queue_directory_scan(),
                    None => {},
                }
                path
            },
            None => {
                self.show_message("File delete worker stopped unexpectedly".to_string());
                None
            },
        }
    }

    /// Takes in the global-tool removal's answer (`None`: the worker
    /// vanished). After a removal the list is scanned again: the result is
    /// `true` and the caller starts that scan.
    pub fn on_global_uninstall(&mut self, outcome: Option<Result<GlobalToolResult, String>>, disk_now: Option<DiskUsage>) -> (rescan: bool)
        ensures
            final(self).review == old(self).review,
            final(self).explorer == old(self).explorer,
            final(self).standalone == old(self).standalone,
            rescan == (outcome matches Some(Ok(_))),
            match outcome {
                Some(o) => {
                    &&& single_job_done(old(self).progress, final(self).progress, baseline(disk_now, old(self).progress.disk))
                    &&& final(self).progress.results == old(self).progress.results
                    &&& final(self).progress.errors == old(self).progress.errors
                    &&& match o {
                        Ok(r) => {
                            &&& final(self).global == (GlobalView {
                                uninstalling: false,
                                scanning: true,
                                error: None,
                                cursor: 0,
                                ..old(self).global
                            })
                            &&& reviewing_with(
                                old(self).screen,
                                final(self).screen,
                                "Uninstalled "@ + manager_label(r.manager) + " "@ + r.name@ + " · rescanning global tools"@,
                            )
                        },
                        Err(e) => {
                            &&& final(self).global == (GlobalView { uninstalling: false, ..old(self).global })
                            &&& reviewing_with(old(self).screen, final(self).screen, "Global uninstall failed: "@ + e@)
                        },
                    }
                },
                None => {
                    &&& final(self).global == (GlobalView { uninstalling: false, ..old(self).global })
                    &&& final(self).progress == (Progress {
                        cleaning_disk_before: None,
                        active_cleaner: None,
                        active_target: None,
                        active_target_size: 0,
                        active_detail: None,
                        ..old(self).progress
                    })
                    &&& reviewing_with(
                        old(self).screen,
                        final(self).screen,
                        "Global uninstall worker stopped unexpectedly"@,
                    )
                },
            },
    {
        self.global.uninstalling = false;
        self.clear_active();
        self.progress.cleaning_disk_before = None;
        self.screen.mode = Mode::Reviewing;
        match outcome {
            Some(o) => {
                self.progress.cleaning_completed = 1;
                self.progress.disk = pick_baseline(disk_now, self.progress.disk);
                match o {
                    Ok(r) => {
                        let mut text = "Uninstalled ".to_string();
                        push_str(&mut text, r.manager.label());
                        push_str(&mut text, " ");
                        push_str(&mut text, r.name.as_str());
                        push_str(&mut text, " · rescanning global tools");
                        self.show_message(text);
                        self.global.scanning = true;
                        self.global.error = None;
                        self.global.cursor = 0;
                        true
                    },
                    Err(e) => {
                        let mut text = "Global uninstall failed: ".to_string();
                        push_str(&mut text, e.as_str());
                        self.show_message(text);
                        false
                    },
                }
            },
            None => {
                self.show_message("Global uninstall worker stopped unexpectedly".to_string());
                false
            },
        }
    }

    /// Takes in the standalone-tool removal's answer (`None`: the worker
    /// vanished). After a removal the list is scanned again: the result is
    /// `true` and the caller starts that scan.
    pub fn on_standalone_uninstall(&mut self, outcome: Option<Result<StandaloneToolResult, String>>, disk_now: Option<DiskUsage>) -> (rescan: bool)
        ensures
            final(self).review == old(self).review,
            final(self).explorer == old(self).explorer,
            final(self).global == old(self).global,
            rescan == (outcome matches Some(Ok(_))),
            match outcome {
                Some(o) => {
                    &&& single_job_done(old(self).progress, final(self).progress, baseline(disk_now, old(self).progress.disk))
                    &&& final(self).progress.results == old(self).progress.results
                    &&& final(self).progress.errors == old(self).progress.errors
                    &&& match o {
                        Ok(r) => {
                            &&& final(self).standalone == (StandaloneView {
                                uninstalling: false,
                                scanning: true,
                                error: None,
                                cursor: 0,
                                ..old(self).standalone
                            })
                            &&& reviewing_with(
                                old(self).screen,
                                final(self).screen,
                                "Moved "@ + r.name@ + " to Trash · rescanning standalone tools"@,
                            )
                        },
                        Err(e) => {
                            &&& final(self).standalone == (StandaloneView { uninstalling: false, ..old(self).standalone })
                            &&& reviewing_with(old(self).screen, final(self).screen, "Standalone removal failed: "@ + e@)
                        },
                    }
                },
                None => {
                    &&& final(self).standalone == (StandaloneView { uninstalling: false, ..old(self).standalone })
                    &&& final(self).progress == (Progress {
                        cleaning_disk_before: None,
                        active_cleaner: None,
                        active_target: None,
                        active_target_size: 0,
                        active_detail: None,
                        ..old(self).progress
                    })
                    &&& reviewing_with(
                        old(self).screen,
                        final(self).screen,
                        "Standalone removal worker stopped unexpectedly"@,
                    )
                },
            },
    {
        self.standalone.uninstalling = false;
        self.clear_active();
        self.progress.cleaning_disk_before = None;
        self.screen.mode = Mode::Reviewing;
        match outcome {
            Some(o) => {
                self.progress.cleaning_completed = 1;
                self.progress.disk = pick_baseline(disk_now, self.progress.disk);
                match o {
                    Ok(r) => {
                        let mut text = "Moved ".to_string();
                        push_str(&mut text, r.name.as_str());
                        push_str(&mut text, " to Trash · rescanning standalone tools");
                        self.show_message(text);
                        self.standalone.scanning = true;
                        self.standalone.error = None;
                        self.standalone.cursor = 0;
                        true
                    },
                    Err(e) => {
                        let mut text = "Standalone removal failed: ".to_string();
                        push_str(&mut text, e.as_str());
                        self.show_message(text);
                        false
                    },
                }
            },
            None => {
                self.show_message("Standalone removal worker stopped unexpectedly".to_string());
                false
            },
        }
    }
}

/// The explorer entry under the cursor, when a folder is open.
pub open spec fn explorer_choice(e: Explorer) -> Option<DirectoryScanEntry> {
    match e.directory_scan {
        Some(s) => if e.directory_cursor < s.entries@.len() {
            Some(s.entries@[e.directory_cursor as int])
        } else {
            None
        },
        None => None,
    }
}

/// Whether the explorer may move an entry to the Trash: it is not
/// read-only and its suggestion allows deletion.
pub open spec fn deletable(e: DirectoryScanEntry) -> bool {
    !e.read_only && match e.suggestion {
        Some(s) => s.can_delete,
        None => false,
    }
}

/// The target that deleting an explorer entry cleans: the entry's path and
/// size, described by its suggestion, moved to the Trash.
pub open spec fn explorer_target(e: DirectoryScanEntry) -> CleanTarget {
    CleanTarget {
        path: e.path,
        size_bytes: e.size_bytes,
        description: e.suggestion.unwrap().reason,
        method: CleanMethod::TrashPath,
    }
}

/// Why the explorer refuses to delete what is under the cursor.
pub open spec fn delete_refusal(e: Explorer) -> Seq<char> {
    match e.directory_scan {
        None => "Inventory only · Enter opens folder/file parent"@,
        Some(_) => match explorer_choice(e) {
            None => "No explorer item selected"@,
            Some(entry) => if entry.read_only {
                "Read-only item · x disabled"@
            } else if entry.is_dir && !deletable(entry) {
                "Folder not approved · x disabled"@
            } else {
                "Review-only item · x disabled"@
            },
        },
    }
}

/// A confirmation is asked for: the typed text is cleared.
pub open spec fn confirming(old: Screen, new: Screen) -> bool {
    new == (Screen { mode: Mode::Confirming, confirm_text: new.confirm_text, ..old }) && new.confirm_text@.len() == 0
}

impl App {
    fn ask_confirmation(&mut self)
        ensures
            confirming(old(self).screen, final(self).screen),
            *final(self) == (App { screen: final(self).screen, ..*old(self) }),
    {
        self.screen.confirm_text = String::new();
        self.screen.mode = Mode::Confirming;
    }

    /// `x` in the explorer: an entry that may be deleted becomes the pending
    /// deletion and a confirmation is asked for; otherwise the reason it may
    /// not is shown.
    pub fn request_explorer_delete(&mut self)
        ensures
            match explorer_choice(old(self).explorer) {
                Some(entry) if deletable(entry) => {
                    &&& confirming(old(self).screen, final(self).screen)
                    &&& *final(self) == (App {
                        screen: final(self).screen,
                        explorer: Explorer {
                            pending_explorer_delete: final(self).explorer.pending_explorer_delete,
                            ..old(self).explorer
                        },
                        ..*old(self)
                    })
                    &&& match final(self).explorer.pending_explorer_delete {
                        Some(t) => same_target(t, explorer_target(entry)),
                        None => false,
                    }
                },
                _ => *final(self) == (App {
                    screen: Screen { last_action: final(self).screen.last_action, ..old(self).screen },
                    ..*old(self)
                }) && text_is(final(self).screen.last_action, delete_refusal(old(self).explorer)),
            },
    {
        let mut refusal: &str = "Inventory only · Enter opens folder/file parent";
        match &self.explorer.directory_scan {
            Some(scan) => {
                if self.explorer.directory_cursor < scan.entries.len() {
                    let entry = &scan.entries[self.explorer.directory_cursor];
                    if entry.read_only {
                        refusal = "Read-only item · x disabled";
                    } else {
                        match &entry.suggestion {
                            Some(sg) => {
                                if sg.can_delete {
                                    let target = CleanTarget {
                                        path: entry.path.clone(),
                                        size_bytes: entry.size_bytes,
                                        description: sg.reason.clone(),
                                        method: CleanMethod::TrashPath,
                                    };
                                    self.explorer.pending_explorer_delete = Some(target);
                                    self.ask_confirmation();
                                    return;
                                }
                            },
                            None => {},
                        }
                        if entry.is_dir {
                            refusal = "Folder not approved · x disabled";
                        } else {
                            refusal = "Review-only item · x disabled";
                        }
                    }
                } else {
                    refusal = "No explorer item selected";
                }
            },
            None => {},
        }
        self.show_message(refusal.to_string());
    }

    /// `x` or Enter in the global tools list: a removable tool becomes the
    /// pending removal and a confirmation is asked for; a protected one shows
    /// its warning instead. Nothing happens in an empty list.
    pub fn request_global_uninstall(&mut self)
        ensures
            match old(self).global.tools {
                Some(scan) if old(self).global.cursor < scan.tools@.len() => {
                    let tool = scan.tools@[old(self).global.cursor as int];
                    if tool.can_uninstall {
                        &&& confirming(old(self).screen, final(self).screen)
                        &&& *final(self) == (App {
                            screen: final(self).screen,
                            global: GlobalView { pending_uninstall: Some(tool), ..old(self).global },
                            ..*old(self)
                        })
                    } else {
                        &&& *final(self) == (App {
                            screen: Screen { last_action: final(self).screen.last_action, ..old(self).screen },
                            ..*old(self)
                        })
                        &&& text_is(final(self).screen.last_action, match tool.warning {
                            Some(w) => w@,
                            None => "This global tool is protected from uninstall"@,
                        })
                    }
                },
                _ => *final(self) == *old(self),
            },
    {
        let chosen = match &self.global.tools {
            Some(scan) => {
                if self.global.cursor < scan.tools.len() {
                    Some(scan.tools[self.global.cursor].duplicate())
                } else {
                    None
                }
            },
            None => None,
        };
        match chosen {
            Some(tool) => {
                if tool.can_uninstall {
                    self.global.pending_uninstall = Some(tool);
                    self.ask_confirmation();
                } else {
                    let text = match tool.warning {
                        Some(w) => w,
                        None => "This global tool is protected from uninstall".to_string(),
                    };
                    self.show_message(text);
                }
            },
            None => {},
        }
    }

    /// `x` or Enter in the standalone tools list: a removable tool becomes
    /// the pending removal and a confirmation is asked for; a protected one
    /// shows its warning instead. Nothing happens in an empty list.
    pub fn request_standalone_uninstall(&mut self)
        ensures
            match old(self).standalone.tools {
                Some(scan) if old(self).standalone.cursor < scan.tools@.len() => {
                    let tool = scan.tools@[old(self).standalone.cursor as int];
                    if tool.can_remove {
                        &&& confirming(old(self).screen, final(self).screen)
                        &&& *final(self) == (App {
                            screen: final(self).screen,
                            standalone: StandaloneView { pending_uninstall: Some(tool), ..old(self).standalone },
                            ..*old(self)
                        })
                    } else {
                        &&& *final(self) == (App {
                            screen: Screen { last_action: final(self).screen.last_action, ..old(self).screen },
                            ..*old(self)
                        })
                        &&& text_is(final(self).screen.last_action, match tool.warning {
                            Some(w) => w@,
                            None => "This standalone tool is protected from removal"@,
                        })
                    }
                },
                _ => *final(self) == *old(self),
            },
    {
        let chosen = match &self.standalone.tools {
            Some(scan) => {
                if self.standalone.cursor < scan.tools.len() {
                    Some(scan.tools[self.standalone.cursor].duplicate())
                } else {
                    None
                }
            },
            None => None,
        };
        match chosen {
            Some(tool) => {
                if tool.can_remove {
                    self.standalone.pending_uninstall = Some(tool);
                    self.ask_confirmation();
                } else {
                    let text = match tool.warning {
                        Some(w) => w,
                        None => "This standalone tool is protected from removal".to_string(),
                    };
                    self.show_message(text);
                }
            },
            None => {},
        }
    }
}

/// The explorer with no folder open, no error, and the cursor on top.
pub open spec fn folder_closed(old: Explorer, new: Explorer) -> bool {
    new == (Explorer { directory_scan: None, directory_error: None, directory_cursor: 0, directory_history: new.directory_history, ..old })
}

impl App {
    /// `b` in the explorer. While a folder is being scanned nothing happens.
    /// Otherwise the previous folder is taken from the history: the scan
    /// root closes the folder view, any other folder is queued for a scan
    /// and returned. With no history the whole-disk view closes.
    pub fn back_directory(&mut self, root: &str) -> (rescan: Option<String>)
        ensures
            old(self).explorer.directory_scanning ==> *final(self) == *old(self) && rescan is None,
            !old(self).explorer.directory_scanning ==> {
                let h = old(self).explorer.directory_history@;
                &&& *final(self) == (App { explorer: final(self).explorer, ..*old(self) })
                &&& if h.len() == 0 {
                    &&& rescan is None
                    &&& final(self).explorer == (Explorer {
                        show_full_disk: false,
                        directory_scan: None,
                        directory_error: None,
                        directory_cursor: 0,
                        ..old(self).explorer
                    })
                } else {
                    let previous = h.last();
                    let popped = Explorer { directory_history: final(self).explorer.directory_history, ..old(self).explorer };
                    &&& final(self).explorer.directory_history@ == h.drop_last()
                    &&& if path_eq_spec(previous@, root@) {
                        rescan is None && folder_closed(popped, final(self).explorer)
                    } else {
                        rescan == Some(previous) && directory_queued(popped, final(self).explorer)
                    }
                }
            },
    {
        if self.explorer.directory_scanning {
            return None;
        }
        if self.explorer.directory_history.len() == 0 {
            self.explorer.show_full_disk = false;
            self.explorer.directory_scan = None;
            self.explorer.directory_error = None;
            self.explorer.directory_cursor = 0;
            return None;
        }
        let previous = self.explorer.directory_history.pop();
        match previous {
            Some(p) => {
                if path_eq(p.as_str(), root) {
                    self.explorer.directory_scan = None;
                    self.explorer.directory_error = None;
                    self.explorer.directory_cursor = 0;
                    None
                } else {
                    self.queue_directory_scan();
                    Some(p)
                }
            },
            None => None,
        }
    }

    /// `b` in the global tools list: the list closes, its cursor on top.
    pub fn back_global_tools(&mut self)
        ensures
            *final(self) == (App { global: GlobalView { show: false, cursor: 0, ..old(self).global }, ..*old(self) }),
    {
        self.global.show = false;
        self.global.cursor = 0;
    }

    /// `b` in the standalone tools list: the list closes, its cursor on top.
    pub fn back_standalone_tools(&mut self)
        ensures
            *final(self) == (App {
                standalone: StandaloneView { show: false, cursor: 0, ..old(self).standalone },
                ..*old(self)
            }),
    {
        self.standalone.show = false;
        self.standalone.cursor = 0;
    }

    /// `f`: unless an inventory is already running, the whole-disk view
    /// opens on a fresh inventory (the result is `true` and the caller starts
    /// it); any open folder, its history and the tool lists are closed.
    pub fn open_full_disk(&mut self) -> (start: bool)
        ensures
            start == !old(self).explorer.full_disk_scanning,
            !start ==> *final(self) == *old(self),
            start ==> {
                &&& final(self).explorer == (Explorer {
                    full_disk_scanning: true,
                    full_disk_error: None,
                    show_full_disk: true,
                    full_disk_cursor: 0,
                    directory_scan: None,
                    directory_scanning: false,
                    directory_error: None,
                    directory_history: final(self).explorer.directory_history,
                    directory_cursor: 0,
                    ..old(self).explorer
                })
                &&& final(self).explorer.directory_history@.len() == 0
                &&& *final(self) == (App {
                    explorer: final(self).explorer,
                    global: GlobalView { show: false, ..old(self).global },
                    standalone: StandaloneView { show: false, ..old(self).standalone },
                    ..*old(self)
                })
            },
    {
        if self.explorer.full_disk_scanning {
            return false;
        }
        self.explorer.full_disk_scanning = true;
        self.explorer.full_disk_error = None;
        self.explorer.show_full_disk = true;
        self.global.show = false;
        self.standalone.show = false;
        self.explorer.full_disk_cursor = 0;
        self.explorer.directory_scan = None;
        self.explorer.directory_scanning = false;
        self.explorer.directory_error = None;
        self.explorer.directory_history = Vec::new();
        self.explorer.directory_cursor = 0;
        true
    }

    /// `g`: the global tools list opens (closing the explorer's folder and
    /// the other views); unless a scan of it is running, a new scan is due
    /// (the result is `true`) and the list starts at its first tool.
    pub fn open_global_tools(&mut self) -> (start: bool)
        ensures
            start == !old(self).global.scanning,
            *final(self) == (App {
                global: final(self).global,
                standalone: StandaloneView { show: false, ..old(self).standalone },
                explorer: Explorer {
                    show_full_disk: false,
                    directory_scan: None,
                    directory_scanning: false,
                    directory_error: None,
                    ..old(self).explorer
                },
                ..*old(self)
            }),
            final(self).global == if start {
                GlobalView { show: true, scanning: true, error: None, cursor: 0, ..old(self).global }
            } else {
                GlobalView { show: true, ..old(self).global }
            },
    {
        self.global.show = true;
        self.standalone.show = false;
        self.explorer.show_full_disk = false;
        self.explorer.directory_scan = None;
        self.explorer.directory_scanning = false;
        self.explorer.directory_error = None;
        if self.global.scanning {
            return false;
        }
        self.global.scanning = true;
        self.global.error = None;
        self.global.cursor = 0;
        true
    }

    /// `s`: the standalone tools list opens (closing the explorer's folder
    /// and the other views); unless a scan of it is running, a new scan is
    /// due (the result is `true`) and the list starts at its first tool.
    pub fn open_standalone_tools(&mut self) -> (start: bool)
        ensures
            start == !old(self).standalone.scanning,
            *final(self) == (App {
                standalone: final(self).standalone,
                global: GlobalView { show: false, ..old(self).global },
                explorer: Explorer {
                    show_full_disk: false,
                    directory_scan: None,
                    directory_scanning: false,
                    directory_error: None,
                    ..old(self).explorer
                },
                ..*old(self)
            }),
            final(self).standalone == if start {
                StandaloneView { show: true, scanning: true, error: None, cursor: 0, ..old(self).standalone }
            } else {
                StandaloneView { show: true, ..old(self).standalone }
            },
    {
        self.standalone.show = true;
        self.global.show = false;
        self.explorer.show_full_disk = false;
        self.explorer.directory_scan = None;
        self.explorer.directory_scanning = false;
        self.explorer.directory_error = None;
        if self.standalone.scanning {
            return false;
        }
        self.standalone.scanning = true;
        self.standalone.error = None;
        self.standalone.cursor = 0;
        true
    }

    /// Enter in the explorer. In an open folder the entry under the cursor
    /// opens when it is a folder; in the whole-disk view `inventory_choice`
    /// opens, the folder that the caller resolved for the inventory row under
    /// the cursor (the row itself, or the parent of a file). The folder shown
    /// so far (the scan root when none) goes on the history, and the chosen
    /// folder is queued for a scan and returned. Nothing happens while a
    /// folder is being scanned or when there is nothing to open.
    pub fn open_directory(&mut self, root: &str, inventory_choice: Option<String>) -> (opened: Option<String>)
        ensures
            opened == if old(self).explorer.directory_scanning {
                None
            } else {
                match old(self).explorer.directory_scan {
                    Some(_) => match explorer_choice(old(self).explorer) {
                        Some(entry) => if entry.is_dir {
                            Some(entry.path)
                        } else {
                            None
                        },
                        None => None,
                    },
                    None => inventory_choice,
                }
            },
            opened is None ==> *final(self) == *old(self),
            opened is Some ==> {
                let pushed = Explorer { directory_history: final(self).explorer.directory_history, ..old(self).explorer };
                &&& *final(self) == (App { explorer: final(self).explorer, ..*old(self) })
                &&& directory_queued(pushed, final(self).explorer)
                &&& final(self).explorer.directory_history@.len() == old(self).explorer.directory_history@.len() + 1
                &&& final(self).explorer.directory_history@.drop_last() == old(self).explorer.directory_history@
                &&& final(self).explorer.directory_history@.last()@ == match old(self).explorer.directory_scan {
                    Some(s) => s.path@,
                    None => root@,
                }
            },
    {
        if self.explorer.directory_scanning {
            return None;
        }
        let (chosen, current) = match &self.explorer.directory_scan {
            Some(scan) => {
                let c = if self.explorer.directory_cursor < scan.entries.len() {
                    let entry = &scan.entries[self.explorer.directory_cursor];
                    if entry.is_dir {
                        Some(entry.path.clone())
                    } else {
                        None
                    }
                } else {
                    None
                };
                (c, scan.path.clone())
            },
            None => (inventory_choice, root.to_string()),
        };
        match chosen {
            Some(path) => {
                self.explorer.directory_history.push(current);
                assert(self.explorer.directory_history@.drop_last() =~= old(self).explorer.directory_history@);
                self.queue_directory_scan();
                Some(path)
            },
            None => None,
        }
    }

    /// The path of the explorer entry under the cursor, in an open folder.
    pub fn selected_explorer_path(&self) -> (path: Option<String>)
        ensures
            path == match explorer_choice(self.explorer) {
                Some(entry) => Some(entry.path),
                None => None,
            },
    {
        match &self.explorer.directory_scan {
            Some(scan) => {
                if self.explorer.directory_cursor < scan.entries.len() {
                    Some(scan.entries[self.explorer.directory_cursor].path.clone())
                } else {
                    None
                }
            },
            None => None,
        }
    }
}

/// What a toggle of the delete allowlist reports for `path`: `Ok(true)` it
/// was added, `Ok(false)` it was removed, `Err` it could not be changed.
pub open spec fn allowlist_message(path: Seq<char>, outcome: Result<bool, String>) -> Seq<char> {
    match outcome {
        Ok(true) => "Added "@ + path + " to the delete allowlist; no files were changed"@,
        Ok(false) => "Removed "@ + path + " from the delete allowlist"@,
        Err(e) => "Delete allowlist unchanged: "@ + e@,
    }
}

impl App {
    /// `w` in the explorer: the entry to add to or remove from the delete
    /// allowlist, or, when no entry is under the cursor, a request to select
    /// one is shown and `None` returned.
    pub fn request_allowlist_toggle(&mut self) -> (path: Option<String>)
        ensures
            path == match explorer_choice(old(self).explorer) {
                Some(entry) => Some(entry.path),
                None => None,
            },
            path is Some ==> *final(self) == *old(self),
            path is None ==> *final(self) == (App {
                screen: Screen { last_action: final(self).screen.last_action, ..old(self).screen },
                ..*old(self)
            }) && text_is(final(self).screen.last_action, "Select a directory before changing the delete allowlist"@),
    {
        let path = self.selected_explorer_path();
        match path {
            Some(p) => Some(p),
            None => {
                self.show_message("Select a directory before changing the delete allowlist".to_string());
                None
            },
        }
    }

    /// Reports a toggle of the delete allowlist for `path` (see
    /// [`allowlist_message`]) and, when a folder is open, queues it for a
    /// rescan so its suggestions follow the new allowlist; its path is then
    /// returned.
    pub fn on_allowlist_toggled(&mut self, path: &str, outcome: Result<bool, String>) -> (rescan: Option<String>)
        ensures
            text_is(final(self).screen.last_action, allowlist_message(path@, outcome)),
            final(self).screen == (Screen { last_action: final(self).screen.last_action, ..old(self).screen }),
            *final(self) == (App { screen: final(self).screen, explorer: final(self).explorer, ..*old(self) }),
            rescan == match old(self).explorer.directory_scan {
                Some(s) => Some(s.path),
                None => None,
            },
            rescan is Some ==> directory_queued(old(self).explorer, final(self).explorer),
            rescan is None ==> final(self).explorer == old(self).explorer,
    {
        let mut text: String;
        match outcome {
            Ok(true) => {
                text = "Added ".to_string();
                push_str(&mut text, path);
                push_str(&mut text, " to the delete allowlist; no files were changed");
            },
            Ok(false) => {
                text = "Removed ".to_string();
                push_str(&mut text, path);
                push_str(&mut text, " from the delete allowlist");
            },
            Err(e) => {
                text = "Delete allowlist unchanged: ".to_string();
                push_str(&mut text, e.as_str());
            },
        }
        self.show_message(text);
        let current = match &self.explorer.directory_scan {
            Some(scan) => Some(scan.path.clone()),
            None => None,
        };
        match &current {
            Some(_) => self.queue_directory_scan(),
            None => {},
        }
        current
    }
}

/// A clean runs exactly as many jobs as the confirmation counted: every
/// selected row, and the Trash when it is selected.
pub proof fn cleaning_runs_every_selected_target(jobs: Seq<(String, CleanTarget)>, r: Review)
    requires
        clean_jobs(jobs, r),
    ensures
        jobs.len() == selected_count_spec(r),
{
    lemma_selected_rows_count(r.rows@);
}

/// How the terminal UI ends.
#[derive(Clone, Debug)]
pub enum RunOutcome {
    /// The user quit.
    Exit,
    /// The user asked for the available upgrade; it runs after the terminal
    /// is restored.
    Upgrade(UpdateInfo),
}

impl App {
    /// Whether a key's action ends the UI: `q` exits, `u` ends it with the
    /// upgrade when a newer release is available; everything else goes on.
    pub fn outcome_of(&self, action: KeyAction) -> (r: Option<RunOutcome>)
        ensures
            r == match action {
                KeyAction::Quit => Some(RunOutcome::Exit),
                KeyAction::Upgrade => match self.progress.update_state {
                    UpdateState::Available(u) => Some(RunOutcome::Upgrade(u)),
                    _ => None,
                },
                _ => None,
            },
    {
        match action {
            KeyAction::Quit => Some(RunOutcome::Exit),
            KeyAction::Upgrade => match self.available_update() {
                Some(u) => Some(RunOutcome::Upgrade(u)),
                None => None,
            },
            _ => None,
        }
    }
}

} // verus!
