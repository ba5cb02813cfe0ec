//! Cleaning one target: the safety gate, the dry-run preview, and the
//! reporting of what the clean action did.
//!
//! Cleaning alternates decisions with outside work. [`clean_target_with_options`]
//! decides: refuse, preview, or perform one [`CleanAction`]. The caller
//! performs it and hands the outcome to the matching `finish_*` function,
//! which states the result and the history entry to record.
use crate::history::{record_history, sanitize_spec, HistoryRecord};
use crate::model::{CleanMethod, CleanOptions, CleanResult, CleanTarget};
use crate::protection::ProtectedRoots;
use crate::scanner::{can_delete_path, can_delete_spec, opt_str_view};
use crate::text::{
    chars_of, join, join_seq, lemma_chars_deep_view, push_str, string_of, strings_to_chars,
    trim_seq,
};
use vstd::prelude::*;

verus! {

broadcast use vstd::string::group_string_axioms;

/// Something only the caller can do: run a command, or remove a path.
pub enum CleanAction {
    /// Run `arguments[0]` with the remaining arguments, no shell involved;
    /// `stdin` is written to its standard input when present, otherwise the
    /// command gets an empty standard input. `arguments` is never empty.
    RunCommand { arguments: Vec<String>, stdin: Option<String> },
    /// Delete the path (recursively for a directory) without the Trash.
    DeletePermanently(String),
    /// Move the path to the operating system's Trash.
    MoveToTrash(String),
}

/// The result of a clean request, and the history entry to append for it
/// when one is due.
pub struct CleanOutcome {
    pub result: Result<CleanResult, String>,
    pub history: Option<HistoryRecord>,
}

/// What to do next for a clean request.
pub enum CleanStep {
    /// Nothing runs; the request is decided.
    Finished(CleanOutcome),
    /// Perform the action, then call the matching `finish_*` function.
    Perform(CleanAction),
}

pub open spec fn refusal_spec(path: Seq<char>) -> Seq<char> {
    "refusing to clean protected or unsafe path: "@ + path
}

pub open spec fn preview_message(permanent: bool) -> Seq<char> {
    if permanent {
        "dry-run: would permanently delete"@
    } else {
        "dry-run: would move to Trash"@
    }
}

/// The history entry of a clean operation.
pub open spec fn history_spec(h: HistoryRecord, cleaner_id: Seq<char>, target: Seq<char>, status: Seq<char>, detail: Seq<char>) -> bool {
    &&& h.operation@ == sanitize_spec("clean"@)
    &&& h.actor@ == sanitize_spec(cleaner_id)
    &&& h.target@ == sanitize_spec(target)
    &&& h.status@ == sanitize_spec(status)
    &&& h.detail@ == sanitize_spec(detail)
}

/// A successful result for `target`.
pub open spec fn result_spec(r: CleanResult, cleaner_id: Seq<char>, target: CleanTarget, dry_run: bool, message: Seq<char>) -> bool {
    &&& r.cleaner_id@ == cleaner_id
    &&& r.target@ == target.path@
    &&& r.dry_run == dry_run
    &&& r.executed == !dry_run
    &&& r.success
    &&& r.expected_freed_bytes == target.size_bytes
    &&& r.message@ == message
}

/// The command line of a clean command, words separated by single spaces.
pub open spec fn command_line(arguments: Seq<Seq<char>>) -> Seq<char> {
    join_seq(arguments, " "@)
}

/// Whether a clean request passes the safety gate: `is_file` says whether
/// the path is a regular file, `home` is the user's home directory and
/// `protected` the platform's table of protected trees.
pub open spec fn permitted(target: CleanTarget, is_file: bool, home: Option<Seq<char>>, protected: ProtectedRoots) -> bool {
    can_delete_spec(target.path@, is_file, home, protected)
}

fn finished(result: Result<CleanResult, String>, history: Option<HistoryRecord>) -> (s: CleanStep)
    ensures
        s == CleanStep::Finished(CleanOutcome { result, history }),
{
    CleanStep::Finished(CleanOutcome { result, history })
}

fn success_result(cleaner_id: &str, target: &CleanTarget, dry_run: bool, message: String) -> (r:
    CleanResult)
    ensures
        result_spec(r, cleaner_id@, *target, dry_run, message@),
{
    CleanResult {
        cleaner_id: cleaner_id.to_string(),
        target: target.path.clone(),
        dry_run,
        executed: !dry_run,
        success: true,
        expected_freed_bytes: target.size_bytes,
        message,
    }
}

fn copy_strings(v: &Vec<String>) -> (r: Vec<String>)
    ensures
        r@ == v@,
{
    let mut r: Vec<String> = Vec::new();
    for i in 0..v.len()
        invariant
            r@ == v@.take(i as int),
    {
        r.push(v[i].clone());
        assert(v@.take(i + 1) =~= v@.take(i as int).push(v@[i as int]));
    }
    assert(v@.take(v.len() as int) =~= v@);
    r
}

/// Cleans `target` with the default options (to the Trash), or previews it.
pub fn clean_target(cleaner_id: &str, target: &CleanTarget, dry_run: bool, is_file: bool, home: Option<
    &str,
>, protected: &ProtectedRoots) -> (s: CleanStep)
    ensures
        clean_step_spec(
            s,
            cleaner_id@,
            *target,
            CleanOptions { dry_run, permanent: false },
            is_file,
            opt_str_view(home),
            *protected,
        ),
{
    clean_target_with_options(
        cleaner_id,
        target,
        CleanOptions { dry_run, permanent: false },
        is_file,
        home,
        protected,
    )
}

/// The first decision on a clean request.
///
/// A path outside the safety policy is refused (and the refusal recorded
/// unless this is a dry run). A dry run only describes what would happen.
/// Otherwise the target's method decides the action; an empty command is an
/// error.
pub open spec fn clean_step_spec(
    s: CleanStep,
    cleaner_id: Seq<char>,
    target: CleanTarget,
    options: CleanOptions,
    is_file: bool,
    home: Option<Seq<char>>,
    protected: ProtectedRoots,
) -> bool {
    if !permitted(target, is_file, home, protected) {
        match s {
            CleanStep::Finished(o) => match o.result {
                Err(e) => e@ == refusal_spec(target.path@) && if options.dry_run {
                    o.history is None
                } else {
                    recorded(o, cleaner_id, target.path@, "rejected"@, e@)
                },
                Ok(_) => false,
            },
            CleanStep::Perform(_) => false,
        }
    } else if options.dry_run {
        match s {
            CleanStep::Finished(o) => o.history is None && match o.result {
                Ok(r) => result_spec(r, cleaner_id, target, true, preview_message(options.permanent)),
                Err(_) => false,
            },
            CleanStep::Perform(_) => false,
        }
    } else {
        match target.method {
            CleanMethod::RunCommand(arguments) => if arguments@.len() == 0 {
                empty_command_spec(s, cleaner_id, target)
            } else {
                match s {
                    CleanStep::Perform(CleanAction::RunCommand { arguments: a, stdin }) => a@
                        == arguments@ && stdin is None,
                    _ => false,
                }
            },
            CleanMethod::RunCommandWithInput { arguments, stdin } => if arguments@.len() == 0 {
                empty_command_spec(s, cleaner_id, target)
            } else {
                match s {
                    CleanStep::Perform(CleanAction::RunCommand { arguments: a, stdin: i }) => a@
                        == arguments@ && i == Some(stdin),
                    _ => false,
                }
            },
            CleanMethod::TrashPath => match s {
                CleanStep::Perform(CleanAction::DeletePermanently(p)) => options.permanent && p@
                    == target.path@,
                CleanStep::Perform(CleanAction::MoveToTrash(p)) => !options.permanent && p@
                    == target.path@,
                _ => false,
            },
        }
    }
}

/// The outcome records `status` and `detail` for the target.
pub open spec fn recorded(o: CleanOutcome, cleaner_id: Seq<char>, path: Seq<char>, status: Seq<char>, detail: Seq<char>) -> bool {
    match o.history {
        Some(h) => history_spec(h, cleaner_id, path, status, detail),
        None => false,
    }
}

pub open spec fn empty_command_spec(s: CleanStep, cleaner_id: Seq<char>, target: CleanTarget) -> bool {
    match s {
        CleanStep::Finished(o) => match o.result {
            Err(e) => e@ == "clean command cannot be empty"@ && recorded(
                o,
                cleaner_id,
                target.path@,
                "failed"@,
                e@,
            ),
            Ok(_) => false,
        },
        CleanStep::Perform(_) => false,
    }
}

fn empty_command(cleaner_id: &str, target: &CleanTarget) -> (s: CleanStep)
    ensures
        empty_command_spec(s, cleaner_id@, *target),
{
    let e = "clean command cannot be empty".to_string();
    let h = record_history("clean", cleaner_id, target.path.as_str(), "failed", e.as_str());
    finished(Err(e), Some(h))
}

/// Decides a clean request; see [`clean_step_spec`].
pub fn clean_target_with_options(
    cleaner_id: &str,
    target: &CleanTarget,
    options: CleanOptions,
    is_file: bool,
    home: Option<&str>,
    protected: &ProtectedRoots,
) -> (s: CleanStep)
    ensures
        clean_step_spec(s, cleaner_id@, *target, options, is_file, opt_str_view(home), *protected),
{
    if !can_delete_path(target.path.as_str(), is_file, home, protected) {
        let mut e = "refusing to clean protected or unsafe path: ".to_string();
        push_str(&mut e, target.path.as_str());
        let history = if options.dry_run {
            None
        } else {
            Some(record_history("clean", cleaner_id, target.path.as_str(), "rejected", e.as_str()))
        };
        return finished(Err(e), history);
    }
    if options.dry_run {
        let message = if options.permanent {
            "dry-run: would permanently delete".to_string()
        } else {
            "dry-run: would move to Trash".to_string()
        };
        return finished(Ok(success_result(cleaner_id, target, true, message)), None);
    }
    match &target.method {
        CleanMethod::RunCommand(arguments) => {
            if arguments.len() == 0 {
                empty_command(cleaner_id, target)
            } else {
                CleanStep::Perform(
                    CleanAction::RunCommand { arguments: copy_strings(arguments), stdin: None },
                )
            }
        },
        CleanMethod::RunCommandWithInput { arguments, stdin } => {
            if arguments.len() == 0 {
                empty_command(cleaner_id, target)
            } else {
                CleanStep::Perform(
                    CleanAction::RunCommand {
                        arguments: copy_strings(arguments),
                        stdin: Some(stdin.clone()),
                    },
                )
            }
        },
        CleanMethod::TrashPath => {
            if options.permanent {
                CleanStep::Perform(CleanAction::DeletePermanently(target.path.clone()))
            } else {
                CleanStep::Perform(CleanAction::MoveToTrash(target.path.clone()))
            }
        },
    }
}

// ---------------------------------------------------------------------------
// Reporting what the action did
// ---------------------------------------------------------------------------

/// The outcome of the finished request: a success records `success` with
/// its message, a failure records `failed` with the error.
pub open spec fn finish_spec(o: CleanOutcome, cleaner_id: Seq<char>, target: CleanTarget, outcome: Result<Seq<char>, Seq<char>>) -> bool {
    match outcome {
        Ok(message) => match o.result {
            Ok(r) => result_spec(r, cleaner_id, target, false, message) && recorded(
                o,
                cleaner_id,
                target.path@,
                "success"@,
                message,
            ),
            Err(_) => false,
        },
        Err(error) => match o.result {
            Err(e) => e@ == error && recorded(o, cleaner_id, target.path@, "failed"@, error),
            Ok(_) => false,
        },
    }
}

fn conclude(cleaner_id: &str, target: &CleanTarget, outcome: Result<String, String>) -> (o:
    CleanOutcome)
    ensures
        finish_spec(
            o,
            cleaner_id@,
            *target,
            match outcome {
                Ok(m) => Ok(m@),
                Err(e) => Err(e@),
            },
        ),
{
    match outcome {
        Ok(message) => {
            let h = record_history(
                "clean",
                cleaner_id,
                target.path.as_str(),
                "success",
                message.as_str(),
            );
            CleanOutcome {
                result: Ok(success_result(cleaner_id, target, false, message)),
                history: Some(h),
            }
        },
        Err(error) => {
            let h = record_history("clean", cleaner_id, target.path.as_str(), "failed", error.as_str());
            CleanOutcome { result: Err(error), history: Some(h) }
        },
    }
}

/// How a clean command ended.
pub enum CommandRun {
    /// The program could not be started.
    StartFailed,
    /// Writing the confirmation input to the command failed.
    InputFailed,
    /// Waiting for the command failed.
    WaitFailed,
    /// The command exited. `status` is its exit status as the platform
    /// prints it; `output_lines` are its non-blank output lines in the
    /// order they arrived.
    Exited { success: bool, status: String, output_lines: Vec<String> },
}

/// The last three output lines, joined with `; `.
pub open spec fn failure_detail(lines: Seq<Seq<char>>) -> Seq<char> {
    join_seq(
        if lines.len() > 3 {
            lines.skip(lines.len() - 3)
        } else {
            lines
        },
        "; "@,
    )
}

pub open spec fn command_result(arguments: Seq<Seq<char>>, run: CommandRun) -> Result<Seq<char>, Seq<char>> {
    match run {
        CommandRun::StartFailed => Err("failed to start clean command "@ + arguments[0]),
        CommandRun::InputFailed => Err("failed to provide input to clean command "@ + arguments[0]),
        CommandRun::WaitFailed => Err("failed waiting for clean command "@ + arguments[0]),
        CommandRun::Exited { success, status, output_lines } => if success {
            Ok("executed: "@ + command_line(arguments))
        } else {
            let detail = failure_detail(output_lines.deep_view());
            Err(
                "clean command "@ + command_line(arguments) + " exited with status "@ + status@
                    + if detail.len() == 0 {
                    Seq::empty()
                } else {
                    ": "@ + detail
                },
            )
        },
    }
}

/// Reports a clean command once it has ended.
pub fn finish_command(cleaner_id: &str, target: &CleanTarget, arguments: &Vec<String>, run: CommandRun) -> (o:
    CleanOutcome)
    requires
        arguments@.len() > 0,
    ensures
        finish_spec(o, cleaner_id@, *target, command_result(arguments.deep_view(), run)),
{
    let parts = strings_to_chars(arguments);
    let sep = chars_of(" ");
    let line = string_of(&join(&parts, sep.as_slice()));
    let ghost first = arguments.deep_view()[0];
    assert(first == arguments@[0]@);
    assert(line@ == command_line(arguments.deep_view()));
    let outcome: Result<String, String> = match run {
        CommandRun::StartFailed => {
            let mut e = "failed to start clean command ".to_string();
            push_str(&mut e, arguments[0].as_str());
            Err(e)
        },
        CommandRun::InputFailed => {
            let mut e = "failed to provide input to clean command ".to_string();
            push_str(&mut e, arguments[0].as_str());
            Err(e)
        },
        CommandRun::WaitFailed => {
            let mut e = "failed waiting for clean command ".to_string();
            push_str(&mut e, arguments[0].as_str());
            Err(e)
        },
        CommandRun::Exited { success, status, output_lines } => {
            if success {
                let mut m = "executed: ".to_string();
                push_str(&mut m, line.as_str());
                Ok(m)
            } else {
                let n = output_lines.len();
                let start: usize = if n > 3 {
                    n - 3
                } else {
                    0
                };
                let all = strings_to_chars(&output_lines);
                let mut tail: Vec<Vec<char>> = Vec::new();
                let mut k: usize = start;
                while k < n
                    invariant
                        start <= k <= n,
                        n == all.deep_view().len(),
                        tail.deep_view() =~= all.deep_view().subrange(start as int, k as int),
                    decreases n - k,
                {
                    let ghost before = tail.deep_view();
                    tail.push(all[k].clone());
                    assert(tail.deep_view() =~= before.push(all.deep_view()[k as int]));
                    k = k + 1;
                }
                assert(all.deep_view().subrange(start as int, n as int) =~= if n > 3 {
                    output_lines.deep_view().skip(n - 3)
                } else {
                    output_lines.deep_view()
                });
                let sep2 = chars_of("; ");
                let detail = join(&tail, sep2.as_slice());
                let mut e = "clean command ".to_string();
                push_str(&mut e, line.as_str());
                push_str(&mut e, " exited with status ");
                push_str(&mut e, status.as_str());
                if detail.len() > 0 {
                    push_str(&mut e, ": ");
                    let d = string_of(&detail);
                    push_str(&mut e, d.as_str());
                }
                assert(detail@ == failure_detail(output_lines.deep_view()));
                assert(e@ =~= "clean command "@ + command_line(arguments.deep_view())
                    + " exited with status "@ + status@ + if detail@.len() == 0 {
                    Seq::<char>::empty()
                } else {
                    ": "@ + detail@
                });
                Err(e)
            }
        },
    };
    conclude(cleaner_id, target, outcome)
}

/// How a permanent deletion ended.
pub enum DeleteRun {
    Deleted,
    /// The path's metadata could not be read.
    InspectFailed,
    /// The removal itself failed.
    RemoveFailed,
}

pub open spec fn delete_result(path: Seq<char>, run: DeleteRun) -> Result<Seq<char>, Seq<char>> {
    match run {
        DeleteRun::Deleted => Ok("permanently deleted "@ + path),
        DeleteRun::InspectFailed => Err("inspect "@ + path),
        DeleteRun::RemoveFailed => Err("permanently delete "@ + path),
    }
}

/// Reports a permanent deletion once it has ended.
pub fn finish_permanent_delete(cleaner_id: &str, target: &CleanTarget, run: DeleteRun) -> (o:
    CleanOutcome)
    ensures
        finish_spec(o, cleaner_id@, *target, delete_result(target.path@, run)),
{
    let path = target.path.as_str();
    let outcome = match run {
        DeleteRun::Deleted => {
            let mut m = "permanently deleted ".to_string();
            push_str(&mut m, path);
            Ok(m)
        },
        DeleteRun::InspectFailed => {
            let mut e = "inspect ".to_string();
            push_str(&mut e, path);
            Err(e)
        },
        DeleteRun::RemoveFailed => {
            let mut e = "permanently delete ".to_string();
            push_str(&mut e, path);
            Err(e)
        },
    };
    conclude(cleaner_id, target, outcome)
}

pub open spec fn trash_result(path: Seq<char>, moved: bool) -> Result<Seq<char>, Seq<char>> {
    if moved {
        Ok("moved "@ + path + " to Trash"@)
    } else {
        Err(
            "failed to move "@ + path
                + " to Trash; check file ownership, parent-directory write permission, or macOS Full Disk Access"@,
        )
    }
}

/// Reports a move to the Trash once it has ended.
pub fn finish_trash(cleaner_id: &str, target: &CleanTarget, moved: bool) -> (o: CleanOutcome)
    ensures
        finish_spec(o, cleaner_id@, *target, trash_result(target.path@, moved)),
{
    let path = target.path.as_str();
    let outcome = if moved {
        let mut m = "moved ".to_string();
        push_str(&mut m, path);
        push_str(&mut m, " to Trash");
        Ok(m)
    } else {
        let mut e = "failed to move ".to_string();
        push_str(&mut e, path);
        push_str(
            &mut e,
            " to Trash; check file ownership, parent-directory write permission, or macOS Full Disk Access",
        );
        Err(e)
    };
    conclude(cleaner_id, target, outcome)
}

/// The first progress message of a clean command.
pub fn running_message(arguments: &Vec<String>) -> (m: String)
    ensures
        m@ == "running "@ + command_line(arguments.deep_view()),
{
    let parts = strings_to_chars(arguments);
    let sep = chars_of(" ");
    let line = string_of(&join(&parts, sep.as_slice()));
    let mut m = "running ".to_string();
    push_str(&mut m, line.as_str());
    m
}

/// The progress line shown before anything a step performs: `running` and
/// the command line when a command is to be run; nothing otherwise.
pub open spec fn first_progress(s: CleanStep) -> Option<Seq<char>> {
    match s {
        CleanStep::Perform(CleanAction::RunCommand { arguments, .. }) => Some(
            "running "@ + command_line(arguments.deep_view()),
        ),
        _ => None,
    }
}

/// Decides a clean request like [`clean_target_with_options`], together with
/// the first progress line of the work it asks for (see [`first_progress`]);
/// the command's non-blank output lines follow it as they arrive.
pub fn clean_target_with_progress(
    cleaner_id: &str,
    target: &CleanTarget,
    options: CleanOptions,
    is_file: bool,
    home: Option<&str>,
    protected: &ProtectedRoots,
) -> (r: (CleanStep, Option<String>))
    ensures
        clean_step_spec(r.0, cleaner_id@, *target, options, is_file, opt_str_view(home), *protected),
        match r.1 {
            Some(m) => first_progress(r.0) == Some(m@),
            None => first_progress(r.0) is None,
        },
{
    let step = clean_target_with_options(cleaner_id, target, options, is_file, home, protected);
    let first = match &step {
        CleanStep::Perform(CleanAction::RunCommand { arguments, .. }) => Some(running_message(arguments)),
        _ => None,
    };
    (step, first)
}

/// Whether an output line is reported: blank lines are not.
pub fn is_reported_line(line: &str) -> (r: bool)
    ensures
        r == (trim_seq(line@).len() > 0),
{
    let c = chars_of(line);
    let t = crate::text::trim(c.as_slice());
    t.len() > 0
}

/// A protected path is never cleaned: the request ends with the refusal and
/// nothing is performed, whatever the options.
pub proof fn protected_paths_are_never_cleaned(
    s: CleanStep,
    cleaner_id: Seq<char>,
    target: CleanTarget,
    options: CleanOptions,
    is_file: bool,
    home: Option<Seq<char>>,
    protected: ProtectedRoots,
)
    requires
        clean_step_spec(s, cleaner_id, target, options, is_file, home, protected),
        !permitted(target, is_file, home, protected),
    ensures
        match s {
            CleanStep::Finished(o) => o.result is Err,
            CleanStep::Perform(_) => false,
        },
{
}

/// A dry run never performs anything and never writes history.
pub proof fn dry_runs_perform_nothing(
    s: CleanStep,
    cleaner_id: Seq<char>,
    target: CleanTarget,
    options: CleanOptions,
    is_file: bool,
    home: Option<Seq<char>>,
    protected: ProtectedRoots,
)
    requires
        clean_step_spec(s, cleaner_id, target, options, is_file, home, protected),
        options.dry_run,
    ensures
        match s {
            CleanStep::Finished(o) => o.history is None,
            CleanStep::Perform(_) => false,
        },
{
}

// ---------------------------------------------------------------------------
// Splitting a command's output stream into lines
// ---------------------------------------------------------------------------

pub open spec fn is_line_break(b: u8) -> bool {
    b == 10 || b == 13
}

/// Reading `bytes` after `pending`: the complete non-empty lines (ended by
/// `\n` or `\r`) and the unfinished tail.
pub open spec fn split_stream(pending: Seq<u8>, bytes: Seq<u8>) -> (Seq<Seq<u8>>, Seq<u8>)
    decreases bytes.len(),
{
    if bytes.len() == 0 {
        (Seq::empty(), pending)
    } else {
        let (lines, tail) = split_stream(pending, bytes.drop_last());
        let b = bytes.last();
        if is_line_break(b) {
            if tail.len() > 0 {
                (lines.push(tail), Seq::empty())
            } else {
                (lines, Seq::empty())
            }
        } else {
            (lines, tail.push(b))
        }
    }
}

/// Splits a command's output, read in chunks, into lines. Either line-break
/// byte ends a line, so progress rewritten with `\r` is reported too; empty
/// lines are dropped.
pub struct OutputSplitter {
    pending: Vec<u8>,
}

impl View for OutputSplitter {
    type V = Seq<u8>;

    /// The bytes of the unfinished line.
    closed spec fn view(&self) -> Seq<u8> {
        self.pending@
    }
}

impl OutputSplitter {
    pub fn new() -> (s: OutputSplitter)
        ensures
            s@.len() == 0,
    {
        OutputSplitter { pending: Vec::new() }
    }

    /// Reads one chunk and returns the lines it completed.
    pub fn feed(&mut self, chunk: &[u8]) -> (lines: Vec<Vec<u8>>)
        ensures
            lines.deep_view() == split_stream(old(self)@, chunk@).0,
            final(self)@ == split_stream(old(self)@, chunk@).1,
    {
        let ghost start = self.pending@;
        let mut lines: Vec<Vec<u8>> = Vec::new();
        let mut i: usize = 0;
        while i < chunk.len()
            invariant
                i <= chunk@.len(),
                (lines.deep_view(), self.pending@) == split_stream(start, chunk@.take(i as int)),
            decreases chunk.len() - i,
        {
            let b = chunk[i];
            assert(chunk@.take(i + 1).drop_last() =~= chunk@.take(i as int));
            assert(chunk@.take(i + 1).last() == b);
            if b == 10 || b == 13 {
                if self.pending.len() > 0 {
                    let mut line: Vec<u8> = Vec::new();
                    std::mem::swap(&mut line, &mut self.pending);
                    let ghost before = lines.deep_view();
                    let ghost l = line@;
                    assert(line.deep_view() =~= line@);
                    lines.push(line);
                    assert(lines.deep_view() =~= before.push(l));
                }
                assert(self.pending@ =~= Seq::<u8>::empty());
            } else {
                self.pending.push(b);
            }
            i = i + 1;
        }
        assert(chunk@.take(chunk.len() as int) =~= chunk@);
        lines
    }

    /// The unfinished last line once the stream has ended, if it is not
    /// empty.
    pub fn finish(self) -> (last: Option<Vec<u8>>)
        ensures
            match last {
                Some(l) => l@ == self@ && l@.len() > 0,
                None => self@.len() == 0,
            },
    {
        if self.pending.len() > 0 {
            Some(self.pending)
        } else {
            None
        }
    }
}

} // verus!
