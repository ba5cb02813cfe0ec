//! Read-only inventory of system-owned locations.
//!
//! A report has no clean method at all, so system paths can never become
//! delete targets through the registry.
use crate::sort::{stable_sort, stable_sorted, Ordered};
use vstd::prelude::*;

verus! {

broadcast use vstd::string::group_string_axioms;

/// A read-only report: what it is called and what it advises.
pub trait ReportOnly {
    spec fn id_spec(&self) -> Seq<char>;

    spec fn advice_spec(&self) -> Seq<char>;

    fn id(&self) -> (r: &'static str)
        ensures
            r@ == self.id_spec(),
    ;

    fn advice(&self) -> (r: &'static str)
        ensures
            r@ == self.advice_spec(),
    ;
}

/// A measured system location.
#[derive(Clone, Debug)]
pub struct ReadOnlyTarget {
    pub path: String,
    pub size_bytes: u64,
    pub description: String,
}

/// What a report found, or why it could not be made.
#[derive(Clone, Debug)]
pub struct ReadOnlyScan {
    pub report_id: String,
    pub advice: String,
    pub targets: Vec<ReadOnlyTarget>,
    pub error: Option<String>,
}

/// Protected macOS locations: update leftovers, installer data and the
/// system volumes.
pub struct ProtectedSystemReport;

impl ReportOnly for ProtectedSystemReport {
    open spec fn id_spec(&self) -> Seq<char> {
        "protected-system"@
    }

    open spec fn advice_spec(&self) -> Seq<char> {
        "Read-only system report. Use macOS system tools; cleanrs will never delete these paths."@
    }

    fn id(&self) -> (r: &'static str) {
        "protected-system"
    }

    fn advice(&self) -> (r: &'static str) {
        "Read-only system report. Use macOS system tools; cleanrs will never delete these paths."
    }
}

/// The registered reports.
pub fn all_reporters() -> (out: Vec<ProtectedSystemReport>)
    ensures
        out@.len() == 1,
{
    let mut out: Vec<ProtectedSystemReport> = Vec::new();
    out.push(ProtectedSystemReport);
    out
}

pub open spec fn fixed_report_paths() -> Seq<(Seq<char>, Seq<char>)> {
    seq![
        ("/Library/Updates"@, "macOS update leftovers"@),
        ("/macOS Install Data"@, "macOS installer data"@),
    ]
}

impl Ordered for ReadOnlyTarget {
    /// Larger locations first.
    open spec fn precedes(&self, other: &Self) -> bool {
        self.size_bytes > other.size_bytes
    }

    fn precedes_exec(&self, other: &Self) -> (r: bool) {
        self.size_bytes > other.size_bytes
    }

    proof fn precedes_asymmetric(a: &Self, b: &Self) {
    }

    proof fn precedes_negatively_transitive(a: &Self, b: &Self, c: &Self) {
    }
}

impl ProtectedSystemReport {
    /// The fixed locations, each with its description.
    pub fn fixed_paths() -> (out: Vec<(&'static str, &'static str)>)
        ensures
            out@.map_values(|e: (&'static str, &'static str)| (e.0@, e.1@)) == fixed_report_paths(),
    {
        let out = vec![
            ("/Library/Updates", "macOS update leftovers"),
            ("/macOS Install Data", "macOS installer data"),
        ];
        assert(out@.map_values(|e: (&'static str, &'static str)| (e.0@, e.1@)) =~= fixed_report_paths());
        out
    }

    /// How each entry of `/System/Volumes` is described.
    pub fn volume_description() -> (r: &'static str)
        ensures
            r@ == "System volume (read-only)"@,
    {
        "System volume (read-only)"
    }

    /// A location that exists and holds data is reported; `size_bytes` is
    /// `None` when it does not exist.
    pub fn read_target(path: String, description: &str, size_bytes: Option<u64>) -> (t: Option<
        ReadOnlyTarget,
    >)
        ensures
            match size_bytes {
                Some(n) if n > 0 => match t {
                    Some(x) => x.path == path && x.size_bytes == n && x.description@ == description@,
                    None => false,
                },
                _ => t is None,
            },
    {
        match size_bytes {
            Some(n) => {
                if n > 0 {
                    Some(ReadOnlyTarget { path, size_bytes: n, description: description.to_string() })
                } else {
                    None
                }
            },
            None => None,
        }
    }

    /// The report's locations, largest first.
    pub fn order_targets(targets: Vec<ReadOnlyTarget>) -> (out: Vec<ReadOnlyTarget>)
        ensures
            out@ == stable_sorted(targets@),
    {
        stable_sort(targets)
    }
}

/// The scan of one report: its id and advice, and its locations or error.
pub fn report_scan<R: ReportOnly>(reporter: &R, outcome: Result<Vec<ReadOnlyTarget>, String>) -> (s:
    ReadOnlyScan)
    ensures
        s.report_id@ == reporter.id_spec(),
        s.advice@ == reporter.advice_spec(),
        match outcome {
            Ok(v) => s.targets@ == v@ && s.error is None,
            Err(e) => s.targets@.len() == 0 && s.error == Some(e),
        },
{
    let report_id = reporter.id().to_string();
    let advice = reporter.advice().to_string();
    match outcome {
        Ok(targets) => ReadOnlyScan { report_id, advice, targets, error: None },
        Err(e) => ReadOnlyScan { report_id, advice, targets: Vec::new(), error: Some(e) },
    }
}

/// One scan per registered report, in order; `outcomes` holds what each
/// report's locations measured to, or its error.
pub fn scan_all_reports(outcomes: Vec<Result<Vec<ReadOnlyTarget>, String>>) -> (out: Vec<ReadOnlyScan>)
    requires
        outcomes@.len() == 1,
    ensures
        out@.len() == 1,
        out@[0].report_id@ == "protected-system"@,
        out@[0].advice@ == "Read-only system report. Use macOS system tools; cleanrs will never delete these paths."@,
        match outcomes@[0] {
            Ok(v) => out@[0].targets@ == v@ && out@[0].error is None,
            Err(e) => out@[0].targets@.len() == 0 && out@[0].error == Some(e),
        },
{
    let mut outcomes = outcomes;
    let first = outcomes.remove(0);
    let reporters = all_reporters();
    let s = report_scan(&reporters[0], first);
    let mut out: Vec<ReadOnlyScan> = Vec::new();
    out.push(s);
    out
}

} // verus!
