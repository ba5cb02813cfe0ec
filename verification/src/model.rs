//! The cleanup data model shared by every rule, the CLI and the TUI.
use vstd::prelude::*;

verus! {

broadcast use vstd::string::group_string_axioms;

/// How a clean operation runs: as a preview, and whether path targets are
/// deleted permanently instead of moved to the Trash.
#[derive(Clone, Copy, Debug, Default, Eq, PartialEq)]
pub struct CleanOptions {
    pub dry_run: bool,
    pub permanent: bool,
}

#[derive(Clone, Copy, Debug, Eq, PartialEq)]
pub enum Category {
    PackageManager,
    SystemCache,
    Container,
    Ide,
    AiAgent,
    ManualReview,
}

/// How much review a target needs before it is removed, from least to most.
#[derive(Clone, Copy, Debug, Eq, PartialEq, Ord, PartialOrd)]
pub enum RiskLevel {
    Safe,
    Caution,
    Manual,
    Destructive,
}

/// The position of a risk level in its order `Safe < Caution < Manual <
/// Destructive`.
pub open spec fn risk_rank(r: RiskLevel) -> int {
    match r {
        RiskLevel::Safe => 0,
        RiskLevel::Caution => 1,
        RiskLevel::Manual => 2,
        RiskLevel::Destructive => 3,
    }
}

impl RiskLevel {
    /// Short, user-facing wording for people who should not need to know the
    /// internal risk enum names.
    pub fn user_label(self) -> (label: &'static str)
        ensures
            label@ == match self {
                RiskLevel::Safe => "SAFE · can be recreated"@,
                RiskLevel::Caution => "REVIEW · may affect app data"@,
                RiskLevel::Manual => "ASK FIRST · personal/dev data"@,
                RiskLevel::Destructive => "IRREVERSIBLE"@,
            },
    {
        match self {
            RiskLevel::Safe => "SAFE · can be recreated",
            RiskLevel::Caution => "REVIEW · may affect app data",
            RiskLevel::Manual => "ASK FIRST · personal/dev data",
            RiskLevel::Destructive => "IRREVERSIBLE",
        }
    }

    /// Explain why an item is or is not selected automatically.
    pub fn user_explanation(self) -> (text: &'static str)
        ensures
            text@ == match self {
                RiskLevel::Safe => "Generated cache/build data; the owning tool can recreate it."@,
                RiskLevel::Caution =>
                    "Review the app or data before removing it; it is not selected automatically."@,
                RiskLevel::Manual =>
                    "May contain personal data, backups, models, archives, or live state."@,
                RiskLevel::Destructive => "This permanently changes or empties user data."@,
            },
    {
        match self {
            RiskLevel::Safe => "Generated cache/build data; the owning tool can recreate it.",
            RiskLevel::Caution => {
                "Review the app or data before removing it; it is not selected automatically."
            },
            RiskLevel::Manual => "May contain personal data, backups, models, archives, or live state.",
            RiskLevel::Destructive => "This permanently changes or empties user data.",
        }
    }

    /// The position of this level in the risk order.
    pub fn rank(self) -> (r: u8)
        ensures
            r == risk_rank(self),
    {
        match self {
            RiskLevel::Safe => 0,
            RiskLevel::Caution => 1,
            RiskLevel::Manual => 2,
            RiskLevel::Destructive => 3,
        }
    }

    /// Whether two levels are the same.
    pub fn same_as(self, other: RiskLevel) -> (r: bool)
        ensures
            r == (self == other),
    {
        self.rank() == other.rank()
    }

    /// The higher of two risk levels.
    pub fn max_with(self, other: RiskLevel) -> (r: RiskLevel)
        ensures
            risk_rank(r) == if risk_rank(self) >= risk_rank(other) {
                risk_rank(self)
            } else {
                risk_rank(other)
            },
            r == self || r == other,
    {
        if self.rank() >= other.rank() {
            self
        } else {
            other
        }
    }
}

/// How a target is cleaned.
#[derive(Clone, Debug)]
pub enum CleanMethod {
    /// Run an executable directly. Arguments are kept separate so no shell is
    /// involved and rule definitions cannot accidentally expand shell syntax.
    RunCommand(Vec<String>),
    /// Run an executable directly while providing explicit stdin. This is for
    /// trusted commands whose own confirmation prompt is part of the rule.
    RunCommandWithInput { arguments: Vec<String>, stdin: String },
    /// Move a path to the operating system trash.
    TrashPath,
}

/// Something a cleaner can reclaim: a path (or a pseudo path such as
/// `docker://system`), its size, and how it is cleaned.
#[derive(Clone, Debug)]
pub struct CleanTarget {
    pub path: String,
    pub size_bytes: u64,
    pub description: String,
    pub method: CleanMethod,
}

/// The outcome of cleaning (or previewing) one target.
#[derive(Clone, Debug)]
pub struct CleanResult {
    pub cleaner_id: String,
    pub target: String,
    pub dry_run: bool,
    pub executed: bool,
    pub success: bool,
    pub expected_freed_bytes: u64,
    pub message: String,
}

fn copy_strings(v: &Vec<String>) -> (r: Vec<String>)
    ensures
        r@ == v@,
        r.deep_view() == v.deep_view(),
{
    let mut r: Vec<String> = Vec::new();
    for i in 0..v.len()
        invariant
            r@ == v@.take(i as int),
    {
        r.push(v[i].clone());
        assert(v@.take(i + 1) =~= v@.take(i as int).push(v@[i as int]));
    }
    assert(v@.take(v.len() as int) =~= v@);
    assert(r.deep_view() =~= v.deep_view());
    r
}

impl CleanMethod {
    /// An identical copy.
    pub fn duplicate(&self) -> (r: CleanMethod)
        ensures
            crate::cleaner::method_view(r) == crate::cleaner::method_view(*self),
    {
        match self {
            CleanMethod::RunCommand(a) => CleanMethod::RunCommand(copy_strings(a)),
            CleanMethod::RunCommandWithInput { arguments, stdin } => CleanMethod::RunCommandWithInput {
                arguments: copy_strings(arguments),
                stdin: stdin.clone(),
            },
            CleanMethod::TrashPath => CleanMethod::TrashPath,
        }
    }
}

/// Two targets with the same path, size, description and method.
pub open spec fn same_target(a: CleanTarget, b: CleanTarget) -> bool {
    &&& a.path == b.path
    &&& a.size_bytes == b.size_bytes
    &&& a.description == b.description
    &&& crate::cleaner::method_view(a.method) == crate::cleaner::method_view(b.method)
}

impl CleanTarget {
    /// An identical copy.
    pub fn duplicate(&self) -> (r: CleanTarget)
        ensures
            same_target(r, *self),
    {
        CleanTarget {
            path: self.path.clone(),
            size_bytes: self.size_bytes,
            description: self.description.clone(),
            method: self.method.duplicate(),
        }
    }
}

} // verus!
