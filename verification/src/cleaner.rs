//! The cleaner registry: what each rule is called, how it is categorised and
//! how much review its targets need, and how per-rule scans are collected.
use crate::model::{Category, CleanMethod, CleanTarget, RiskLevel, risk_rank};
use crate::paths::{path_join, path_join_spec};
use crate::sort::{
    lemma_lex_asymmetric, lemma_lex_total, lemma_lex_transitive, lex_less, lex_lt, stable_sort,
    stable_sorted, Ordered,
};
use crate::text::{chars_eq, chars_of, lower_char, string_of, to_ascii_lower};
use vstd::prelude::*;

verus! {

broadcast use vstd::string::group_string_axioms;

/// A cleanup rule. Scanning and cleaning are performed by the caller; a
/// rule states what it is.
pub trait Cleaner {
    spec fn id_spec(&self) -> Seq<char>;

    spec fn display_name_spec(&self) -> Seq<char>;

    spec fn category_spec(&self) -> Category;

    spec fn risk_spec(&self) -> RiskLevel;

    /// A stable identifier used on the command line and in the history.
    fn id(&self) -> (r: &'static str)
        ensures
            r@ == self.id_spec(),
    ;

    fn display_name(&self) -> (r: &'static str)
        ensures
            r@ == self.display_name_spec(),
    ;

    fn category(&self) -> (r: Category)
        ensures
            r == self.category_spec(),
    ;

    fn risk_level(&self) -> (r: RiskLevel)
        ensures
            r == self.risk_spec(),
    ;
}

/// Every rule of the registry.
#[derive(Clone, Copy, Debug, PartialEq, Eq, Structural)]
pub enum CleanerKind {
    AgentCache,
    Configured,
    Cargo,
    Codex,
    Dart,
    Npm,
    Pip,
    Pnpm,
    Uv,
    Yarn,
    Gradle,
    Maven,
    Kiro,
    Ollama,
    Docker,
    MacosSystem,
    Brew,
    DockerDesktop,
    AppLeftovers,
    PersonalData,
    SimulatorUnavailable,
    Xcode,
    XcodeArchives,
    SimulatorCache,
    Trash,
    WindowsTemp,
    MacosInstallers,
    XcodeInstallations,
}

pub open spec fn kind_id(k: CleanerKind) -> Seq<char> {
    match k {
        CleanerKind::AgentCache => "agent-caches"@,
        CleanerKind::Configured => "configured"@,
        CleanerKind::Cargo => "cargo"@,
        CleanerKind::Codex => "codex"@,
        CleanerKind::Dart => "dart"@,
        CleanerKind::Npm => "npm"@,
        CleanerKind::Pip => "pip"@,
        CleanerKind::Pnpm => "pnpm"@,
        CleanerKind::Uv => "uv"@,
        CleanerKind::Yarn => "yarn"@,
        CleanerKind::Gradle => "gradle"@,
        CleanerKind::Maven => "maven"@,
        CleanerKind::Kiro => "kiro"@,
        CleanerKind::Ollama => "ollama"@,
        CleanerKind::Docker => "docker"@,
        CleanerKind::MacosSystem => "macos-system"@,
        CleanerKind::Brew => "brew"@,
        CleanerKind::DockerDesktop => "docker-desktop"@,
        CleanerKind::AppLeftovers => "app-leftovers"@,
        CleanerKind::PersonalData => "personal-data"@,
        CleanerKind::SimulatorUnavailable => "simulator-unavailable"@,
        CleanerKind::Xcode => "xcode"@,
        CleanerKind::XcodeArchives => "xcode-archives"@,
        CleanerKind::SimulatorCache => "xcode-simulator"@,
        CleanerKind::Trash => "trash"@,
        CleanerKind::WindowsTemp => "windows-temp"@,
        CleanerKind::MacosInstallers => "macos-installers"@,
        CleanerKind::XcodeInstallations => "xcode-installations"@,
    }
}

pub open spec fn kind_name(k: CleanerKind) -> Seq<char> {
    match k {
        CleanerKind::AgentCache => "Other CLI agent caches"@,
        CleanerKind::Configured => "User-configured rules"@,
        CleanerKind::Cargo => "Cargo registry cache"@,
        CleanerKind::Codex => "Codex CLI cache and old runtimes"@,
        CleanerKind::Dart => "Dart pub cache"@,
        CleanerKind::Npm => "npm cache"@,
        CleanerKind::Pip => "pip cache"@,
        CleanerKind::Pnpm => "pnpm store"@,
        CleanerKind::Uv => "uv cache"@,
        CleanerKind::Yarn => "Yarn cache"@,
        CleanerKind::Gradle => "Gradle cache"@,
        CleanerKind::Maven => "Maven repository"@,
        CleanerKind::Kiro => "Kiro CLI cache and sessions"@,
        CleanerKind::Ollama => "Ollama cache and models"@,
        CleanerKind::Docker => "Docker reclaimable data"@,
        CleanerKind::MacosSystem => "macOS app caches and logs"@,
        CleanerKind::Brew => "Homebrew cache"@,
        CleanerKind::DockerDesktop => "Docker Desktop VM disk image"@,
        CleanerKind::AppLeftovers => "Uninstalled app leftovers"@,
        CleanerKind::PersonalData => "Mail downloads and iOS backups"@,
        CleanerKind::SimulatorUnavailable => "Unavailable simulator devices"@,
        CleanerKind::Xcode => "Xcode DerivedData"@,
        CleanerKind::XcodeArchives => "Xcode Archives"@,
        CleanerKind::SimulatorCache => "CoreSimulator caches"@,
        CleanerKind::Trash => "macOS Trash"@,
        CleanerKind::WindowsTemp => "Windows temporary files"@,
        CleanerKind::MacosInstallers => "macOS installer applications"@,
        CleanerKind::XcodeInstallations => "Old Xcode installations"@,
    }
}

pub open spec fn kind_category(k: CleanerKind) -> Category {
    match k {
        CleanerKind::AgentCache => Category::AiAgent,
        CleanerKind::Configured => Category::ManualReview,
        CleanerKind::Cargo => Category::PackageManager,
        CleanerKind::Codex => Category::AiAgent,
        CleanerKind::Dart => Category::PackageManager,
        CleanerKind::Npm => Category::PackageManager,
        CleanerKind::Pip => Category::PackageManager,
        CleanerKind::Pnpm => Category::PackageManager,
        CleanerKind::Uv => Category::PackageManager,
        CleanerKind::Yarn => Category::PackageManager,
        CleanerKind::Gradle => Category::PackageManager,
        CleanerKind::Maven => Category::PackageManager,
        CleanerKind::Kiro => Category::AiAgent,
        CleanerKind::Ollama => Category::AiAgent,
        CleanerKind::Docker => Category::Container,
        CleanerKind::MacosSystem => Category::SystemCache,
        CleanerKind::Brew => Category::PackageManager,
        CleanerKind::DockerDesktop => Category::Container,
        CleanerKind::AppLeftovers => Category::ManualReview,
        CleanerKind::PersonalData => Category::ManualReview,
        CleanerKind::SimulatorUnavailable => Category::Ide,
        CleanerKind::Xcode => Category::Ide,
        CleanerKind::XcodeArchives => Category::Ide,
        CleanerKind::SimulatorCache => Category::Ide,
        CleanerKind::Trash => Category::ManualReview,
        CleanerKind::WindowsTemp => Category::SystemCache,
        CleanerKind::MacosInstallers => Category::SystemCache,
        CleanerKind::XcodeInstallations => Category::Ide,
    }
}

pub open spec fn kind_risk(k: CleanerKind) -> RiskLevel {
    match k {
        CleanerKind::AgentCache => RiskLevel::Caution,
        CleanerKind::Configured => RiskLevel::Manual,
        CleanerKind::Cargo => RiskLevel::Caution,
        CleanerKind::Codex => RiskLevel::Caution,
        CleanerKind::Dart => RiskLevel::Safe,
        CleanerKind::Npm => RiskLevel::Safe,
        CleanerKind::Pip => RiskLevel::Safe,
        CleanerKind::Pnpm => RiskLevel::Safe,
        CleanerKind::Uv => RiskLevel::Safe,
        CleanerKind::Yarn => RiskLevel::Safe,
        CleanerKind::Gradle => RiskLevel::Caution,
        CleanerKind::Maven => RiskLevel::Caution,
        CleanerKind::Kiro => RiskLevel::Manual,
        CleanerKind::Ollama => RiskLevel::Manual,
        CleanerKind::Docker => RiskLevel::Manual,
        CleanerKind::MacosSystem => RiskLevel::Caution,
        CleanerKind::Brew => RiskLevel::Safe,
        CleanerKind::DockerDesktop => RiskLevel::Manual,
        CleanerKind::AppLeftovers => RiskLevel::Manual,
        CleanerKind::PersonalData => RiskLevel::Manual,
        CleanerKind::SimulatorUnavailable => RiskLevel::Caution,
        CleanerKind::Xcode => RiskLevel::Safe,
        CleanerKind::XcodeArchives => RiskLevel::Manual,
        CleanerKind::SimulatorCache => RiskLevel::Caution,
        CleanerKind::Trash => RiskLevel::Destructive,
        CleanerKind::WindowsTemp => RiskLevel::Caution,
        CleanerKind::MacosInstallers => RiskLevel::Caution,
        CleanerKind::XcodeInstallations => RiskLevel::Caution,
    }
}

impl Cleaner for CleanerKind {
    open spec fn id_spec(&self) -> Seq<char> {
        kind_id(*self)
    }

    open spec fn display_name_spec(&self) -> Seq<char> {
        kind_name(*self)
    }

    open spec fn category_spec(&self) -> Category {
        kind_category(*self)
    }

    open spec fn risk_spec(&self) -> RiskLevel {
        kind_risk(*self)
    }

    fn id(&self) -> (r: &'static str) {
        match self {
            CleanerKind::AgentCache => "agent-caches",
            CleanerKind::Configured => "configured",
            CleanerKind::Cargo => "cargo",
            CleanerKind::Codex => "codex",
            CleanerKind::Dart => "dart",
            CleanerKind::Npm => "npm",
            CleanerKind::Pip => "pip",
            CleanerKind::Pnpm => "pnpm",
            CleanerKind::Uv => "uv",
            CleanerKind::Yarn => "yarn",
            CleanerKind::Gradle => "gradle",
            CleanerKind::Maven => "maven",
            CleanerKind::Kiro => "kiro",
            CleanerKind::Ollama => "ollama",
            CleanerKind::Docker => "docker",
            CleanerKind::MacosSystem => "macos-system",
            CleanerKind::Brew => "brew",
            CleanerKind::DockerDesktop => "docker-desktop",
            CleanerKind::AppLeftovers => "app-leftovers",
            CleanerKind::PersonalData => "personal-data",
            CleanerKind::SimulatorUnavailable => "simulator-unavailable",
            CleanerKind::Xcode => "xcode",
            CleanerKind::XcodeArchives => "xcode-archives",
            CleanerKind::SimulatorCache => "xcode-simulator",
            CleanerKind::Trash => "trash",
            CleanerKind::WindowsTemp => "windows-temp",
            CleanerKind::MacosInstallers => "macos-installers",
            CleanerKind::XcodeInstallations => "xcode-installations",
        }
    }

    fn display_name(&self) -> (r: &'static str) {
        match self {
            CleanerKind::AgentCache => "Other CLI agent caches",
            CleanerKind::Configured => "User-configured rules",
            CleanerKind::Cargo => "Cargo registry cache",
            CleanerKind::Codex => "Codex CLI cache and old runtimes",
            CleanerKind::Dart => "Dart pub cache",
            CleanerKind::Npm => "npm cache",
            CleanerKind::Pip => "pip cache",
            CleanerKind::Pnpm => "pnpm store",
            CleanerKind::Uv => "uv cache",
            CleanerKind::Yarn => "Yarn cache",
            CleanerKind::Gradle => "Gradle cache",
            CleanerKind::Maven => "Maven repository",
            CleanerKind::Kiro => "Kiro CLI cache and sessions",
            CleanerKind::Ollama => "Ollama cache and models",
            CleanerKind::Docker => "Docker reclaimable data",
            CleanerKind::MacosSystem => "macOS app caches and logs",
            CleanerKind::Brew => "Homebrew cache",
            CleanerKind::DockerDesktop => "Docker Desktop VM disk image",
            CleanerKind::AppLeftovers => "Uninstalled app leftovers",
            CleanerKind::PersonalData => "Mail downloads and iOS backups",
            CleanerKind::SimulatorUnavailable => "Unavailable simulator devices",
            CleanerKind::Xcode => "Xcode DerivedData",
            CleanerKind::XcodeArchives => "Xcode Archives",
            CleanerKind::SimulatorCache => "CoreSimulator caches",
            CleanerKind::Trash => "macOS Trash",
            CleanerKind::WindowsTemp => "Windows temporary files",
            CleanerKind::MacosInstallers => "macOS installer applications",
            CleanerKind::XcodeInstallations => "Old Xcode installations",
        }
    }

    fn category(&self) -> (r: Category) {
        match self {
            CleanerKind::AgentCache => Category::AiAgent,
            CleanerKind::Configured => Category::ManualReview,
            CleanerKind::Cargo => Category::PackageManager,
            CleanerKind::Codex => Category::AiAgent,
            CleanerKind::Dart => Category::PackageManager,
            CleanerKind::Npm => Category::PackageManager,
            CleanerKind::Pip => Category::PackageManager,
            CleanerKind::Pnpm => Category::PackageManager,
            CleanerKind::Uv => Category::PackageManager,
            CleanerKind::Yarn => Category::PackageManager,
            CleanerKind::Gradle => Category::PackageManager,
            CleanerKind::Maven => Category::PackageManager,
            CleanerKind::Kiro => Category::AiAgent,
            CleanerKind::Ollama => Category::AiAgent,
            CleanerKind::Docker => Category::Container,
            CleanerKind::MacosSystem => Category::SystemCache,
            CleanerKind::Brew => Category::PackageManager,
            CleanerKind::DockerDesktop => Category::Container,
            CleanerKind::AppLeftovers => Category::ManualReview,
            CleanerKind::PersonalData => Category::ManualReview,
            CleanerKind::SimulatorUnavailable => Category::Ide,
            CleanerKind::Xcode => Category::Ide,
            CleanerKind::XcodeArchives => Category::Ide,
            CleanerKind::SimulatorCache => Category::Ide,
            CleanerKind::Trash => Category::ManualReview,
            CleanerKind::WindowsTemp => Category::SystemCache,
            CleanerKind::MacosInstallers => Category::SystemCache,
            CleanerKind::XcodeInstallations => Category::Ide,
        }
    }

    fn risk_level(&self) -> (r: RiskLevel) {
        match self {
            CleanerKind::AgentCache => RiskLevel::Caution,
            CleanerKind::Configured => RiskLevel::Manual,
            CleanerKind::Cargo => RiskLevel::Caution,
            CleanerKind::Codex => RiskLevel::Caution,
            CleanerKind::Dart => RiskLevel::Safe,
            CleanerKind::Npm => RiskLevel::Safe,
            CleanerKind::Pip => RiskLevel::Safe,
            CleanerKind::Pnpm => RiskLevel::Safe,
            CleanerKind::Uv => RiskLevel::Safe,
            CleanerKind::Yarn => RiskLevel::Safe,
            CleanerKind::Gradle => RiskLevel::Caution,
            CleanerKind::Maven => RiskLevel::Caution,
            CleanerKind::Kiro => RiskLevel::Manual,
            CleanerKind::Ollama => RiskLevel::Manual,
            CleanerKind::Docker => RiskLevel::Manual,
            CleanerKind::MacosSystem => RiskLevel::Caution,
            CleanerKind::Brew => RiskLevel::Safe,
            CleanerKind::DockerDesktop => RiskLevel::Manual,
            CleanerKind::AppLeftovers => RiskLevel::Manual,
            CleanerKind::PersonalData => RiskLevel::Manual,
            CleanerKind::SimulatorUnavailable => RiskLevel::Caution,
            CleanerKind::Xcode => RiskLevel::Safe,
            CleanerKind::XcodeArchives => RiskLevel::Manual,
            CleanerKind::SimulatorCache => RiskLevel::Caution,
            CleanerKind::Trash => RiskLevel::Destructive,
            CleanerKind::WindowsTemp => RiskLevel::Caution,
            CleanerKind::MacosInstallers => RiskLevel::Caution,
            CleanerKind::XcodeInstallations => RiskLevel::Caution,
        }
    }
}

/// The operating system the registry is built for.
#[derive(Clone, Copy, Debug, PartialEq, Eq, Structural)]
pub enum Platform {
    MacOs,
    Windows,
    Other,
}

pub open spec fn common_cleaners() -> Seq<CleanerKind> {
    seq![
        CleanerKind::AgentCache,
        CleanerKind::Configured,
        CleanerKind::Cargo,
        CleanerKind::Codex,
        CleanerKind::Dart,
        CleanerKind::Npm,
        CleanerKind::Pip,
        CleanerKind::Pnpm,
        CleanerKind::Uv,
        CleanerKind::Yarn,
        CleanerKind::Gradle,
        CleanerKind::Maven,
        CleanerKind::Kiro,
        CleanerKind::Ollama,
        CleanerKind::Docker,
    ]
}

pub open spec fn macos_cleaners() -> Seq<CleanerKind> {
    seq![
        CleanerKind::MacosSystem,
        CleanerKind::Brew,
        CleanerKind::DockerDesktop,
        CleanerKind::AppLeftovers,
        CleanerKind::PersonalData,
        CleanerKind::SimulatorUnavailable,
        CleanerKind::Xcode,
        CleanerKind::XcodeArchives,
        CleanerKind::SimulatorCache,
        CleanerKind::Trash,
    ]
}

/// The rules scanned on `platform`, in registry order: the portable rules,
/// then the platform's own.
pub open spec fn all_cleaners_spec(platform: Platform) -> Seq<CleanerKind> {
    match platform {
        Platform::MacOs => common_cleaners() + macos_cleaners(),
        Platform::Windows => common_cleaners().push(CleanerKind::WindowsTemp),
        Platform::Other => common_cleaners(),
    }
}

pub fn all_cleaners(platform: Platform) -> (out: Vec<CleanerKind>)
    ensures
        out@ == all_cleaners_spec(platform),
{
    let mut out: Vec<CleanerKind> = Vec::new();
    out.push(CleanerKind::AgentCache);
    out.push(CleanerKind::Configured);
    out.push(CleanerKind::Cargo);
    out.push(CleanerKind::Codex);
    out.push(CleanerKind::Dart);
    out.push(CleanerKind::Npm);
    out.push(CleanerKind::Pip);
    out.push(CleanerKind::Pnpm);
    out.push(CleanerKind::Uv);
    out.push(CleanerKind::Yarn);
    out.push(CleanerKind::Gradle);
    out.push(CleanerKind::Maven);
    out.push(CleanerKind::Kiro);
    out.push(CleanerKind::Ollama);
    out.push(CleanerKind::Docker);
    match platform {
        Platform::MacOs => {
            out.push(CleanerKind::MacosSystem);
            out.push(CleanerKind::Brew);
            out.push(CleanerKind::DockerDesktop);
            out.push(CleanerKind::AppLeftovers);
            out.push(CleanerKind::PersonalData);
            out.push(CleanerKind::SimulatorUnavailable);
            out.push(CleanerKind::Xcode);
            out.push(CleanerKind::XcodeArchives);
            out.push(CleanerKind::SimulatorCache);
            out.push(CleanerKind::Trash);
        },
        Platform::Windows => {
            out.push(CleanerKind::WindowsTemp);
        },
        Platform::Other => {},
    }
    assert(out@ =~= all_cleaners_spec(platform));
    out
}

/// The scan report of one rule.
#[derive(Clone, Debug)]
pub struct CleanerScan {
    pub cleaner_id: String,
    pub display_name: String,
    pub category: Category,
    pub risk_level: RiskLevel,
    pub available: bool,
    pub targets: Vec<CleanTarget>,
    pub error: Option<String>,
}

/// The targets that still hold data, in order.
pub open spec fn non_empty_targets(s: Seq<CleanTarget>) -> Seq<CleanTarget>
    decreases s.len(),
{
    if s.len() == 0 {
        s
    } else {
        let rest = non_empty_targets(s.drop_last());
        if s.last().size_bytes > 0 {
            rest.push(s.last())
        } else {
            rest
        }
    }
}

/// The report of a rule: an unavailable rule reports nothing; a failed scan
/// reports its error; otherwise the targets with reclaimable data.
pub open spec fn scan_report_spec<C: Cleaner>(c: C, available: bool, scanned: Result<Seq<CleanTarget>, Seq<char>>, r: CleanerScan) -> bool {
    &&& r.cleaner_id@ == c.id_spec()
    &&& r.display_name@ == c.display_name_spec()
    &&& r.category == c.category_spec()
    &&& r.risk_level == c.risk_spec()
    &&& r.available == available
    &&& if !available {
        r.targets@.len() == 0 && r.error is None
    } else {
        match scanned {
            Ok(ts) => r.targets@ == non_empty_targets(ts) && r.error is None,
            Err(e) => r.targets@.len() == 0 && match r.error {
                Some(x) => x@ == e,
                None => false,
            },
        }
    }
}

fn keep_non_empty_targets(targets: Vec<CleanTarget>) -> (out: Vec<CleanTarget>)
    ensures
        out@ == non_empty_targets(targets@),
{
    let ghost all = targets@;
    let mut targets = targets;
    let mut rev: Vec<CleanTarget> = Vec::new();
    while targets.len() > 0
        invariant
            targets@ == all.take(targets@.len() as int),
            targets@.len() <= all.len(),
            rev@.len() == all.len() - targets@.len(),
            forall|k: int| 0 <= k < rev@.len() ==> #[trigger] rev@[k] == all[all.len() - 1 - k],
        decreases targets.len(),
    {
        let ghost n = targets@.len();
        let t = targets.pop().unwrap();
        rev.push(t);
        assert(targets@ =~= all.take(n - 1));
    }
    let mut out: Vec<CleanTarget> = Vec::new();
    let mut i: usize = rev.len();
    while i > 0
        invariant
            i <= all.len(),
            rev@.len() == i,
            forall|k: int| 0 <= k < rev@.len() ==> #[trigger] rev@[k] == all[all.len() - 1 - k],
            out@ == non_empty_targets(all.take(all.len() - i)),
        decreases i,
    {
        let ghost m = all.len() - i;
        let t = rev.pop().unwrap();
        assert(t == all[m]);
        assert(all.take(m + 1).drop_last() =~= all.take(m));
        if t.size_bytes > 0 {
            out.push(t);
        }
        i = i - 1;
    }
    assert(all.take(all.len() as int) =~= all);
    out
}

/// Builds the report of `cleaner` from whether it is available and, when it
/// is, what its scan returned.
pub fn scan_cleaner<C: Cleaner>(cleaner: &C, available: bool, scanned: Result<Vec<CleanTarget>, String>) -> (r:
    CleanerScan)
    ensures
        scan_report_spec(
            *cleaner,
            available,
            match scanned {
                Ok(v) => Ok(v@),
                Err(e) => Err(e@),
            },
            r,
        ),
{
    let (targets, error) = if !available {
        (Vec::new(), None)
    } else {
        match scanned {
            Ok(targets) => (keep_non_empty_targets(targets), None),
            Err(e) => (Vec::new(), Some(e)),
        }
    };
    CleanerScan {
        cleaner_id: cleaner.id().to_string(),
        display_name: cleaner.display_name().to_string(),
        category: cleaner.category(),
        risk_level: cleaner.risk_level(),
        available,
        targets,
        error,
    }
}

/// The ASCII lower-case form of `s`.
pub open spec fn lowered(s: Seq<char>) -> Seq<char> {
    s.map_values(|c: char| lower_char(c))
}

/// `str::to_ascii_lowercase`.
pub fn lowercase(s: &str) -> (r: String)
    ensures
        r@ == lowered(s@),
{
    let cs = chars_of(s);
    let mut out: Vec<char> = Vec::new();
    for i in 0..cs.len()
        invariant
            cs@ == s@,
            out@ =~= s@.take(i as int).map_values(|c: char| lower_char(c)),
    {
        out.push(to_ascii_lower(cs[i]));
        assert(s@.take(i + 1) =~= s@.take(i as int).push(s@[i as int]));
    }
    assert(s@.take(cs.len() as int) =~= s@);
    string_of(&out)
}

/// Whether a rule is requested: with no `--only` list every rule is; with a
/// list, a rule whose id equals some entry lower-cased.
pub open spec fn requested(id: Seq<char>, only: Option<Seq<Seq<char>>>) -> bool {
    match only {
        None => true,
        Some(ids) => listed_id(id, ids),
    }
}

/// Whether some entry of `ids`, lower-cased, is `id`.
pub open spec fn listed_id(id: Seq<char>, ids: Seq<Seq<char>>) -> bool {
    exists|j: int| 0 <= j < ids.len() && #[trigger] lowered(ids[j]) == id
}

pub open spec fn requested_cleaners(cs: Seq<CleanerKind>, only: Option<Seq<Seq<char>>>) -> Seq<CleanerKind>
    decreases cs.len(),
{
    if cs.len() == 0 {
        cs
    } else {
        let rest = requested_cleaners(cs.drop_last(), only);
        if requested(kind_id(cs.last()), only) {
            rest.push(cs.last())
        } else {
            rest
        }
    }
}

pub open spec fn only_view(only: Option<&Vec<String>>) -> Option<Seq<Seq<char>>> {
    match only {
        Some(v) => Some(v.deep_view()),
        None => None,
    }
}

fn is_requested(id: &str, only: Option<&Vec<String>>) -> (r: bool)
    ensures
        r == requested(id@, only_view(only)),
{
    match only {
        None => true,
        Some(ids) => {
            let idc = chars_of(id);
            let mut j: usize = 0;
            while j < ids.len()
                invariant
                    only == Some(ids),
                    j <= ids.len(),
                    idc@ == id@,
                    forall|k: int|
                        0 <= k < j ==> #[trigger] lowered(ids.deep_view()[k]) != id@,
                decreases ids.len() - j,
            {
                let l = lowercase(ids[j].as_str());
                let lc = chars_of(l.as_str());
                assert(ids.deep_view()[j as int] == ids@[j as int]@);
                if chars_eq(lc.as_slice(), idc.as_slice()) {
                    assert(lowered(ids.deep_view()[j as int]) == id@);
                    return true;
                }
                j = j + 1;
            }
            false
        },
    }
}

/// The rules of `cleaners` that the `--only` list asks for, in order.
pub fn select_cleaners(cleaners: &Vec<CleanerKind>, only: Option<&Vec<String>>) -> (out: Vec<
    CleanerKind,
>)
    ensures
        out@ == requested_cleaners(cleaners@, only_view(only)),
{
    let mut out: Vec<CleanerKind> = Vec::new();
    for i in 0..cleaners.len()
        invariant
            out@ == requested_cleaners(cleaners@.take(i as int), only_view(only)),
    {
        assert(cleaners@.take(i + 1).drop_last() =~= cleaners@.take(i as int));
        let c = cleaners[i];
        if is_requested(c.id(), only) {
            out.push(c);
        }
    }
    assert(cleaners@.take(cleaners.len() as int) =~= cleaners@);
    out
}

impl Ordered for CleanerScan {
    /// By rule id.
    open spec fn precedes(&self, other: &Self) -> bool {
        lex_lt(self.cleaner_id@, other.cleaner_id@)
    }

    fn precedes_exec(&self, other: &Self) -> (r: bool) {
        let a = chars_of(self.cleaner_id.as_str());
        let b = chars_of(other.cleaner_id.as_str());
        lex_less(a.as_slice(), b.as_slice())
    }

    proof fn precedes_asymmetric(a: &Self, b: &Self) {
        lemma_lex_asymmetric(a.cleaner_id@, b.cleaner_id@);
    }

    proof fn precedes_negatively_transitive(a: &Self, b: &Self, c: &Self) {
        lemma_lex_total(a.cleaner_id@, b.cleaner_id@);
        if lex_lt(b.cleaner_id@, a.cleaner_id@) {
            lemma_lex_transitive(b.cleaner_id@, a.cleaner_id@, c.cleaner_id@);
        }
    }
}

/// The reports ordered by rule id.
pub fn sort_scans(scans: Vec<CleanerScan>) -> (out: Vec<CleanerScan>)
    ensures
        out@ == stable_sorted(scans@),
{
    stable_sort(scans)
}

// ---------------------------------------------------------------------------
// Building targets
// ---------------------------------------------------------------------------

/// A clean method as plain values.
pub enum MethodView {
    Command(Seq<Seq<char>>),
    CommandWithInput(Seq<Seq<char>>, Seq<char>),
    Trash,
}

pub open spec fn method_view(m: CleanMethod) -> MethodView {
    match m {
        CleanMethod::RunCommand(a) => MethodView::Command(a.deep_view()),
        CleanMethod::RunCommandWithInput { arguments, stdin } => MethodView::CommandWithInput(
            arguments.deep_view(),
            stdin@,
        ),
        CleanMethod::TrashPath => MethodView::Trash,
    }
}

/// A target as a rule proposes it, before it is measured.
pub struct PlannedTarget {
    pub path: String,
    pub description: String,
    pub method: CleanMethod,
}

/// The target for a proposed path: none when the path is missing
/// (`size_bytes` is `None`) or holds no data.
pub fn non_empty_target(path: String, description: String, method: CleanMethod, size_bytes: Option<u64>) -> (t: Option<CleanTarget>)
    ensures
        match size_bytes {
            Some(n) if n > 0 => t == Some(CleanTarget { path, size_bytes: n, description, method }),
            _ => t is None,
        },
{
    match size_bytes {
        Some(n) => {
            if n > 0 {
                Some(CleanTarget { path, size_bytes: n, description, method })
            } else {
                None
            }
        },
        None => None,
    }
}

pub open spec fn planned_view(t: PlannedTarget) -> (Seq<char>, Seq<char>, MethodView) {
    (t.path@, t.description@, method_view(t.method))
}

/// Paths below `home`, each moved to the Trash when cleaned.
pub open spec fn home_plan(home: Seq<char>, table: Seq<(Seq<char>, Seq<char>)>) -> Seq<(Seq<char>, Seq<char>, MethodView)> {
    table.map_values(|e: (Seq<char>, Seq<char>)| (path_join_spec(home, e.0), e.1, MethodView::Trash))
}

/// Proposes `home` joined with each relative path of `table`, with its
/// description, cleaned by moving it to the Trash.
pub fn plan_home_paths(home: &str, table: &Vec<(&'static str, &'static str)>) -> (out: Vec<PlannedTarget>)
    ensures
        out@.map_values(|t: PlannedTarget| planned_view(t)) == home_plan(
            home@,
            table@.map_values(|e: (&'static str, &'static str)| (e.0@, e.1@)),
        ),
{
    let ghost tv = table@.map_values(|e: (&'static str, &'static str)| (e.0@, e.1@));
    let mut out: Vec<PlannedTarget> = Vec::new();
    for i in 0..table.len()
        invariant
            tv == table@.map_values(|e: (&'static str, &'static str)| (e.0@, e.1@)),
            out@.map_values(|t: PlannedTarget| planned_view(t)) =~= home_plan(home@, tv.take(i as int)),
    {
        let (rel, desc) = table[i];
        let t = PlannedTarget {
            path: path_join(home, rel),
            description: desc.to_string(),
            method: CleanMethod::TrashPath,
        };
        let ghost before = out@;
        out.push(t);
        assert(tv[i as int] == (rel@, desc@));
        assert(out@.map_values(|t: PlannedTarget| planned_view(t)) =~= before.map_values(
            |t: PlannedTarget| planned_view(t),
        ).push(planned_view(t)));
        assert(tv.take(i + 1) =~= tv.take(i as int).push(tv[i as int]));
    }
    assert(tv.take(table.len() as int) =~= tv);
    out
}

/// A direct command (no shell) made of the given words.
pub fn command_method(words: &Vec<&'static str>) -> (m: CleanMethod)
    ensures
        method_view(m) == MethodView::Command(words@.map_values(|w: &'static str| w@)),
{
    let mut args: Vec<String> = Vec::new();
    for i in 0..words.len()
        invariant
            args.deep_view() =~= words@.take(i as int).map_values(|w: &'static str| w@),
    {
        let ghost before = args.deep_view();
        args.push(words[i].to_string());
        assert(args.deep_view() =~= before.push(words@[i as int]@));
        assert(words@.take(i + 1) =~= words@.take(i as int).push(words@[i as int]));
    }
    assert(words@.take(words.len() as int) =~= words@);
    CleanMethod::RunCommand(args)
}

/// Old versions in a version store: every entry but the active one, each
/// moved to the Trash when cleaned.
pub open spec fn old_versions_plan(entries: Seq<(String, bool)>, description: Seq<char>) -> Seq<(Seq<char>, Seq<char>, MethodView)>
    decreases entries.len(),
{
    if entries.len() == 0 {
        Seq::empty()
    } else {
        let rest = old_versions_plan(entries.drop_last(), description);
        if entries.last().1 {
            rest
        } else {
            rest.push((entries.last().0@, description, MethodView::Trash))
        }
    }
}

/// `entries` pairs each entry of a version store with whether it is the
/// version in use.
pub fn plan_old_versions(entries: &Vec<(String, bool)>, description: &str) -> (out: Vec<PlannedTarget>)
    ensures
        out@.map_values(|t: PlannedTarget| planned_view(t)) == old_versions_plan(entries@, description@),
{
    let mut out: Vec<PlannedTarget> = Vec::new();
    for i in 0..entries.len()
        invariant
            out@.map_values(|t: PlannedTarget| planned_view(t)) =~= old_versions_plan(
                entries@.take(i as int),
                description@,
            ),
    {
        assert(entries@.take(i + 1).drop_last() =~= entries@.take(i as int));
        if !entries[i].1 {
            let t = PlannedTarget {
                path: entries[i].0.clone(),
                description: description.to_string(),
                method: CleanMethod::TrashPath,
            };
            let ghost before = out@;
            out.push(t);
            assert(out@.map_values(|t: PlannedTarget| planned_view(t)) =~= before.map_values(
                |t: PlannedTarget| planned_view(t),
            ).push(planned_view(t)));
        }
    }
    assert(entries@.take(entries.len() as int) =~= entries@);
    out
}

/// The target for a path a tool reported: none when the path is missing
/// (`size_bytes` is `None`), nor when it is empty unless `keep_empty`.
pub open spec fn command_target_spec(
    path: Seq<char>,
    description: Seq<char>,
    words: Seq<Seq<char>>,
    size_bytes: Option<u64>,
    keep_empty: bool,
    t: Option<CleanTarget>,
) -> bool {
    match size_bytes {
        None => t is None,
        Some(n) => if n == 0 && !keep_empty {
            t is None
        } else {
            match t {
                Some(x) => x.path@ == path && x.size_bytes == n && x.description@ == description
                    && method_view(x.method) == MethodView::Command(words),
                None => false,
            }
        },
    }
}

pub fn command_target(
    path: String,
    description: &str,
    words: &Vec<&'static str>,
    size_bytes: Option<u64>,
    keep_empty: bool,
) -> (t: Option<CleanTarget>)
    ensures
        command_target_spec(
            path@,
            description@,
            words@.map_values(|w: &'static str| w@),
            size_bytes,
            keep_empty,
            t,
        ),
{
    match size_bytes {
        None => None,
        Some(n) => {
            if n == 0 && !keep_empty {
                None
            } else {
                Some(
                    CleanTarget {
                        path,
                        size_bytes: n,
                        description: description.to_string(),
                        method: command_method(words),
                    },
                )
            }
        },
    }
}

/// `--only` selects exactly the rules it names: a rule of `cs` is kept
/// precisely when some entry of the list, lower-cased, is its id, and
/// nothing outside `cs` is ever selected. Without `--only` every rule is
/// kept.
pub proof fn only_selects_exactly_the_named_rules(cs: Seq<CleanerKind>, ids: Seq<Seq<char>>, c: CleanerKind)
    ensures
        requested_cleaners(cs, Some(ids)).contains(c) <==> (cs.contains(c) && exists|j: int|
            0 <= j < ids.len() && lowered(ids[j]) == kind_id(c)),
        requested_cleaners(cs, None) == cs,
    decreases cs.len(),
{
    if cs.len() > 0 {
        only_selects_exactly_the_named_rules(cs.drop_last(), ids, c);
        let rest = requested_cleaners(cs.drop_last(), Some(ids));
        assert(cs =~= cs.drop_last().push(cs.last()));
        if cs.drop_last().contains(c) {
            let k = choose|k: int| 0 <= k < cs.drop_last().len() && cs.drop_last()[k] == c;
            assert(cs[k] == c);
        }
        if cs.contains(c) && !cs.drop_last().contains(c) {
            let k = choose|k: int| 0 <= k < cs.len() && cs[k] == c;
            if k < cs.len() - 1 {
                assert(cs.drop_last()[k] == c);
            }
            assert(cs.last() == c);
        }
        if requested(kind_id(cs.last()), Some(ids)) {
            assert(rest.push(cs.last()).last() == cs.last());
            if rest.contains(c) {
                let k = choose|k: int| 0 <= k < rest.len() && rest[k] == c;
                assert(rest.push(cs.last())[k] == c);
            }
            if rest.push(cs.last()).contains(c) && c != cs.last() {
                let k = choose|k: int| 0 <= k < rest.push(cs.last()).len() && rest.push(cs.last())[k] == c;
                assert(rest[k] == c);
            }
        }
        if exists|j: int| 0 <= j < ids.len() && lowered(ids[j]) == kind_id(c) {
            let j = choose|j: int| 0 <= j < ids.len() && lowered(ids[j]) == kind_id(c);
            assert(lowered(ids[j]) == kind_id(c));
        }
        only_selects_none_keeps_all(cs);
    }
}

proof fn only_selects_none_keeps_all(cs: Seq<CleanerKind>)
    ensures
        requested_cleaners(cs, None) == cs,
    decreases cs.len(),
{
    if cs.len() > 0 {
        only_selects_none_keeps_all(cs.drop_last());
        assert(cs =~= cs.drop_last().push(cs.last()));
    }
}

} // verus!
