//! When a rule is available: the programs and paths whose presence makes a
//! rule worth scanning. The caller checks each probe on the machine; a rule
//! is available when every probe of `all` holds and at least one probe of
//! `any` does.
use crate::cleaner::{home_plan, planned_view, CleanerKind, MethodView, Platform, PlannedTarget};
use crate::paths::{path_join, path_join_spec};
use crate::rules::agent_cache::{agent_commands, agent_commands_spec, AgentCacheCleaner};
use crate::rules::codex::{codex_home_spec, CodexCleaner};
use crate::rules::configured::ConfiguredCleaner;
use crate::rules::docker_desktop::DockerDesktopCleaner;
use crate::rules::macos_installers::{installer_roots_spec, MacosInstallerCleaner};
use crate::rules::personal::PersonalDataCleaner;
use crate::rules::simulator::SimulatorUnavailableCleaner;
use crate::rules::trash::TrashCleaner;
use crate::rules::xcode::{xcode_roots_spec, SimulatorCacheCleaner, XcodeArchivesCleaner, XcodeInstallationsCleaner};
use crate::scanner::opt_str_view;
use crate::standalone::opt_string;
use vstd::prelude::*;

verus! {

broadcast use vstd::string::group_string_axioms;

/// Which entries of a folder a probe looks for.
#[derive(Clone, Copy, Debug, PartialEq, Eq, Structural)]
pub enum EntryTest {
    /// A macOS installer application (see `is_macos_installer`).
    MacosInstaller,
    /// An Xcode application bundle (see `is_xcode_app`).
    XcodeApp,
}

/// One fact about the machine.
#[derive(Clone, Debug)]
pub enum Probe {
    /// The program is installed.
    Installed(&'static str),
    /// The path exists.
    Exists(String),
    /// The path is a folder.
    IsDir(String),
    /// The path is a regular file.
    IsFile(String),
    /// A fact that is already known.
    Known(bool),
    /// The folder has an entry that passes the test.
    HasEntry(String, EntryTest),
    /// Some app of the leftover registry is not installed while one of its
    /// data locations exists.
    Leftovers,
}

pub enum ProbeView {
    Installed(Seq<char>),
    Exists(Seq<char>),
    IsDir(Seq<char>),
    IsFile(Seq<char>),
    Known(bool),
    HasEntry(Seq<char>, EntryTest),
    Leftovers,
}

pub open spec fn probe_view(p: Probe) -> ProbeView {
    match p {
        Probe::Installed(n) => ProbeView::Installed(n@),
        Probe::Exists(p) => ProbeView::Exists(p@),
        Probe::IsDir(p) => ProbeView::IsDir(p@),
        Probe::IsFile(p) => ProbeView::IsFile(p@),
        Probe::Known(b) => ProbeView::Known(b),
        Probe::HasEntry(p, t) => ProbeView::HasEntry(p@, t),
        Probe::Leftovers => ProbeView::Leftovers,
    }
}

pub open spec fn probes_view(v: Seq<Probe>) -> Seq<ProbeView> {
    v.map_values(|p: Probe| probe_view(p))
}

/// What a rule's availability depends on.
pub struct Availability {
    /// Each of these must hold.
    pub all: Vec<Probe>,
    /// One of these must hold.
    pub any: Vec<Probe>,
}

pub open spec fn installed_probes(names: Seq<Seq<char>>) -> Seq<ProbeView> {
    names.map_values(|n: Seq<char>| ProbeView::Installed(n))
}

/// The proposed paths of a plan, each probed for existence.
pub open spec fn exists_probes(plan: Seq<(Seq<char>, Seq<char>, MethodView)>) -> Seq<ProbeView> {
    plan.map_values(|e: (Seq<char>, Seq<char>, MethodView)| ProbeView::Exists(e.0))
}

/// The paths of a rule's table below the home directory, probed for
/// existence; none without a home directory.
pub open spec fn home_exists(home: Option<Seq<char>>, table: Seq<(Seq<char>, Seq<char>)>) -> Seq<ProbeView> {
    match home {
        Some(h) => exists_probes(home_plan(h, table)),
        None => Seq::empty(),
    }
}

/// Paths relative to the home directory, probed for existence.
pub open spec fn home_markers(home: Option<Seq<char>>, rels: Seq<Seq<char>>) -> Seq<ProbeView> {
    match home {
        Some(h) => rels.map_values(|r: Seq<char>| ProbeView::Exists(path_join_spec(h, r))),
        None => Seq::empty(),
    }
}

pub open spec fn kiro_markers() -> Seq<Seq<char>> {
    seq![".kiro"@, "Library/Application Support/kiro-cli"@]
}

pub open spec fn ollama_markers() -> Seq<Seq<char>> {
    seq![".ollama"@, "Library/Caches/ollama"@]
}

/// One probe built from the home directory, none without one.
pub open spec fn with_home(home: Option<Seq<char>>, probe: spec_fn(Seq<char>) -> ProbeView) -> Seq<ProbeView> {
    match home {
        Some(h) => seq![probe(h)],
        None => Seq::empty(),
    }
}

/// The probes of a rule: `(all, any)`. `codex_env` is `$CODEX_HOME` and
/// `temp_dirs` the Windows temporary folders.
pub open spec fn availability_spec(
    kind: CleanerKind,
    platform: Platform,
    home: Option<Seq<char>>,
    codex_env: Option<Seq<char>>,
    temp_dirs: Seq<Seq<char>>,
) -> (Seq<ProbeView>, Seq<ProbeView>) {
    match kind {
        CleanerKind::AgentCache => (
            Seq::empty(),
            installed_probes(agent_commands_spec()) + home_exists(home, AgentCacheCleaner::paths_spec()),
        ),
        CleanerKind::Configured => (
            Seq::empty(),
            with_home(home, |h: Seq<char>| ProbeView::IsFile(path_join_spec(h, ".config/cleanrs/rules.toml"@))),
        ),
        CleanerKind::Cargo => (Seq::empty(), seq![ProbeView::Installed("cargo"@)]),
        CleanerKind::Codex => (
            Seq::empty(),
            seq![ProbeView::Installed("codex"@)] + match codex_home_spec(codex_env, home) {
                Some(r) => seq![ProbeView::Exists(r)],
                None => Seq::empty(),
            } + home_exists(home, CodexCleaner::paths_spec()),
        ),
        CleanerKind::Dart => (Seq::empty(), seq![ProbeView::Installed("dart"@)]),
        CleanerKind::Npm => (Seq::empty(), seq![ProbeView::Installed("npm"@)]),
        CleanerKind::Pip => (
            Seq::empty(),
            seq![ProbeView::Installed("pip3"@), ProbeView::Installed("pip"@), ProbeView::Installed("python3"@)],
        ),
        CleanerKind::Pnpm => (Seq::empty(), seq![ProbeView::Installed("pnpm"@)]),
        CleanerKind::Uv => (Seq::empty(), seq![ProbeView::Installed("uv"@)]),
        CleanerKind::Yarn => (Seq::empty(), seq![ProbeView::Installed("yarn"@)]),
        CleanerKind::Gradle => (Seq::empty(), seq![ProbeView::Installed("gradle"@)]),
        CleanerKind::Maven => (Seq::empty(), seq![ProbeView::Installed("mvn"@)]),
        CleanerKind::Kiro => (
            Seq::empty(),
            seq![ProbeView::Installed("kiro-cli"@)] + home_markers(home, kiro_markers()),
        ),
        CleanerKind::Ollama => (
            Seq::empty(),
            seq![ProbeView::Installed("ollama"@)] + home_markers(home, ollama_markers()),
        ),
        CleanerKind::Docker => (Seq::empty(), seq![ProbeView::Installed("docker"@)]),
        CleanerKind::MacosSystem => (
            Seq::empty(),
            seq![ProbeView::Known(platform == Platform::MacOs && home is Some)],
        ),
        CleanerKind::Brew => (Seq::empty(), seq![ProbeView::Installed("brew"@)]),
        CleanerKind::DockerDesktop => (
            Seq::empty(),
            match home {
                Some(h) => home_plan(h, DockerDesktopCleaner::paths_spec()).map_values(
                    |e: (Seq<char>, Seq<char>, MethodView)| ProbeView::IsFile(e.0),
                ),
                None => Seq::empty(),
            },
        ),
        CleanerKind::AppLeftovers => (
            seq![ProbeView::Known(platform == Platform::MacOs)],
            with_home(home, |h: Seq<char>| ProbeView::Leftovers),
        ),
        CleanerKind::PersonalData => (Seq::empty(), home_exists(home, PersonalDataCleaner::paths_spec())),
        CleanerKind::SimulatorUnavailable => (
            seq![ProbeView::Installed("xcrun"@)],
            with_home(
                home,
                |h: Seq<char>| ProbeView::IsDir(path_join_spec(h, "Library/Developer/CoreSimulator/Devices"@)),
            ),
        ),
        CleanerKind::Xcode => (Seq::empty(), seq![ProbeView::Installed("xcrun"@)]),
        CleanerKind::XcodeArchives => (Seq::empty(), home_exists(home, XcodeArchivesCleaner::paths_spec())),
        CleanerKind::SimulatorCache => (Seq::empty(), home_exists(home, SimulatorCacheCleaner::paths_spec())),
        CleanerKind::Trash => (
            seq![ProbeView::Installed("osascript"@)],
            with_home(home, |h: Seq<char>| ProbeView::IsDir(path_join_spec(h, ".Trash"@))),
        ),
        CleanerKind::WindowsTemp => (Seq::empty(), temp_dirs.map_values(|d: Seq<char>| ProbeView::IsDir(d))),
        CleanerKind::MacosInstallers => (
            Seq::empty(),
            installer_roots_spec(home).map_values(
                |r: Seq<char>| ProbeView::HasEntry(r, EntryTest::MacosInstaller),
            ),
        ),
        CleanerKind::XcodeInstallations => (
            Seq::empty(),
            xcode_roots_spec(home).map_values(|r: Seq<char>| ProbeView::HasEntry(r, EntryTest::XcodeApp)),
        ),
    }
}

fn installed_all(names: Vec<&'static str>) -> (out: Vec<Probe>)
    ensures
        probes_view(out@) == installed_probes(names@.map_values(|n: &'static str| n@)),
{
    let mut out: Vec<Probe> = Vec::new();
    for i in 0..names.len()
        invariant
            probes_view(out@) =~= installed_probes(names@.map_values(|n: &'static str| n@)).take(i as int),
    {
        out.push(Probe::Installed(names[i]));
        assert(installed_probes(names@.map_values(|n: &'static str| n@)).take(i + 1) =~= installed_probes(
            names@.map_values(|n: &'static str| n@),
        ).take(i as int).push(ProbeView::Installed(names@[i as int]@)));
    }
    out
}

fn exists_all(plan: Vec<PlannedTarget>) -> (out: Vec<Probe>)
    ensures
        probes_view(out@) == exists_probes(plan@.map_values(|t: PlannedTarget| planned_view(t))),
{
    let ghost pv = plan@.map_values(|t: PlannedTarget| planned_view(t));
    let mut out: Vec<Probe> = Vec::new();
    for i in 0..plan.len()
        invariant
            pv == plan@.map_values(|t: PlannedTarget| planned_view(t)),
            probes_view(out@) =~= exists_probes(pv).take(i as int),
    {
        out.push(Probe::Exists(plan[i].path.clone()));
        assert(exists_probes(pv).take(i + 1) =~= exists_probes(pv).take(i as int).push(
            ProbeView::Exists(plan@[i as int].path@),
        ));
    }
    out
}

fn markers(home: Option<&str>, rels: Vec<&'static str>) -> (out: Vec<Probe>)
    ensures
        probes_view(out@) == home_markers(opt_str_view(home), rels@.map_values(|r: &'static str| r@)),
{
    let mut out: Vec<Probe> = Vec::new();
    match home {
        Some(h) => {
            let ghost rv = rels@.map_values(|r: &'static str| r@);
            for i in 0..rels.len()
                invariant
                    rv == rels@.map_values(|r: &'static str| r@),
                    probes_view(out@) =~= home_markers(Some(h@), rv).take(i as int),
            {
                out.push(Probe::Exists(path_join(h, rels[i])));
                assert(home_markers(Some(h@), rv).take(i + 1) =~= home_markers(Some(h@), rv).take(i as int).push(
                    ProbeView::Exists(path_join_spec(h@, rv[i as int])),
                ));
            }
        },
        None => {
            assert(probes_view(out@) =~= Seq::<ProbeView>::empty());
        },
    }
    out
}

fn optional(probe: Option<Probe>) -> (out: Vec<Probe>)
    ensures
        probes_view(out@) == match probe {
            Some(p) => seq![probe_view(p)],
            None => Seq::<ProbeView>::empty(),
        },
{
    let mut out: Vec<Probe> = Vec::new();
    match probe {
        Some(p) => {
            out.push(p);
        },
        None => {},
    }
    assert(probes_view(out@) =~= match probe {
        Some(p) => seq![probe_view(p)],
        None => Seq::<ProbeView>::empty(),
    });
    out
}

fn single(p: Probe) -> (out: Vec<Probe>)
    ensures
        probes_view(out@) == seq![probe_view(p)],
{
    let out = vec![p];
    assert(probes_view(out@) =~= seq![probe_view(p)]);
    out
}

fn entry_probes(roots: Vec<String>, test: EntryTest) -> (out: Vec<Probe>)
    ensures
        probes_view(out@) == roots.deep_view().map_values(|r: Seq<char>| ProbeView::HasEntry(r, test)),
{
    let ghost rv = roots.deep_view();
    let mut out: Vec<Probe> = Vec::new();
    for i in 0..roots.len()
        invariant
            rv == roots.deep_view(),
            probes_view(out@) =~= rv.map_values(|r: Seq<char>| ProbeView::HasEntry(r, test)).take(i as int),
    {
        out.push(Probe::HasEntry(roots[i].clone(), test));
        assert(rv.map_values(|r: Seq<char>| ProbeView::HasEntry(r, test)).take(i + 1) =~= rv.map_values(
            |r: Seq<char>| ProbeView::HasEntry(r, test),
        ).take(i as int).push(ProbeView::HasEntry(rv[i as int], test)));
    }
    out
}

fn dir_probes(dirs: &Vec<String>) -> (out: Vec<Probe>)
    ensures
        probes_view(out@) == dirs.deep_view().map_values(|d: Seq<char>| ProbeView::IsDir(d)),
{
    let ghost dv = dirs.deep_view();
    let mut out: Vec<Probe> = Vec::new();
    for i in 0..dirs.len()
        invariant
            dv == dirs.deep_view(),
            probes_view(out@) =~= dv.map_values(|d: Seq<char>| ProbeView::IsDir(d)).take(i as int),
    {
        out.push(Probe::IsDir(dirs[i].clone()));
        assert(dv.map_values(|d: Seq<char>| ProbeView::IsDir(d)).take(i + 1) =~= dv.map_values(
            |d: Seq<char>| ProbeView::IsDir(d),
        ).take(i as int).push(ProbeView::IsDir(dv[i as int])));
    }
    out
}

fn joined(a: Vec<Probe>, b: Vec<Probe>) -> (out: Vec<Probe>)
    ensures
        probes_view(out@) == probes_view(a@) + probes_view(b@),
{
    let ghost av = a@;
    let ghost bv = b@;
    let mut a = a;
    let mut b = b;
    a.append(&mut b);
    assert(probes_view(a@) =~= probes_view(av) + probes_view(bv));
    a
}

fn nothing() -> (out: Vec<Probe>)
    ensures
        probes_view(out@) == Seq::<ProbeView>::empty(),
{
    let out: Vec<Probe> = Vec::new();
    assert(probes_view(out@) =~= Seq::<ProbeView>::empty());
    out
}

/// The planned paths below the home directory, probed for existence.
fn home_plan_probes(planned: Option<Vec<PlannedTarget>>) -> (out: Vec<Probe>)
    ensures
        probes_view(out@) == match planned {
            Some(v) => exists_probes(v@.map_values(|t: PlannedTarget| planned_view(t))),
            None => Seq::<ProbeView>::empty(),
        },
{
    match planned {
        Some(v) => exists_all(v),
        None => nothing(),
    }
}

/// The probes of a rule; see [`availability_spec`]. `codex_env` is the
/// value of `$CODEX_HOME`, `temp_dirs` the Windows temporary folders.
pub fn availability(
    kind: CleanerKind,
    platform: Platform,
    home: Option<&str>,
    codex_env: Option<&str>,
    temp_dirs: &Vec<String>,
) -> (a: Availability)
    ensures
        (probes_view(a.all@), probes_view(a.any@)) == availability_spec(
            kind,
            platform,
            opt_str_view(home),
            opt_str_view(codex_env),
            temp_dirs.deep_view(),
        ),
{
    let installed = |name: &'static str| -> (v: Vec<Probe>)
        ensures
            probes_view(v@) == seq![ProbeView::Installed(name@)],
        { single(Probe::Installed(name)) };
    let (all, any) = match kind {
        CleanerKind::AgentCache => {
            let names = agent_commands();
            let plan = match home {
                Some(h) => Some(AgentCacheCleaner::planned_targets(h)),
                None => None,
            };
            (nothing(), joined(installed_all(names), home_plan_probes(plan)))
        },
        CleanerKind::Configured => {
            let probe = match home {
                Some(h) => Some(Probe::IsFile(ConfiguredCleaner::config_path(h))),
                None => None,
            };
            (nothing(), optional(probe))
        },
        CleanerKind::Cargo => (nothing(), installed("cargo")),
        CleanerKind::Codex => {
            let root = match CodexCleaner::codex_home(codex_env, home) {
                Some(r) => Some(Probe::Exists(r)),
                None => None,
            };
            let plan = match home {
                Some(h) => Some(CodexCleaner::planned_targets(h)),
                None => None,
            };
            (nothing(), joined(joined(installed("codex"), optional(root)), home_plan_probes(plan)))
        },
        CleanerKind::Dart => (nothing(), installed("dart")),
        CleanerKind::Npm => (nothing(), installed("npm")),
        CleanerKind::Pip => (nothing(), installed_all(vec!["pip3", "pip", "python3"])),
        CleanerKind::Pnpm => (nothing(), installed("pnpm")),
        CleanerKind::Uv => (nothing(), installed("uv")),
        CleanerKind::Yarn => (nothing(), installed("yarn")),
        CleanerKind::Gradle => (nothing(), installed("gradle")),
        CleanerKind::Maven => (nothing(), installed("mvn")),
        CleanerKind::Kiro => (
            nothing(),
            joined(installed("kiro-cli"), markers(home, vec![".kiro", "Library/Application Support/kiro-cli"])),
        ),
        CleanerKind::Ollama => (
            nothing(),
            joined(installed("ollama"), markers(home, vec![".ollama", "Library/Caches/ollama"])),
        ),
        CleanerKind::Docker => (nothing(), installed("docker")),
        CleanerKind::MacosSystem => {
            let mac = match platform {
                Platform::MacOs => true,
                _ => false,
            };
            (nothing(), single(Probe::Known(mac && home.is_some())))
        },
        CleanerKind::Brew => (nothing(), installed("brew")),
        CleanerKind::DockerDesktop => {
            let mut any: Vec<Probe> = Vec::new();
            match home {
                Some(h) => {
                    let plan = DockerDesktopCleaner::planned_targets(h);
                    let ghost pv = plan@.map_values(|t: PlannedTarget| planned_view(t));
                    for i in 0..plan.len()
                        invariant
                            pv == plan@.map_values(|t: PlannedTarget| planned_view(t)),
                            probes_view(any@) =~= pv.map_values(
                                |e: (Seq<char>, Seq<char>, MethodView)| ProbeView::IsFile(e.0),
                            ).take(i as int),
                    {
                        any.push(Probe::IsFile(plan[i].path.clone()));
                        assert(pv.map_values(|e: (Seq<char>, Seq<char>, MethodView)| ProbeView::IsFile(e.0)).take(
                            i + 1,
                        ) =~= pv.map_values(|e: (Seq<char>, Seq<char>, MethodView)| ProbeView::IsFile(e.0)).take(
                            i as int,
                        ).push(ProbeView::IsFile(plan@[i as int].path@)));
                    }
                    assert(pv.map_values(|e: (Seq<char>, Seq<char>, MethodView)| ProbeView::IsFile(e.0)).take(
                        plan.len() as int,
                    ) =~= pv.map_values(|e: (Seq<char>, Seq<char>, MethodView)| ProbeView::IsFile(e.0)));
                },
                None => {
                    assert(probes_view(any@) =~= Seq::<ProbeView>::empty());
                },
            }
            (nothing(), any)
        },
        CleanerKind::AppLeftovers => {
            let mac = match platform {
                Platform::MacOs => true,
                _ => false,
            };
            let probe = match home {
                Some(_) => Some(Probe::Leftovers),
                None => None,
            };
            (single(Probe::Known(mac)), optional(probe))
        },
        CleanerKind::PersonalData => {
            let plan = match home {
                Some(h) => Some(PersonalDataCleaner::planned_targets(h)),
                None => None,
            };
            (nothing(), home_plan_probes(plan))
        },
        CleanerKind::SimulatorUnavailable => {
            let probe = match home {
                Some(h) => Some(Probe::IsDir(SimulatorUnavailableCleaner::devices_path(h))),
                None => None,
            };
            (installed("xcrun"), optional(probe))
        },
        CleanerKind::Xcode => (nothing(), installed("xcrun")),
        CleanerKind::XcodeArchives => {
            let plan = match home {
                Some(h) => Some(XcodeArchivesCleaner::planned_targets(h)),
                None => None,
            };
            (nothing(), home_plan_probes(plan))
        },
        CleanerKind::SimulatorCache => {
            let plan = match home {
                Some(h) => Some(SimulatorCacheCleaner::planned_targets(h)),
                None => None,
            };
            (nothing(), home_plan_probes(plan))
        },
        CleanerKind::Trash => {
            let probe = match home {
                Some(h) => Some(Probe::IsDir(TrashCleaner::trash_path(h))),
                None => None,
            };
            (installed("osascript"), optional(probe))
        },
        CleanerKind::WindowsTemp => (nothing(), dir_probes(temp_dirs)),
        CleanerKind::MacosInstallers => (
            nothing(),
            entry_probes(MacosInstallerCleaner::installer_roots(home), EntryTest::MacosInstaller),
        ),
        CleanerKind::XcodeInstallations => (
            nothing(),
            entry_probes(XcodeInstallationsCleaner::xcode_roots(home), EntryTest::XcodeApp),
        ),
    };
    proof {
        reveal_strlit("cargo");
    }
    let a = Availability { all, any };
    assert((probes_view(a.all@), probes_view(a.any@)) =~~= availability_spec(
        kind,
        platform,
        opt_str_view(home),
        opt_str_view(codex_env),
        temp_dirs.deep_view(),
    ));
    a
}

} // verus!
