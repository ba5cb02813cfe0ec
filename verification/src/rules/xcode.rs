//! Xcode build data, archives, simulator caches and old installations.
use crate::cleaner::{kind_category, kind_id, kind_name, kind_risk, Cleaner, CleanerKind};
use crate::model::{Category, RiskLevel};
use crate::cleaner::{home_plan, plan_home_paths, planned_view, PlannedTarget};
use crate::cleaner::non_empty_target;
use crate::model::{CleanMethod, CleanTarget};
use crate::paths::{extension, extension_spec, file_name, file_name_spec, path_join, path_join_spec};
use crate::scanner::opt_str_view;
use crate::text::{chars_eq_str, lemma_chars_deep_view, push_str, starts_with_seq, starts_with_str};
use vstd::prelude::*;

verus! {

broadcast use vstd::string::group_string_axioms;

pub struct XcodeCleaner;

impl Cleaner for XcodeCleaner {
    open spec fn id_spec(&self) -> Seq<char> {
        kind_id(CleanerKind::Xcode)
    }

    open spec fn display_name_spec(&self) -> Seq<char> {
        kind_name(CleanerKind::Xcode)
    }

    open spec fn category_spec(&self) -> Category {
        kind_category(CleanerKind::Xcode)
    }

    open spec fn risk_spec(&self) -> RiskLevel {
        kind_risk(CleanerKind::Xcode)
    }

    fn id(&self) -> (r: &'static str) {
        CleanerKind::Xcode.id()
    }

    fn display_name(&self) -> (r: &'static str) {
        CleanerKind::Xcode.display_name()
    }

    fn category(&self) -> (r: Category) {
        CleanerKind::Xcode.category()
    }

    fn risk_level(&self) -> (r: RiskLevel) {
        CleanerKind::Xcode.risk_level()
    }
}

pub struct XcodeArchivesCleaner;

impl Cleaner for XcodeArchivesCleaner {
    open spec fn id_spec(&self) -> Seq<char> {
        kind_id(CleanerKind::XcodeArchives)
    }

    open spec fn display_name_spec(&self) -> Seq<char> {
        kind_name(CleanerKind::XcodeArchives)
    }

    open spec fn category_spec(&self) -> Category {
        kind_category(CleanerKind::XcodeArchives)
    }

    open spec fn risk_spec(&self) -> RiskLevel {
        kind_risk(CleanerKind::XcodeArchives)
    }

    fn id(&self) -> (r: &'static str) {
        CleanerKind::XcodeArchives.id()
    }

    fn display_name(&self) -> (r: &'static str) {
        CleanerKind::XcodeArchives.display_name()
    }

    fn category(&self) -> (r: Category) {
        CleanerKind::XcodeArchives.category()
    }

    fn risk_level(&self) -> (r: RiskLevel) {
        CleanerKind::XcodeArchives.risk_level()
    }
}

pub struct SimulatorCacheCleaner;

impl Cleaner for SimulatorCacheCleaner {
    open spec fn id_spec(&self) -> Seq<char> {
        kind_id(CleanerKind::SimulatorCache)
    }

    open spec fn display_name_spec(&self) -> Seq<char> {
        kind_name(CleanerKind::SimulatorCache)
    }

    open spec fn category_spec(&self) -> Category {
        kind_category(CleanerKind::SimulatorCache)
    }

    open spec fn risk_spec(&self) -> RiskLevel {
        kind_risk(CleanerKind::SimulatorCache)
    }

    fn id(&self) -> (r: &'static str) {
        CleanerKind::SimulatorCache.id()
    }

    fn display_name(&self) -> (r: &'static str) {
        CleanerKind::SimulatorCache.display_name()
    }

    fn category(&self) -> (r: Category) {
        CleanerKind::SimulatorCache.category()
    }

    fn risk_level(&self) -> (r: RiskLevel) {
        CleanerKind::SimulatorCache.risk_level()
    }
}

pub struct XcodeInstallationsCleaner;

impl Cleaner for XcodeInstallationsCleaner {
    open spec fn id_spec(&self) -> Seq<char> {
        kind_id(CleanerKind::XcodeInstallations)
    }

    open spec fn display_name_spec(&self) -> Seq<char> {
        kind_name(CleanerKind::XcodeInstallations)
    }

    open spec fn category_spec(&self) -> Category {
        kind_category(CleanerKind::XcodeInstallations)
    }

    open spec fn risk_spec(&self) -> RiskLevel {
        kind_risk(CleanerKind::XcodeInstallations)
    }

    fn id(&self) -> (r: &'static str) {
        CleanerKind::XcodeInstallations.id()
    }

    fn display_name(&self) -> (r: &'static str) {
        CleanerKind::XcodeInstallations.display_name()
    }

    fn category(&self) -> (r: Category) {
        CleanerKind::XcodeInstallations.category()
    }

    fn risk_level(&self) -> (r: RiskLevel) {
        CleanerKind::XcodeInstallations.risk_level()
    }
}


impl XcodeCleaner {
    pub open spec fn paths_spec() -> Seq<(Seq<char>, Seq<char>)> {
        seq![
            ("Library/Developer/Xcode/DerivedData"@, "Xcode build intermediates"@),
        ]
    }

    /// The paths proposed below `home`.
    pub fn planned_targets(home: &str) -> (out: Vec<PlannedTarget>)
        ensures
            out@.map_values(|t: PlannedTarget| planned_view(t)) == home_plan(home@, Self::paths_spec()),
    {
        let table: Vec<(&'static str, &'static str)> = vec![
            ("Library/Developer/Xcode/DerivedData", "Xcode build intermediates"),
        ];
        assert(table@.map_values(|e: (&'static str, &'static str)| (e.0@, e.1@)) =~= Self::paths_spec());
        plan_home_paths(home, &table)
    }
}

impl XcodeArchivesCleaner {
    pub open spec fn paths_spec() -> Seq<(Seq<char>, Seq<char>)> {
        seq![
            ("Library/Developer/Xcode/Archives"@, "Xcode archived builds"@),
        ]
    }

    /// The paths proposed below `home`.
    pub fn planned_targets(home: &str) -> (out: Vec<PlannedTarget>)
        ensures
            out@.map_values(|t: PlannedTarget| planned_view(t)) == home_plan(home@, Self::paths_spec()),
    {
        let table: Vec<(&'static str, &'static str)> = vec![
            ("Library/Developer/Xcode/Archives", "Xcode archived builds"),
        ];
        assert(table@.map_values(|e: (&'static str, &'static str)| (e.0@, e.1@)) =~= Self::paths_spec());
        plan_home_paths(home, &table)
    }
}

impl SimulatorCacheCleaner {
    pub open spec fn paths_spec() -> Seq<(Seq<char>, Seq<char>)> {
        seq![
            ("Library/Developer/CoreSimulator/Caches"@, "CoreSimulator generated caches"@),
        ]
    }

    /// The paths proposed below `home`.
    pub fn planned_targets(home: &str) -> (out: Vec<PlannedTarget>)
        ensures
            out@.map_values(|t: PlannedTarget| planned_view(t)) == home_plan(home@, Self::paths_spec()),
    {
        let table: Vec<(&'static str, &'static str)> = vec![
            ("Library/Developer/CoreSimulator/Caches", "CoreSimulator generated caches"),
        ];
        assert(table@.map_values(|e: (&'static str, &'static str)| (e.0@, e.1@)) =~= Self::paths_spec());
        plan_home_paths(home, &table)
    }
}


/// An Xcode application bundle: a folder named `Xcode….app`.
pub open spec fn is_xcode_app_spec(path: Seq<char>, is_dir: bool) -> bool {
    is_dir && match file_name_spec(path) {
        Some(n) => starts_with_seq(n, "Xcode"@),
        None => false,
    } && extension_spec(path) == Some("app"@)
}

pub fn is_xcode_app(path: &str, is_dir: bool) -> (r: bool)
    ensures
        r == is_xcode_app_spec(path@, is_dir),
{
    if !is_dir {
        return false;
    }
    let named = match file_name(path) {
        Some(n) => {
            proof {
                lemma_chars_deep_view(n);
            }
            starts_with_str(n.as_slice(), "Xcode")
        },
        None => false,
    };
    if !named {
        return false;
    }
    match extension(path) {
        Some(e) => {
            proof {
                lemma_chars_deep_view(e);
            }
            chars_eq_str(e.as_slice(), "app")
        },
        None => false,
    }
}

/// Where Xcode installations are looked for: `/Applications` and
/// `~/Applications`.
pub open spec fn xcode_roots_spec(home: Option<Seq<char>>) -> Seq<Seq<char>> {
    match home {
        Some(h) => seq!["/Applications"@, path_join_spec(h, "Applications"@)],
        None => seq!["/Applications"@],
    }
}

impl XcodeInstallationsCleaner {
    /// Where Xcode installations are looked for: `/Applications` and `~/Applications`.
    pub fn xcode_roots(home: Option<&str>) -> (out: Vec<String>)
        ensures
            out.deep_view() == xcode_roots_spec(opt_str_view(home)),
    {
        let mut out: Vec<String> = Vec::new();
        out.push("/Applications".to_string());
        match home {
            Some(h) => {
                out.push(path_join(h, "Applications"));
            },
            None => {},
        }
        assert(out.deep_view() =~= xcode_roots_spec(opt_str_view(home)));
        out
    }
}

impl XcodeInstallationsCleaner {
    /// Whether an entry of an Xcode root is proposed: an Xcode bundle that is
    /// not the active installation (`is_active`: it resolves to the bundle
    /// `xcode-select` points into).
    pub fn is_old_xcode_app(path: &str, is_dir: bool, is_active: bool) -> (r: bool)
        ensures
            r == (is_xcode_app_spec(path@, is_dir) && !is_active),
    {
        !is_active && is_xcode_app(path, is_dir)
    }

    /// The target of an Xcode bundle other than the active one; none when empty.
    pub fn old_xcode_target(path: String, size_bytes: u64) -> (t: Option<CleanTarget>)
        ensures
            size_bytes == 0 ==> t is None,
            size_bytes > 0 ==> match t {
                Some(x) => x.path == path && x.size_bytes == size_bytes && x.description@ == "old Xcode installation: "@
                    + path@ && x.method is TrashPath,
                None => false,
            },
    {
        let mut d = "old Xcode installation: ".to_string();
        push_str(&mut d, path.as_str());
        non_empty_target(path, d, CleanMethod::TrashPath, Some(size_bytes))
    }
}

} // verus!
