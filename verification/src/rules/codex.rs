//! Codex CLI caches and old runtimes.
use crate::cleaner::{kind_category, kind_id, kind_name, kind_risk, Cleaner, CleanerKind};
use crate::model::{Category, RiskLevel};
use crate::cleaner::{home_plan, old_versions_plan, plan_home_paths, plan_old_versions, planned_view, PlannedTarget};
use crate::paths::{path_join, path_join_spec};
use crate::scanner::opt_str_view;
use crate::standalone::opt_string;
use vstd::prelude::*;

verus! {

broadcast use vstd::string::group_string_axioms;

pub struct CodexCleaner;

impl Cleaner for CodexCleaner {
    open spec fn id_spec(&self) -> Seq<char> {
        kind_id(CleanerKind::Codex)
    }

    open spec fn display_name_spec(&self) -> Seq<char> {
        kind_name(CleanerKind::Codex)
    }

    open spec fn category_spec(&self) -> Category {
        kind_category(CleanerKind::Codex)
    }

    open spec fn risk_spec(&self) -> RiskLevel {
        kind_risk(CleanerKind::Codex)
    }

    fn id(&self) -> (r: &'static str) {
        CleanerKind::Codex.id()
    }

    fn display_name(&self) -> (r: &'static str) {
        CleanerKind::Codex.display_name()
    }

    fn category(&self) -> (r: Category) {
        CleanerKind::Codex.category()
    }

    fn risk_level(&self) -> (r: RiskLevel) {
        CleanerKind::Codex.risk_level()
    }
}


impl CodexCleaner {
    pub open spec fn paths_spec() -> Seq<(Seq<char>, Seq<char>)> {
        seq![
            ("Library/Caches/Codex"@, "Codex desktop app cache"@),
            ("Library/Caches/com.openai.codex"@, "Codex desktop app cache"@),
        ]
    }

    /// The desktop app caches proposed below `home`.
    pub fn planned_targets(home: &str) -> (out: Vec<PlannedTarget>)
        ensures
            out@.map_values(|t: PlannedTarget| planned_view(t)) == home_plan(home@, Self::paths_spec()),
    {
        let table: Vec<(&'static str, &'static str)> = vec![
            ("Library/Caches/Codex", "Codex desktop app cache"),
            ("Library/Caches/com.openai.codex", "Codex desktop app cache"),
        ];
        assert(table@.map_values(|e: (&'static str, &'static str)| (e.0@, e.1@)) =~= Self::paths_spec());
        plan_home_paths(home, &table)
    }
}

pub open spec fn codex_home_spec(env_value: Option<Seq<char>>, home: Option<Seq<char>>) -> Option<Seq<char>> {
    match env_value {
        Some(v) => Some(v),
        None => match home {
            Some(h) => Some(path_join_spec(h, ".codex"@)),
            None => None,
        },
    }
}

pub open spec fn codex_root_spec() -> Seq<(Seq<char>, Seq<char>)> {
    seq![("cache"@, "Codex CLI cache"@), (".tmp"@, "Codex CLI temporary files"@)]
}

impl CodexCleaner {
    /// `$CODEX_HOME` when it is set, otherwise `~/.codex`.
    pub fn codex_home(env_value: Option<&str>, home: Option<&str>) -> (r: Option<String>)
        ensures
            opt_string(r) == codex_home_spec(opt_str_view(env_value), opt_str_view(home)),
    {
        match env_value {
            Some(v) => Some(v.to_string()),
            None => match home {
                Some(h) => Some(path_join(h, ".codex")),
                None => None,
            },
        }
    }

    /// The store of standalone runtimes below the Codex home `root`, and the
    /// link to the runtime in use.
    pub fn release_store(root: &str) -> (r: (String, String))
        ensures
            r.0@ == path_join_spec(root@, "packages/standalone/releases"@),
            r.1@ == path_join_spec(root@, "packages/standalone/current"@),
    {
        (path_join(root, "packages/standalone/releases"), path_join(root, "packages/standalone/current"))
    }

    /// The cache and temporary directories below the Codex home `root`.
    pub fn root_targets(root: &str) -> (out: Vec<PlannedTarget>)
        ensures
            out@.map_values(|t: PlannedTarget| planned_view(t)) == home_plan(root@, codex_root_spec()),
    {
        let table: Vec<(&'static str, &'static str)> = vec![
            ("cache", "Codex CLI cache"),
            (".tmp", "Codex CLI temporary files"),
        ];
        assert(table@.map_values(|e: (&'static str, &'static str)| (e.0@, e.1@)) =~= codex_root_spec());
        plan_home_paths(root, &table)
    }

    /// Every stored release but the current one; `entries` pairs each entry
    /// of `packages/standalone/releases` with whether `current` resolves to it.
    pub fn old_runtimes(entries: &Vec<(String, bool)>) -> (out: Vec<PlannedTarget>)
        ensures
            out@.map_values(|t: PlannedTarget| planned_view(t)) == old_versions_plan(
                entries@,
                "old Codex standalone runtime"@,
            ),
    {
        plan_old_versions(entries, "old Codex standalone runtime")
    }
}

} // verus!
