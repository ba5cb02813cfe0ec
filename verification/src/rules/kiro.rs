//! Kiro CLI sessions and caches.
use crate::cleaner::{kind_category, kind_id, kind_name, kind_risk, Cleaner, CleanerKind};
use crate::model::{Category, RiskLevel};
use crate::cleaner::{home_plan, plan_home_paths, planned_view, PlannedTarget};
use vstd::prelude::*;

verus! {

broadcast use vstd::string::group_string_axioms;

pub struct KiroCleaner;

impl Cleaner for KiroCleaner {
    open spec fn id_spec(&self) -> Seq<char> {
        kind_id(CleanerKind::Kiro)
    }

    open spec fn display_name_spec(&self) -> Seq<char> {
        kind_name(CleanerKind::Kiro)
    }

    open spec fn category_spec(&self) -> Category {
        kind_category(CleanerKind::Kiro)
    }

    open spec fn risk_spec(&self) -> RiskLevel {
        kind_risk(CleanerKind::Kiro)
    }

    fn id(&self) -> (r: &'static str) {
        CleanerKind::Kiro.id()
    }

    fn display_name(&self) -> (r: &'static str) {
        CleanerKind::Kiro.display_name()
    }

    fn category(&self) -> (r: Category) {
        CleanerKind::Kiro.category()
    }

    fn risk_level(&self) -> (r: RiskLevel) {
        CleanerKind::Kiro.risk_level()
    }
}


impl KiroCleaner {
    pub open spec fn paths_spec() -> Seq<(Seq<char>, Seq<char>)> {
        seq![
            (".kiro/sessions/cli"@, "Kiro CLI conversation history"@),
            ("Library/Application Support/kiro-cli/feed-cache.json"@, "Kiro CLI feed cache"@),
        ]
    }

    /// The paths proposed below `home`.
    pub fn planned_targets(home: &str) -> (out: Vec<PlannedTarget>)
        ensures
            out@.map_values(|t: PlannedTarget| planned_view(t)) == home_plan(home@, Self::paths_spec()),
    {
        let table: Vec<(&'static str, &'static str)> = vec![
            (".kiro/sessions/cli", "Kiro CLI conversation history"),
            ("Library/Application Support/kiro-cli/feed-cache.json", "Kiro CLI feed cache"),
        ];
        assert(table@.map_values(|e: (&'static str, &'static str)| (e.0@, e.1@)) =~= Self::paths_spec());
        plan_home_paths(home, &table)
    }
}

} // verus!
