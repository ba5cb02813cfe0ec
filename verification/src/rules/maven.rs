//! The local Maven repository.
use crate::cleaner::{kind_category, kind_id, kind_name, kind_risk, Cleaner, CleanerKind};
use crate::model::{Category, RiskLevel};
use crate::cleaner::{home_plan, plan_home_paths, planned_view, PlannedTarget};
use vstd::prelude::*;

verus! {

broadcast use vstd::string::group_string_axioms;

pub struct MavenCleaner;

impl Cleaner for MavenCleaner {
    open spec fn id_spec(&self) -> Seq<char> {
        kind_id(CleanerKind::Maven)
    }

    open spec fn display_name_spec(&self) -> Seq<char> {
        kind_name(CleanerKind::Maven)
    }

    open spec fn category_spec(&self) -> Category {
        kind_category(CleanerKind::Maven)
    }

    open spec fn risk_spec(&self) -> RiskLevel {
        kind_risk(CleanerKind::Maven)
    }

    fn id(&self) -> (r: &'static str) {
        CleanerKind::Maven.id()
    }

    fn display_name(&self) -> (r: &'static str) {
        CleanerKind::Maven.display_name()
    }

    fn category(&self) -> (r: Category) {
        CleanerKind::Maven.category()
    }

    fn risk_level(&self) -> (r: RiskLevel) {
        CleanerKind::Maven.risk_level()
    }
}


impl MavenCleaner {
    pub open spec fn paths_spec() -> Seq<(Seq<char>, Seq<char>)> {
        seq![
            (".m2/repository"@, "Maven downloaded artifacts"@),
        ]
    }

    /// The paths proposed below `home`.
    pub fn planned_targets(home: &str) -> (out: Vec<PlannedTarget>)
        ensures
            out@.map_values(|t: PlannedTarget| planned_view(t)) == home_plan(home@, Self::paths_spec()),
    {
        let table: Vec<(&'static str, &'static str)> = vec![
            (".m2/repository", "Maven downloaded artifacts"),
        ];
        assert(table@.map_values(|e: (&'static str, &'static str)| (e.0@, e.1@)) =~= Self::paths_spec());
        plan_home_paths(home, &table)
    }
}

} // verus!
