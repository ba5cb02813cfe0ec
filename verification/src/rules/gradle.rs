//! The Gradle cache.
use crate::cleaner::{kind_category, kind_id, kind_name, kind_risk, Cleaner, CleanerKind};
use crate::model::{Category, RiskLevel};
use crate::cleaner::{home_plan, plan_home_paths, planned_view, PlannedTarget};
use vstd::prelude::*;

verus! {

broadcast use vstd::string::group_string_axioms;

pub struct GradleCleaner;

impl Cleaner for GradleCleaner {
    open spec fn id_spec(&self) -> Seq<char> {
        kind_id(CleanerKind::Gradle)
    }

    open spec fn display_name_spec(&self) -> Seq<char> {
        kind_name(CleanerKind::Gradle)
    }

    open spec fn category_spec(&self) -> Category {
        kind_category(CleanerKind::Gradle)
    }

    open spec fn risk_spec(&self) -> RiskLevel {
        kind_risk(CleanerKind::Gradle)
    }

    fn id(&self) -> (r: &'static str) {
        CleanerKind::Gradle.id()
    }

    fn display_name(&self) -> (r: &'static str) {
        CleanerKind::Gradle.display_name()
    }

    fn category(&self) -> (r: Category) {
        CleanerKind::Gradle.category()
    }

    fn risk_level(&self) -> (r: RiskLevel) {
        CleanerKind::Gradle.risk_level()
    }
}


impl GradleCleaner {
    pub open spec fn paths_spec() -> Seq<(Seq<char>, Seq<char>)> {
        seq![
            (".gradle/caches"@, "Gradle dependency and build cache"@),
        ]
    }

    /// The paths proposed below `home`.
    pub fn planned_targets(home: &str) -> (out: Vec<PlannedTarget>)
        ensures
            out@.map_values(|t: PlannedTarget| planned_view(t)) == home_plan(home@, Self::paths_spec()),
    {
        let table: Vec<(&'static str, &'static str)> = vec![
            (".gradle/caches", "Gradle dependency and build cache"),
        ];
        assert(table@.map_values(|e: (&'static str, &'static str)| (e.0@, e.1@)) =~= Self::paths_spec());
        plan_home_paths(home, &table)
    }
}

} // verus!
