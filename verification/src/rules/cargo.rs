//! Downloaded Cargo crate archives.
use crate::cleaner::{kind_category, kind_id, kind_name, kind_risk, Cleaner, CleanerKind};
use crate::model::{Category, RiskLevel};
use crate::cleaner::{home_plan, plan_home_paths, planned_view, PlannedTarget};
use vstd::prelude::*;

verus! {

broadcast use vstd::string::group_string_axioms;

pub struct CargoCleaner;

impl Cleaner for CargoCleaner {
    open spec fn id_spec(&self) -> Seq<char> {
        kind_id(CleanerKind::Cargo)
    }

    open spec fn display_name_spec(&self) -> Seq<char> {
        kind_name(CleanerKind::Cargo)
    }

    open spec fn category_spec(&self) -> Category {
        kind_category(CleanerKind::Cargo)
    }

    open spec fn risk_spec(&self) -> RiskLevel {
        kind_risk(CleanerKind::Cargo)
    }

    fn id(&self) -> (r: &'static str) {
        CleanerKind::Cargo.id()
    }

    fn display_name(&self) -> (r: &'static str) {
        CleanerKind::Cargo.display_name()
    }

    fn category(&self) -> (r: Category) {
        CleanerKind::Cargo.category()
    }

    fn risk_level(&self) -> (r: RiskLevel) {
        CleanerKind::Cargo.risk_level()
    }
}


impl CargoCleaner {
    pub open spec fn paths_spec() -> Seq<(Seq<char>, Seq<char>)> {
        seq![
            (".cargo/registry/cache"@, "downloaded Cargo crate archives"@),
        ]
    }

    /// The paths proposed below `home`.
    pub fn planned_targets(home: &str) -> (out: Vec<PlannedTarget>)
        ensures
            out@.map_values(|t: PlannedTarget| planned_view(t)) == home_plan(home@, Self::paths_spec()),
    {
        let table: Vec<(&'static str, &'static str)> = vec![
            (".cargo/registry/cache", "downloaded Cargo crate archives"),
        ];
        assert(table@.map_values(|e: (&'static str, &'static str)| (e.0@, e.1@)) =~= Self::paths_spec());
        plan_home_paths(home, &table)
    }
}

} // verus!
