//! The Docker Desktop virtual machine disk image.
use crate::cleaner::{kind_category, kind_id, kind_name, kind_risk, Cleaner, CleanerKind};
use crate::model::{Category, RiskLevel};
use crate::cleaner::{home_plan, plan_home_paths, planned_view, PlannedTarget};
use vstd::prelude::*;

verus! {

broadcast use vstd::string::group_string_axioms;

pub struct DockerDesktopCleaner;

impl Cleaner for DockerDesktopCleaner {
    open spec fn id_spec(&self) -> Seq<char> {
        kind_id(CleanerKind::DockerDesktop)
    }

    open spec fn display_name_spec(&self) -> Seq<char> {
        kind_name(CleanerKind::DockerDesktop)
    }

    open spec fn category_spec(&self) -> Category {
        kind_category(CleanerKind::DockerDesktop)
    }

    open spec fn risk_spec(&self) -> RiskLevel {
        kind_risk(CleanerKind::DockerDesktop)
    }

    fn id(&self) -> (r: &'static str) {
        CleanerKind::DockerDesktop.id()
    }

    fn display_name(&self) -> (r: &'static str) {
        CleanerKind::DockerDesktop.display_name()
    }

    fn category(&self) -> (r: Category) {
        CleanerKind::DockerDesktop.category()
    }

    fn risk_level(&self) -> (r: RiskLevel) {
        CleanerKind::DockerDesktop.risk_level()
    }
}


impl DockerDesktopCleaner {
    pub open spec fn paths_spec() -> Seq<(Seq<char>, Seq<char>)> {
        seq![
            ("Library/Containers/com.docker.docker/Data/vms/0/data/Docker.raw"@, "Docker Desktop VM image; deleting it removes Docker data"@),
        ]
    }

    /// The VM disk image proposed below `home`; it becomes a target only while it is a non-empty file.
    pub fn planned_targets(home: &str) -> (out: Vec<PlannedTarget>)
        ensures
            out@.map_values(|t: PlannedTarget| planned_view(t)) == home_plan(home@, Self::paths_spec()),
    {
        let table: Vec<(&'static str, &'static str)> = vec![
            ("Library/Containers/com.docker.docker/Data/vms/0/data/Docker.raw", "Docker Desktop VM image; deleting it removes Docker data"),
        ];
        assert(table@.map_values(|e: (&'static str, &'static str)| (e.0@, e.1@)) =~= Self::paths_spec());
        plan_home_paths(home, &table)
    }
}

} // verus!
