//! Windows temporary files.
use crate::cleaner::{kind_category, kind_id, kind_name, kind_risk, Cleaner, CleanerKind};
use crate::model::{Category, RiskLevel};
use crate::cleaner::{planned_view, MethodView, PlannedTarget};
use crate::model::CleanMethod;
use vstd::prelude::*;

verus! {

broadcast use vstd::string::group_string_axioms;

pub struct WindowsTempCleaner;

impl Cleaner for WindowsTempCleaner {
    open spec fn id_spec(&self) -> Seq<char> {
        kind_id(CleanerKind::WindowsTemp)
    }

    open spec fn display_name_spec(&self) -> Seq<char> {
        kind_name(CleanerKind::WindowsTemp)
    }

    open spec fn category_spec(&self) -> Category {
        kind_category(CleanerKind::WindowsTemp)
    }

    open spec fn risk_spec(&self) -> RiskLevel {
        kind_risk(CleanerKind::WindowsTemp)
    }

    fn id(&self) -> (r: &'static str) {
        CleanerKind::WindowsTemp.id()
    }

    fn display_name(&self) -> (r: &'static str) {
        CleanerKind::WindowsTemp.display_name()
    }

    fn category(&self) -> (r: Category) {
        CleanerKind::WindowsTemp.category()
    }

    fn risk_level(&self) -> (r: RiskLevel) {
        CleanerKind::WindowsTemp.risk_level()
    }
}


impl WindowsTempCleaner {
    /// A temporary-files folder, moved to the Trash when cleaned.
    pub fn planned_target(path: String) -> (t: PlannedTarget)
        ensures
            planned_view(t) == (path@, "Windows temporary files; active files may be skipped"@, MethodView::Trash),
    {
        PlannedTarget {
            path,
            description: "Windows temporary files; active files may be skipped".to_string(),
            method: CleanMethod::TrashPath,
        }
    }
}

} // verus!
