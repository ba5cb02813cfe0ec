//! Mail downloads and device backups.
use crate::cleaner::{kind_category, kind_id, kind_name, kind_risk, Cleaner, CleanerKind};
use crate::model::{Category, RiskLevel};
use crate::cleaner::{home_plan, plan_home_paths, planned_view, PlannedTarget};
use vstd::prelude::*;

verus! {

broadcast use vstd::string::group_string_axioms;

pub struct PersonalDataCleaner;

impl Cleaner for PersonalDataCleaner {
    open spec fn id_spec(&self) -> Seq<char> {
        kind_id(CleanerKind::PersonalData)
    }

    open spec fn display_name_spec(&self) -> Seq<char> {
        kind_name(CleanerKind::PersonalData)
    }

    open spec fn category_spec(&self) -> Category {
        kind_category(CleanerKind::PersonalData)
    }

    open spec fn risk_spec(&self) -> RiskLevel {
        kind_risk(CleanerKind::PersonalData)
    }

    fn id(&self) -> (r: &'static str) {
        CleanerKind::PersonalData.id()
    }

    fn display_name(&self) -> (r: &'static str) {
        CleanerKind::PersonalData.display_name()
    }

    fn category(&self) -> (r: Category) {
        CleanerKind::PersonalData.category()
    }

    fn risk_level(&self) -> (r: RiskLevel) {
        CleanerKind::PersonalData.risk_level()
    }
}


impl PersonalDataCleaner {
    pub open spec fn paths_spec() -> Seq<(Seq<char>, Seq<char>)> {
        seq![
            ("Library/Containers/com.apple.mail/Data/Library/Mail Downloads"@, "Mail downloaded attachments"@),
            ("Library/Mail Downloads"@, "Mail downloaded attachments"@),
            ("Library/Application Support/MobileSync/Backup"@, "iPhone and iPad backups"@),
        ]
    }

    /// The paths proposed below `home`.
    pub fn planned_targets(home: &str) -> (out: Vec<PlannedTarget>)
        ensures
            out@.map_values(|t: PlannedTarget| planned_view(t)) == home_plan(home@, Self::paths_spec()),
    {
        let table: Vec<(&'static str, &'static str)> = vec![
            ("Library/Containers/com.apple.mail/Data/Library/Mail Downloads", "Mail downloaded attachments"),
            ("Library/Mail Downloads", "Mail downloaded attachments"),
            ("Library/Application Support/MobileSync/Backup", "iPhone and iPad backups"),
        ];
        assert(table@.map_values(|e: (&'static str, &'static str)| (e.0@, e.1@)) =~= Self::paths_spec());
        plan_home_paths(home, &table)
    }
}

} // verus!
