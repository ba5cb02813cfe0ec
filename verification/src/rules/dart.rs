//! The Dart pub cache.
use crate::cleaner::{kind_category, kind_id, kind_name, kind_risk, Cleaner, CleanerKind};
use crate::model::{Category, CleanMethod, RiskLevel};
use crate::cleaner::{command_method, planned_view, MethodView, PlannedTarget};
use crate::paths::{path_join, path_join_spec};
use vstd::prelude::*;

verus! {

broadcast use vstd::string::group_string_axioms;

pub struct DartCleaner;

impl Cleaner for DartCleaner {
    open spec fn id_spec(&self) -> Seq<char> {
        kind_id(CleanerKind::Dart)
    }

    open spec fn display_name_spec(&self) -> Seq<char> {
        kind_name(CleanerKind::Dart)
    }

    open spec fn category_spec(&self) -> Category {
        kind_category(CleanerKind::Dart)
    }

    open spec fn risk_spec(&self) -> RiskLevel {
        kind_risk(CleanerKind::Dart)
    }

    fn id(&self) -> (r: &'static str) {
        CleanerKind::Dart.id()
    }

    fn display_name(&self) -> (r: &'static str) {
        CleanerKind::Dart.display_name()
    }

    fn category(&self) -> (r: Category) {
        CleanerKind::Dart.category()
    }

    fn risk_level(&self) -> (r: RiskLevel) {
        CleanerKind::Dart.risk_level()
    }
}


impl DartCleaner {
    /// The pub cache below `home`, cleaned with `dart pub cache clean`,
    /// whose confirmation prompt is answered with an explicit `y`.
    pub fn planned_target(home: &str) -> (t: PlannedTarget)
        ensures
            planned_view(t) == (
                path_join_spec(home@, ".pub-cache"@),
                "Dart package cache"@,
                MethodView::CommandWithInput(seq!["dart"@, "pub"@, "cache"@, "clean"@], "y\n"@),
            ),
    {
        let words = vec!["dart", "pub", "cache", "clean"];
        let method = match command_method(&words) {
            CleanMethod::RunCommand(arguments) => CleanMethod::RunCommandWithInput {
                arguments,
                stdin: "y\n".to_string(),
            },
            other => other,
        };
        assert(words@.map_values(|w: &'static str| w@) =~= seq!["dart"@, "pub"@, "cache"@, "clean"@]);
        PlannedTarget {
            path: path_join(home, ".pub-cache"),
            description: "Dart package cache".to_string(),
            method,
        }
    }
}

} // verus!
