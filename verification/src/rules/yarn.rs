//! The Yarn cache.
use crate::cleaner::{kind_category, kind_id, kind_name, kind_risk, Cleaner, CleanerKind};
use crate::model::{Category, RiskLevel};
use crate::cleaner::{command_target, command_target_spec};
use crate::model::CleanTarget;
use vstd::prelude::*;

verus! {

broadcast use vstd::string::group_string_axioms;

pub struct YarnCleaner;

impl Cleaner for YarnCleaner {
    open spec fn id_spec(&self) -> Seq<char> {
        kind_id(CleanerKind::Yarn)
    }

    open spec fn display_name_spec(&self) -> Seq<char> {
        kind_name(CleanerKind::Yarn)
    }

    open spec fn category_spec(&self) -> Category {
        kind_category(CleanerKind::Yarn)
    }

    open spec fn risk_spec(&self) -> RiskLevel {
        kind_risk(CleanerKind::Yarn)
    }

    fn id(&self) -> (r: &'static str) {
        CleanerKind::Yarn.id()
    }

    fn display_name(&self) -> (r: &'static str) {
        CleanerKind::Yarn.display_name()
    }

    fn category(&self) -> (r: Category) {
        CleanerKind::Yarn.category()
    }

    fn risk_level(&self) -> (r: RiskLevel) {
        CleanerKind::Yarn.risk_level()
    }
}


impl YarnCleaner {
    /// The target for the path printed by `yarn cache dir`; `size_bytes` is `None` when that path does not exist.
    pub fn cache_target(cache: &str, size_bytes: Option<u64>) -> (t: Option<CleanTarget>)
        ensures
            if cache@.len() == 0 {
                t is None
            } else {
                command_target_spec(
                    cache@,
                    "Yarn package cache"@,
                    seq!["yarn"@, "cache"@, "clean"@],
                    size_bytes,
                    false,
                    t,
                )
            },
    {
        if crate::text::chars_of(cache).len() == 0 {
            return None;
        }
        let words = vec!["yarn", "cache", "clean"];
        assert(words@.map_values(|w: &'static str| w@) =~= seq!["yarn"@, "cache"@, "clean"@]);
        command_target(cache.to_string(), "Yarn package cache", &words, size_bytes, false)
    }
}

} // verus!
