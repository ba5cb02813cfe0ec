//! The uv cache.
use crate::cleaner::{kind_category, kind_id, kind_name, kind_risk, Cleaner, CleanerKind};
use crate::model::{Category, RiskLevel};
use crate::cleaner::{command_target, command_target_spec};
use crate::model::CleanTarget;
use vstd::prelude::*;

verus! {

broadcast use vstd::string::group_string_axioms;

pub struct UvCleaner;

impl Cleaner for UvCleaner {
    open spec fn id_spec(&self) -> Seq<char> {
        kind_id(CleanerKind::Uv)
    }

    open spec fn display_name_spec(&self) -> Seq<char> {
        kind_name(CleanerKind::Uv)
    }

    open spec fn category_spec(&self) -> Category {
        kind_category(CleanerKind::Uv)
    }

    open spec fn risk_spec(&self) -> RiskLevel {
        kind_risk(CleanerKind::Uv)
    }

    fn id(&self) -> (r: &'static str) {
        CleanerKind::Uv.id()
    }

    fn display_name(&self) -> (r: &'static str) {
        CleanerKind::Uv.display_name()
    }

    fn category(&self) -> (r: Category) {
        CleanerKind::Uv.category()
    }

    fn risk_level(&self) -> (r: RiskLevel) {
        CleanerKind::Uv.risk_level()
    }
}


impl UvCleaner {
    /// The target for the path printed by `uv cache dir`; `size_bytes` is `None` when that path is not a directory.
    pub fn cache_target(cache: &str, size_bytes: Option<u64>) -> (t: Option<CleanTarget>)
        ensures
            if cache@.len() == 0 {
                t is None
            } else {
                command_target_spec(
                    cache@,
                    "uv package and wheel cache"@,
                    seq!["uv"@, "cache"@, "clean"@],
                    size_bytes,
                    true,
                    t,
                )
            },
    {
        if crate::text::chars_of(cache).len() == 0 {
            return None;
        }
        let words = vec!["uv", "cache", "clean"];
        assert(words@.map_values(|w: &'static str| w@) =~= seq!["uv"@, "cache"@, "clean"@]);
        command_target(cache.to_string(), "uv package and wheel cache", &words, size_bytes, true)
    }
}

} // verus!
