//! The Homebrew download cache.
use crate::cleaner::{kind_category, kind_id, kind_name, kind_risk, Cleaner, CleanerKind};
use crate::model::{Category, RiskLevel};
use crate::cleaner::{command_target, command_target_spec};
use crate::model::CleanTarget;
use vstd::prelude::*;

verus! {

broadcast use vstd::string::group_string_axioms;

pub struct BrewCleaner;

impl Cleaner for BrewCleaner {
    open spec fn id_spec(&self) -> Seq<char> {
        kind_id(CleanerKind::Brew)
    }

    open spec fn display_name_spec(&self) -> Seq<char> {
        kind_name(CleanerKind::Brew)
    }

    open spec fn category_spec(&self) -> Category {
        kind_category(CleanerKind::Brew)
    }

    open spec fn risk_spec(&self) -> RiskLevel {
        kind_risk(CleanerKind::Brew)
    }

    fn id(&self) -> (r: &'static str) {
        CleanerKind::Brew.id()
    }

    fn display_name(&self) -> (r: &'static str) {
        CleanerKind::Brew.display_name()
    }

    fn category(&self) -> (r: Category) {
        CleanerKind::Brew.category()
    }

    fn risk_level(&self) -> (r: RiskLevel) {
        CleanerKind::Brew.risk_level()
    }
}


impl BrewCleaner {
    /// The target for the path printed by `brew --cache`; `size_bytes` is `None` when that path does not exist.
    pub fn cache_target(cache: &str, size_bytes: Option<u64>) -> (t: Option<CleanTarget>)
        ensures
            if cache@.len() == 0 {
                t is None
            } else {
                command_target_spec(
                    cache@,
                    "Homebrew downloads and old formula archives"@,
                    seq!["brew"@, "cleanup"@, "-s"@],
                    size_bytes,
                    true,
                    t,
                )
            },
    {
        if crate::text::chars_of(cache).len() == 0 {
            return None;
        }
        let words = vec!["brew", "cleanup", "-s"];
        assert(words@.map_values(|w: &'static str| w@) =~= seq!["brew"@, "cleanup"@, "-s"@]);
        command_target(cache.to_string(), "Homebrew downloads and old formula archives", &words, size_bytes, true)
    }
}

} // verus!
