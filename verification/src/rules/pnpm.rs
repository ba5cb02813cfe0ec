//! The pnpm content-addressable store.
use crate::cleaner::{kind_category, kind_id, kind_name, kind_risk, Cleaner, CleanerKind};
use crate::model::{Category, RiskLevel};
use crate::cleaner::{command_target, command_target_spec};
use crate::model::CleanTarget;
use vstd::prelude::*;

verus! {

broadcast use vstd::string::group_string_axioms;

pub struct PnpmCleaner;

impl Cleaner for PnpmCleaner {
    open spec fn id_spec(&self) -> Seq<char> {
        kind_id(CleanerKind::Pnpm)
    }

    open spec fn display_name_spec(&self) -> Seq<char> {
        kind_name(CleanerKind::Pnpm)
    }

    open spec fn category_spec(&self) -> Category {
        kind_category(CleanerKind::Pnpm)
    }

    open spec fn risk_spec(&self) -> RiskLevel {
        kind_risk(CleanerKind::Pnpm)
    }

    fn id(&self) -> (r: &'static str) {
        CleanerKind::Pnpm.id()
    }

    fn display_name(&self) -> (r: &'static str) {
        CleanerKind::Pnpm.display_name()
    }

    fn category(&self) -> (r: Category) {
        CleanerKind::Pnpm.category()
    }

    fn risk_level(&self) -> (r: RiskLevel) {
        CleanerKind::Pnpm.risk_level()
    }
}


impl PnpmCleaner {
    /// The target for the path printed by `pnpm store path`; `size_bytes` is `None` when that path does not exist.
    pub fn store_target(store: &str, size_bytes: Option<u64>) -> (t: Option<CleanTarget>)
        ensures
            if store@.len() == 0 {
                t is None
            } else {
                command_target_spec(
                    store@,
                    "pnpm content-addressable store"@,
                    seq!["pnpm"@, "store"@, "prune"@],
                    size_bytes,
                    false,
                    t,
                )
            },
    {
        if crate::text::chars_of(store).len() == 0 {
            return None;
        }
        let words = vec!["pnpm", "store", "prune"];
        assert(words@.map_values(|w: &'static str| w@) =~= seq!["pnpm"@, "store"@, "prune"@]);
        command_target(store.to_string(), "pnpm content-addressable store", &words, size_bytes, false)
    }
}

} // verus!
