//! The npm cache.
use crate::cleaner::{kind_category, kind_id, kind_name, kind_risk, Cleaner, CleanerKind};
use crate::model::{Category, RiskLevel};
use crate::cleaner::{command_target, command_target_spec};
use crate::model::CleanTarget;
use crate::paths::{path_join, path_join_spec};
use crate::scanner::opt_str_view;
use crate::text::{chars_eq_str, chars_of};
use vstd::prelude::*;

verus! {

broadcast use vstd::string::group_string_axioms;

pub struct NpmCleaner;

impl Cleaner for NpmCleaner {
    open spec fn id_spec(&self) -> Seq<char> {
        kind_id(CleanerKind::Npm)
    }

    open spec fn display_name_spec(&self) -> Seq<char> {
        kind_name(CleanerKind::Npm)
    }

    open spec fn category_spec(&self) -> Category {
        kind_category(CleanerKind::Npm)
    }

    open spec fn risk_spec(&self) -> RiskLevel {
        kind_risk(CleanerKind::Npm)
    }

    fn id(&self) -> (r: &'static str) {
        CleanerKind::Npm.id()
    }

    fn display_name(&self) -> (r: &'static str) {
        CleanerKind::Npm.display_name()
    }

    fn category(&self) -> (r: Category) {
        CleanerKind::Npm.category()
    }

    fn risk_level(&self) -> (r: RiskLevel) {
        CleanerKind::Npm.risk_level()
    }
}


pub open spec fn npm_cache_spec(config: Option<Seq<char>>, home: Option<Seq<char>>) -> Seq<char> {
    let configured = match config {
        Some(p) => p.len() > 0 && p != "undefined"@,
        None => false,
    };
    if configured {
        config.unwrap()
    } else {
        match home {
            Some(h) => path_join_spec(h, ".npm"@),
            None => "~/.npm"@,
        }
    }
}

impl NpmCleaner {
    /// The npm cache: what `npm config get cache` printed (`config`), unless
    /// that is empty or `undefined`, otherwise `~/.npm`.
    pub fn cache_path(config: Option<&str>, home: Option<&str>) -> (p: String)
        ensures
            p@ == npm_cache_spec(opt_str_view(config), opt_str_view(home)),
    {
        match config {
            Some(c) => {
                let cc = chars_of(c);
                if cc.len() > 0 && !chars_eq_str(cc.as_slice(), "undefined") {
                    return c.to_string();
                }
            },
            None => {},
        }
        match home {
            Some(h) => path_join(h, ".npm"),
            None => "~/.npm".to_string(),
        }
    }

    /// The target for the cache directory; `size_bytes` is `None` when the
    /// cache is not a directory.
    pub fn cache_target(cache: &str, size_bytes: Option<u64>) -> (t: Option<CleanTarget>)
        ensures
            command_target_spec(
                cache@,
                "npm global cache"@,
                seq!["npm"@, "cache"@, "clean"@, "--force"@],
                size_bytes,
                true,
                t,
            ),
    {
        let words = vec!["npm", "cache", "clean", "--force"];
        assert(words@.map_values(|w: &'static str| w@) =~= seq!["npm"@, "cache"@, "clean"@, "--force"@]);
        command_target(cache.to_string(), "npm global cache", &words, size_bytes, true)
    }
}

} // verus!
