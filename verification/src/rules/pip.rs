//! The pip cache.
use crate::cleaner::{kind_category, kind_id, kind_name, kind_risk, Cleaner, CleanerKind};
use crate::model::{Category, RiskLevel};
use crate::cleaner::{method_view, non_empty_target, MethodView};
use crate::model::{CleanMethod, CleanTarget};
use crate::paths::{path_join, path_join_spec};
use vstd::prelude::*;

verus! {

broadcast use vstd::string::group_string_axioms;

pub struct PipCleaner;

impl Cleaner for PipCleaner {
    open spec fn id_spec(&self) -> Seq<char> {
        kind_id(CleanerKind::Pip)
    }

    open spec fn display_name_spec(&self) -> Seq<char> {
        kind_name(CleanerKind::Pip)
    }

    open spec fn category_spec(&self) -> Category {
        kind_category(CleanerKind::Pip)
    }

    open spec fn risk_spec(&self) -> RiskLevel {
        kind_risk(CleanerKind::Pip)
    }

    fn id(&self) -> (r: &'static str) {
        CleanerKind::Pip.id()
    }

    fn display_name(&self) -> (r: &'static str) {
        CleanerKind::Pip.display_name()
    }

    fn category(&self) -> (r: Category) {
        CleanerKind::Pip.category()
    }

    fn risk_level(&self) -> (r: RiskLevel) {
        CleanerKind::Pip.risk_level()
    }
}


/// The pip invocation: `pip3`, else `pip`, else `python3 -m pip`, whichever
/// is installed first.
pub open spec fn pip_command_spec(pip3: bool, pip: bool, python3: bool) -> Option<Seq<Seq<char>>> {
    if pip3 {
        Some(seq!["pip3"@])
    } else if pip {
        Some(seq!["pip"@])
    } else if python3 {
        Some(seq!["python3"@, "-m"@, "pip"@])
    } else {
        None
    }
}

pub open spec fn pip_cache_dirs_spec(home: Seq<char>) -> Seq<Seq<char>> {
    seq![path_join_spec(home, "Library/Caches/pip"@), path_join_spec(home, ".cache/pip"@)]
}

fn owned(words: Vec<&'static str>) -> (out: Vec<String>)
    ensures
        out.deep_view() == words@.map_values(|w: &'static str| w@),
{
    let mut out: Vec<String> = Vec::new();
    for i in 0..words.len()
        invariant
            out.deep_view() =~= words@.take(i as int).map_values(|w: &'static str| w@),
    {
        let ghost before = out.deep_view();
        out.push(words[i].to_string());
        assert(out.deep_view() =~= before.push(words@[i as int]@));
        assert(words@.take(i + 1) =~= words@.take(i as int).push(words@[i as int]));
    }
    assert(words@.take(words.len() as int) =~= words@);
    out
}

impl PipCleaner {
    /// `pip3`, `pip` and `python3` say which of those programs are installed.
    pub fn command(pip3: bool, pip: bool, python3: bool) -> (r: Option<Vec<String>>)
        ensures
            match r {
                Some(v) => pip_command_spec(pip3, pip, python3) == Some(v.deep_view()),
                None => pip_command_spec(pip3, pip, python3) is None,
            },
    {
        if pip3 {
            Some(owned(vec!["pip3"]))
        } else if pip {
            Some(owned(vec!["pip"]))
        } else if python3 {
            let v = owned(vec!["python3", "-m", "pip"]);
            Some(v)
        } else {
            None
        }
    }

    /// The usual cache directories, tried in order when pip cannot report
    /// its own.
    pub fn fallback_cache_dirs(home: &str) -> (out: Vec<String>)
        ensures
            out.deep_view() == pip_cache_dirs_spec(home@),
    {
        let mut out: Vec<String> = Vec::new();
        out.push(path_join(home, "Library/Caches/pip"));
        out.push(path_join(home, ".cache/pip"));
        assert(out.deep_view() =~= pip_cache_dirs_spec(home@));
        out
    }

    /// The target for the pip cache: cleaned with `<command> cache purge`;
    /// none when the cache is missing or empty.
    pub fn cache_target(path: String, command: Vec<String>, size_bytes: Option<u64>) -> (t: Option<CleanTarget>)
        ensures
            match size_bytes {
                Some(n) if n > 0 => match t {
                    Some(x) => x.path == path && x.size_bytes == n && x.description@
                        == "pip download and wheel cache"@ && method_view(x.method)
                        == MethodView::Command(command.deep_view() + seq!["cache"@, "purge"@]),
                    None => false,
                },
                _ => t is None,
            },
    {
        let mut args = command;
        let ghost before = args.deep_view();
        args.push("cache".to_string());
        args.push("purge".to_string());
        assert(args.deep_view() =~= before + seq!["cache"@, "purge"@]);
        non_empty_target(
            path,
            "pip download and wheel cache".to_string(),
            CleanMethod::RunCommand(args),
            size_bytes,
        )
    }
}

} // verus!
