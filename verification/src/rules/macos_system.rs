//! macOS per-app caches and logs.
use crate::cleaner::{kind_category, kind_id, kind_name, kind_risk, Cleaner, CleanerKind};
use crate::model::{Category, RiskLevel};
use crate::cleaner::{home_plan, plan_home_paths, planned_view, MethodView, PlannedTarget};
use crate::model::{CleanMethod, CleanTarget};
use crate::path_order::{path_less, path_lt, path_order_is_strict_weak};
use crate::sort::Ordered;
use crate::text::{chars_eq_str, chars_of, push_str};
use crate::paths::{path_join, path_join_spec, path_starts_with_spec};
use crate::rules::app_leftovers::{is_orphaned_path, orphaned_spec, registry_spec};
use vstd::prelude::*;

verus! {

broadcast use vstd::string::group_string_axioms;

pub struct MacosSystemCleaner;

impl Cleaner for MacosSystemCleaner {
    open spec fn id_spec(&self) -> Seq<char> {
        kind_id(CleanerKind::MacosSystem)
    }

    open spec fn display_name_spec(&self) -> Seq<char> {
        kind_name(CleanerKind::MacosSystem)
    }

    open spec fn category_spec(&self) -> Category {
        kind_category(CleanerKind::MacosSystem)
    }

    open spec fn risk_spec(&self) -> RiskLevel {
        kind_risk(CleanerKind::MacosSystem)
    }

    fn id(&self) -> (r: &'static str) {
        CleanerKind::MacosSystem.id()
    }

    fn display_name(&self) -> (r: &'static str) {
        CleanerKind::MacosSystem.display_name()
    }

    fn category(&self) -> (r: Category) {
        CleanerKind::MacosSystem.category()
    }

    fn risk_level(&self) -> (r: RiskLevel) {
        CleanerKind::MacosSystem.risk_level()
    }
}


/// Cache folders owned by dedicated rules, left out of the generic scan.
pub open spec fn excluded_cache_names_spec() -> Seq<Seq<char>> {
    seq![
        "Homebrew"@,
        "pip"@,
        "Yarn"@,
        "Codex"@,
        "com.openai.codex"@,
        "ollama"@,
        "aider"@,
        "amp"@,
        "cursor-agent"@,
        "gemini"@,
        "goose"@,
        "openclaw"@,
        "opencode"@,
    ]
}

pub fn excluded_cache_names() -> (out: Vec<&'static str>)
    ensures
        out@.map_values(|s: &'static str| s@) == excluded_cache_names_spec(),
{
    let out = vec![
        "Homebrew",
        "pip",
        "Yarn",
        "Codex",
        "com.openai.codex",
        "ollama",
        "aider",
        "amp",
        "cursor-agent",
        "gemini",
        "goose",
        "openclaw",
        "opencode",
    ];
    assert(out@.map_values(|s: &'static str| s@) =~= excluded_cache_names_spec());
    out
}

/// The children of a folder, except the excluded names and the data of
/// uninstalled apps (see [`orphaned_spec`]), each described as
/// `<description>: <name>`.
pub open spec fn children_plan(
    children: Seq<(Seq<char>, Seq<char>)>,
    description: Seq<char>,
    excluded: Seq<Seq<char>>,
    home: Seq<char>,
    installed: Seq<bool>,
    cache_entries: Seq<Seq<char>>,
) -> Seq<(Seq<char>, Seq<char>, MethodView)>
    decreases children.len(),
{
    if children.len() == 0 {
        Seq::empty()
    } else {
        let rest = children_plan(children.drop_last(), description, excluded, home, installed, cache_entries);
        let (path, name) = children.last();
        if excluded.contains(name) || orphaned_spec(path, home, installed, cache_entries) {
            rest
        } else {
            rest.push((path, description + ": "@ + name, MethodView::Trash))
        }
    }
}

fn is_excluded(name: &str, excluded: &Vec<&'static str>) -> (r: bool)
    ensures
        r == excluded@.map_values(|s: &'static str| s@).contains(name@),
{
    let nc = chars_of(name);
    let ghost ev = excluded@.map_values(|s: &'static str| s@);
    let mut i: usize = 0;
    while i < excluded.len()
        invariant
            i <= excluded.len(),
            nc@ == name@,
            ev == excluded@.map_values(|s: &'static str| s@),
            forall|k: int| 0 <= k < i ==> ev[k] != name@,
        decreases excluded.len() - i,
    {
        if chars_eq_str(nc.as_slice(), excluded[i]) {
            assert(ev[i as int] == name@);
            return true;
        }
        i = i + 1;
    }
    false
}

impl MacosSystemCleaner {
    /// The folders whose children are proposed one by one, with their
    /// descriptions; the flag says whether the names of
    /// [`excluded_cache_names`] are skipped there.
    pub fn child_folders(home: &str) -> (out: Vec<(String, &'static str, bool)>)
        ensures
            out@.map_values(|f: (String, &'static str, bool)| (f.0@, f.1@, f.2)) == seq![
                (path_join_spec(home@, "Library/Caches"@), "app cache"@, true),
                (path_join_spec(home@, "Library/Logs"@), "app logs"@, false),
            ],
    {
        let out = vec![
            (path_join(home, "Library/Caches"), "app cache", true),
            (path_join(home, "Library/Logs"), "app logs", false),
        ];
        assert(out@.map_values(|f: (String, &'static str, bool)| (f.0@, f.1@, f.2)) =~= seq![
            (path_join_spec(home@, "Library/Caches"@), "app cache"@, true),
            (path_join_spec(home@, "Library/Logs"@), "app logs"@, false),
        ]);
        out
    }

    /// Proposes each child of a folder; `children` pairs each entry's path
    /// with its name. Children at or below a data location of an app whose
    /// bundle is absent (`installed` says, per registry entry, whether one
    /// is present; `cache_entries` lists `~/Library/Caches`) are left to
    /// the app-leftovers rule, so no data is listed twice.
    pub fn child_targets(
        children: &Vec<(String, String)>,
        description: &str,
        excluded: &Vec<&'static str>,
        home: &str,
        installed: &Vec<bool>,
        cache_entries: &Vec<String>,
    ) -> (out: Vec<PlannedTarget>)
        requires
            installed@.len() == registry_spec().len(),
        ensures
            out@.map_values(|t: PlannedTarget| planned_view(t)) == children_plan(
                children@.map_values(|c: (String, String)| (c.0@, c.1@)),
                description@,
                excluded@.map_values(|s: &'static str| s@),
                home@,
                installed@,
                cache_entries.deep_view(),
            ),
    {
        let ghost cv = children@.map_values(|c: (String, String)| (c.0@, c.1@));
        let mut out: Vec<PlannedTarget> = Vec::new();
        for i in 0..children.len()
            invariant
                cv == children@.map_values(|c: (String, String)| (c.0@, c.1@)),
                installed@.len() == registry_spec().len(),
                out@.map_values(|t: PlannedTarget| planned_view(t)) =~= children_plan(
                    cv.take(i as int),
                    description@,
                    excluded@.map_values(|s: &'static str| s@),
                    home@,
                    installed@,
                    cache_entries.deep_view(),
                ),
        {
            assert(cv.take(i + 1).drop_last() =~= cv.take(i as int));
            assert(cv.take(i + 1).last() == (children@[i as int].0@, children@[i as int].1@));
            let (path, name) = (&children[i].0, &children[i].1);
            let owned = is_orphaned_path(path.as_str(), home, installed, cache_entries);
            if !is_excluded(name.as_str(), excluded) && !owned {
                let mut d = description.to_string();
                push_str(&mut d, ": ");
                push_str(&mut d, name.as_str());
                let t = PlannedTarget { path: path.clone(), description: d, method: CleanMethod::TrashPath };
                let ghost before = out@;
                out.push(t);
                assert(out@.map_values(|t: PlannedTarget| planned_view(t)) =~= before.map_values(
                    |t: PlannedTarget| planned_view(t),
                ).push(planned_view(t)));
            }
        }
        assert(cv.take(children.len() as int) =~= cv);
        out
    }
}

/// The generic macOS targets are listed by path.
pub struct ByPath(pub CleanTarget);

impl Ordered for ByPath {
    open spec fn precedes(&self, other: &Self) -> bool {
        path_lt(self.0.path@, other.0.path@)
    }

    fn precedes_exec(&self, other: &Self) -> (r: bool) {
        path_less(self.0.path.as_str(), other.0.path.as_str())
    }

    proof fn precedes_asymmetric(a: &Self, b: &Self) {
        path_order_is_strict_weak(a.0.path@, b.0.path@, b.0.path@);
    }

    proof fn precedes_negatively_transitive(a: &Self, b: &Self, c: &Self) {
        path_order_is_strict_weak(a.0.path@, b.0.path@, c.0.path@);
    }
}

impl MacosSystemCleaner {
    pub open spec fn paths_spec() -> Seq<(Seq<char>, Seq<char>)> {
        seq![
            ("Library/Application Support/CrashReporter"@, "CrashReporter data"@),
        ]
    }

    /// The CrashReporter folder proposed below `home`.
    pub fn planned_targets(home: &str) -> (out: Vec<PlannedTarget>)
        ensures
            out@.map_values(|t: PlannedTarget| planned_view(t)) == home_plan(home@, Self::paths_spec()),
    {
        let table: Vec<(&'static str, &'static str)> = vec![
            ("Library/Application Support/CrashReporter", "CrashReporter data"),
        ];
        assert(table@.map_values(|e: (&'static str, &'static str)| (e.0@, e.1@)) =~= Self::paths_spec());
        plan_home_paths(home, &table)
    }
}

} // verus!
