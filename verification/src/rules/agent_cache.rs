//! Caches of other command-line coding agents.
use crate::cleaner::{kind_category, kind_id, kind_name, kind_risk, Cleaner, CleanerKind};
use crate::model::{Category, RiskLevel};
use crate::cleaner::{home_plan, plan_home_paths, planned_view, PlannedTarget};
use vstd::prelude::*;

verus! {

broadcast use vstd::string::group_string_axioms;

pub struct AgentCacheCleaner;

impl Cleaner for AgentCacheCleaner {
    open spec fn id_spec(&self) -> Seq<char> {
        kind_id(CleanerKind::AgentCache)
    }

    open spec fn display_name_spec(&self) -> Seq<char> {
        kind_name(CleanerKind::AgentCache)
    }

    open spec fn category_spec(&self) -> Category {
        kind_category(CleanerKind::AgentCache)
    }

    open spec fn risk_spec(&self) -> RiskLevel {
        kind_risk(CleanerKind::AgentCache)
    }

    fn id(&self) -> (r: &'static str) {
        CleanerKind::AgentCache.id()
    }

    fn display_name(&self) -> (r: &'static str) {
        CleanerKind::AgentCache.display_name()
    }

    fn category(&self) -> (r: Category) {
        CleanerKind::AgentCache.category()
    }

    fn risk_level(&self) -> (r: RiskLevel) {
        CleanerKind::AgentCache.risk_level()
    }
}


impl AgentCacheCleaner {
    pub open spec fn paths_spec() -> Seq<(Seq<char>, Seq<char>)> {
        seq![
            (".cache/aider"@, "Aider cache"@),
            (".cache/amp"@, "Amp CLI cache"@),
            (".cache/cursor-agent"@, "Cursor Agent cache"@),
            (".cache/gemini"@, "Gemini CLI cache"@),
            (".cache/goose"@, "Goose cache"@),
            (".cache/openclaw"@, "OpenClaw cache"@),
            (".cache/opencode"@, "OpenCode cache"@),
            ("Library/Caches/aider"@, "Aider cache"@),
            ("Library/Caches/amp"@, "Amp CLI cache"@),
            ("Library/Caches/cursor-agent"@, "Cursor Agent cache"@),
            ("Library/Caches/gemini"@, "Gemini CLI cache"@),
            ("Library/Caches/goose"@, "Goose cache"@),
            ("Library/Caches/openclaw"@, "OpenClaw cache"@),
            ("Library/Caches/opencode"@, "OpenCode cache"@),
        ]
    }

    /// The agent cache directories proposed below `home`; only existing, non-empty directories become targets.
    pub fn planned_targets(home: &str) -> (out: Vec<PlannedTarget>)
        ensures
            out@.map_values(|t: PlannedTarget| planned_view(t)) == home_plan(home@, Self::paths_spec()),
    {
        let table: Vec<(&'static str, &'static str)> = vec![
            (".cache/aider", "Aider cache"),
            (".cache/amp", "Amp CLI cache"),
            (".cache/cursor-agent", "Cursor Agent cache"),
            (".cache/gemini", "Gemini CLI cache"),
            (".cache/goose", "Goose cache"),
            (".cache/openclaw", "OpenClaw cache"),
            (".cache/opencode", "OpenCode cache"),
            ("Library/Caches/aider", "Aider cache"),
            ("Library/Caches/amp", "Amp CLI cache"),
            ("Library/Caches/cursor-agent", "Cursor Agent cache"),
            ("Library/Caches/gemini", "Gemini CLI cache"),
            ("Library/Caches/goose", "Goose cache"),
            ("Library/Caches/openclaw", "OpenClaw cache"),
            ("Library/Caches/opencode", "OpenCode cache"),
        ];
        assert(table@.map_values(|e: (&'static str, &'static str)| (e.0@, e.1@)) =~= Self::paths_spec());
        plan_home_paths(home, &table)
    }
}

/// The agents whose binaries make this rule available.
pub open spec fn agent_commands_spec() -> Seq<Seq<char>> {
    seq!["aider"@, "amp"@, "cursor-agent"@, "gemini"@, "goose"@, "openclaw"@, "opencode"@]
}

pub fn agent_commands() -> (out: Vec<&'static str>)
    ensures
        out@.map_values(|s: &'static str| s@) == agent_commands_spec(),
{
    let out = vec!["aider", "amp", "cursor-agent", "gemini", "goose", "openclaw", "opencode"];
    assert(out@.map_values(|s: &'static str| s@) =~= agent_commands_spec());
    out
}

} // verus!
