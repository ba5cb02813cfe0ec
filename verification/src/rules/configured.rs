//! Rules configured by the user.
use crate::cleaner::{kind_category, kind_id, kind_name, kind_risk, Cleaner, CleanerKind};
use crate::model::{risk_rank, Category, RiskLevel};
use crate::cleaner::non_empty_target;
use crate::model::{CleanMethod, CleanTarget};
use crate::paths::{is_absolute, is_absolute_spec, path_join, path_join_spec};
use crate::scanner::opt_str_view;
use crate::text::{chars_eq_str, chars_of, push_str, slice_chars, starts_with_seq, starts_with_str, string_of};
use vstd::prelude::*;

verus! {

broadcast use vstd::string::group_string_axioms;

pub struct ConfiguredCleaner;

impl Cleaner for ConfiguredCleaner {
    open spec fn id_spec(&self) -> Seq<char> {
        kind_id(CleanerKind::Configured)
    }

    open spec fn display_name_spec(&self) -> Seq<char> {
        kind_name(CleanerKind::Configured)
    }

    open spec fn category_spec(&self) -> Category {
        kind_category(CleanerKind::Configured)
    }

    open spec fn risk_spec(&self) -> RiskLevel {
        kind_risk(CleanerKind::Configured)
    }

    fn id(&self) -> (r: &'static str) {
        CleanerKind::Configured.id()
    }

    fn display_name(&self) -> (r: &'static str) {
        CleanerKind::Configured.display_name()
    }

    fn category(&self) -> (r: Category) {
        CleanerKind::Configured.category()
    }

    fn risk_level(&self) -> (r: RiskLevel) {
        CleanerKind::Configured.risk_level()
    }
}


/// The risk a configured rule may declare.
#[derive(Clone, Copy, Debug, PartialEq, Eq, Structural)]
pub enum ConfigRisk {
    Safe,
    Caution,
    Manual,
}

pub open spec fn config_risk_level(r: ConfigRisk) -> RiskLevel {
    match r {
        ConfigRisk::Safe => RiskLevel::Safe,
        ConfigRisk::Caution => RiskLevel::Caution,
        ConfigRisk::Manual => RiskLevel::Manual,
    }
}

pub fn risk_level_of(r: ConfigRisk) -> (l: RiskLevel)
    ensures
        l == config_risk_level(r),
{
    match r {
        ConfigRisk::Safe => RiskLevel::Safe,
        ConfigRisk::Caution => RiskLevel::Caution,
        ConfigRisk::Manual => RiskLevel::Manual,
    }
}

/// One `[[rules]]` entry of `~/.config/cleanrs/rules.toml`.
#[derive(Clone, Debug)]
pub struct ConfigRule {
    pub path: String,
    pub description: Option<String>,
    pub command: Option<Vec<String>>,
    pub risk: Option<ConfigRisk>,
}

/// A configured rule with its path expanded and its defaults applied.
#[derive(Clone, Debug)]
pub struct ResolvedRule {
    pub path: String,
    pub description: String,
    pub method: CleanMethod,
    pub risk: RiskLevel,
}

/// `s` with every leading copy of `p` removed.
pub open spec fn trim_start_repeated(s: Seq<char>, p: Seq<char>) -> Seq<char>
    decreases s.len(),
{
    if p.len() > 0 && starts_with_seq(s, p) {
        trim_start_repeated(s.skip(p.len() as int), p)
    } else {
        s
    }
}

/// `~` and `~/...` are expanded against the home directory; any other path
/// must be absolute.
pub open spec fn expand_path_spec(value: Seq<char>, home: Option<Seq<char>>) -> Result<Seq<char>, Seq<char>> {
    if value == "~"@ || starts_with_seq(value, "~/"@) {
        match home {
            None => Err("HOME is not set for configured rule"@),
            Some(h) => {
                let root = path_join_spec(h, Seq::empty());
                if value == "~"@ {
                    Ok(root)
                } else {
                    Ok(path_join_spec(root, trim_start_repeated(value, "~/"@)))
                }
            },
        }
    } else if is_absolute_spec(value) {
        Ok(value)
    } else {
        Err("configured rule path must be absolute or start with ~/: "@ + value)
    }
}

fn trim_start_tilde(s: &[char]) -> (out: Vec<char>)
    ensures
        out@ == trim_start_repeated(s@, "~/"@),
{
    proof {
        reveal_strlit("~/");
    }
    let mut i: usize = 0;
    assert(s@.skip(0) =~= s@);
    while s.len() - i >= 2 && s[i] == '~' && s[i + 1] == '/'
        invariant
            i <= s@.len(),
            trim_start_repeated(s@, "~/"@) == trim_start_repeated(s@.skip(i as int), "~/"@),
        decreases s.len() - i,
    {
        let ghost t = s@.skip(i as int);
        proof {
            reveal_strlit("~/");
        }
        assert(t.take(2) =~= "~/"@);
        assert(t.skip(2) =~= s@.skip(i + 2));
        i = i + 2;
    }
    let ghost t = s@.skip(i as int);
    assert(!starts_with_seq(t, "~/"@)) by {
        if starts_with_seq(t, "~/"@) {
            assert(t.take(2)[0] == '~' && t.take(2)[1] == '/');
        }
    }
    assert(t =~= s@.subrange(i as int, s@.len() as int));
    slice_chars(s, i, s.len())
}

/// Expands a configured path.
pub fn expand_path(value: &str, home: Option<&str>) -> (r: Result<String, String>)
    ensures
        match r {
            Ok(p) => expand_path_spec(value@, opt_str_view(home)) == Ok::<Seq<char>, Seq<char>>(p@),
            Err(e) => expand_path_spec(value@, opt_str_view(home)) == Err::<Seq<char>, Seq<char>>(e@),
        },
{
    let vc = chars_of(value);
    let is_tilde = chars_eq_str(vc.as_slice(), "~");
    if is_tilde || starts_with_str(vc.as_slice(), "~/") {
        match home {
            None => Err("HOME is not set for configured rule".to_string()),
            Some(h) => {
                proof {
                    reveal_strlit("");
                }
                let root = path_join(h, "");
                if is_tilde {
                    Ok(root)
                } else {
                    let rest = string_of(&trim_start_tilde(vc.as_slice()));
                    Ok(path_join(root.as_str(), rest.as_str()))
                }
            },
        }
    } else if is_absolute(value) {
        Ok(value.to_string())
    } else {
        let mut e = "configured rule path must be absolute or start with ~/: ".to_string();
        push_str(&mut e, value);
        Err(e)
    }
}

/// The rule's description, or `configured rule: <path>`.
pub open spec fn rule_description(rule: ConfigRule, path: Seq<char>) -> Seq<char> {
    match rule.description {
        Some(d) => d@,
        None => "configured rule: "@ + path,
    }
}

/// A rule with a command runs it (and defaults to Manual risk); a rule
/// without one moves its path to the Trash (and defaults to Caution). An
/// empty command is an error.
pub open spec fn resolve_spec(rule: ConfigRule, home: Option<Seq<char>>, r: Result<ResolvedRule, String>) -> bool {
    match expand_path_spec(rule.path@, home) {
        Err(e) => match r {
            Err(x) => x@ == e,
            Ok(_) => false,
        },
        Ok(p) => match rule.command {
            Some(args) => if args@.len() == 0 {
                match r {
                    Err(x) => x@ == "configured command for "@ + p + " cannot be empty"@,
                    Ok(_) => false,
                }
            } else {
                match r {
                    Ok(x) => x.path@ == p && x.description@ == rule_description(rule, p) && x.method
                        == CleanMethod::RunCommand(args) && x.risk == match rule.risk {
                        Some(k) => config_risk_level(k),
                        None => RiskLevel::Manual,
                    },
                    Err(_) => false,
                }
            },
            None => match r {
                Ok(x) => x.path@ == p && x.description@ == rule_description(rule, p) && x.method
                    is TrashPath && x.risk == match rule.risk {
                    Some(k) => config_risk_level(k),
                    None => RiskLevel::Caution,
                },
                Err(_) => false,
            },
        },
    }
}

/// Resolves one configured rule.
pub fn resolve_rule(rule: ConfigRule, home: Option<&str>) -> (r: Result<ResolvedRule, String>)
    ensures
        resolve_spec(rule, opt_str_view(home), r),
{
    let ghost orig = rule;
    let path = match expand_path(rule.path.as_str(), home) {
        Ok(p) => p,
        Err(e) => {
            return Err(e);
        },
    };
    let description = match rule.description {
        Some(d) => d,
        None => {
            let mut d = "configured rule: ".to_string();
            push_str(&mut d, path.as_str());
            d
        },
    };
    let (method, default_risk) = match rule.command {
        Some(arguments) => {
            if arguments.len() == 0 {
                let mut e = "configured command for ".to_string();
                push_str(&mut e, path.as_str());
                push_str(&mut e, " cannot be empty");
                return Err(e);
            }
            (CleanMethod::RunCommand(arguments), RiskLevel::Manual)
        },
        None => (CleanMethod::TrashPath, RiskLevel::Caution),
    };
    let risk = match rule.risk {
        Some(k) => risk_level_of(k),
        None => default_risk,
    };
    Ok(ResolvedRule { path, description, method, risk })
}

/// Every rule resolves, to the corresponding entry of `v`.
pub open spec fn all_resolved(rules: Seq<ConfigRule>, home: Option<Seq<char>>, v: Seq<ResolvedRule>) -> bool {
    v.len() == rules.len() && forall|i: int|
        0 <= i < rules.len() ==> resolve_spec(rules[i], home, Ok(#[trigger] v[i]))
}

/// The rule resolves to some rule.
pub open spec fn resolves(rule: ConfigRule, home: Option<Seq<char>>) -> bool {
    exists|x: ResolvedRule| #[trigger] resolve_spec(rule, home, Ok(x))
}

/// `e` is the error of the first rule that does not resolve: every rule
/// before it resolves.
pub open spec fn first_failure(rules: Seq<ConfigRule>, home: Option<Seq<char>>, e: String) -> bool {
    exists|i: int|
        0 <= i < rules.len() && #[trigger] resolve_spec(rules[i], home, Err(e)) && forall|j: int|
            0 <= j < i ==> #[trigger] resolves(rules[j], home)
}

/// Resolves every rule in order, stopping at the first invalid one.
pub fn resolve_rules(rules: Vec<ConfigRule>, home: Option<&str>) -> (r: Result<Vec<ResolvedRule>, String>)
    ensures
        match r {
            Ok(v) => all_resolved(rules@, opt_str_view(home), v@),
            Err(e) => first_failure(rules@, opt_str_view(home), e),
        },
{
    let ghost all = rules@;
    let mut pending = rules;
    let mut out: Vec<ResolvedRule> = Vec::new();
    let mut rest: Vec<ConfigRule> = Vec::new();
    while pending.len() > 0
        invariant
            pending@ == all.take(pending@.len() as int),
            pending@.len() <= all.len(),
            rest@.len() == all.len() - pending@.len(),
            forall|k: int| 0 <= k < rest@.len() ==> #[trigger] rest@[k] == all[all.len() - 1 - k],
        decreases pending.len(),
    {
        let ghost m = pending@.len();
        let r = pending.pop().unwrap();
        rest.push(r);
        assert(pending@ =~= all.take(m - 1));
    }
    let mut k: usize = rest.len();
    while k > 0
        invariant
            all == rules@,
            k <= all.len(),
            rest@.len() == k,
            forall|q: int| 0 <= q < rest@.len() ==> #[trigger] rest@[q] == all[all.len() - 1 - q],
            out@.len() == all.len() - k,
            forall|q: int|
                0 <= q < out@.len() ==> resolve_spec(all[q], opt_str_view(home), Ok(#[trigger] out@[q])),
        decreases k,
    {
        let ghost m = all.len() - k;
        let rule = rest.pop().unwrap();
        assert(rule == all[m]);
        match resolve_rule(rule, home) {
            Ok(x) => {
                out.push(x);
            },
            Err(e) => {
                proof {
                    assert forall|j: int| 0 <= j < m implies #[trigger] resolves(all[j], opt_str_view(home)) by {
                        assert(resolve_spec(all[j], opt_str_view(home), Ok(out@[j])));
                    }
                    assert(resolve_spec(all[m], opt_str_view(home), Err(e)));
                }
                return Err(e);
            },
        }
        k = k - 1;
    }
    Ok(out)
}

/// The target of a resolved rule: none when its path holds no data.
pub fn rule_target(rule: ResolvedRule, size_bytes: u64) -> (t: Option<CleanTarget>)
    ensures
        size_bytes == 0 ==> t is None,
        size_bytes > 0 ==> t == Some(
            CleanTarget {
                path: rule.path,
                size_bytes,
                description: rule.description,
                method: rule.method,
            },
        ),
{
    non_empty_target(rule.path, rule.description, rule.method, Some(size_bytes))
}

/// The highest risk among the rules; Manual when there is none.
pub open spec fn highest_risk(rs: Seq<ResolvedRule>) -> RiskLevel
    decreases rs.len(),
{
    if rs.len() == 0 {
        RiskLevel::Manual
    } else if rs.len() == 1 {
        rs[0].risk
    } else {
        let h = highest_risk(rs.drop_last());
        if risk_rank(rs.last().risk) > risk_rank(h) {
            rs.last().risk
        } else {
            h
        }
    }
}

/// The risk the configured rules carry together: the highest risk among
/// them, and Manual when there are none or they could not be loaded.
pub fn configured_risk(loaded: &Result<Vec<ResolvedRule>, String>) -> (r: RiskLevel)
    ensures
        r == match loaded {
            Ok(rs) => highest_risk(rs@),
            Err(_) => RiskLevel::Manual,
        },
{
    match loaded {
        Err(_) => RiskLevel::Manual,
        Ok(rs) => {
            if rs.len() == 0 {
                return RiskLevel::Manual;
            }
            let mut r = rs[0].risk;
            assert(rs@.take(1).len() == 1);
            let mut i: usize = 1;
            while i < rs.len()
                invariant
                    1 <= i <= rs.len(),
                    r == highest_risk(rs@.take(i as int)),
                decreases rs.len() - i,
            {
                assert(rs@.take(i + 1).drop_last() =~= rs@.take(i as int));
                if rs[i].risk.rank() > r.rank() {
                    r = rs[i].risk;
                }
                i += 1;
            }
            assert(rs@.take(rs.len() as int) =~= rs@);
            r
        },
    }
}

impl ConfiguredCleaner {
    /// Where the configured rules live.
    pub fn config_path(home: &str) -> (p: String)
        ensures
            p@ == path_join_spec(home@, ".config/cleanrs/rules.toml"@),
    {
        path_join(home, ".config/cleanrs/rules.toml")
    }
}

} // verus!
