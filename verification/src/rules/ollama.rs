//! Ollama caches and downloaded models.
use crate::cleaner::{kind_category, kind_id, kind_name, kind_risk, Cleaner, CleanerKind};
use crate::model::{Category, RiskLevel};
use crate::cleaner::{home_plan, method_view, plan_home_paths, planned_view, MethodView, PlannedTarget};
use crate::model::{CleanMethod, CleanTarget};
use crate::rules::docker::{find_alpha, first_alpha, unit_multiplier, unit_multiplier_spec};
use crate::text::{chars_eq, chars_of, lemma_chars_deep_view, lines, lines_seq, push_str, slice_chars, string_of, words, words_seq};
use vstd::prelude::*;

verus! {

broadcast use vstd::string::group_string_axioms;

pub struct OllamaCleaner;

impl Cleaner for OllamaCleaner {
    open spec fn id_spec(&self) -> Seq<char> {
        kind_id(CleanerKind::Ollama)
    }

    open spec fn display_name_spec(&self) -> Seq<char> {
        kind_name(CleanerKind::Ollama)
    }

    open spec fn category_spec(&self) -> Category {
        kind_category(CleanerKind::Ollama)
    }

    open spec fn risk_spec(&self) -> RiskLevel {
        kind_risk(CleanerKind::Ollama)
    }

    fn id(&self) -> (r: &'static str) {
        CleanerKind::Ollama.id()
    }

    fn display_name(&self) -> (r: &'static str) {
        CleanerKind::Ollama.display_name()
    }

    fn category(&self) -> (r: Category) {
        CleanerKind::Ollama.category()
    }

    fn risk_level(&self) -> (r: RiskLevel) {
        CleanerKind::Ollama.risk_level()
    }
}


impl OllamaCleaner {
    pub open spec fn paths_spec() -> Seq<(Seq<char>, Seq<char>)> {
        seq![
            (".ollama/cache"@, "Ollama update/cache files"@),
            (".ollama/logs"@, "Ollama update/cache files"@),
            ("Library/Caches/ollama"@, "Ollama update/cache files"@),
        ]
    }

    /// The cache and log directories proposed below `home`.
    pub fn planned_targets(home: &str) -> (out: Vec<PlannedTarget>)
        ensures
            out@.map_values(|t: PlannedTarget| planned_view(t)) == home_plan(home@, Self::paths_spec()),
    {
        let table: Vec<(&'static str, &'static str)> = vec![
            (".ollama/cache", "Ollama update/cache files"),
            (".ollama/logs", "Ollama update/cache files"),
            ("Library/Caches/ollama", "Ollama update/cache files"),
        ];
        assert(table@.map_values(|e: (&'static str, &'static str)| (e.0@, e.1@)) =~= Self::paths_spec());
        plan_home_paths(home, &table)
    }
}

/// The rows of `ollama ls` after its header: name, size value and the
/// field after it, for lines with at least four fields.
pub open spec fn model_rows_spec(lines: Seq<Seq<char>>) -> Seq<(Seq<char>, Seq<char>, Seq<char>)>
    decreases lines.len(),
{
    if lines.len() == 0 {
        Seq::empty()
    } else {
        let rest = model_rows_spec(lines.drop_last());
        let w = words_seq(lines.last());
        if w.len() < 4 {
            rest
        } else {
            rest.push((w[0], w[2], w[3]))
        }
    }
}

/// The first word of each line after the header of `ollama ps`.
pub open spec fn first_words(lines: Seq<Seq<char>>) -> Seq<Seq<char>>
    decreases lines.len(),
{
    if lines.len() == 0 {
        Seq::empty()
    } else {
        let rest = first_words(lines.drop_last());
        let w = words_seq(lines.last());
        if w.len() == 0 {
            rest
        } else {
            rest.push(w[0])
        }
    }
}

pub open spec fn body_lines(output: Seq<char>) -> Seq<Seq<char>> {
    let ls = lines_seq(output);
    if ls.len() == 0 {
        ls
    } else {
        ls.drop_first()
    }
}

/// The number text and unit multiplier of a model size: the value split
/// before its first letter, or the whole value followed by the unit field.
pub open spec fn model_size_parts_spec(value: Seq<char>, unit: Seq<char>) -> Option<(Seq<char>, u64)> {
    let k = match first_alpha(value) {
        Some(k) => k,
        None => value.len() as int,
    };
    let suffix = if k < value.len() {
        value.skip(k)
    } else {
        unit
    };
    match unit_multiplier_spec(suffix) {
        Some(m) => Some((value.take(k), m)),
        None => None,
    }
}

fn body_of(output: &str) -> (out: Vec<Vec<char>>)
    ensures
        out.deep_view() == body_lines(output@),
{
    let oc = chars_of(output);
    let ls = lines(oc.as_slice());
    let mut out: Vec<Vec<char>> = Vec::new();
    if ls.len() == 0 {
        return out;
    }
    for i in 1..ls.len()
        invariant
            ls.deep_view() == lines_seq(output@),
            ls.deep_view().len() >= 1,
            out.deep_view() =~= ls.deep_view().subrange(1, i as int),
    {
        let ghost before = out.deep_view();
        out.push(ls[i].clone());
        assert(out.deep_view() =~= before.push(ls.deep_view()[i as int]));
    }
    assert(ls.deep_view().subrange(1, ls.len() as int) =~= ls.deep_view().drop_first());
    out
}

impl OllamaCleaner {
    /// The model rows of `ollama ls`: name, size value and unit field.
    pub fn model_rows(output: &str) -> (out: Vec<(String, String, String)>)
        ensures
            out@.map_values(|r: (String, String, String)| (r.0@, r.1@, r.2@)) == model_rows_spec(
                body_lines(output@),
            ),
    {
        let body = body_of(output);
        let ghost all = body.deep_view();
        let mut out: Vec<(String, String, String)> = Vec::new();
        for i in 0..body.len()
            invariant
                all == body.deep_view(),
                out@.map_values(|r: (String, String, String)| (r.0@, r.1@, r.2@)) =~= model_rows_spec(
                    all.take(i as int),
                ),
        {
            proof {
                lemma_chars_deep_view(body[i as int]);
            }
            assert(all.take(i + 1).drop_last() =~= all.take(i as int));
            let w = words(body[i].as_slice());
            if w.len() >= 4 {
                proof {
                    lemma_chars_deep_view(w[0]);
                    lemma_chars_deep_view(w[2]);
                    lemma_chars_deep_view(w[3]);
                }
                let row = (string_of(&w[0]), string_of(&w[2]), string_of(&w[3]));
                let ghost before = out@;
                out.push(row);
                assert(out@.map_values(|r: (String, String, String)| (r.0@, r.1@, r.2@)) =~= before.map_values(
                    |r: (String, String, String)| (r.0@, r.1@, r.2@),
                ).push((row.0@, row.1@, row.2@)));
            }
        }
        assert(all.take(body.len() as int) =~= all);
        out
    }

    /// The models `ollama ps` lists as running.
    pub fn running_models(output: &str) -> (out: Vec<String>)
        ensures
            out.deep_view() == first_words(body_lines(output@)),
    {
        let body = body_of(output);
        let ghost all = body.deep_view();
        let mut out: Vec<String> = Vec::new();
        for i in 0..body.len()
            invariant
                all == body.deep_view(),
                out.deep_view() =~= first_words(all.take(i as int)),
        {
            proof {
                lemma_chars_deep_view(body[i as int]);
            }
            assert(all.take(i + 1).drop_last() =~= all.take(i as int));
            let w = words(body[i].as_slice());
            if w.len() > 0 {
                proof {
                    lemma_chars_deep_view(w[0]);
                }
                let name = string_of(&w[0]);
                let ghost before = out.deep_view();
                out.push(name);
                assert(out.deep_view() =~= before.push(name@));
            }
        }
        assert(all.take(body.len() as int) =~= all);
        out
    }

    /// Splits a model size into its number text and unit multiplier. The
    /// number itself is read as a floating-point value by the caller.
    pub fn size_parts(value: &str, unit: &str) -> (r: Option<(String, u64)>)
        ensures
            match r {
                Some((n, m)) => model_size_parts_spec(value@, unit@) == Some((n@, m)),
                None => model_size_parts_spec(value@, unit@) is None,
            },
    {
        let vc = chars_of(value);
        let k = match find_alpha(vc.as_slice()) {
            Some(k) => k,
            None => vc.len(),
        };
        let suffix = if k < vc.len() {
            string_of(&slice_chars(vc.as_slice(), k, vc.len()))
        } else {
            unit.to_string()
        };
        assert(k < vc@.len() ==> suffix@ =~= value@.skip(k as int));
        match unit_multiplier(suffix.as_str()) {
            Some(m) => {
                let number = string_of(&slice_chars(vc.as_slice(), 0, k));
                assert(number@ =~= value@.take(k as int));
                Some((number, m))
            },
            None => None,
        }
    }

    /// The target of a downloaded model, removed with `ollama rm`.
    pub fn model_target(name: String, size_bytes: u64) -> (t: CleanTarget)
        ensures
            t.path@ == "ollama://model/"@ + name@,
            t.size_bytes == size_bytes,
            t.description@ == "Ollama model "@ + name@,
            method_view(t.method) == MethodView::Command(seq!["ollama"@, "rm"@, name@]),
    {
        let mut path = "ollama://model/".to_string();
        push_str(&mut path, name.as_str());
        let mut description = "Ollama model ".to_string();
        push_str(&mut description, name.as_str());
        let mut args: Vec<String> = Vec::new();
        args.push("ollama".to_string());
        args.push("rm".to_string());
        args.push(name);
        let ghost a = args.deep_view();
        assert(a =~= seq!["ollama"@, "rm"@, args@[2]@]);
        CleanTarget { path, size_bytes, description, method: CleanMethod::RunCommand(args) }
    }

    /// The models offered for removal: those listed with a readable size,
    /// except the running ones, in listing order; each is `(name, size)`.
    pub fn removable_models(models: Vec<(String, Option<u64>)>, running: &Vec<String>) -> (out: Vec<(String, u64)>)
        ensures
            out@.map_values(|m: (String, u64)| (m.0@, m.1)) == removable_spec(
                models@.map_values(|m: (String, Option<u64>)| (m.0@, m.1)),
                running.deep_view(),
            ),
    {
        let ghost mv = models@.map_values(|m: (String, Option<u64>)| (m.0@, m.1));
        let ghost rv = running.deep_view();
        let mut out: Vec<(String, u64)> = Vec::new();
        let mut i: usize = 0;
        while i < models.len()
            invariant
                i <= models.len(),
                mv == models@.map_values(|m: (String, Option<u64>)| (m.0@, m.1)),
                rv == running.deep_view(),
                out@.map_values(|m: (String, u64)| (m.0@, m.1)) =~= removable_spec(mv.take(i as int), rv),
            decreases models.len() - i,
        {
            assert(mv.take(i + 1).drop_last() =~= mv.take(i as int));
            let name = &models[i].0;
            let is_running = listed_name(name.as_str(), running);
            match models[i].1 {
                Some(size) => {
                    if !is_running {
                        let ghost before = out@;
                        out.push((name.clone(), size));
                        assert(out@.map_values(|m: (String, u64)| (m.0@, m.1)) =~= before.map_values(
                            |m: (String, u64)| (m.0@, m.1),
                        ).push((name@, size)));
                    }
                },
                None => {},
            }
            i = i + 1;
        }
        assert(mv.take(models.len() as int) =~= mv);
        out
    }
}

/// The listed models with a size that are not running, in order.
pub open spec fn removable_spec(models: Seq<(Seq<char>, Option<u64>)>, running: Seq<Seq<char>>) -> Seq<(Seq<char>, u64)>
    decreases models.len(),
{
    if models.len() == 0 {
        Seq::empty()
    } else {
        let rest = removable_spec(models.drop_last(), running);
        let (name, size) = models.last();
        match size {
            Some(n) => if running.contains(name) {
                rest
            } else {
                rest.push((name, n))
            },
            None => rest,
        }
    }
}

fn listed_name(name: &str, names: &Vec<String>) -> (r: bool)
    ensures
        r == names.deep_view().contains(name@),
{
    let nc = chars_of(name);
    let mut i: usize = 0;
    while i < names.len()
        invariant
            i <= names.len(),
            nc@ == name@,
            forall|j: int| 0 <= j < i ==> names.deep_view()[j] != name@,
        decreases names.len() - i,
    {
        let other = chars_of(names[i].as_str());
        if chars_eq(other.as_slice(), nc.as_slice()) {
            assert(names.deep_view()[i as int] == name@);
            return true;
        }
        i = i + 1;
    }
    false
}

} // verus!
