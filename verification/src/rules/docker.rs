//! Docker's reclaimable images, containers, networks and volumes.
use crate::cleaner::{kind_category, kind_id, kind_name, kind_risk, Cleaner, CleanerKind};
use crate::model::{Category, RiskLevel};
use crate::cleaner::{command_method, lowercase, lowered, method_view, MethodView};
use crate::global::{first_pos, lemma_first_pos};
use crate::model::CleanTarget;
use crate::text::{trim, trim_seq, chars_eq_str, chars_of, find_char, is_alpha, is_ascii_alphabetic, lemma_chars_deep_view, lines, lines_seq, slice_chars, string_of, words, words_seq};
use vstd::prelude::*;

verus! {

broadcast use vstd::string::group_string_axioms;

pub struct DockerCleaner;

impl Cleaner for DockerCleaner {
    open spec fn id_spec(&self) -> Seq<char> {
        kind_id(CleanerKind::Docker)
    }

    open spec fn display_name_spec(&self) -> Seq<char> {
        kind_name(CleanerKind::Docker)
    }

    open spec fn category_spec(&self) -> Category {
        kind_category(CleanerKind::Docker)
    }

    open spec fn risk_spec(&self) -> RiskLevel {
        kind_risk(CleanerKind::Docker)
    }

    fn id(&self) -> (r: &'static str) {
        CleanerKind::Docker.id()
    }

    fn display_name(&self) -> (r: &'static str) {
        CleanerKind::Docker.display_name()
    }

    fn category(&self) -> (r: Category) {
        CleanerKind::Docker.category()
    }

    fn risk_level(&self) -> (r: RiskLevel) {
        CleanerKind::Docker.risk_level()
    }
}


/// Bytes per unit of a size suffix, as Docker and Ollama print them
/// (case-insensitive; binary prefixes are read as decimal ones).
pub open spec fn unit_multiplier_spec(unit: Seq<char>) -> Option<u64> {
    let u = lowered(unit);
    if u == "b"@ {
        Some(1)
    } else if u == "kb"@ || u == "kib"@ {
        Some(1_000)
    } else if u == "mb"@ || u == "mib"@ {
        Some(1_000_000)
    } else if u == "gb"@ || u == "gib"@ {
        Some(1_000_000_000)
    } else if u == "tb"@ || u == "tib"@ {
        Some(1_000_000_000_000)
    } else {
        None
    }
}

pub fn unit_multiplier(unit: &str) -> (r: Option<u64>)
    ensures
        r == unit_multiplier_spec(unit@),
{
    let l = lowercase(unit);
    let u = chars_of(l.as_str());
    let s = u.as_slice();
    if chars_eq_str(s, "b") {
        Some(1)
    } else if chars_eq_str(s, "kb") || chars_eq_str(s, "kib") {
        Some(1_000)
    } else if chars_eq_str(s, "mb") || chars_eq_str(s, "mib") {
        Some(1_000_000)
    } else if chars_eq_str(s, "gb") || chars_eq_str(s, "gib") {
        Some(1_000_000_000)
    } else if chars_eq_str(s, "tb") || chars_eq_str(s, "tib") {
        Some(1_000_000_000_000)
    } else {
        None
    }
}

/// Index of the first ASCII letter.
pub open spec fn first_alpha(s: Seq<char>) -> Option<int> {
    if exists|i: int| 0 <= i < s.len() && is_alpha(s[i]) {
        Some(choose|i: int| 0 <= i < s.len() && is_alpha(s[i]) && forall|j: int| 0 <= j < i ==> !is_alpha(s[j]))
    } else {
        None
    }
}

pub fn find_alpha(s: &[char]) -> (r: Option<usize>)
    ensures
        match r {
            Some(i) => first_alpha(s@) == Some(i as int) && i < s@.len(),
            None => first_alpha(s@) is None,
        },
{
    let mut i: usize = 0;
    while i < s.len()
        invariant
            i <= s.len(),
            forall|j: int| 0 <= j < i ==> !is_alpha(s@[j]),
        decreases s.len() - i,
    {
        if is_ascii_alphabetic(s[i]) {
            proof {
                let k = choose|k: int| 0 <= k < s@.len() && is_alpha(s@[k]) && forall|j: int| 0 <= j < k ==> !is_alpha(s@[j]);
                assert(0 <= k < s@.len() && is_alpha(s@[k]) && forall|j: int| 0 <= j < k ==> !is_alpha(s@[j]));
                if (k as int) < (i as int) {
                    assert(!is_alpha(s@[k]));
                }
                if (i as int) < k {
                    assert(!is_alpha(s@[i as int]));
                }
            }
            return Some(i);
        }
        i = i + 1;
    }
    None
}

/// The number text and the unit multiplier of a size column such as
/// `1.5GB (20%)`: the first word, split before its first letter.
pub open spec fn docker_size_parts_spec(value: Seq<char>) -> Option<(Seq<char>, u64)> {
    let w = words_seq(value);
    if w.len() == 0 {
        None
    } else {
        match first_alpha(w[0]) {
            None => None,
            Some(k) => match unit_multiplier_spec(w[0].skip(k)) {
                None => None,
                Some(m) => Some((w[0].take(k), m)),
            },
        }
    }
}

impl DockerCleaner {
    /// Splits a reclaimable size into its number text and unit multiplier.
    /// The number itself is read as a floating-point value by the caller.
    pub fn size_parts(value: &str) -> (r: Option<(String, u64)>)
        ensures
            match r {
                Some((n, m)) => docker_size_parts_spec(value@) == Some((n@, m)),
                None => docker_size_parts_spec(value@) is None,
            },
    {
        let vc = chars_of(value);
        let w = words(vc.as_slice());
        if w.len() == 0 {
            return None;
        }
        proof {
            lemma_chars_deep_view(w[0]);
        }
        let token = &w[0];
        let k = match find_alpha(token.as_slice()) {
            Some(k) => k,
            None => {
                return None;
            },
        };
        let unit = string_of(&slice_chars(token.as_slice(), k, token.len()));
        assert(unit@ =~= token@.skip(k as int));
        let m = match unit_multiplier(unit.as_str()) {
            Some(m) => m,
            None => {
                return None;
            },
        };
        let number = string_of(&slice_chars(token.as_slice(), 0, k));
        assert(number@ =~= token@.take(k as int));
        Some((number, m))
    }

    /// The reclaimable-size column of every line of `docker system df`
    /// that has one (the text after the first tab).
    pub fn reclaimable_values(output: &str) -> (out: Vec<String>)
        ensures
            out.deep_view() == tab_values(lines_seq(output@)),
    {
        let oc = chars_of(output);
        let ls = lines(oc.as_slice());
        let ghost all = ls.deep_view();
        let mut out: Vec<String> = Vec::new();
        for i in 0..ls.len()
            invariant
                all == ls.deep_view(),
                all == lines_seq(output@),
                out.deep_view() =~= tab_values(all.take(i as int)),
        {
            proof {
                lemma_chars_deep_view(ls[i as int]);
            }
            assert(all.take(i + 1).drop_last() =~= all.take(i as int));
            let line = &ls[i];
            match find_char(line.as_slice(), '\t') {
                Some(t) => {
                    assert(t < line.len());
                    proof {
                        lemma_first_pos(line@, '\t', t as int);
                    }
                    let v = string_of(&slice_chars(line.as_slice(), t + 1, line.len()));
                    assert(v@ =~= line@.skip(t + 1));
                    let ghost before = out.deep_view();
                    out.push(v);
                    assert(out.deep_view() =~= before.push(v@));
                },
                None => {
                    assert(first_pos(line@, '\t') is None);
                },
            }
        }
        assert(all.take(ls.len() as int) =~= all);
        out
    }

    /// The single Docker target: the total reclaimable bytes, cleaned by
    /// `docker system prune -af --volumes`.
    pub fn system_target(reclaimable_bytes: u64) -> (t: CleanTarget)
        ensures
            t.path@ == "docker://system"@,
            t.size_bytes == reclaimable_bytes,
            t.description@ == "images, containers, networks and volumes"@,
            method_view(t.method) == MethodView::Command(
                seq!["docker"@, "system"@, "prune"@, "-af"@, "--volumes"@],
            ),
    {
        let words = vec!["docker", "system", "prune", "-af", "--volumes"];
        assert(words@.map_values(|w: &'static str| w@) =~= seq!["docker"@, "system"@, "prune"@, "-af"@, "--volumes"@]);
        CleanTarget {
            path: "docker://system".to_string(),
            size_bytes: reclaimable_bytes,
            description: "images, containers, networks and volumes".to_string(),
            method: command_method(&words),
        }
    }

    /// The targets for what `docker system df` printed: none when it printed
    /// nothing but blanks, otherwise the single system target with the
    /// reclaimable bytes the caller totalled.
    pub fn targets(output: &str, reclaimable_bytes: u64) -> (out: Vec<CleanTarget>)
        ensures
            trim_seq(output@).len() == 0 ==> out@.len() == 0,
            trim_seq(output@).len() > 0 ==> out@.len() == 1 && out@[0].path@ == "docker://system"@
                && out@[0].size_bytes == reclaimable_bytes && out@[0].description@
                == "images, containers, networks and volumes"@ && method_view(out@[0].method)
                == MethodView::Command(seq!["docker"@, "system"@, "prune"@, "-af"@, "--volumes"@]),
    {
        let oc = chars_of(output);
        let trimmed = trim(oc.as_slice());
        let mut out: Vec<CleanTarget> = Vec::new();
        if trimmed.len() > 0 {
            out.push(Self::system_target(reclaimable_bytes));
        }
        out
    }
}

/// The text after the first tab of each line that has one.
pub open spec fn tab_values(lines: Seq<Seq<char>>) -> Seq<Seq<char>>
    decreases lines.len(),
{
    if lines.len() == 0 {
        Seq::empty()
    } else {
        let rest = tab_values(lines.drop_last());
        match first_pos(lines.last(), '\t') {
            Some(t) => rest.push(lines.last().skip(t + 1)),
            None => rest,
        }
    }
}

/// The decimal size units in increasing order: bytes, then each one 1000
/// times the one before.
pub open spec fn decimal_units() -> Seq<Seq<char>> {
    seq!["b"@, "kb"@, "mb"@, "gb"@, "tb"@]
}

/// The binary spellings of the same units, read as the decimal ones.
pub open spec fn binary_units() -> Seq<Seq<char>> {
    seq!["b"@, "kib"@, "mib"@, "gib"@, "tib"@]
}

/// `1000` to the power `i`.
pub open spec fn thousand_pow(i: nat) -> nat
    decreases i,
{
    if i == 0 {
        1
    } else {
        1000 * thousand_pow((i - 1) as nat)
    }
}

/// A size unit is read case-insensitively as `1000^i` bytes, where `i` is
/// its place among B, KB, MB, GB and TB (or KiB, MiB, GiB, TiB); any other
/// unit is not understood.
pub proof fn units_are_powers_of_a_thousand(unit: Seq<char>)
    ensures
        forall|i: int|
            0 <= i < 5 && (lowered(unit) == #[trigger] decimal_units()[i] || lowered(unit) == binary_units()[i])
                ==> unit_multiplier_spec(unit) == Some(thousand_pow(i as nat) as u64),
        unit_multiplier_spec(unit) is Some ==> exists|i: int|
            0 <= i < 5 && (lowered(unit) == #[trigger] decimal_units()[i] || lowered(unit) == binary_units()[i]),
        unit_multiplier_spec(unit) == unit_multiplier_spec(lowered(unit)),
{
    reveal_strlit("b");
    reveal_strlit("kb");
    reveal_strlit("mb");
    reveal_strlit("gb");
    reveal_strlit("tb");
    reveal_strlit("kib");
    reveal_strlit("mib");
    reveal_strlit("gib");
    reveal_strlit("tib");
    assert(thousand_pow(0) == 1);
    assert(thousand_pow(1) == 1000);
    assert(thousand_pow(2) == 1_000_000);
    assert(thousand_pow(3) == 1_000_000_000);
    assert(thousand_pow(4) == 1_000_000_000_000);
    let d = decimal_units();
    let b = binary_units();
    assert(d[0] == "b"@ && d[1] == "kb"@ && d[2] == "mb"@ && d[3] == "gb"@ && d[4] == "tb"@);
    assert(b[0] == "b"@ && b[1] == "kib"@ && b[2] == "mib"@ && b[3] == "gib"@ && b[4] == "tib"@);
    let u = lowered(unit);
    assert forall|i: int|
        0 <= i < 5 && (lowered(unit) == #[trigger] decimal_units()[i] || lowered(unit) == binary_units()[i])
            implies unit_multiplier_spec(unit) == Some(thousand_pow(i as nat) as u64) by {
        if i == 0 {
            assert(u == "b"@);
        } else if i == 1 {
            assert(u != "b"@) by { assert(u.len() != 1); }
        } else if i == 2 {
            assert(u != "b"@) by { assert(u.len() != 1); }
            assert(u != "kb"@ && u != "kib"@) by { assert(u[0] == 'm'); }
        } else if i == 3 {
            assert(u != "b"@) by { assert(u.len() != 1); }
            assert(u != "kb"@ && u != "kib"@ && u != "mb"@ && u != "mib"@) by { assert(u[0] == 'g'); }
        } else {
            assert(u != "b"@) by { assert(u.len() != 1); }
            assert(u != "kb"@ && u != "kib"@ && u != "mb"@ && u != "mib"@ && u != "gb"@ && u != "gib"@) by {
                assert(u[0] == 't');
            }
        }
    }
    lemma_lowered_twice(unit);
}

proof fn lemma_lowered_twice(s: Seq<char>)
    ensures
        lowered(lowered(s)) == lowered(s),
{
    assert(lowered(lowered(s)) =~= lowered(s));
}

} // verus!
