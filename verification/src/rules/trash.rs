//! The macOS Trash.
use crate::cleaner::{kind_category, kind_id, kind_name, kind_risk, Cleaner, CleanerKind};
use crate::model::{Category, RiskLevel};
use crate::cleaner::{command_method, method_view, MethodView};
use crate::model::CleanTarget;
use crate::sort::{lemma_stable_sorted_len, stable_sort, stable_sorted, Ordered};
use crate::text::{chars_of, decimal, decimal_string, join, join_seq, lemma_chars_deep_view, push_str, string_of};
use crate::paths::{path_join, path_join_spec};
use vstd::prelude::*;

verus! {

broadcast use vstd::string::group_string_axioms;

pub struct TrashCleaner;

impl Cleaner for TrashCleaner {
    open spec fn id_spec(&self) -> Seq<char> {
        kind_id(CleanerKind::Trash)
    }

    open spec fn display_name_spec(&self) -> Seq<char> {
        kind_name(CleanerKind::Trash)
    }

    open spec fn category_spec(&self) -> Category {
        kind_category(CleanerKind::Trash)
    }

    open spec fn risk_spec(&self) -> RiskLevel {
        kind_risk(CleanerKind::Trash)
    }

    fn id(&self) -> (r: &'static str) {
        CleanerKind::Trash.id()
    }

    fn display_name(&self) -> (r: &'static str) {
        CleanerKind::Trash.display_name()
    }

    fn category(&self) -> (r: Category) {
        CleanerKind::Trash.category()
    }

    fn risk_level(&self) -> (r: RiskLevel) {
        CleanerKind::Trash.risk_level()
    }
}


/// One item in the Trash.
#[derive(Clone, Debug)]
pub struct TrashEntry {
    pub name: String,
    pub size_bytes: u64,
    /// Modification time in nanoseconds since the Unix epoch.
    pub modified: u128,
}

/// Which items the summary names first.
#[derive(Clone, Copy, Debug, PartialEq, Eq, Structural)]
pub enum TrashOrder {
    Largest,
    Newest,
}

/// An item with the key it is ordered by, larger keys first.
pub struct KeyedEntry {
    pub key: u128,
    pub entry: TrashEntry,
}

impl Ordered for KeyedEntry {
    open spec fn precedes(&self, other: &Self) -> bool {
        self.key > other.key
    }

    fn precedes_exec(&self, other: &Self) -> (r: bool) {
        self.key > other.key
    }

    proof fn precedes_asymmetric(a: &Self, b: &Self) {
    }

    proof fn precedes_negatively_transitive(a: &Self, b: &Self, c: &Self) {
    }
}

pub open spec fn order_key(e: TrashEntry, order: TrashOrder) -> u128 {
    match order {
        TrashOrder::Largest => e.size_bytes as u128,
        TrashOrder::Newest => e.modified,
    }
}

pub open spec fn keyed(s: Seq<TrashEntry>, order: TrashOrder) -> Seq<KeyedEntry> {
    s.map_values(|e: TrashEntry| KeyedEntry { key: order_key(e, order), entry: e })
}

/// The items ordered largest (or newest) first; ties keep their order.
pub open spec fn ordered_entries(s: Seq<TrashEntry>, order: TrashOrder) -> Seq<TrashEntry> {
    stable_sorted(keyed(s, order)).map_values(|k: KeyedEntry| k.entry)
}

/// Up to three names joined with `, `, or `-` when there is none.
pub open spec fn summary_names(sorted: Seq<TrashEntry>) -> Seq<char> {
    let first = if sorted.len() > 3 {
        sorted.take(3)
    } else {
        sorted
    };
    if first.len() == 0 {
        "-"@
    } else {
        join_seq(first.map_values(|e: TrashEntry| e.name@), ", "@)
    }
}

/// Orders the items and names the first three: the item count and the
/// names.
pub fn names_of(entries: &mut Vec<TrashEntry>, order: TrashOrder) -> (r: (usize, String))
    ensures
        final(entries)@ == ordered_entries(old(entries)@, order),
        r.0 == old(entries)@.len(),
        r.1@ == summary_names(ordered_entries(old(entries)@, order)),
{
    let ghost orig = entries@;
    let mut taken: Vec<TrashEntry> = Vec::new();
    std::mem::swap(entries, &mut taken);
    let mut keyed_entries: Vec<KeyedEntry> = Vec::new();
    let n = taken.len();
    let mut rest = taken;
    let mut rev: Vec<TrashEntry> = Vec::new();
    while rest.len() > 0
        invariant
            rest@ == orig.take(rest@.len() as int),
            rest@.len() <= orig.len(),
            rev@.len() == orig.len() - rest@.len(),
            forall|k: int| 0 <= k < rev@.len() ==> #[trigger] rev@[k] == orig[orig.len() - 1 - k],
        decreases rest.len(),
    {
        let ghost m = rest@.len();
        let e = rest.pop().unwrap();
        rev.push(e);
        assert(rest@ =~= orig.take(m - 1));
    }
    let mut i: usize = rev.len();
    while i > 0
        invariant
            i <= orig.len(),
            rev@.len() == i,
            forall|k: int| 0 <= k < rev@.len() ==> #[trigger] rev@[k] == orig[orig.len() - 1 - k],
            keyed_entries@ =~= keyed(orig.take(orig.len() - i), order),
        decreases i,
    {
        let ghost m = orig.len() - i;
        let e = rev.pop().unwrap();
        assert(e == orig[m]);
        let key: u128 = match order {
            TrashOrder::Largest => e.size_bytes as u128,
            TrashOrder::Newest => e.modified,
        };
        keyed_entries.push(KeyedEntry { key, entry: e });
        assert(orig.take(m + 1) =~= orig.take(m).push(orig[m]));
        i = i - 1;
    }
    assert(orig.take(orig.len() as int) =~= orig);
    let sorted = stable_sort(keyed_entries);
    let ghost sk = sorted@;
    let mut out: Vec<TrashEntry> = Vec::new();
    let mut sorted = sorted;
    let mut back: Vec<TrashEntry> = Vec::new();
    while sorted.len() > 0
        invariant
            sorted@ == sk.take(sorted@.len() as int),
            sorted@.len() <= sk.len(),
            back@.len() == sk.len() - sorted@.len(),
            forall|k: int| 0 <= k < back@.len() ==> #[trigger] back@[k] == sk[sk.len() - 1 - k].entry,
        decreases sorted.len(),
    {
        let ghost m = sorted@.len();
        let k = sorted.pop().unwrap();
        back.push(k.entry);
        assert(sorted@ =~= sk.take(m - 1));
    }
    let mut j: usize = back.len();
    while j > 0
        invariant
            j <= sk.len(),
            back@.len() == j,
            forall|k: int| 0 <= k < back@.len() ==> #[trigger] back@[k] == sk[sk.len() - 1 - k].entry,
            out@ =~= sk.take(sk.len() - j).map_values(|k: KeyedEntry| k.entry),
        decreases j,
    {
        let ghost m = sk.len() - j;
        let e = back.pop().unwrap();
        out.push(e);
        assert(sk.take(m + 1) =~= sk.take(m).push(sk[m]));
        j = j - 1;
    }
    assert(sk.take(sk.len() as int) =~= sk);
    let count = out.len();
    proof {
        lemma_stable_sorted_len(keyed(orig, order));
    }
    let limit: usize = if count > 3 {
        3
    } else {
        count
    };
    let mut names: Vec<Vec<char>> = Vec::new();
    for k in 0..limit
        invariant
            limit <= out@.len(),
            names.deep_view() =~= out@.take(k as int).map_values(|e: TrashEntry| e.name@),
    {
        let c = chars_of(out[k].name.as_str());
        proof {
            lemma_chars_deep_view(c);
        }
        let ghost before = names.deep_view();
        names.push(c);
        assert(names.deep_view() =~= before.push(out@[k as int].name@));
        assert(out@.take(k + 1) =~= out@.take(k as int).push(out@[k as int]));
    }
    assert(out@.take(limit as int) =~= if out@.len() > 3 {
        out@.take(3)
    } else {
        out@
    });
    let text = if limit == 0 {
        "-".to_string()
    } else {
        let sep = chars_of(", ");
        string_of(&join(&names, sep.as_slice()))
    };
    *entries = out;
    (count, text)
}

pub open spec fn total_size(s: Seq<TrashEntry>) -> nat
    decreases s.len(),
{
    if s.len() == 0 {
        0
    } else {
        total_size(s.drop_last()) + (s.last().size_bytes as nat)
    }
}

pub open spec fn empty_trash_words() -> Seq<Seq<char>> {
    seq!["osascript"@, "-e"@, "tell application \"Finder\" to empty trash"@]
}

impl TrashCleaner {
    /// The user's Trash folder.
    pub fn trash_path(home: &str) -> (p: String)
        ensures
            p@ == path_join_spec(home@, ".Trash"@),
    {
        path_join(home, ".Trash")
    }

    /// The single target of the Trash: all its items, summarised by count,
    /// the three largest and the three newest; emptied through Finder. None
    /// when the Trash is empty.
    pub fn trash_target(path: String, entries: Vec<TrashEntry>) -> (t: Option<CleanTarget>)
        requires
            total_size(entries@) <= u64::MAX,
        ensures
            entries@.len() == 0 ==> t is None,
            entries@.len() > 0 ==> match t {
                Some(x) => x.path == path && x.size_bytes == total_size(entries@) && x.description@
                    == decimal(entries@.len() as nat) + " item(s); largest: "@ + summary_names(
                    ordered_entries(entries@, TrashOrder::Largest),
                ) + "; newest: "@ + summary_names(ordered_entries(entries@, TrashOrder::Newest))
                    && method_view(x.method) == MethodView::Command(empty_trash_words()),
                None => false,
            },
    {
        if entries.len() == 0 {
            return None;
        }
        let mut total: u64 = 0;
        for i in 0..entries.len()
            invariant
                total == total_size(entries@.take(i as int)),
                total_size(entries@) <= u64::MAX,
        {
            assert(entries@.take(i + 1).drop_last() =~= entries@.take(i as int));
            proof {
                lemma_total_prefix(entries@, i + 1);
            }
            total = total + entries[i].size_bytes;
        }
        assert(entries@.take(entries.len() as int) =~= entries@);
        let ghost orig = entries@;
        let mut by_size = copy_entries(&entries);
        let mut by_time = entries;
        let (count, largest) = names_of(&mut by_size, TrashOrder::Largest);
        let (_, newest) = names_of(&mut by_time, TrashOrder::Newest);
        let mut description = decimal_string(count as u64);
        push_str(&mut description, " item(s); largest: ");
        push_str(&mut description, largest.as_str());
        push_str(&mut description, "; newest: ");
        push_str(&mut description, newest.as_str());
        let words = vec!["osascript", "-e", "tell application \"Finder\" to empty trash"];
        assert(words@.map_values(|w: &'static str| w@) =~= empty_trash_words());
        Some(CleanTarget { path, size_bytes: total, description, method: command_method(&words) })
    }
}

proof fn lemma_total_prefix(s: Seq<TrashEntry>, k: int)
    requires
        0 <= k <= s.len(),
    ensures
        total_size(s.take(k)) <= total_size(s),
    decreases s.len() - k,
{
    if k < s.len() {
        lemma_total_prefix(s, k + 1);
        assert(s.take(k + 1).drop_last() =~= s.take(k));
    } else {
        assert(s.take(k) =~= s);
    }
}

fn copy_entries(v: &Vec<TrashEntry>) -> (r: Vec<TrashEntry>)
    ensures
        r@ == v@,
{
    let mut r: Vec<TrashEntry> = Vec::new();
    for i in 0..v.len()
        invariant
            r@ == v@.take(i as int),
    {
        let e = &v[i];
        r.push(TrashEntry { name: e.name.clone(), size_bytes: e.size_bytes, modified: e.modified });
        assert(v@.take(i + 1) =~= v@.take(i as int).push(v@[i as int]));
    }
    assert(v@.take(v.len() as int) =~= v@);
    r
}

} // verus!
