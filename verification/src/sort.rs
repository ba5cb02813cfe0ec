//! Stable sorting and lexicographic string order.
//!
//! Lists are sorted by insertion, which yields the unique stable order that
//! `slice::sort_by` with the same comparison would give.
use vstd::prelude::*;
use vstd::multiset::Multiset;

verus! {

broadcast use vstd::seq_lib::group_to_multiset_ensures;

/// A strict weak order used for stable sorting: `a.precedes(b)` means `a`
/// must come before `b`.
pub trait Ordered: Sized {
    spec fn precedes(&self, other: &Self) -> bool;

    fn precedes_exec(&self, other: &Self) -> (r: bool)
        ensures
            r == self.precedes(other),
    ;

    proof fn precedes_asymmetric(a: &Self, b: &Self)
        requires
            a.precedes(b),
        ensures
            !b.precedes(a),
    ;

    proof fn precedes_negatively_transitive(a: &Self, b: &Self, c: &Self)
        requires
            a.precedes(c),
        ensures
            a.precedes(b) || b.precedes(c),
    ;
}

/// Where `x` goes when inserted in front of the sorted sequence `s` from
/// position `k` on: before the first element that does not precede it.
pub open spec fn insert_position_from<T: Ordered>(s: Seq<T>, x: T, k: int) -> int
    decreases s.len() - k,
{
    if k < 0 || k >= s.len() {
        s.len() as int
    } else if !s[k].precedes(&x) {
        k
    } else {
        insert_position_from(s, x, k + 1)
    }
}

pub open spec fn insert_position<T: Ordered>(s: Seq<T>, x: T) -> int {
    insert_position_from(s, x, 0)
}

/// The stable sort of `s`: each element, taken from the back, is inserted
/// before the first element it does not follow.
pub open spec fn stable_sorted<T: Ordered>(s: Seq<T>) -> Seq<T>
    decreases s.len(),
{
    if s.len() == 0 {
        Seq::empty()
    } else {
        let rest = stable_sorted(s.drop_first());
        rest.insert(insert_position(rest, s[0]), s[0])
    }
}

/// No element precedes an element before it.
pub open spec fn is_sorted<T: Ordered>(s: Seq<T>) -> bool {
    forall|i: int, j: int| #![trigger s[i], s[j]] 0 <= i < j < s.len() ==> !s[j].precedes(&s[i])
}

proof fn lemma_insert_position_bounds<T: Ordered>(s: Seq<T>, x: T, k: int)
    requires
        0 <= k <= s.len(),
    ensures
        k <= insert_position_from(s, x, k) <= s.len(),
        forall|j: int| k <= j < insert_position_from(s, x, k) ==> (#[trigger] s[j]).precedes(&x),
        insert_position_from(s, x, k) < s.len() ==> !s[insert_position_from(s, x, k)].precedes(
            &x,
        ),
    decreases s.len() - k,
{
    if k < s.len() && s[k].precedes(&x) {
        lemma_insert_position_bounds(s, x, k + 1);
    }
}

pub proof fn lemma_stable_sorted_len<T: Ordered>(s: Seq<T>)
    ensures
        stable_sorted(s).len() == s.len(),
    decreases s.len(),
{
    if s.len() > 0 {
        lemma_stable_sorted_len(s.drop_first());
        let rest = stable_sorted(s.drop_first());
        lemma_insert_position_bounds(rest, s[0], 0);
    }
}

/// Stable sorting only reorders: it keeps every element as often as it occurs.
pub proof fn stable_sorted_is_permutation<T: Ordered>(s: Seq<T>)
    ensures
        stable_sorted(s).to_multiset() =~= s.to_multiset(),
    decreases s.len(),
{
    if s.len() > 0 {
        stable_sorted_is_permutation(s.drop_first());
        let rest = stable_sorted(s.drop_first());
        lemma_insert_position_bounds(rest, s[0], 0);
        let k = insert_position(rest, s[0]);
        let out = rest.insert(k, s[0]);
        assert(out.remove(k) =~= rest);
        assert(out[k] == s[0]);
        assert(out.remove(k).to_multiset() =~= out.to_multiset().remove(s[0]));
        assert(out.to_multiset().count(s[0]) > 0) by {
            assert(out.contains(s[0]));
        }
        assert(s =~= seq![s[0]] + s.drop_first());
        assert(s.drop_first() =~= s.remove(0));
        assert(s.remove(0).to_multiset() =~= s.to_multiset().remove(s[0]));
        assert(s.to_multiset().count(s[0]) > 0) by {
            assert(s.contains(s[0]));
        }
        assert(out.to_multiset() =~= out.to_multiset().remove(s[0]).insert(s[0]));
        assert(s.to_multiset() =~= s.to_multiset().remove(s[0]).insert(s[0]));
    }
}

/// The stable sort is sorted.
pub proof fn stable_sorted_is_sorted<T: Ordered>(s: Seq<T>)
    ensures
        is_sorted(stable_sorted(s)),
    decreases s.len(),
{
    if s.len() > 0 {
        stable_sorted_is_sorted(s.drop_first());
        let rest = stable_sorted(s.drop_first());
        let x = s[0];
        lemma_insert_position_bounds(rest, x, 0);
        let k = insert_position(rest, x);
        let out = rest.insert(k, x);
        assert forall|i: int, j: int| #![trigger out[i], out[j]] 0 <= i < j < out.len() implies !out[j].precedes(
            &out[i],
        ) by {
            if j < k {
                assert(out[i] == rest[i] && out[j] == rest[j]);
            } else if j == k {
                assert(out[i] == rest[i]);
                assert(rest[i].precedes(&x));
                T::precedes_asymmetric(&rest[i], &x);
            } else if i > k {
                assert(out[i] == rest[i - 1] && out[j] == rest[j - 1]);
            } else if i == k {
                assert(out[j] == rest[j - 1]);
                assert(!rest[k].precedes(&x));
                if rest[j - 1].precedes(&x) {
                    T::precedes_negatively_transitive(&rest[j - 1], &rest[k], &x);
                    if j - 1 > k {
                        assert(!rest[j - 1].precedes(&rest[k]));
                    }
                }
            } else {
                assert(out[i] == rest[i] && out[j] == rest[j - 1]);
            }
        }
    }
}

/// Sorts `v` stably by `Ordered::precedes`.
pub fn stable_sort<T: Ordered>(v: Vec<T>) -> (out: Vec<T>)
    ensures
        out@ == stable_sorted(v@),
{
    let ghost orig = v@;
    let mut v = v;
    let mut out: Vec<T> = Vec::new();
    assert(orig.skip(orig.len() as int) =~= Seq::<T>::empty());
    while v.len() > 0
        invariant
            v@ == orig.take(v@.len() as int),
            v@.len() <= orig.len(),
            out@ == stable_sorted(orig.skip(v@.len() as int)),
        decreases v.len(),
    {
        let ghost n = v@.len();
        let x = v.pop().unwrap();
        proof {
            assert(x == orig[n - 1]);
            assert(orig.skip(n - 1).drop_first() =~= orig.skip(n as int));
            assert(orig.skip(n - 1)[0] == x);
            assert(v@ =~= orig.take(n - 1));
            lemma_stable_sorted_len(orig.skip(n as int));
        }
        let mut k: usize = 0;
        while k < out.len() && out[k].precedes_exec(&x)
            invariant
                k <= out@.len(),
                insert_position(out@, x) == insert_position_from(out@, x, k as int),
            decreases out.len() - k,
        {
            k = k + 1;
        }
        out.insert(k, x);
    }
    assert(orig.skip(0) =~= orig);
    out
}

// ---------------------------------------------------------------------------
// Lexicographic order on character sequences
// ---------------------------------------------------------------------------

/// `str` ordering: lexicographic by character code.
pub open spec fn lex_lt(a: Seq<char>, b: Seq<char>) -> bool
    decreases a.len(),
{
    if a.len() == 0 {
        b.len() > 0
    } else if b.len() == 0 {
        false
    } else if a[0] != b[0] {
        a[0] < b[0]
    } else {
        lex_lt(a.drop_first(), b.drop_first())
    }
}

pub proof fn lemma_lex_irreflexive(a: Seq<char>)
    ensures
        !lex_lt(a, a),
    decreases a.len(),
{
    if a.len() > 0 {
        lemma_lex_irreflexive(a.drop_first());
    }
}

pub proof fn lemma_lex_transitive(a: Seq<char>, b: Seq<char>, c: Seq<char>)
    requires
        lex_lt(a, b),
        lex_lt(b, c),
    ensures
        lex_lt(a, c),
    decreases a.len(),
{
    if a.len() > 0 && b.len() > 0 && c.len() > 0 && a[0] == b[0] && b[0] == c[0] {
        lemma_lex_transitive(a.drop_first(), b.drop_first(), c.drop_first());
    }
}

pub proof fn lemma_lex_total(a: Seq<char>, b: Seq<char>)
    ensures
        lex_lt(a, b) || lex_lt(b, a) || a == b,
    decreases a.len(),
{
    if a.len() > 0 && b.len() > 0 && a[0] == b[0] {
        lemma_lex_total(a.drop_first(), b.drop_first());
        if a.drop_first() == b.drop_first() {
            assert(a =~= seq![a[0]] + a.drop_first());
            assert(b =~= seq![b[0]] + b.drop_first());
        }
    } else if a.len() == 0 && b.len() == 0 {
        assert(a =~= b);
    }
}

pub proof fn lemma_lex_asymmetric(a: Seq<char>, b: Seq<char>)
    requires
        lex_lt(a, b),
    ensures
        !lex_lt(b, a),
{
    if lex_lt(b, a) {
        lemma_lex_transitive(a, b, a);
        lemma_lex_irreflexive(a);
    }
}

/// `a < b` for strings, as `str::cmp` orders them.
pub fn lex_less(a: &[char], b: &[char]) -> (r: bool)
    ensures
        r == lex_lt(a@, b@),
{
    let mut i: usize = 0;
    assert(a@.skip(0) =~= a@ && b@.skip(0) =~= b@);
    while i < a.len() && i < b.len() && a[i] == b[i]
        invariant
            i <= a@.len(),
            i <= b@.len(),
            lex_lt(a@, b@) == lex_lt(a@.skip(i as int), b@.skip(i as int)),
        decreases a.len() - i,
    {
        assert(a@.skip(i as int).drop_first() =~= a@.skip(i + 1));
        assert(b@.skip(i as int).drop_first() =~= b@.skip(i + 1));
        i = i + 1;
    }
    if i == a.len() {
        i < b.len()
    } else if i == b.len() {
        false
    } else {
        a[i] < b[i]
    }
}

} // verus!
