//! The delete allowlist: exact directories the user approved for Explorer
//! cleanup.
//!
//! An allowlisted path is still only an Explorer suggestion and still needs
//! an explicit confirmation before it is moved to the Trash. The list is kept
//! as a set in `Path` order: every path at most once, in increasing order.
//! Reading and writing the file is left to the caller.
use crate::path_order::{path_less, path_lt, path_order_is_strict_weak};
use crate::paths::{is_absolute, is_absolute_spec};
use crate::protection::{protected_in, ProtectedRoots};
use crate::scanner::is_protected_path;
use crate::text::push_str;
use vstd::prelude::*;

verus! {

broadcast use vstd::string::group_string_axioms;

/// Two paths that `Path` considers equal.
pub open spec fn path_same(a: Seq<char>, b: Seq<char>) -> bool {
    !path_lt(a, b) && !path_lt(b, a)
}

/// Strictly increasing in `Path` order, so no path occurs twice.
pub open spec fn allowlist_wf(s: Seq<Seq<char>>) -> bool {
    forall|i: int, j: int| 0 <= i < j < s.len() ==> path_lt(#[trigger] s[i], #[trigger] s[j])
}

/// Whether a path equal to `p` is on the list.
pub open spec fn listed(s: Seq<Seq<char>>, p: Seq<char>) -> bool {
    exists|i: int| 0 <= i < s.len() && path_same(#[trigger] s[i], p)
}

/// `k` separates the entries below `p` from the others.
pub open spec fn splits_at(s: Seq<Seq<char>>, p: Seq<char>, k: int) -> bool {
    &&& 0 <= k <= s.len()
    &&& forall|i: int| 0 <= i < k ==> path_lt(#[trigger] s[i], p)
    &&& forall|i: int| k <= i < s.len() ==> !path_lt(#[trigger] s[i], p)
}

/// Where `p` belongs in the list.
pub open spec fn split_point(s: Seq<Seq<char>>, p: Seq<char>) -> int {
    choose|k: int| splits_at(s, p, k)
}

/// The list after toggling `p`: an equal entry is removed, otherwise `p` is
/// inserted in order.
pub open spec fn toggled_list(s: Seq<Seq<char>>, p: Seq<char>) -> Seq<Seq<char>> {
    let k = split_point(s, p);
    if k < s.len() && !path_lt(p, s[k]) {
        s.remove(k)
    } else {
        s.insert(k, p)
    }
}

/// The list with `p` added unless an equal entry is already there.
pub open spec fn with_entry(s: Seq<Seq<char>>, p: Seq<char>) -> Seq<Seq<char>> {
    let k = split_point(s, p);
    if k < s.len() && !path_lt(p, s[k]) {
        s
    } else {
        s.insert(k, p)
    }
}

pub open spec fn strings_view(v: Seq<String>) -> Seq<Seq<char>> {
    v.map_values(|s: String| s@)
}

proof fn lemma_lt_transitive(a: Seq<char>, b: Seq<char>, c: Seq<char>)
    requires
        path_lt(a, b),
        path_lt(b, c),
    ensures
        path_lt(a, c),
{
    path_order_is_strict_weak(a, c, b);
    path_order_is_strict_weak(b, c, c);
}

proof fn lemma_lt_irreflexive(a: Seq<char>)
    ensures
        !path_lt(a, a),
{
    path_order_is_strict_weak(a, a, a);
}

/// In an ordered list the split point is unique.
proof fn lemma_split_unique(s: Seq<Seq<char>>, p: Seq<char>, k: int)
    requires
        splits_at(s, p, k),
    ensures
        split_point(s, p) == k,
{
    let j = split_point(s, p);
    assert(splits_at(s, p, j));
    if j < k {
        assert(path_lt(s[j], p));
    } else if k < j {
        assert(path_lt(s[k], p));
    }
}

/// On an ordered list, an equal entry can only sit at the split point.
proof fn lemma_listed_at_split(s: Seq<Seq<char>>, p: Seq<char>, k: int)
    requires
        allowlist_wf(s),
        splits_at(s, p, k),
    ensures
        listed(s, p) <==> (k < s.len() && !path_lt(p, s[k])),
{
    if listed(s, p) {
        let i = choose|i: int| 0 <= i < s.len() && path_same(#[trigger] s[i], p);
        if i < k {
            assert(path_lt(s[i], p));
        } else if i > k {
            assert(path_lt(s[k], s[i]));
            if path_lt(p, s[k]) {
                lemma_lt_transitive(p, s[k], s[i]);
            }
        }
    }
    if k < s.len() && !path_lt(p, s[k]) {
        assert(path_same(s[k], p));
    }
}

proof fn lemma_insert_keeps_order(s: Seq<Seq<char>>, p: Seq<char>, k: int)
    requires
        allowlist_wf(s),
        splits_at(s, p, k),
        !(k < s.len() && !path_lt(p, s[k])),
    ensures
        allowlist_wf(s.insert(k, p)),
        splits_at(s.insert(k, p), p, k),
{
    let t = s.insert(k, p);
    lemma_lt_irreflexive(p);
    assert forall|i: int, j: int| 0 <= i < j < t.len() implies path_lt(#[trigger] t[i], #[trigger] t[j]) by {
        if j < k {
        } else if j == k {
            assert(path_lt(s[i], p));
        } else {
            assert(t[j] == s[j - 1]);
            assert(path_lt(p, s[k]));
            if j - 1 > k {
                assert(path_lt(s[k], s[j - 1]));
                lemma_lt_transitive(p, s[k], s[j - 1]);
            }
            if i < k {
                assert(t[i] == s[i]);
                assert(path_lt(s[i], p));
                lemma_lt_transitive(s[i], p, s[j - 1]);
            } else if i > k {
                assert(t[i] == s[i - 1]);
            }
        }
    }
    assert forall|i: int| k <= i < t.len() implies !path_lt(#[trigger] t[i], p) by {
        if i > k {
            assert(t[i] == s[i - 1]);
        }
    }
}

/// Finds where `p` belongs in an ordered list.
fn find_split(paths: &Vec<String>, p: &str) -> (k: usize)
    requires
        allowlist_wf(strings_view(paths@)),
    ensures
        splits_at(strings_view(paths@), p@, k as int),
        split_point(strings_view(paths@), p@) == k,
{
    let ghost s = strings_view(paths@);
    let mut k: usize = 0;
    while k < paths.len()
        invariant
            s == strings_view(paths@),
            allowlist_wf(s),
            0 <= k <= paths@.len(),
            forall|i: int| 0 <= i < k ==> path_lt(#[trigger] s[i], p@),
        ensures
            0 <= k <= paths@.len(),
            forall|i: int| 0 <= i < k ==> path_lt(#[trigger] s[i], p@),
            k == paths@.len() || !path_lt(s[k as int], p@),
        decreases paths@.len() - k,
    {
        if !path_less(paths[k].as_str(), p) {
            break;
        }
        k = k + 1;
    }
    proof {
        assert forall|i: int| k <= i < s.len() implies !path_lt(#[trigger] s[i], p@) by {
            if i > k && path_lt(s[i], p@) {
                lemma_lt_transitive(s[k as int], s[i], p@);
            }
        }
        lemma_split_unique(s, p@, k as int);
    }
    k
}

/// Whether a path equal to `p` is on the allowlist.
pub fn is_allowlisted(paths: &Vec<String>, p: &str) -> (r: bool)
    requires
        allowlist_wf(strings_view(paths@)),
    ensures
        r == listed(strings_view(paths@), p@),
{
    let k = find_split(paths, p);
    proof {
        lemma_listed_at_split(strings_view(paths@), p@, k as int);
    }
    k < paths.len() && !path_less(p, paths[k].as_str())
}

/// Adds `p` unless an equal path is listed; the result says whether it was
/// added.
pub fn add_entry(paths: &mut Vec<String>, p: &str) -> (added: bool)
    requires
        allowlist_wf(strings_view(old(paths)@)),
    ensures
        allowlist_wf(strings_view(final(paths)@)),
        added == !listed(strings_view(old(paths)@), p@),
        strings_view(final(paths)@) == with_entry(strings_view(old(paths)@), p@),
{
    let ghost s = strings_view(paths@);
    let k = find_split(paths, p);
    proof {
        lemma_listed_at_split(s, p@, k as int);
    }
    if k < paths.len() && !path_less(p, paths[k].as_str()) {
        return false;
    }
    proof {
        lemma_insert_keeps_order(s, p@, k as int);
    }
    paths.insert(k, p.to_string());
    assert(strings_view(paths@) =~= s.insert(k as int, p@));
    true
}

/// Toggles `p`: an equal listed path is removed (`false`), otherwise `p` is
/// inserted in order (`true`).
pub fn toggle_entry(paths: &mut Vec<String>, p: &str) -> (added: bool)
    requires
        allowlist_wf(strings_view(old(paths)@)),
    ensures
        allowlist_wf(strings_view(final(paths)@)),
        added == !listed(strings_view(old(paths)@), p@),
        strings_view(final(paths)@) == toggled_list(strings_view(old(paths)@), p@),
{
    let ghost s = strings_view(paths@);
    let k = find_split(paths, p);
    proof {
        lemma_listed_at_split(s, p@, k as int);
    }
    if k < paths.len() && !path_less(p, paths[k].as_str()) {
        paths.remove(k);
        assert(strings_view(paths@) =~= s.remove(k as int));
        assert forall|i: int, j: int| 0 <= i < j < s.len() - 1 implies path_lt(
            #[trigger] s.remove(k as int)[i],
            #[trigger] s.remove(k as int)[j],
        ) by {
            let (a, b) = (if i < k { i } else { i + 1 }, if j < k { j } else { j + 1 });
            assert(s.remove(k as int)[i] == s[a]);
            assert(s.remove(k as int)[j] == s[b]);
        }
        return false;
    }
    proof {
        lemma_insert_keeps_order(s, p@, k as int);
    }
    paths.insert(k, p.to_string());
    assert(strings_view(paths@) =~= s.insert(k as int, p@));
    true
}

/// The allowlist read from the file's `entries`: each path once (the first
/// of equal ones), in `Path` order.
pub fn load_delete_allowlist(entries: Vec<String>) -> (paths: Vec<String>)
    ensures
        allowlist_wf(strings_view(paths@)),
        forall|q: Seq<char>| #![trigger listed(strings_view(paths@), q)]
            listed(strings_view(paths@), q) <==> listed(strings_view(entries@), q),
{
    let mut paths: Vec<String> = Vec::new();
    for i in 0..entries.len()
        invariant
            allowlist_wf(strings_view(paths@)),
            forall|q: Seq<char>| #![trigger listed(strings_view(paths@), q)]
                listed(strings_view(paths@), q) <==> listed(strings_view(entries@).take(i as int), q),
    {
        let ghost before = strings_view(paths@);
        add_entry(&mut paths, entries[i].as_str());
        proof {
            let e = entries@[i as int]@;
            let prev = strings_view(entries@).take(i as int);
            let next = strings_view(entries@).take(i + 1);
            assert(next =~= prev.push(e));
            assert forall|q: Seq<char>| #![trigger listed(strings_view(paths@), q)]
                listed(strings_view(paths@), q) <==> listed(next, q) by {
                lemma_listed_with_entry(before, e, q);
                if listed(next, q) {
                    let j = choose|j: int| 0 <= j < next.len() && path_same(#[trigger] next[j], q);
                    if j < prev.len() {
                        assert(prev[j] == next[j]);
                    }
                }
                if listed(prev, q) {
                    let j = choose|j: int| 0 <= j < prev.len() && path_same(#[trigger] prev[j], q);
                    assert(next[j] == prev[j]);
                }
                if path_same(e, q) {
                    assert(next[i as int] == e);
                }
            }
        }
    }
    assert(strings_view(entries@).take(entries@.len() as int) =~= strings_view(entries@));
    paths
}

proof fn lemma_same_transitive(a: Seq<char>, b: Seq<char>, c: Seq<char>)
    requires
        path_same(a, b),
        path_same(b, c),
    ensures
        path_same(a, c),
{
    path_order_is_strict_weak(a, b, c);
    path_order_is_strict_weak(c, b, a);
}

/// Adding `e` lists exactly what was listed before and what equals `e`.
proof fn lemma_listed_with_entry(s: Seq<Seq<char>>, e: Seq<char>, q: Seq<char>)
    requires
        allowlist_wf(s),
    ensures
        listed(with_entry(s, e), q) <==> (listed(s, q) || path_same(e, q)),
{
    let k = split_point(s, e);
    lemma_split_exists(s, e);
    lemma_listed_at_split(s, e, k);
    if k < s.len() && !path_lt(e, s[k]) {
        if path_same(e, q) {
            lemma_same_transitive(s[k], e, q);
        }
    } else {
        let t = s.insert(k, e);
        if listed(t, q) {
            let j = choose|j: int| 0 <= j < t.len() && path_same(#[trigger] t[j], q);
            if j < k {
                assert(t[j] == s[j]);
            } else if j > k {
                assert(t[j] == s[j - 1]);
            } else {
                lemma_same_symmetric(e, q);
            }
        }
        if listed(s, q) {
            let j = choose|j: int| 0 <= j < s.len() && path_same(#[trigger] s[j], q);
            if j < k {
                assert(t[j] == s[j]);
            } else {
                assert(t[j + 1] == s[j]);
            }
        }
        if path_same(e, q) {
            assert(t[k] == e);
        }
    }
}

proof fn lemma_same_symmetric(a: Seq<char>, b: Seq<char>)
    ensures
        path_same(a, b) <==> path_same(b, a),
{
}

/// Every list has a split point for every path.
proof fn lemma_split_exists(s: Seq<Seq<char>>, p: Seq<char>)
    requires
        allowlist_wf(s),
    ensures
        splits_at(s, p, split_point(s, p)),
    decreases s.len(),
{
    if s.len() == 0 {
        assert(splits_at(s, p, 0));
    } else {
        let t = s.drop_last();
        assert(allowlist_wf(t)) by {
            assert forall|i: int, j: int| 0 <= i < j < t.len() implies path_lt(#[trigger] t[i], #[trigger] t[j]) by {
                assert(t[i] == s[i] && t[j] == s[j]);
            }
        }
        lemma_split_exists(t, p);
        let k = split_point(t, p);
        if k == t.len() && path_lt(s.last(), p) {
            assert forall|i: int| 0 <= i < s.len() implies path_lt(#[trigger] s[i], p) by {
                if i < t.len() {
                    assert(s[i] == t[i]);
                }
            }
            assert(splits_at(s, p, s.len() as int));
        } else if k == t.len() {
            assert forall|i: int| 0 <= i < k implies path_lt(#[trigger] s[i], p) by {
                assert(s[i] == t[i]);
            }
            assert(splits_at(s, p, k));
        } else {
            assert(!path_lt(t[k], p));
            assert forall|i: int| k <= i < s.len() implies !path_lt(#[trigger] s[i], p) by {
                if i == s.len() - 1 && i > k && path_lt(s[i], p) {
                    lemma_lt_transitive(s[k], s[i], p);
                } else if i < s.len() - 1 {
                    assert(s[i] == t[i]);
                }
            }
            assert forall|i: int| 0 <= i < k implies path_lt(#[trigger] s[i], p) by {
                assert(s[i] == t[i]);
            }
            assert(splits_at(s, p, k));
        }
    }
}

/// Why `path` may not go on the allowlist, if it may not: it must be a real
/// directory, absolute, outside the platform's protected trees (`protected`),
/// and not the home directory itself.
pub open spec fn allowlist_refusal_spec(path: Seq<char>, is_dir: bool, home: Option<Seq<char>>, protected: ProtectedRoots) -> Option<Seq<char>> {
    if !is_dir {
        Some("only real directories can be added to the delete allowlist"@)
    } else if !is_absolute_spec(path) {
        Some("delete allowlist path must be absolute: "@ + path)
    } else if protected_in(protected, path) {
        Some("protected system paths cannot be added to the delete allowlist"@)
    } else if match home {
        Some(h) => path_same(path, h),
        None => false,
    } {
        Some("the home directory cannot be added to the delete allowlist"@)
    } else {
        None
    }
}

/// Toggles `path` on the allowlist `paths`, unless it is refused (see
/// [`allowlist_refusal_spec`]); `is_dir` says whether the path is a real
/// directory (not a link to one), `home` is the home directory and
/// `protected` the platform's table of protected trees. The
/// result is `Ok(true)` when the path is now listed, `Ok(false)` when it was
/// removed; a refusal leaves the list unchanged.
pub fn toggle_delete_allowlist(paths: &mut Vec<String>, path: &str, is_dir: bool, home: Option<&str>, protected: &ProtectedRoots) -> (r: Result<bool, String>)
    requires
        allowlist_wf(strings_view(old(paths)@)),
    ensures
        allowlist_wf(strings_view(final(paths)@)),
        match allowlist_refusal_spec(path@, is_dir, crate::scanner::opt_str_view(home), *protected) {
            Some(m) => r matches Err(e) && e@ == m && final(paths)@ == old(paths)@,
            None => r == Ok::<bool, String>(!listed(strings_view(old(paths)@), path@)) && strings_view(final(paths)@)
                == toggled_list(strings_view(old(paths)@), path@),
        },
{
    if !is_dir {
        return Err("only real directories can be added to the delete allowlist".to_string());
    }
    if !is_absolute(path) {
        let mut m = "delete allowlist path must be absolute: ".to_string();
        push_str(&mut m, path);
        return Err(m);
    }
    if is_protected_path(path, protected) {
        return Err("protected system paths cannot be added to the delete allowlist".to_string());
    }
    match home {
        Some(h) => {
            if !path_less(path, h) && !path_less(h, path) {
                return Err("the home directory cannot be added to the delete allowlist".to_string());
            }
        },
        None => {},
    }
    let added = toggle_entry(paths, path);
    Ok(added)
}

/// Toggling a path that is not listed and then toggling it again gives back
/// the list it started from.
pub proof fn toggling_an_absent_path_twice_restores(s: Seq<Seq<char>>, p: Seq<char>)
    requires
        allowlist_wf(s),
        !listed(s, p),
    ensures
        toggled_list(toggled_list(s, p), p) == s,
{
    lemma_split_exists(s, p);
    let k = split_point(s, p);
    lemma_listed_at_split(s, p, k);
    lemma_insert_keeps_order(s, p, k);
    let t = s.insert(k, p);
    assert(toggled_list(s, p) == t);
    lemma_split_unique(t, p, k);
    lemma_lt_irreflexive(p);
    assert(t[k] == p);
    assert(t.remove(k) =~= s);
}

/// Toggling a listed path and then toggling it again gives back the list it
/// started from, with the matching entry now spelled as `p`; when `p` itself
/// was on the list, the list is exactly the one it started from.
pub proof fn toggling_a_listed_path_twice_restores(s: Seq<Seq<char>>, p: Seq<char>)
    requires
        allowlist_wf(s),
        listed(s, p),
    ensures
        toggled_list(toggled_list(s, p), p) == s.update(split_point(s, p), p),
        s.contains(p) ==> toggled_list(toggled_list(s, p), p) == s,
{
    lemma_split_exists(s, p);
    let k = split_point(s, p);
    lemma_listed_at_split(s, p, k);
    let t = s.remove(k);
    assert(toggled_list(s, p) == t);
    assert(allowlist_wf(t)) by {
        assert forall|i: int, j: int| 0 <= i < j < t.len() implies path_lt(#[trigger] t[i], #[trigger] t[j]) by {
            let (a, b) = (if i < k { i } else { i + 1 }, if j < k { j } else { j + 1 });
            assert(t[i] == s[a]);
            assert(t[j] == s[b]);
        }
    }
    assert(splits_at(t, p, k)) by {
        assert forall|i: int| 0 <= i < k implies path_lt(#[trigger] t[i], p) by {
            assert(t[i] == s[i]);
        }
        assert forall|i: int| k <= i < t.len() implies !path_lt(#[trigger] t[i], p) by {
            assert(t[i] == s[i + 1]);
        }
    }
    lemma_split_unique(t, p, k);
    lemma_listed_at_split(t, p, k);
    if listed(t, p) {
        let i = choose|i: int| 0 <= i < t.len() && path_same(#[trigger] t[i], p);
        let a = if i < k { i } else { i + 1 };
        assert(t[i] == s[a]);
        assert(path_same(s[a], p));
        assert(path_same(s[k], p));
        lemma_same_transitive(s[a], p, s[k]);
        if a < k {
            assert(path_lt(s[a], s[k]));
        } else {
            assert(path_lt(s[k], s[a]));
        }
    }
    assert(toggled_list(t, p) == t.insert(k, p));
    assert(t.insert(k, p) =~= s.update(k, p));
    if s.contains(p) {
        let j = choose|j: int| 0 <= j < s.len() && s[j] == p;
        lemma_lt_irreflexive(p);
        if j < k {
            assert(path_lt(s[j], p));
        } else if j > k {
            assert(path_lt(s[k], s[j]));
            assert(path_same(s[k], p));
        }
        assert(s.update(k, p) =~= s);
    }
}

/// A toggle changes exactly the path it toggles: afterwards a path `q` is
/// listed when it was listed before or equals `p`, but not both (the
/// symmetric difference with `{p}`), and the list stays ordered.
pub proof fn toggling_changes_only_that_path(s: Seq<Seq<char>>, p: Seq<char>, q: Seq<char>)
    requires
        allowlist_wf(s),
    ensures
        allowlist_wf(toggled_list(s, p)),
        listed(toggled_list(s, p), q) <==> (listed(s, q) != path_same(p, q)),
{
    lemma_split_exists(s, p);
    let k = split_point(s, p);
    lemma_listed_at_split(s, p, k);
    if k < s.len() && !path_lt(p, s[k]) {
        let t = s.remove(k);
        assert(toggled_list(s, p) == t);
        assert(path_same(s[k], p));
        assert(allowlist_wf(t)) by {
            assert forall|i: int, j: int| 0 <= i < j < t.len() implies path_lt(#[trigger] t[i], #[trigger] t[j]) by {
                let (a, b) = (if i < k { i } else { i + 1 }, if j < k { j } else { j + 1 });
                assert(t[i] == s[a]);
                assert(t[j] == s[b]);
            }
        }
        if listed(t, q) {
            let i = choose|i: int| 0 <= i < t.len() && path_same(#[trigger] t[i], q);
            let a = if i < k { i } else { i + 1 };
            assert(t[i] == s[a]);
            assert(listed(s, q));
            if path_same(p, q) {
                lemma_same_symmetric(p, q);
                lemma_same_symmetric(s[k], p);
                lemma_same_transitive(s[a], q, p);
                lemma_same_transitive(s[a], p, s[k]);
                if a < k {
                    assert(path_lt(s[a], s[k]));
                } else {
                    assert(path_lt(s[k], s[a]));
                }
            }
        }
        if listed(s, q) && !path_same(p, q) {
            let i = choose|i: int| 0 <= i < s.len() && path_same(#[trigger] s[i], q);
            if i == k {
                lemma_same_symmetric(s[k], p);
                lemma_same_transitive(p, s[k], q);
            } else if i < k {
                assert(t[i] == s[i]);
            } else {
                assert(t[i - 1] == s[i]);
            }
        }
        if path_same(p, q) {
            lemma_same_symmetric(s[k], p);
            lemma_same_transitive(s[k], p, q);
            assert(listed(s, q));
        }
    } else {
        lemma_insert_keeps_order(s, p, k);
        assert(toggled_list(s, p) == with_entry(s, p));
        lemma_listed_with_entry(s, p, q);
        if listed(s, q) && path_same(p, q) {
            let i = choose|i: int| 0 <= i < s.len() && path_same(#[trigger] s[i], q);
            lemma_same_symmetric(p, q);
            lemma_same_transitive(s[i], q, p);
            assert(listed(s, p));
        }
    }
}

} // verus!
