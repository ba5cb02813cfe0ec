//! Unix-style path handling over plain strings.
//!
//! A path is kept as the text that `Path::display` would show. Its
//! components follow `std::path::Path::components` on Unix: an optional root,
//! an optional leading `.` for relative paths, then the non-empty pieces
//! between `/` separators other than `.`. Equality and `starts_with` compare
//! components, exactly as `Path` does.
use crate::text::{
    chars_eq, chars_of, lemma_chars_deep_view, push_char, push_chars, split_by,
    split_seq, Separator,
};
use vstd::prelude::*;

verus! {

broadcast use vstd::string::group_string_axioms;

/// How a path begins: `1` for a root `/`, `2` for a leading `.` of a relative
/// path, `0` otherwise.
pub open spec fn path_head(p: Seq<char>) -> int {
    if p.len() > 0 && p[0] == '/' {
        1
    } else if p.len() > 0 && p[0] == '.' && (p.len() == 1 || p[1] == '/') {
        2
    } else {
        0
    }
}

pub open spec fn is_dot(part: Seq<char>) -> bool {
    part.len() == 1 && part[0] == '.'
}

/// The normal components of a path (everything after its head).
pub open spec fn path_parts(p: Seq<char>) -> Seq<Seq<char>> {
    split_seq(p, Separator::Char('/')).filter(|part: Seq<char>| part.len() > 0 && !is_dot(part))
}

/// `Path` equality: the same components.
pub open spec fn path_eq_spec(a: Seq<char>, b: Seq<char>) -> bool {
    path_head(a) == path_head(b) && path_parts(a) == path_parts(b)
}

/// `Path::starts_with`: the components of `base` are a prefix of those of `p`.
pub open spec fn path_starts_with_spec(p: Seq<char>, base: Seq<char>) -> bool {
    path_head(p) == path_head(base) && path_parts(base).len() <= path_parts(p).len()
        && path_parts(p).take(path_parts(base).len() as int) == path_parts(base)
}

/// Whether a path is absolute.
pub open spec fn is_absolute_spec(p: Seq<char>) -> bool {
    path_head(p) == 1
}

pub fn head_of(p: &[char]) -> (h: u8)
    ensures
        h == path_head(p@),
{
    if p.len() > 0 && p[0] == '/' {
        1
    } else if p.len() > 0 && p[0] == '.' && (p.len() == 1 || p[1] == '/') {
        2
    } else {
        0
    }
}

/// The normal components of `p`.
pub fn parts_of(p: &[char]) -> (out: Vec<Vec<char>>)
    ensures
        out.deep_view() =~= path_parts(p@),
{
    let pieces = split_by(p, Separator::Char('/'));
    let ghost whole = pieces.deep_view();
    let ghost pred = |part: Seq<char>| part.len() > 0 && !is_dot(part);
    let mut out: Vec<Vec<char>> = Vec::new();
    let mut i: usize = 0;
    while i < pieces.len()
        invariant
            i <= pieces.len(),
            whole == pieces.deep_view(),
            pred == (|part: Seq<char>| part.len() > 0 && !is_dot(part)),
            out.deep_view() =~= whole.take(i as int).filter(pred),
        decreases pieces.len() - i,
    {
        let piece = &pieces[i];
        proof {
            lemma_chars_deep_view(*piece);
            assert(whole.take(i + 1) =~= whole.take(i as int).push(whole[i as int]));
            whole.take(i as int).lemma_filter_push(whole[i as int], pred);
        }
        let keep = piece.len() > 0 && !(piece.len() == 1 && piece[0] == '.');
        if keep {
            let ghost old_out = out.deep_view();
            let c = piece.clone();
            proof {
                lemma_chars_deep_view(c);
            }
            out.push(c);
            assert(out.deep_view() =~= old_out.push(whole[i as int]));
        }
        i = i + 1;
    }
    assert(whole.take(pieces.len() as int) =~= whole);
    out
}

fn parts_eq(a: &Vec<Vec<char>>, b: &Vec<Vec<char>>, n: usize) -> (r: bool)
    requires
        n <= a.len(),
        n <= b.len(),
    ensures
        r == (a.deep_view().take(n as int) == b.deep_view().take(n as int)),
{
    let mut i: usize = 0;
    while i < n
        invariant
            i <= n,
            n <= a.len(),
            n <= b.len(),
            forall|j: int| 0 <= j < i ==> a.deep_view()[j] == b.deep_view()[j],
        decreases n - i,
    {
        proof {
            lemma_chars_deep_view(a[i as int]);
            lemma_chars_deep_view(b[i as int]);
        }
        if !chars_eq(a[i].as_slice(), b[i].as_slice()) {
            assert(a.deep_view().take(n as int)[i as int] != b.deep_view().take(n as int)[i as int]);
            return false;
        }
        i = i + 1;
    }
    assert(a.deep_view().take(n as int) =~= b.deep_view().take(n as int));
    true
}

/// `Path::eq`.
pub fn path_eq(a: &str, b: &str) -> (r: bool)
    ensures
        r == path_eq_spec(a@, b@),
{
    let ac = chars_of(a);
    let bc = chars_of(b);
    if head_of(ac.as_slice()) != head_of(bc.as_slice()) {
        return false;
    }
    let ap = parts_of(ac.as_slice());
    let bp = parts_of(bc.as_slice());
    if ap.len() != bp.len() {
        return false;
    }
    let r = parts_eq(&ap, &bp, ap.len());
    assert(ap.deep_view().take(ap.len() as int) =~= ap.deep_view());
    assert(bp.deep_view().take(bp.len() as int) =~= bp.deep_view());
    r
}

/// `Path::starts_with`.
pub fn path_starts_with(p: &str, base: &str) -> (r: bool)
    ensures
        r == path_starts_with_spec(p@, base@),
{
    let pc = chars_of(p);
    let bc = chars_of(base);
    if head_of(pc.as_slice()) != head_of(bc.as_slice()) {
        return false;
    }
    let pp = parts_of(pc.as_slice());
    let bp = parts_of(bc.as_slice());
    if bp.len() > pp.len() {
        return false;
    }
    let r = parts_eq(&pp, &bp, bp.len());
    assert(bp.deep_view().take(bp.len() as int) =~= bp.deep_view());
    r
}

/// `Path::is_absolute` on Unix.
pub fn is_absolute(p: &str) -> (r: bool)
    ensures
        r == is_absolute_spec(p@),
{
    let pc = chars_of(p);
    head_of(pc.as_slice()) == 1
}

/// Whether some component of `p` is exactly `name`, as
/// `path.components().any(|c| c.as_os_str() == name)` for a plain name.
pub open spec fn has_component_spec(p: Seq<char>, name: Seq<char>) -> bool {
    path_parts(p).contains(name)
}

pub fn has_component(p: &str, name: &str) -> (r: bool)
    requires
        name@.len() > 0,
        !is_dot(name@),
    ensures
        r == has_component_spec(p@, name@),
{
    let pc = chars_of(p);
    let parts = parts_of(pc.as_slice());
    let nc = chars_of(name);
    let mut i: usize = 0;
    while i < parts.len()
        invariant
            i <= parts.len(),
            nc@ == name@,
            parts.deep_view() =~= path_parts(p@),
            forall|j: int| 0 <= j < i ==> parts.deep_view()[j] != name@,
        decreases parts.len() - i,
    {
        proof {
            lemma_chars_deep_view(parts[i as int]);
        }
        if chars_eq(parts[i].as_slice(), nc.as_slice()) {
            assert(parts.deep_view()[i as int] == name@);
            return true;
        }
        i = i + 1;
    }
    false
}

/// `PathBuf::join` on Unix: an absolute `rel` replaces `base`; otherwise a
/// separator is inserted unless `base` is empty or already ends with one.
pub open spec fn path_join_spec(base: Seq<char>, rel: Seq<char>) -> Seq<char> {
    if rel.len() > 0 && rel[0] == '/' {
        rel
    } else if base.len() == 0 || base.last() == '/' {
        base + rel
    } else {
        base + seq!['/'] + rel
    }
}

pub fn path_join(base: &str, rel: &str) -> (out: String)
    ensures
        out@ == path_join_spec(base@, rel@),
{
    let bc = chars_of(base);
    let rc = chars_of(rel);
    if rc.len() > 0 && rc[0] == '/' {
        return rel.to_string();
    }
    let mut out = base.to_string();
    if !(bc.len() == 0 || bc[bc.len() - 1] == '/') {
        push_char(&mut out, '/');
    }
    push_chars(&mut out, &rc);
    out
}

/// The last normal component of a path, as `Path::file_name` (which has
/// none for a root or a path ending in `..`).
pub open spec fn file_name_spec(p: Seq<char>) -> Option<Seq<char>> {
    let parts = path_parts(p);
    if parts.len() > 0 && parts.last() != seq!['.', '.'] {
        Some(parts.last())
    } else {
        None
    }
}

pub fn file_name(p: &str) -> (r: Option<Vec<char>>)
    ensures
        r.deep_view() == file_name_spec(p@),
{
    let pc = chars_of(p);
    let parts = parts_of(pc.as_slice());
    let n = parts.len();
    if n == 0 {
        return None;
    }
    proof {
        lemma_chars_deep_view(parts[n - 1]);
    }
    let last = parts[n - 1].clone();
    assert(parts.deep_view().last() == last@);
    if last.len() == 2 && last[0] == '.' && last[1] == '.' {
        assert(last@ =~= seq!['.', '.']);
        return None;
    }
    assert(last@ != seq!['.', '.']);
    proof {
        lemma_chars_deep_view(last);
    }
    Some(last)
}

/// The components of a path after dropping its last one, as
/// `Path::parent` for a path with at least one normal component.
pub open spec fn parent_parts(p: Seq<char>) -> Seq<Seq<char>> {
    path_parts(p).drop_last()
}

/// Whether `p` sits directly below `dir`: `p.parent() == Some(dir)`.
pub open spec fn is_child_of_spec(p: Seq<char>, dir: Seq<char>) -> bool {
    path_parts(p).len() > 0 && path_head(p) == path_head(dir) && parent_parts(p) == path_parts(dir)
}

pub fn is_child_of(p: &str, dir: &str) -> (r: bool)
    ensures
        r == is_child_of_spec(p@, dir@),
{
    let pc = chars_of(p);
    let dc = chars_of(dir);
    if head_of(pc.as_slice()) != head_of(dc.as_slice()) {
        return false;
    }
    let pp = parts_of(pc.as_slice());
    let dp = parts_of(dc.as_slice());
    if pp.len() == 0 || pp.len() - 1 != dp.len() {
        return false;
    }
    let r = parts_eq(&pp, &dp, dp.len());
    assert(dp.deep_view().take(dp.len() as int) =~= dp.deep_view());
    assert(pp.deep_view().take(dp.len() as int) =~= pp.deep_view().drop_last());
    r
}

/// The extension of a path's file name, as `Path::extension`: the text
/// after the last `.`, unless there is none or the name starts with it.
pub open spec fn extension_spec(p: Seq<char>) -> Option<Seq<char>> {
    match file_name_spec(p) {
        None => None,
        Some(n) => match crate::global::last_pos(n, '.') {
            None => None,
            Some(i) => if i == 0 {
                None
            } else {
                Some(n.skip(i + 1))
            },
        },
    }
}

pub fn extension(p: &str) -> (r: Option<Vec<char>>)
    ensures
        r.deep_view() == extension_spec(p@),
{
    let n = match file_name(p) {
        Some(n) => n,
        None => {
            return None;
        },
    };
    proof {
        lemma_chars_deep_view(n);
    }
    match crate::text::rfind_char(n.as_slice(), '.') {
        None => None,
        Some(i) => {
            assert(i < n.len());
            proof {
                crate::global::lemma_last_pos(n@, '.', i as int);
            }
            if i == 0 {
                None
            } else {
                let e = crate::text::slice_chars(n.as_slice(), i + 1, n.len());
                assert(e@ =~= n@.skip(i + 1));
                proof {
                    lemma_chars_deep_view(e);
                }
                Some(e)
            }
        },
    }
}

} // verus!
