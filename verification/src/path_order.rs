//! The order of `std::path::Path` values: component by component.
//!
//! A path's components are its root (`/`) or leading `.`, then each piece
//! between separators, where `..` is a parent-directory component that sorts
//! before every normal name. Components of the same kind compare by their
//! text; a path that is a proper prefix of another sorts first.
use crate::paths::{head_of, parts_of, path_head, path_parts};
use crate::sort::{lemma_lex_irreflexive, lemma_lex_total, lemma_lex_transitive, lex_less, lex_lt};
use crate::text::lemma_chars_deep_view;
use vstd::prelude::*;

verus! {

broadcast use vstd::string::group_string_axioms;

/// `3` for a parent-directory component, `4` for a normal one.
pub open spec fn part_kind(part: Seq<char>) -> int {
    if part == seq!['.', '.'] {
        3
    } else {
        4
    }
}

/// The components of a path as (kind, text): `1` for the root, `2` for a
/// leading `.`, then the kinds of [`part_kind`].
pub open spec fn components(p: Seq<char>) -> Seq<(int, Seq<char>)> {
    let h = path_head(p);
    let lead = if h == 1 {
        seq![(1int, Seq::<char>::empty())]
    } else if h == 2 {
        seq![(2int, Seq::<char>::empty())]
    } else {
        Seq::empty()
    };
    lead + path_parts(p).map_values(|x: Seq<char>| (part_kind(x), x))
}

pub open spec fn comp_lt(a: (int, Seq<char>), b: (int, Seq<char>)) -> bool {
    a.0 < b.0 || (a.0 == b.0 && lex_lt(a.1, b.1))
}

/// Lexicographic order of component sequences.
pub open spec fn comps_lt(a: Seq<(int, Seq<char>)>, b: Seq<(int, Seq<char>)>) -> bool
    decreases a.len(),
{
    if a.len() == 0 {
        b.len() > 0
    } else if b.len() == 0 {
        false
    } else if a[0] != b[0] {
        comp_lt(a[0], b[0])
    } else {
        comps_lt(a.drop_first(), b.drop_first())
    }
}

/// `a < b` for paths.
pub open spec fn path_lt(a: Seq<char>, b: Seq<char>) -> bool {
    comps_lt(components(a), components(b))
}

proof fn lemma_comp_total(a: (int, Seq<char>), b: (int, Seq<char>))
    ensures
        comp_lt(a, b) || comp_lt(b, a) || a == b,
{
    lemma_lex_total(a.1, b.1);
}

proof fn lemma_comp_irreflexive(a: (int, Seq<char>))
    ensures
        !comp_lt(a, a),
{
    lemma_lex_irreflexive(a.1);
}

proof fn lemma_comp_transitive(a: (int, Seq<char>), b: (int, Seq<char>), c: (int, Seq<char>))
    requires
        comp_lt(a, b),
        comp_lt(b, c),
    ensures
        comp_lt(a, c),
{
    if a.0 == b.0 && b.0 == c.0 {
        lemma_lex_transitive(a.1, b.1, c.1);
    }
}

pub proof fn lemma_comps_irreflexive(a: Seq<(int, Seq<char>)>)
    ensures
        !comps_lt(a, a),
    decreases a.len(),
{
    if a.len() > 0 {
        lemma_comps_irreflexive(a.drop_first());
    }
}

pub proof fn lemma_comps_transitive(
    a: Seq<(int, Seq<char>)>,
    b: Seq<(int, Seq<char>)>,
    c: Seq<(int, Seq<char>)>,
)
    requires
        comps_lt(a, b),
        comps_lt(b, c),
    ensures
        comps_lt(a, c),
    decreases a.len(),
{
    if a.len() > 0 && b.len() > 0 && c.len() > 0 {
        if a[0] == b[0] && b[0] == c[0] {
            lemma_comps_transitive(a.drop_first(), b.drop_first(), c.drop_first());
        } else if a[0] == b[0] {
        } else if b[0] == c[0] {
        } else {
            lemma_comp_transitive(a[0], b[0], c[0]);
            if a[0] == c[0] {
                lemma_comp_irreflexive(a[0]);
                lemma_comp_transitive(a[0], b[0], a[0]);
            }
        }
    }
}

pub proof fn lemma_comps_total(a: Seq<(int, Seq<char>)>, b: Seq<(int, Seq<char>)>)
    ensures
        comps_lt(a, b) || comps_lt(b, a) || a == b,
    decreases a.len(),
{
    if a.len() > 0 && b.len() > 0 {
        if a[0] == b[0] {
            lemma_comps_total(a.drop_first(), b.drop_first());
            if a.drop_first() == b.drop_first() {
                assert(a =~= seq![a[0]] + a.drop_first());
                assert(b =~= seq![b[0]] + b.drop_first());
            }
        } else {
            lemma_comp_total(a[0], b[0]);
        }
    } else if a.len() == 0 && b.len() == 0 {
        assert(a =~= b);
    }
}

pub proof fn lemma_comps_asymmetric(a: Seq<(int, Seq<char>)>, b: Seq<(int, Seq<char>)>)
    requires
        comps_lt(a, b),
    ensures
        !comps_lt(b, a),
{
    if comps_lt(b, a) {
        lemma_comps_transitive(a, b, a);
        lemma_comps_irreflexive(a);
    }
}

/// Path order is a strict weak order: asymmetric, and whenever `a < c`
/// every `b` lies above `a` or below `c`.
pub proof fn path_order_is_strict_weak(a: Seq<char>, b: Seq<char>, c: Seq<char>)
    ensures
        path_lt(a, b) ==> !path_lt(b, a),
        path_lt(a, c) ==> path_lt(a, b) || path_lt(b, c),
{
    let (x, y, z) = (components(a), components(b), components(c));
    if comps_lt(x, y) {
        lemma_comps_asymmetric(x, y);
    }
    if comps_lt(x, z) {
        lemma_comps_total(x, y);
        if comps_lt(y, x) {
            lemma_comps_transitive(y, x, z);
        }
    }
}

fn components_of(p: &str) -> (out: Vec<(u8, Vec<char>)>)
    ensures
        out@.map_values(|c: (u8, Vec<char>)| (c.0 as int, c.1@)) =~= components(p@),
{
    let pc = crate::text::chars_of(p);
    let h = head_of(pc.as_slice());
    let parts = parts_of(pc.as_slice());
    let mut out: Vec<(u8, Vec<char>)> = Vec::new();
    if h == 1 {
        out.push((1, Vec::new()));
    } else if h == 2 {
        out.push((2, Vec::new()));
    }
    let ghost lead = out@.map_values(|c: (u8, Vec<char>)| (c.0 as int, c.1@));
    for i in 0..parts.len()
        invariant
            parts.deep_view() =~= path_parts(p@),
            lead == (if path_head(p@) == 1 {
                seq![(1int, Seq::<char>::empty())]
            } else if path_head(p@) == 2 {
                seq![(2int, Seq::<char>::empty())]
            } else {
                Seq::<(int, Seq<char>)>::empty()
            }),
            out@.map_values(|c: (u8, Vec<char>)| (c.0 as int, c.1@)) =~= lead + path_parts(
                p@,
            ).take(i as int).map_values(|x: Seq<char>| (part_kind(x), x)),
    {
        let part = parts[i].clone();
        proof {
            lemma_chars_deep_view(parts[i as int]);
        }
        assert(parts.deep_view()[i as int] == part@);
        let kind: u8 = if part.len() == 2 && part[0] == '.' && part[1] == '.' {
            assert(part@ =~= seq!['.', '.']);
            3
        } else {
            4
        };
        assert(kind as int == part_kind(part@));
        let ghost before = out@;
        let ghost pv = part@;
        out.push((kind, part));
        assert(out@.map_values(|c: (u8, Vec<char>)| (c.0 as int, c.1@)) =~= before.map_values(
            |c: (u8, Vec<char>)| (c.0 as int, c.1@),
        ).push((kind as int, pv)));
        assert(path_parts(p@).take(i + 1) =~= path_parts(p@).take(i as int).push(
            path_parts(p@)[i as int],
        ));
    }
    assert(path_parts(p@).take(parts.len() as int) =~= path_parts(p@));
    out
}

/// `a < b` as `Path` orders them.
pub fn path_less(a: &str, b: &str) -> (r: bool)
    ensures
        r == path_lt(a@, b@),
{
    let x = components_of(a);
    let y = components_of(b);
    let ghost xs = x@.map_values(|c: (u8, Vec<char>)| (c.0 as int, c.1@));
    let ghost ys = y@.map_values(|c: (u8, Vec<char>)| (c.0 as int, c.1@));
    let mut i: usize = 0;
    assert(xs.skip(0) =~= xs && ys.skip(0) =~= ys);
    while i < x.len() && i < y.len()
        invariant
            i <= x@.len(),
            i <= y@.len(),
            xs == x@.map_values(|c: (u8, Vec<char>)| (c.0 as int, c.1@)),
            ys == y@.map_values(|c: (u8, Vec<char>)| (c.0 as int, c.1@)),
            path_lt(a@, b@) == comps_lt(xs.skip(i as int), ys.skip(i as int)),
        decreases x.len() - i,
    {
        let (kx, tx) = (x[i].0, &x[i].1);
        let (ky, ty) = (y[i].0, &y[i].1);
        assert(xs.skip(i as int)[0] == xs[i as int]);
        assert(ys.skip(i as int)[0] == ys[i as int]);
        if kx != ky {
            return kx < ky;
        }
        let lt = lex_less(tx.as_slice(), ty.as_slice());
        let gt = lex_less(ty.as_slice(), tx.as_slice());
        if lt || gt {
            proof {
                if lt {
                    lemma_lex_irreflexive(tx@);
                }
                if gt {
                    lemma_lex_irreflexive(ty@);
                }
            }
            return lt;
        }
        proof {
            lemma_lex_total(tx@, ty@);
        }
        assert(xs[i as int] == ys[i as int]);
        assert(xs.skip(i as int).drop_first() =~= xs.skip(i + 1));
        assert(ys.skip(i as int).drop_first() =~= ys.skip(i + 1));
        i = i + 1;
    }
    i == x.len() && i < y.len()
}

} // verus!
