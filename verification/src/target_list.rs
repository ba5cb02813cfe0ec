//! The target list of the review screen as styled text: one item per row,
//! wrapped to the list's width, and the special Trash and read-only items.
use crate::footer::{
    empty_line, line_view, lines_view, one, push_line, push_span, raw, raw_span, span, span_view, styled,
    styled_span, Color, Span,
};
use crate::cli::{risk_name, risk_text};
use crate::model::RiskLevel;
use crate::report::ReadOnlyScan;
use crate::size_format::{decimal_size, format_size_decimal};
use crate::text::{chars_of, concat2, push_str, slice_chars, string_of, words, words_seq};
use crate::tui::{Review, TargetRow};
use vstd::prelude::*;

verus! {

broadcast use vstd::string::group_string_axioms;

// ---------------------------------------------------------------------------
// Wrapping
// ---------------------------------------------------------------------------

/// A word longer than `w` cut into pieces of `w` characters, and what
/// remains.
pub open spec fn chunked(word: Seq<char>, w: nat) -> (Seq<Seq<char>>, Seq<char>)
    decreases word.len(),
{
    if w == 0 || word.len() < w {
        (Seq::empty(), word)
    } else {
        let (cs, r) = chunked(word.skip(w as int), w);
        (seq![word.take(w as int)] + cs, r)
    }
}

/// The finished lines, with the current line added when it is not empty.
pub open spec fn flush(lines: Seq<Seq<char>>, cur: Seq<char>) -> Seq<Seq<char>> {
    if cur.len() > 0 {
        lines.push(cur)
    } else {
        lines
    }
}

/// Places one word: on the current line when it fits there (after a space),
/// else on a new line; a word longer than a line is cut into full lines.
pub open spec fn wrap_step(lines: Seq<Seq<char>>, cur: Seq<char>, word: Seq<char>, w: nat) -> (Seq<Seq<char>>, Seq<char>) {
    if word.len() <= w {
        let gap: nat = if cur.len() > 0 {
            1
        } else {
            0
        };
        if cur.len() + gap + word.len() <= w {
            (lines, if cur.len() > 0 {
                cur + " "@ + word
            } else {
                word
            })
        } else {
            (flush(lines, cur), word)
        }
    } else {
        let (cs, r) = chunked(word, w);
        (flush(lines, cur) + cs, r)
    }
}

pub open spec fn wrap_words(words: Seq<Seq<char>>, w: nat) -> (Seq<Seq<char>>, Seq<char>)
    decreases words.len(),
{
    if words.len() == 0 {
        (Seq::empty(), Seq::empty())
    } else {
        let (l, c) = wrap_words(words.drop_last(), w);
        wrap_step(l, c, words.last(), w)
    }
}

/// The width actually used: at least one character.
pub open spec fn usable_width(width: usize) -> nat {
    if width >= 1 {
        width as nat
    } else {
        1
    }
}

/// `text` broken into lines of at most `width` characters at whitespace,
/// greedily; a word longer than a line is cut. There is always one line.
pub open spec fn wrap_spec(text: Seq<char>, width: usize) -> Seq<Seq<char>> {
    let (l, c) = wrap_words(words_seq(text), usable_width(width));
    let lines = flush(l, c);
    if lines.len() == 0 {
        seq![Seq::empty()]
    } else {
        lines
    }
}

fn cut_word(lines: &mut Vec<Vec<char>>, word: &Vec<char>, w: usize) -> (rest: Vec<char>)
    requires
        w >= 1,
    ensures
        final(lines).deep_view() == old(lines).deep_view() + chunked(word@, w as nat).0,
        rest@ == chunked(word@, w as nat).1,
{
    let ghost start = lines.deep_view();
    let mut rem: Vec<char> = word.clone();
    assert(rem@ == word@);
    let ghost done: Seq<Seq<char>> = Seq::empty();
    while rem.len() >= w
        invariant
            w >= 1,
            lines.deep_view() == start + done,
            chunked(word@, w as nat) == ((done + chunked(rem@, w as nat).0), chunked(rem@, w as nat).1),
        decreases rem.len(),
    {
        let piece = slice_chars(rem.as_slice(), 0, w);
        let next = slice_chars(rem.as_slice(), w, rem.len());
        proof {
            let (cs, r) = chunked(rem@.skip(w as int), w as nat);
            assert(rem@.skip(w as int) =~= next@);
            assert(rem@.take(w as int) =~= piece@);
            assert(chunked(rem@, w as nat).0 == seq![piece@] + chunked(next@, w as nat).0);
            assert(done + chunked(rem@, w as nat).0 =~= done.push(piece@) + chunked(next@, w as nat).0);
        }
        let ghost before = lines.deep_view();
        proof {
            crate::text::lemma_chars_deep_view(piece);
        }
        lines.push(piece);
        proof {
            assert(lines.deep_view() =~= before.push(piece@));
            done = done.push(piece@);
        }
        rem = next;
    }
    assert(chunked(rem@, w as nat).0 =~= Seq::<Seq<char>>::empty());
    assert(done + Seq::<Seq<char>>::empty() =~= done);
    rem
}

fn flush_line(lines: &mut Vec<Vec<char>>, cur: Vec<char>)
    ensures
        final(lines).deep_view() == flush(old(lines).deep_view(), cur@),
{
    if cur.len() > 0 {
        let ghost before = lines.deep_view();
        let ghost c = cur@;
        proof {
            crate::text::lemma_chars_deep_view(cur);
        }
        lines.push(cur);
        assert(lines.deep_view() =~= before.push(c));
    }
}

/// `text` wrapped to `width`; see [`wrap_spec`].
pub fn wrap_text(text: &str, width: usize) -> (out: Vec<String>)
    ensures
        out@.map_values(|s: String| s@) == wrap_spec(text@, width),
{
    let w: usize = if width >= 1 {
        width
    } else {
        1
    };
    let chars = chars_of(text);
    let ws = words(chars.as_slice());
    let mut lines: Vec<Vec<char>> = Vec::new();
    let mut cur: Vec<char> = Vec::new();
    assert(lines.deep_view() =~= Seq::<Seq<char>>::empty());
    assert(cur@ =~= Seq::<char>::empty());
    for i in 0..ws.len()
        invariant
            w == usable_width(width),
            w >= 1,
            (lines.deep_view(), cur@) == wrap_words(ws.deep_view().take(i as int), w as nat),
    {
        let ghost pre = ws.deep_view().take(i as int);
        assert(ws.deep_view().take(i + 1).drop_last() =~= pre);
        let word = &ws[i];
        assert(ws.deep_view().take(i + 1).last() == word@);
        if word.len() <= w {
            let gap: usize = if cur.len() > 0 {
                1
            } else {
                0
            };
            if gap <= w - word.len() && cur.len() <= w - word.len() - gap {
                if cur.len() > 0 {
                    cur.push(' ');
                }
                let ghost c0 = cur@;
                let mut extra = word.clone();
                cur.append(&mut extra);
                proof {
                    assert(cur@ =~= c0 + word@);
                    if gap == 1 {
                        reveal_strlit(" ");
                        assert(c0 == (wrap_words(pre, w as nat).1) + " "@);
                    }
                }
            } else {
                let taken = cur;
                flush_line(&mut lines, taken);
                cur = word.clone();
            }
        } else {
            let taken = cur;
            flush_line(&mut lines, taken);
            cur = cut_word(&mut lines, word, w);
        }
    }
    assert(ws.deep_view().take(ws.len() as int) =~= ws.deep_view());
    flush_line(&mut lines, cur);
    let mut out: Vec<String> = Vec::new();
    if lines.len() == 0 {
        out.push(String::new());
        assert(out@.map_values(|s: String| s@) =~= wrap_spec(text@, width));
        return out;
    }
    for j in 0..lines.len()
        invariant
            out@.map_values(|s: String| s@) == lines.deep_view().take(j as int),
    {
        let s = string_of(&lines[j]);
        assert(lines.deep_view()[j as int] == lines@[j as int]@);
        let ghost before = out@.map_values(|s: String| s@);
        out.push(s);
        assert(out@.map_values(|s: String| s@) =~= before.push(lines.deep_view()[j as int]));
        assert(lines.deep_view().take(j + 1) =~= lines.deep_view().take(j as int).push(lines.deep_view()[j as int]));
    }
    assert(lines.deep_view().take(lines.len() as int) =~= lines.deep_view());
    out
}

proof fn lemma_chunks_fit(word: Seq<char>, w: nat)
    requires
        w >= 1,
    ensures
        forall|i: int| 0 <= i < chunked(word, w).0.len() ==> (#[trigger] chunked(word, w).0[i]).len() == w,
        chunked(word, w).1.len() < w,
    decreases word.len(),
{
    if word.len() >= w {
        lemma_chunks_fit(word.skip(w as int), w);
        let (cs, r) = chunked(word.skip(w as int), w);
        assert forall|i: int| 0 <= i < chunked(word, w).0.len() implies (#[trigger] chunked(word, w).0[i]).len() == w by {
            if i > 0 {
                assert(chunked(word, w).0[i] == cs[i - 1]);
            }
        }
    }
}

/// Every line so far, and the current one, fit in `w`.
pub open spec fn all_fit(lines: Seq<Seq<char>>, w: nat) -> bool {
    forall|i: int| 0 <= i < lines.len() ==> (#[trigger] lines[i]).len() <= w
}

proof fn lemma_wrap_fits(words: Seq<Seq<char>>, w: nat)
    requires
        w >= 1,
    ensures
        all_fit(wrap_words(words, w).0, w),
        wrap_words(words, w).1.len() <= w,
    decreases words.len(),
{
    if words.len() > 0 {
        lemma_wrap_fits(words.drop_last(), w);
        let (l, c) = wrap_words(words.drop_last(), w);
        let word = words.last();
        let f = flush(l, c);
        assert(all_fit(f, w));
        reveal_strlit(" ");
        if word.len() > w {
            lemma_chunks_fit(word, w);
            let (cs, r) = chunked(word, w);
            assert forall|i: int| 0 <= i < (f + cs).len() implies (#[trigger] (f + cs)[i]).len() <= w by {
                if i >= f.len() {
                    assert((f + cs)[i] == cs[i - f.len()]);
                }
            }
        }
    }
}

/// No wrapped line is longer than the width (or than one character when
/// the width is zero).
pub proof fn wrapped_lines_fit(text: Seq<char>, width: usize)
    ensures
        all_fit(wrap_spec(text, width), usable_width(width)),
        wrap_spec(text, width).len() >= 1,
{
    let w = usable_width(width);
    lemma_wrap_fits(words_seq(text), w);
}

// ---------------------------------------------------------------------------
// Items
// ---------------------------------------------------------------------------

pub open spec fn checkbox(selected: bool) -> Seq<char> {
    if selected {
        "[x]"@
    } else {
        "[ ]"@
    }
}

pub open spec fn checkbox_color(selected: bool) -> Color {
    if selected {
        Color::Green
    } else {
        Color::DarkGray
    }
}

pub open spec fn risk_color(r: RiskLevel) -> Color {
    match r {
        RiskLevel::Safe => Color::Green,
        RiskLevel::Caution => Color::Yellow,
        RiskLevel::Manual => Color::Red,
        RiskLevel::Destructive => Color::Magenta,
    }
}

/// The row on one line.
pub open spec fn row_text(row: TargetRow) -> Seq<char> {
    checkbox(row.selected) + " "@ + row.cleaner_name@ + "  ·  "@ + row.target.description@ + "  ·  "@
        + decimal_size(row.target.size_bytes) + "  "@ + risk_name(row.risk)
}

/// The first part of a row that does not fit on one line.
pub open spec fn row_header(row: TargetRow) -> Seq<char> {
    checkbox(row.selected) + " "@ + row.cleaner_name@ + "  ·  "@ + decimal_size(row.target.size_bytes) + "  "@
        + risk_name(row.risk)
}

/// The width left for a description after its indent.
pub open spec fn description_width(width: usize) -> usize {
    if width >= 5 {
        (width - 4) as usize
    } else {
        1
    }
}

/// A review row as list lines. When the whole row fits in `width` it is
/// one line; otherwise the header (box, rule, size, risk) is wrapped, its
/// first line in bold, followed by the wrapped description, indented.
pub open spec fn item_spec(row: TargetRow, width: usize) -> Seq<Seq<(Seq<char>, Color, bool)>> {
    let size = decimal_size(row.target.size_bytes);
    let risk = risk_name(row.risk);
    let cb = checkbox(row.selected);
    let cc = checkbox_color(row.selected);
    if row_text(row).len() <= width {
        seq![seq![
            styled(cb + " "@, cc),
            (row.cleaner_name@, Color::Reset, true),
            raw("  ·  "@),
            raw(row.target.description@),
            styled("  ·  "@ + size, Color::Gray),
            styled("  "@ + risk, risk_color(row.risk)),
        ]]
    } else {
        wrap_spec(row_header(row), width).map(
            |i: int, l: Seq<char>|
                if i == 0 {
                    seq![(l, cc, true)]
                } else {
                    seq![raw(l)]
                },
        ) + wrap_spec(row.target.description@, description_width(width)).map_values(
            |l: Seq<char>| seq![styled("  ↳ "@, Color::DarkGray), raw(l)],
        )
    }
}

fn checkbox_text(selected: bool) -> (s: &'static str)
    ensures
        s@ == checkbox(selected),
{
    if selected {
        "[x]"
    } else {
        "[ ]"
    }
}

fn checkbox_colour(selected: bool) -> (c: Color)
    ensures
        c == checkbox_color(selected),
{
    if selected {
        Color::Green
    } else {
        Color::DarkGray
    }
}

fn risk_colour(r: RiskLevel) -> (c: Color)
    ensures
        c == risk_color(r),
{
    match r {
        RiskLevel::Safe => Color::Green,
        RiskLevel::Caution => Color::Yellow,
        RiskLevel::Manual => Color::Red,
        RiskLevel::Destructive => Color::Magenta,
    }
}

/// One review row as list lines; see [`item_spec`].
pub fn target_item(row: &TargetRow, width: usize) -> (out: Vec<Vec<Span>>)
    ensures
        lines_view(out@) =~~= item_spec(*row, width),
{
    let size = format_size_decimal(row.target.size_bytes);
    let risk = risk_text(row.risk);
    let cb = checkbox_text(row.selected);
    let cc = checkbox_colour(row.selected);
    let mut full = cb.to_string();
    push_str(&mut full, " ");
    push_str(&mut full, row.cleaner_name.as_str());
    push_str(&mut full, "  ·  ");
    push_str(&mut full, row.target.description.as_str());
    push_str(&mut full, "  ·  ");
    push_str(&mut full, size.as_str());
    push_str(&mut full, "  ");
    push_str(&mut full, risk);
    let mut out: Vec<Vec<Span>> = Vec::new();
    if chars_of(full.as_str()).len() <= width {
        let mut l = empty_line();
        push_span(&mut l, styled_span(concat2(cb, " "), cc));
        push_span(&mut l, span(row.cleaner_name.clone(), Color::Reset, true));
        push_span(&mut l, raw_span("  ·  "));
        push_span(&mut l, span(row.target.description.clone(), Color::Reset, false));
        push_span(&mut l, styled_span(concat2("  ·  ", size.as_str()), Color::Gray));
        push_span(&mut l, styled_span(concat2("  ", risk), risk_colour(row.risk)));
        push_line(&mut out, l);
        assert(lines_view(out@) =~~= item_spec(*row, width));
        return out;
    }
    let mut header = cb.to_string();
    push_str(&mut header, " ");
    push_str(&mut header, row.cleaner_name.as_str());
    push_str(&mut header, "  ·  ");
    push_str(&mut header, size.as_str());
    push_str(&mut header, "  ");
    push_str(&mut header, risk);
    let head_lines = wrap_text(header.as_str(), width);
    let ghost hv = wrap_spec(row_header(*row), width);
    let ghost first = hv.map(
        |i: int, l: Seq<char>|
            if i == 0 {
                seq![(l, cc, true)]
            } else {
                seq![raw(l)]
            },
    );
    for i in 0..head_lines.len()
        invariant
            head_lines@.map_values(|s: String| s@) == hv,
            first == hv.map(
                |i: int, l: Seq<char>|
                    if i == 0 {
                        seq![(l, cc, true)]
                    } else {
                        seq![raw(l)]
                    },
            ),
            lines_view(out@) =~~= first.take(i as int),
    {
        let text = head_lines[i].clone();
        assert(hv[i as int] == head_lines@[i as int]@);
        let l = if i == 0 {
            one(span(text, cc, true))
        } else {
            one(span(text, Color::Reset, false))
        };
        let ghost before = lines_view(out@);
        push_line(&mut out, l);
        assert(first.take(i + 1) =~~= first.take(i as int).push(first[i as int]));
        assert(lines_view(out@) =~~= first.take(i + 1));
    }
    assert(first.take(head_lines.len() as int) =~~= first);
    let width2: usize = if width >= 5 {
        width - 4
    } else {
        1
    };
    let desc_lines = wrap_text(row.target.description.as_str(), width2);
    let ghost dv = wrap_spec(row.target.description@, description_width(width));
    let ghost second = dv.map_values(|l: Seq<char>| seq![styled("  ↳ "@, Color::DarkGray), raw(l)]);
    let ghost mid = lines_view(out@);
    for j in 0..desc_lines.len()
        invariant
            desc_lines@.map_values(|s: String| s@) == dv,
            second == dv.map_values(|l: Seq<char>| seq![styled("  ↳ "@, Color::DarkGray), raw(l)]),
            lines_view(out@) =~~= mid + second.take(j as int),
    {
        let text = desc_lines[j].clone();
        assert(dv[j as int] == desc_lines@[j as int]@);
        let mut l = empty_line();
        push_span(&mut l, styled_span("  ↳ ".to_string(), Color::DarkGray));
        push_span(&mut l, span(text, Color::Reset, false));
        push_line(&mut out, l);
        assert(second.take(j + 1) =~~= second.take(j as int).push(second[j as int]));
        assert(lines_view(out@) =~~= mid + second.take(j + 1));
    }
    assert(second.take(desc_lines.len() as int) =~~= second);
    out
}

} // verus!

