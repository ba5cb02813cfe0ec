//! The audit log of clean operations.
//!
//! Each operation becomes one line holding one JSON object. Fields are
//! sanitised and escaped so a single operation can never forge additional
//! log rows.
use crate::text::{decimal, decimal_string, push_char, push_str};
use vstd::prelude::*;

verus! {

broadcast use vstd::string::group_string_axioms;

/// Tabs and line breaks become spaces.
pub open spec fn sanitize_char(c: char) -> char {
    if c == '\t' || c == '\r' || c == '\n' {
        ' '
    } else {
        c
    }
}

pub open spec fn sanitize_spec(s: Seq<char>) -> Seq<char> {
    s.map_values(|c: char| sanitize_char(c))
}

/// `value` with every tab, carriage return and line feed replaced by a space.
pub fn sanitize(value: &str) -> (r: String)
    ensures
        r@ == sanitize_spec(value@),
{
    let mut r = String::new();
    let ghost whole = value@;
    for c in iter: value.chars()
        invariant
            iter.seq() == whole,
            r@ == sanitize_spec(whole.take(iter.index() as int)),
    {
        let ghost k = iter.index();
        let d = if c == '\t' || c == '\r' || c == '\n' {
            ' '
        } else {
            c
        };
        push_char(&mut r, d);
        assert(whole.take(k + 1) =~= whole.take(k as int).push(c));
        assert(r@ =~= sanitize_spec(whole.take(k + 1)));
    }
    assert(whole.take(whole.len() as int) =~= whole);
    r
}

/// One entry of the audit log, with its fields already sanitised.
#[derive(Clone, Debug)]
pub struct HistoryRecord {
    pub operation: String,
    pub actor: String,
    pub target: String,
    pub status: String,
    pub detail: String,
}

/// The entry that records an operation. Writing it is best effort: a
/// failure to log never turns a successful cleanup into a failed one.
pub fn record_history(operation: &str, actor: &str, target: &str, status: &str, detail: &str) -> (r:
    HistoryRecord)
    ensures
        r.operation@ == sanitize_spec(operation@),
        r.actor@ == sanitize_spec(actor@),
        r.target@ == sanitize_spec(target@),
        r.status@ == sanitize_spec(status@),
        r.detail@ == sanitize_spec(detail@),
{
    HistoryRecord {
        operation: sanitize(operation),
        actor: sanitize(actor),
        target: sanitize(target),
        status: sanitize(status),
        detail: sanitize(detail),
    }
}

/// A hexadecimal digit, in lower case.
pub open spec fn hex_digit(n: nat) -> char {
    if n < 10 {
        ((n + 48) as u8) as char
    } else {
        ((n + 87) as u8) as char
    }
}

/// One character as it stands inside a JSON string: quotes and backslashes
/// are escaped, control characters are written as `\u00XX`.
pub open spec fn json_escape_char(c: char) -> Seq<char> {
    if c == '"' {
        seq!['\\', '"']
    } else if c == '\\' {
        seq!['\\', '\\']
    } else if (c as u32) < 0x20 {
        seq!['\\', 'u', '0', '0', hex_digit((c as u32) as nat / 16), hex_digit((c as u32) as nat % 16)]
    } else {
        seq![c]
    }
}

pub open spec fn json_escape(s: Seq<char>) -> Seq<char>
    decreases s.len(),
{
    if s.len() == 0 {
        Seq::empty()
    } else {
        json_escape(s.drop_last()) + json_escape_char(s.last())
    }
}

/// A JSON string holding `s`.
pub open spec fn json_string(s: Seq<char>) -> Seq<char> {
    seq!['"'] + json_escape(s) + seq!['"']
}

/// The log line of an entry with these field texts: one JSON object with the
/// Unix timestamp in seconds and the five fields.
pub open spec fn entry_line(
    timestamp: u64,
    operation: Seq<char>,
    actor: Seq<char>,
    target: Seq<char>,
    status: Seq<char>,
    detail: Seq<char>,
) -> Seq<char> {
    "{\"timestamp\":"@ + decimal(timestamp as nat) + ",\"operation\":"@ + json_string(operation)
        + ",\"actor\":"@ + json_string(actor) + ",\"target\":"@ + json_string(target)
        + ",\"status\":"@ + json_string(status) + ",\"detail\":"@ + json_string(detail) + "}"@
}

pub open spec fn history_line_spec(r: HistoryRecord, timestamp: u64) -> Seq<char> {
    entry_line(timestamp, r.operation@, r.actor@, r.target@, r.status@, r.detail@)
}

fn hex_char(n: u32) -> (c: char)
    requires
        n < 16,
    ensures
        c == hex_digit(n as nat),
{
    let b: u8 = if n < 10 {
        (n + 48) as u8
    } else {
        (n + 87) as u8
    };
    b as char
}

/// Appends `value` as a JSON string.
fn push_json_string(out: &mut String, value: &str)
    ensures
        final(out)@ == old(out)@ + json_string(value@),
{
    push_char(out, '"');
    let ghost start = out@;
    let ghost whole = value@;
    for c in iter: value.chars()
        invariant
            iter.seq() == whole,
            out@ == start + json_escape(whole.take(iter.index() as int)),
    {
        let ghost k = iter.index();
        let ghost before = out@;
        if c == '"' {
            push_char(out, '\\');
            push_char(out, '"');
        } else if c == '\\' {
            push_char(out, '\\');
            push_char(out, '\\');
        } else if (c as u32) < 0x20 {
            let v = c as u32;
            push_char(out, '\\');
            push_char(out, 'u');
            push_char(out, '0');
            push_char(out, '0');
            push_char(out, hex_char(v / 16));
            push_char(out, hex_char(v % 16));
        } else {
            push_char(out, c);
        }
        assert(out@ =~= before + json_escape_char(c));
        assert(whole.take(k + 1).drop_last() =~= whole.take(k as int));
        assert(out@ =~= start + json_escape(whole.take(k + 1)));
    }
    assert(whole.take(whole.len() as int) =~= whole);
    push_char(out, '"');
    assert(out@ =~= old(out)@ + json_string(value@));
}

/// The log line of an entry: one JSON object holding the Unix timestamp in
/// seconds and the five fields (the line break is added by the writer).
pub fn history_line(record: &HistoryRecord, timestamp: u64) -> (line: String)
    ensures
        line@ == history_line_spec(*record, timestamp),
{
    let mut line = "{\"timestamp\":".to_string();
    push_str(&mut line, decimal_string(timestamp).as_str());
    push_str(&mut line, ",\"operation\":");
    push_json_string(&mut line, record.operation.as_str());
    push_str(&mut line, ",\"actor\":");
    push_json_string(&mut line, record.actor.as_str());
    push_str(&mut line, ",\"target\":");
    push_json_string(&mut line, record.target.as_str());
    push_str(&mut line, ",\"status\":");
    push_json_string(&mut line, record.status.as_str());
    push_str(&mut line, ",\"detail\":");
    push_json_string(&mut line, record.detail.as_str());
    push_str(&mut line, "}");
    line
}

pub open spec fn no_line_break(s: Seq<char>) -> bool {
    forall|i: int| 0 <= i < s.len() ==> s[i] != '\n' && s[i] != '\r'
}

proof fn lemma_join(a: Seq<char>, b: Seq<char>)
    requires
        no_line_break(a),
        no_line_break(b),
    ensures
        no_line_break(a + b),
{
    assert forall|i: int| 0 <= i < (a + b).len() implies (a + b)[i] != '\n' && (a + b)[i] != '\r' by {
        if i >= a.len() {
            assert((a + b)[i] == b[i - a.len()]);
        }
    }
}

proof fn lemma_decimal_digits(n: nat)
    ensures
        no_line_break(decimal(n)),
    decreases n,
{
    let d: nat = n % 10;
    let b: u8 = (d + 48) as u8;
    assert(b == d + 48);
    assert(b as char != '\n' && b as char != '\r');
    if n >= 10 {
        lemma_decimal_digits(n / 10);
        lemma_join(decimal(n / 10), seq![b as char]);
    } else {
        assert(d == n);
    }
}

proof fn lemma_hex(n: nat)
    requires
        n < 16,
    ensures
        hex_digit(n) != '\n' && hex_digit(n) != '\r',
{
    let b: u8 = if n < 10 {
        (n + 48) as u8
    } else {
        (n + 87) as u8
    };
    assert(b >= 48);
    assert(hex_digit(n) == b as char);
    assert(b as char != '\n' && b as char != '\r');
}

proof fn lemma_escape(s: Seq<char>)
    ensures
        no_line_break(json_escape(s)),
    decreases s.len(),
{
    if s.len() > 0 {
        lemma_escape(s.drop_last());
        let c = s.last();
        let v = (c as u32) as nat;
        if v < 0x20 && c != '"' && c != '\\' {
            lemma_hex(v / 16);
            lemma_hex(v % 16);
        }
        assert(no_line_break(json_escape_char(c)));
        lemma_join(json_escape(s.drop_last()), json_escape_char(c));
    }
}

proof fn lemma_quoted(s: Seq<char>)
    ensures
        no_line_break(json_string(s)),
{
    lemma_escape(s);
    lemma_join(seq!['"'], json_escape(s));
    lemma_join(seq!['"'] + json_escape(s), seq!['"']);
}

/// A recorded entry always occupies exactly one line of the log, whatever
/// its fields hold: every field is escaped inside a JSON string.
pub proof fn history_entry_is_one_line(
    operation: Seq<char>,
    actor: Seq<char>,
    target: Seq<char>,
    status: Seq<char>,
    detail: Seq<char>,
    timestamp: u64,
)
    ensures
        no_line_break(entry_line(timestamp, operation, actor, target, status, detail)),
{
    reveal_strlit("{\"timestamp\":");
    reveal_strlit(",\"operation\":");
    reveal_strlit(",\"actor\":");
    reveal_strlit(",\"target\":");
    reveal_strlit(",\"status\":");
    reveal_strlit(",\"detail\":");
    reveal_strlit("}");
    lemma_decimal_digits(timestamp as nat);
    lemma_quoted(operation);
    lemma_quoted(actor);
    lemma_quoted(target);
    lemma_quoted(status);
    lemma_quoted(detail);
    let p0 = "{\"timestamp\":"@;
    let a1 = p0 + decimal(timestamp as nat);
    lemma_join(p0, decimal(timestamp as nat));
    let a2 = a1 + ",\"operation\":"@;
    lemma_join(a1, ",\"operation\":"@);
    let a3 = a2 + json_string(operation);
    lemma_join(a2, json_string(operation));
    let a4 = a3 + ",\"actor\":"@;
    lemma_join(a3, ",\"actor\":"@);
    let a5 = a4 + json_string(actor);
    lemma_join(a4, json_string(actor));
    let a6 = a5 + ",\"target\":"@;
    lemma_join(a5, ",\"target\":"@);
    let a7 = a6 + json_string(target);
    lemma_join(a6, json_string(target));
    let a8 = a7 + ",\"status\":"@;
    lemma_join(a7, ",\"status\":"@);
    let a9 = a8 + json_string(status);
    lemma_join(a8, json_string(status));
    let a10 = a9 + ",\"detail\":"@;
    lemma_join(a9, ",\"detail\":"@);
    let a11 = a10 + json_string(detail);
    lemma_join(a10, json_string(detail));
    lemma_join(a11, "}"@);
}

} // verus!
