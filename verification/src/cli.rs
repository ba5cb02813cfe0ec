//! The decisions of the `cleanrs` command line: which runs are previews,
//! which rules may run, and the rows and lines it prints.
use crate::cleaner::{kind_id, lowered, Cleaner, CleanerKind, CleanerScan};
use crate::model::{CleanResult, RiskLevel};
use crate::report::{ReadOnlyScan, ReadOnlyTarget};
use crate::scanner::DiskScanEntry;
use crate::size_format::{decimal_size, format_size_decimal};
use crate::text::{join, join_seq, push_str, string_of, strings_to_chars};
use crate::text::chars_of;
use vstd::prelude::*;

verus! {

broadcast use vstd::string::group_string_axioms;

/// `clean` only previews unless `--yes` is given, and `--dry-run` always
/// previews.
pub fn clean_is_dry_run(yes: bool, dry_run: bool) -> (r: bool)
    ensures
        r == (!yes || dry_run),
{
    !yes || dry_run
}

/// `clean` covers every rule, and reports the read-only paths it skips,
/// when `--all` is given or no `--only` list is.
pub fn clean_covers_all(all: bool, only_given: bool) -> (r: bool)
    ensures
        r == (all || !only_given),
{
    all || !only_given
}

/// Why `clean` does not run a rule, if it does not: a Destructive rule needs
/// `--confirm-destructive` with exactly `EMPTY TRASH` (`--yes` and
/// `--force` do not do), and a real run of a Manual rule needs `--force`.
pub open spec fn clean_gate_spec(id: Seq<char>, risk: RiskLevel, dry_run: bool, confirm: Option<Seq<char>>, force: bool) -> Option<Seq<char>> {
    if risk == RiskLevel::Destructive && confirm != Some("EMPTY TRASH"@) {
        Some(id + " skipped: requires --confirm-destructive=\"EMPTY TRASH\"; --yes/--force are insufficient"@)
    } else if !dry_run && risk == RiskLevel::Manual && !force {
        Some(id + " requires --force because it is a Manual-risk cleaner"@)
    } else {
        None
    }
}

/// Decides whether `clean` runs the rule `id`; see [`clean_gate_spec`].
pub fn clean_gate(id: &str, risk: RiskLevel, dry_run: bool, confirm: Option<&str>, force: bool) -> (r: Option<String>)
    ensures
        match r {
            Some(m) => clean_gate_spec(id@, risk, dry_run, crate::scanner::opt_str_view(confirm), force) == Some(m@),
            None => clean_gate_spec(id@, risk, dry_run, crate::scanner::opt_str_view(confirm), force) is None,
        },
{
    let destructive = match risk {
        RiskLevel::Destructive => true,
        _ => false,
    };
    let manual = match risk {
        RiskLevel::Manual => true,
        _ => false,
    };
    let confirmed = match confirm {
        Some(c) => {
            let cc = chars_of(c);
            proof {
                reveal_strlit("EMPTY TRASH");
            }
            crate::text::chars_eq_str(cc.as_slice(), "EMPTY TRASH")
        },
        None => false,
    };
    if destructive && !confirmed {
        let mut m = id.to_string();
        push_str(&mut m, " skipped: requires --confirm-destructive=\"EMPTY TRASH\"; --yes/--force are insufficient");
        return Some(m);
    }
    if !dry_run && manual && !force {
        let mut m = id.to_string();
        push_str(&mut m, " requires --force because it is a Manual-risk cleaner");
        return Some(m);
    }
    None
}

/// Emptying the Trash needs the exact phrase on the command line, whatever
/// else is given.
pub proof fn emptying_the_trash_needs_the_exact_phrase(id: Seq<char>, dry_run: bool, confirm: Option<Seq<char>>, force: bool)
    requires
        confirm != Some("EMPTY TRASH"@),
    ensures
        clean_gate_spec(id, RiskLevel::Destructive, dry_run, confirm, force) is Some,
{
}

/// A preview never needs `--force`: only the Trash phrase can hold it back.
pub proof fn previews_need_no_force(id: Seq<char>, risk: RiskLevel, confirm: Option<Seq<char>>)
    requires
        risk != RiskLevel::Destructive,
    ensures
        clean_gate_spec(id, risk, true, confirm, false) is None,
{
}

/// What is wrong with the arguments of `scan`, if anything.
pub open spec fn scan_arguments_spec(top: usize, full_disk: bool, only_given: bool) -> Option<Seq<char>> {
    if top == 0 {
        Some("--top must be greater than zero"@)
    } else if full_disk && only_given {
        Some("--full-disk cannot be combined with --only"@)
    } else {
        None
    }
}

pub fn scan_arguments_error(top: usize, full_disk: bool, only_given: bool) -> (r: Option<&'static str>)
    ensures
        crate::scanner::opt_str_view(r) == scan_arguments_spec(top, full_disk, only_given),
{
    if top == 0 {
        Some("--top must be greater than zero")
    } else if full_disk && only_given {
        Some("--full-disk cannot be combined with --only")
    } else {
        None
    }
}

/// The lower-cased entries of an `--only` list that name no rule, each once,
/// in the order they first appear.
pub open spec fn unknown_ids(cleaners: Seq<CleanerKind>, ids: Seq<Seq<char>>) -> Seq<Seq<char>>
    decreases ids.len(),
{
    if ids.len() == 0 {
        Seq::empty()
    } else {
        let rest = unknown_ids(cleaners, ids.drop_last());
        let l = lowered(ids.last());
        if names_rule(cleaners, l) || rest.contains(l) {
            rest
        } else {
            rest.push(l)
        }
    }
}

/// Whether some rule has the id `id`.
pub open spec fn names_rule(cleaners: Seq<CleanerKind>, id: Seq<char>) -> bool {
    exists|i: int| 0 <= i < cleaners.len() && kind_id(#[trigger] cleaners[i]) == id
}

fn has_rule(cleaners: &Vec<CleanerKind>, id: &str) -> (r: bool)
    ensures
        r == names_rule(cleaners@, id@),
{
    let idc = chars_of(id);
    for i in 0..cleaners.len()
        invariant
            idc@ == id@,
            forall|k: int| 0 <= k < i ==> kind_id(#[trigger] cleaners@[k]) != id@,
    {
        let c = chars_of(cleaners[i].id());
        if crate::text::chars_eq(c.as_slice(), idc.as_slice()) {
            return true;
        }
    }
    false
}

fn contains_string(v: &Vec<String>, s: &str) -> (r: bool)
    ensures
        r == v.deep_view().contains(s@),
{
    let sc = chars_of(s);
    for i in 0..v.len()
        invariant
            sc@ == s@,
            forall|k: int| 0 <= k < i ==> #[trigger] v@[k]@ != s@,
    {
        let c = chars_of(v[i].as_str());
        if crate::text::chars_eq(c.as_slice(), sc.as_slice()) {
            assert(v.deep_view()[i as int] == s@);
            return true;
        }
    }
    proof {
        if v.deep_view().contains(s@) {
            let k = choose|k: int| 0 <= k < v.deep_view().len() && v.deep_view()[k] == s@;
            assert(v@[k]@ == s@);
        }
    }
    false
}

/// The `--only` entries that name no rule; see [`unknown_ids`].
pub fn unknown_cleaner_ids(cleaners: &Vec<CleanerKind>, ids: &Vec<String>) -> (out: Vec<String>)
    ensures
        out.deep_view() == unknown_ids(cleaners@, ids.deep_view()),
{
    let mut out: Vec<String> = Vec::new();
    for i in 0..ids.len()
        invariant
            out.deep_view() == unknown_ids(cleaners@, ids.deep_view().take(i as int)),
    {
        let ghost prefix = ids.deep_view().take(i + 1);
        assert(prefix.drop_last() =~= ids.deep_view().take(i as int));
        assert(prefix.last() == ids@[i as int]@);
        let l = crate::cleaner::lowercase(ids[i].as_str());
        if !has_rule(cleaners, l.as_str()) && !contains_string(&out, l.as_str()) {
            let ghost before = out.deep_view();
            out.push(l);
            assert(out.deep_view() =~= before.push(lowered(prefix.last())));
        }
    }
    assert(ids.deep_view().take(ids.len() as int) =~= ids.deep_view());
    out
}

/// The error of an `--only` list with unknown entries.
pub open spec fn unknown_message(unknown: Seq<Seq<char>>) -> Seq<char> {
    "unknown cleaner(s): "@ + join_seq(unknown, ", "@)
}

pub fn unknown_cleaners_message(unknown: &Vec<String>) -> (m: String)
    ensures
        m@ == unknown_message(unknown.deep_view()),
{
    let parts = strings_to_chars(unknown);
    let sep = chars_of(", ");
    let joined = string_of(&join(&parts, sep.as_slice()));
    let mut m = "unknown cleaner(s): ".to_string();
    push_str(&mut m, joined.as_str());
    m
}

/// The sum of the sizes of read-only targets.
pub open spec fn readonly_bytes(s: Seq<ReadOnlyTarget>) -> nat
    decreases s.len(),
{
    if s.len() == 0 {
        0
    } else {
        readonly_bytes(s.drop_last()) + s.last().size_bytes as nat
    }
}

proof fn lemma_readonly_prefix(s: Seq<ReadOnlyTarget>, k: int)
    requires
        0 <= k <= s.len(),
    ensures
        readonly_bytes(s.take(k)) <= readonly_bytes(s),
    decreases s.len() - k,
{
    if k < s.len() {
        lemma_readonly_prefix(s, k + 1);
        assert(s.take(k + 1).drop_last() =~= s.take(k));
    } else {
        assert(s.take(k) =~= s);
    }
}

/// How many read-only targets `clean` skips, and their total size.
pub fn readonly_skip_totals(targets: &Vec<ReadOnlyTarget>) -> (r: (usize, u64))
    requires
        readonly_bytes(targets@) <= u64::MAX,
    ensures
        r.0 == targets@.len(),
        r.1 == readonly_bytes(targets@),
{
    let mut total: u64 = 0;
    for i in 0..targets.len()
        invariant
            readonly_bytes(targets@) <= u64::MAX,
            total == readonly_bytes(targets@.take(i as int)),
    {
        proof {
            lemma_readonly_prefix(targets@, i + 1);
            assert(targets@.take(i + 1).drop_last() =~= targets@.take(i as int));
        }
        total = total + targets[i].size_bytes;
    }
    assert(targets@.take(targets.len() as int) =~= targets@);
    (targets.len(), total)
}

/// How a risk level is printed in tables.
pub open spec fn risk_name(r: RiskLevel) -> Seq<char> {
    match r {
        RiskLevel::Safe => "Safe"@,
        RiskLevel::Caution => "Caution"@,
        RiskLevel::Manual => "Manual"@,
        RiskLevel::Destructive => "Destructive"@,
    }
}

pub fn risk_text(r: RiskLevel) -> (s: &'static str)
    ensures
        s@ == risk_name(r),
{
    match r {
        RiskLevel::Safe => "Safe",
        RiskLevel::Caution => "Caution",
        RiskLevel::Manual => "Manual",
        RiskLevel::Destructive => "Destructive",
    }
}

/// The rows of the scan table for one report: its error, its
/// unavailability, an empty report, or one row per target.
pub open spec fn report_rows(r: CleanerScan) -> Seq<Seq<Seq<char>>> {
    let risk = risk_name(r.risk_level);
    match r.error {
        Some(e) => seq![seq![r.display_name@, "scan error"@, "-"@, risk, e@]],
        None => if !r.available {
            seq![seq![r.display_name@, "unavailable"@, "-"@, risk, "-"@]]
        } else if r.targets@.len() == 0 {
            seq![seq![r.display_name@, "nothing to clean"@, "0 B"@, risk, "-"@]]
        } else {
            r.targets@.map_values(
                |t: crate::model::CleanTarget| seq![r.display_name@, t.description@, decimal_size(t.size_bytes), risk, t.path@],
            )
        },
    }
}

/// The rows of the scan table: `Cleaner`, `Target`, `Size`, `Risk`, `Path`.
pub open spec fn scan_rows(rs: Seq<CleanerScan>) -> Seq<Seq<Seq<char>>>
    decreases rs.len(),
{
    if rs.len() == 0 {
        Seq::empty()
    } else {
        scan_rows(rs.drop_last()) + report_rows(rs.last())
    }
}

pub open spec fn rows_view(rows: Seq<Vec<String>>) -> Seq<Seq<Seq<char>>> {
    rows.map_values(|r: Vec<String>| r.deep_view())
}

fn row5(a: &str, b: &str, c: &str, d: &str, e: &str) -> (r: Vec<String>)
    ensures
        r.deep_view() == seq![a@, b@, c@, d@, e@],
{
    let r = vec![a.to_string(), b.to_string(), c.to_string(), d.to_string(), e.to_string()];
    assert(r.deep_view() =~= seq![a@, b@, c@, d@, e@]);
    r
}

fn push_report_rows(rows: &mut Vec<Vec<String>>, r: &CleanerScan)
    ensures
        rows_view(final(rows)@) == rows_view(old(rows)@) + report_rows(*r),
{
    let ghost start = rows_view(rows@);
    let risk = risk_text(r.risk_level);
    let name = r.display_name.as_str();
    match &r.error {
        Some(e) => {
            rows.push(row5(name, "scan error", "-", risk, e.as_str()));
            assert(rows_view(rows@) =~= start + report_rows(*r));
            return;
        },
        None => {},
    }
    if !r.available {
        rows.push(row5(name, "unavailable", "-", risk, "-"));
        assert(rows_view(rows@) =~= start + report_rows(*r));
        return;
    }
    if r.targets.len() == 0 {
        rows.push(row5(name, "nothing to clean", "0 B", risk, "-"));
        assert(rows_view(rows@) =~= start + report_rows(*r));
        return;
    }
    let ghost per = report_rows(*r);
    for i in 0..r.targets.len()
        invariant
            r.error is None,
            r.available,
            r.targets@.len() > 0,
            per == report_rows(*r),
            risk@ == risk_name(r.risk_level),
            name@ == r.display_name@,
            rows_view(rows@) == start + per.take(i as int),
    {
        let t = &r.targets[i];
        let size = format_size_decimal(t.size_bytes);
        let row = row5(name, t.description.as_str(), size.as_str(), risk, t.path.as_str());
        let ghost before = rows_view(rows@);
        let ghost rv = row.deep_view();
        rows.push(row);
        assert(rows_view(rows@) =~= before.push(rv));
        assert(per[i as int] == rv);
        assert(per.take(i + 1) =~= per.take(i as int).push(per[i as int]));
        assert(rows_view(rows@) =~= start + per.take(i + 1));
    }
    assert(per.take(r.targets.len() as int) =~= per);
}

/// The rows of the scan table; see [`scan_rows`].
pub fn scan_table_rows(reports: &Vec<CleanerScan>) -> (rows: Vec<Vec<String>>)
    ensures
        rows_view(rows@) == scan_rows(reports@),
{
    let mut rows: Vec<Vec<String>> = Vec::new();
    for i in 0..reports.len()
        invariant
            rows_view(rows@) == scan_rows(reports@.take(i as int)),
    {
        assert(reports@.take(i + 1).drop_last() =~= reports@.take(i as int));
        push_report_rows(&mut rows, &reports[i]);
    }
    assert(reports@.take(reports.len() as int) =~= reports@);
    rows
}

/// The rows of one read-only report: its error, then one row per location.
pub open spec fn readonly_report_rows(r: ReadOnlyScan) -> Seq<Seq<Seq<char>>> {
    (match r.error {
        Some(e) => seq![seq![r.report_id@, "ERROR"@, "-"@, e@, r.advice@]],
        None => Seq::empty(),
    }) + r.targets@.map_values(
        |t: ReadOnlyTarget| seq!["🔒 "@ + r.report_id@, "READONLY"@, decimal_size(t.size_bytes), t.path@, r.advice@],
    )
}

pub open spec fn readonly_rows_of(rs: Seq<ReadOnlyScan>) -> Seq<Seq<Seq<char>>>
    decreases rs.len(),
{
    if rs.len() == 0 {
        Seq::empty()
    } else {
        readonly_rows_of(rs.drop_last()) + readonly_report_rows(rs.last())
    }
}

/// The rows of the read-only table (`Report`, `State`, `Size`, `Path`,
/// `Advice`), or a single row saying that nothing is reported.
pub open spec fn readonly_rows(rs: Seq<ReadOnlyScan>) -> Seq<Seq<Seq<char>>> {
    let rows = readonly_rows_of(rs);
    if rows.len() == 0 {
        seq![seq!["-"@, "READONLY"@, "0 B"@, "No report-only targets found"@, "System paths remain protected"@]]
    } else {
        rows
    }
}

fn push_readonly_rows(rows: &mut Vec<Vec<String>>, r: &ReadOnlyScan)
    ensures
        rows_view(final(rows)@) == rows_view(old(rows)@) + readonly_report_rows(*r),
{
    let ghost start = rows_view(rows@);
    match &r.error {
        Some(e) => {
            rows.push(row5(r.report_id.as_str(), "ERROR", "-", e.as_str(), r.advice.as_str()));
        },
        None => {},
    }
    let ghost head = rows_view(rows@);
    let ghost per = r.targets@.map_values(
        |t: ReadOnlyTarget| seq!["🔒 "@ + r.report_id@, "READONLY"@, decimal_size(t.size_bytes), t.path@, r.advice@],
    );
    assert(head =~= start + match r.error {
        Some(e) => seq![seq![r.report_id@, "ERROR"@, "-"@, e@, r.advice@]],
        None => Seq::<Seq<Seq<char>>>::empty(),
    });
    let mut id = "🔒 ".to_string();
    push_str(&mut id, r.report_id.as_str());
    for i in 0..r.targets.len()
        invariant
            id@ == "🔒 "@ + r.report_id@,
            per == r.targets@.map_values(
                |t: ReadOnlyTarget| seq!["🔒 "@ + r.report_id@, "READONLY"@, decimal_size(t.size_bytes), t.path@, r.advice@],
            ),
            rows_view(rows@) == head + per.take(i as int),
    {
        let t = &r.targets[i];
        let size = format_size_decimal(t.size_bytes);
        let row = row5(id.as_str(), "READONLY", size.as_str(), t.path.as_str(), r.advice.as_str());
        let ghost before = rows_view(rows@);
        let ghost rv = row.deep_view();
        rows.push(row);
        assert(rows_view(rows@) =~= before.push(rv));
        assert(per[i as int] == rv);
        assert(per.take(i + 1) =~= per.take(i as int).push(per[i as int]));
        assert(rows_view(rows@) =~= head + per.take(i + 1));
    }
    assert(per.take(r.targets.len() as int) =~= per);
    assert(rows_view(rows@) =~= start + readonly_report_rows(*r));
}

/// The rows of the read-only table; see [`readonly_rows`].
pub fn readonly_table_rows(reports: &Vec<ReadOnlyScan>) -> (rows: Vec<Vec<String>>)
    ensures
        rows_view(rows@) == readonly_rows(reports@),
{
    let mut rows: Vec<Vec<String>> = Vec::new();
    for i in 0..reports.len()
        invariant
            rows_view(rows@) == readonly_rows_of(reports@.take(i as int)),
    {
        assert(reports@.take(i + 1).drop_last() =~= reports@.take(i as int));
        push_readonly_rows(&mut rows, &reports[i]);
    }
    assert(reports@.take(reports.len() as int) =~= reports@);
    if rows.len() == 0 {
        rows.push(row5("-", "READONLY", "0 B", "No report-only targets found", "System paths remain protected"));
        assert(rows_view(rows@) =~= readonly_rows(reports@));
    }
    rows
}

fn row4(a: &str, b: &str, c: &str, d: &str) -> (r: Vec<String>)
    ensures
        r.deep_view() == seq![a@, b@, c@, d@],
{
    let r = vec![a.to_string(), b.to_string(), c.to_string(), d.to_string()];
    assert(r.deep_view() =~= seq![a@, b@, c@, d@]);
    r
}

/// One entry of a location table of the whole-disk listing: the location,
/// `READONLY` for a protected path (`-` otherwise), the size and the path.
pub open spec fn location_row(label: Seq<char>, e: DiskScanEntry) -> Seq<Seq<char>> {
    seq![label, if e.read_only { "READONLY"@ } else { "-"@ }, decimal_size(e.size_bytes), e.path@]
}

/// The rows of a location table (root disk or home), or a single row
/// saying that no entry was readable.
pub open spec fn location_rows(label: Seq<char>, es: Seq<DiskScanEntry>) -> Seq<Seq<Seq<char>>> {
    if es.len() == 0 {
        seq![seq!["-"@, "READONLY"@, "0 B"@, "No readable entries"@]]
    } else {
        es.map_values(|e: DiskScanEntry| location_row(label, e))
    }
}

/// The rows of a location table; see [`location_rows`].
pub fn location_table_rows(label: &str, entries: &Vec<DiskScanEntry>) -> (rows: Vec<Vec<String>>)
    ensures
        rows_view(rows@) == location_rows(label@, entries@),
{
    let mut rows: Vec<Vec<String>> = Vec::new();
    if entries.len() == 0 {
        rows.push(row4("-", "READONLY", "0 B", "No readable entries"));
        assert(rows_view(rows@) =~= location_rows(label@, entries@));
        return rows;
    }
    let ghost per = entries@.map_values(|e: DiskScanEntry| location_row(label@, e));
    for i in 0..entries.len()
        invariant
            per == entries@.map_values(|e: DiskScanEntry| location_row(label@, e)),
            rows_view(rows@) == per.take(i as int),
    {
        let e = &entries[i];
        let size = format_size_decimal(e.size_bytes);
        let state = if e.read_only {
            "READONLY"
        } else {
            "-"
        };
        let row = row4(label, state, size.as_str(), e.path.as_str());
        let ghost before = rows_view(rows@);
        rows.push(row);
        assert(rows_view(rows@) =~= before.push(row.deep_view()));
        assert(per.take(i + 1) =~= per.take(i as int).push(per[i as int]));
    }
    assert(per.take(entries.len() as int) =~= per);
    rows
}

/// One protected path of the whole-disk listing: `READONLY`, why it is
/// excluded, its size and its path.
pub open spec fn protected_row(e: DiskScanEntry) -> Seq<Seq<char>> {
    seq!["READONLY"@, "system/mount excluded"@, decimal_size(e.size_bytes), e.path@]
}

/// The rows of the protected-paths table of the whole-disk listing.
pub fn protected_table_rows(entries: &Vec<DiskScanEntry>) -> (rows: Vec<Vec<String>>)
    ensures
        rows_view(rows@) == entries@.map_values(|e: DiskScanEntry| protected_row(e)),
{
    let mut rows: Vec<Vec<String>> = Vec::new();
    let ghost per = entries@.map_values(|e: DiskScanEntry| protected_row(e));
    for i in 0..entries.len()
        invariant
            per == entries@.map_values(|e: DiskScanEntry| protected_row(e)),
            rows_view(rows@) == per.take(i as int),
    {
        let e = &entries[i];
        let size = format_size_decimal(e.size_bytes);
        let row = row4("READONLY", "system/mount excluded", size.as_str(), e.path.as_str());
        let ghost before = rows_view(rows@);
        rows.push(row);
        assert(rows_view(rows@) =~= before.push(row.deep_view()));
        assert(per.take(i + 1) =~= per.take(i as int).push(per[i as int]));
    }
    assert(per.take(entries.len() as int) =~= per);
    rows
}

/// The line printed for one clean result.
pub open spec fn result_line(r: CleanResult) -> Seq<char> {
    "["@ + (if r.dry_run {
        "preview"@
    } else {
        "cleaned"@
    }) + "] "@ + r.cleaner_id@ + " — "@ + r.target@ + " ("@ + decimal_size(r.expected_freed_bytes) + ")"@
}

pub fn clean_result_line(r: &CleanResult) -> (s: String)
    ensures
        s@ == result_line(*r),
{
    let mut s = "[".to_string();
    if r.dry_run {
        push_str(&mut s, "preview");
    } else {
        push_str(&mut s, "cleaned");
    }
    push_str(&mut s, "] ");
    push_str(&mut s, r.cleaner_id.as_str());
    push_str(&mut s, " — ");
    push_str(&mut s, r.target.as_str());
    push_str(&mut s, " (");
    push_str(&mut s, format_size_decimal(r.expected_freed_bytes).as_str());
    push_str(&mut s, ")");
    s
}

/// The line that reports the read-only targets `clean` skipped.
pub fn skipped_readonly_line(count: usize, bytes: u64) -> (s: String)
    ensures
        s@ == "[skip] Skipped "@ + crate::text::decimal(count as nat) + " read-only targets ("@ + decimal_size(bytes)
            + ")"@,
{
    let mut s = "[skip] Skipped ".to_string();
    push_str(&mut s, crate::text::decimal_string(count as u64).as_str());
    push_str(&mut s, " read-only targets (");
    push_str(&mut s, format_size_decimal(bytes).as_str());
    push_str(&mut s, ")");
    s
}

/// What `clean` has gathered so far: the results of the targets it cleaned
/// and one message per refused rule or failed step, in the order they came.
pub struct CleanRun {
    pub results: Vec<CleanResult>,
    pub errors: Vec<String>,
}

impl CleanRun {
    /// A run with nothing gathered yet.
    pub fn new() -> (run: CleanRun)
        ensures
            run.results@.len() == 0,
            run.errors@.len() == 0,
    {
        CleanRun { results: Vec::new(), errors: Vec::new() }
    }

    /// Whether the rule `id` may be scanned and cleaned. A refusal of
    /// [`clean_gate`] is recorded as an error and the rule is skipped.
    pub fn may_run(&mut self, id: &str, risk: RiskLevel, dry_run: bool, confirm: Option<&str>, force: bool) -> (go: bool)
        ensures
            go == clean_gate_spec(id@, risk, dry_run, crate::scanner::opt_str_view(confirm), force) is None,
            final(self).results@ == old(self).results@,
            match clean_gate_spec(id@, risk, dry_run, crate::scanner::opt_str_view(confirm), force) {
                Some(m) => {
                    &&& final(self).errors@.len() == old(self).errors@.len() + 1
                    &&& final(self).errors@.drop_last() == old(self).errors@
                    &&& final(self).errors@.last()@ == m
                },
                None => final(self).errors@ == old(self).errors@,
            },
    {
        match clean_gate(id, risk, dry_run, confirm, force) {
            Some(refusal) => {
                self.errors.push(refusal);
                proof {
                    assert(self.errors@.drop_last() =~= old(self).errors@);
                }
                false
            },
            None => true,
        }
    }

    /// Records the outcome of one step of the rule `id` (a scan or the
    /// cleaning of one target): a result is kept, an error is recorded as
    /// `id: error`.
    pub fn record(&mut self, id: &str, outcome: Result<CleanResult, String>)
        ensures
            match outcome {
                Ok(r) => final(self).results@ == old(self).results@.push(r) && final(self).errors@ == old(self).errors@,
                Err(e) => {
                    &&& final(self).results@ == old(self).results@
                    &&& final(self).errors@.len() == old(self).errors@.len() + 1
                    &&& final(self).errors@.drop_last() == old(self).errors@
                    &&& final(self).errors@.last()@ == id@ + ": "@ + e@
                },
            },
    {
        match outcome {
            Ok(r) => self.results.push(r),
            Err(e) => {
                let mut m = id.to_string();
                push_str(&mut m, ": ");
                push_str(&mut m, e.as_str());
                self.errors.push(m);
                proof {
                    assert(self.errors@.drop_last() =~= old(self).errors@);
                }
            },
        }
    }

    /// Whether the command fails: a rule was refused or a step failed.
    pub fn failed(&self) -> (r: bool)
        ensures
            r == (self.errors@.len() > 0),
    {
        self.errors.len() > 0
    }
}

} // verus!
