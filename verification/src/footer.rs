//! The footer of the review screen: a status line, a mode or input line,
//! and the keys that apply, as styled text the caller draws.
use crate::global::{admin_needed, manager_label};
use crate::size_format::{decimal_size, format_size_decimal};
use crate::text::{concat2, concat3, decimal, decimal_string, push_str, string_of};
use crate::text::chars_of;
use crate::tui::{
    full_disk_entries_spec, manual_selection, selected_count_spec, selected_size_spec, App, Mode, UpdateState,
};
use vstd::prelude::*;

verus! {

broadcast use vstd::string::group_string_axioms;

/// The colours the screen uses.
#[derive(Clone, Copy, Debug, PartialEq, Eq, Structural)]
pub enum Color {
    Reset,
    Gray,
    DarkGray,
    Cyan,
    Yellow,
    Green,
    Red,
    Magenta,
}

/// A piece of text in one colour, bold or not.
#[derive(Clone, Debug)]
pub struct Span {
    pub text: String,
    pub color: Color,
    pub bold: bool,
}

pub open spec fn span_view(s: Span) -> (Seq<char>, Color, bool) {
    (s.text@, s.color, s.bold)
}

pub open spec fn line_view(l: Vec<Span>) -> Seq<(Seq<char>, Color, bool)> {
    l@.map_values(|s: Span| span_view(s))
}

pub open spec fn lines_view(ls: Seq<Vec<Span>>) -> Seq<Seq<(Seq<char>, Color, bool)>> {
    ls.map_values(|l: Vec<Span>| line_view(l))
}

/// Plain text.
pub open spec fn raw(t: Seq<char>) -> (Seq<char>, Color, bool) {
    (t, Color::Reset, false)
}

/// Text in a colour.
pub open spec fn styled(t: Seq<char>, c: Color) -> (Seq<char>, Color, bool) {
    (t, c, false)
}

/// A key name, bracketed, in bold cyan.
pub open spec fn key(k: Seq<char>) -> (Seq<char>, Color, bool) {
    ("["@ + k + "]"@, Color::Cyan, true)
}

/// `n` spaces.
pub open spec fn spaces(n: nat) -> Seq<char> {
    Seq::new(n, |i: int| ' ')
}

/// `s` padded with spaces to `width` characters.
pub open spec fn pad_right(s: Seq<char>, width: nat) -> Seq<char> {
    if s.len() < width {
        s + spaces((width - s.len()) as nat)
    } else {
        s
    }
}

/// A line label, padded to eight characters, in bold gray.
pub open spec fn label(l: Seq<char>) -> (Seq<char>, Color, bool) {
    (pad_right(l, 8), Color::Gray, true)
}

/// A footer line: its label, then its content.
pub open spec fn footer_line(l: Seq<char>, content: Seq<(Seq<char>, Color, bool)>) -> Seq<(Seq<char>, Color, bool)> {
    seq![label(l)] + content
}

/// `value` cut to `max` characters, the last one replaced by `…` when it
/// was longer.
pub open spec fn shorten_spec(value: Seq<char>, max: nat) -> Seq<char> {
    if value.len() <= max {
        value
    } else {
        value.take(if max >= 1 {
            max - 1
        } else {
            0
        }) + "…"@
    }
}

/// A number with at least two digits.
pub open spec fn two_digits(n: nat) -> Seq<char> {
    if n < 10 {
        "0"@ + decimal(n)
    } else {
        decimal(n)
    }
}

/// Elapsed time as `mm:ss` (minutes may take more digits).
pub open spec fn elapsed_text(ms: u64) -> Seq<char> {
    let s = ms as nat / 1000;
    two_digits(s / 60) + ":"@ + two_digits(s % 60)
}

/// The spinner frame shown after `ms` milliseconds: one of `|`, `/`, `-`,
/// `\`, changing every 150 ms.
pub open spec fn marker(ms: u64) -> char {
    let k = (ms as nat / 150) % 4;
    if k == 0 {
        '|'
    } else if k == 1 {
        '/'
    } else if k == 2 {
        '-'
    } else {
        '\\'
    }
}

/// What the confirmation field shows: the typed text, or a blank to fill.
pub open spec fn input_text(typed: Seq<char>) -> Seq<char> {
    "["@ + (if typed.len() == 0 {
        "_____"@
    } else {
        typed
    }) + "]"@
}

// ---------------------------------------------------------------------------
// Building spans
// ---------------------------------------------------------------------------

pub(crate) fn span(text: String, color: Color, bold: bool) -> (s: Span)
    ensures
        span_view(s) == (text@, color, bold),
{
    Span { text, color, bold }
}

pub(crate) fn raw_span(t: &str) -> (s: Span)
    ensures
        span_view(s) == raw(t@),
{
    span(t.to_string(), Color::Reset, false)
}

pub(crate) fn styled_span(t: String, c: Color) -> (s: Span)
    ensures
        span_view(s) == styled(t@, c),
{
    span(t, c, false)
}

pub(crate) fn key_span(k: &str) -> (s: Span)
    ensures
        span_view(s) == key(k@),
{
    span(concat3("[", k, "]"), Color::Cyan, true)
}

fn label_span(l: &str) -> (s: Span)
    ensures
        span_view(s) == label(l@),
{
    let mut t = l.to_string();
    let n = chars_of(l).len();
    if n < 8 {
        let mut i: usize = n;
        while i < 8
            invariant
                n <= i <= 8,
                n == l@.len(),
                t@ == l@ + spaces((i - n) as nat),
            decreases 8 - i,
        {
            push_str(&mut t, " ");
            proof {
                reveal_strlit(" ");
            }
            assert(t@ =~= l@ + spaces((i + 1 - n) as nat));
            i = i + 1;
        }
    }
    span(t, Color::Gray, true)
}

/// `value` cut to `max` characters; see [`shorten_spec`].
pub fn shorten(value: &str, max: usize) -> (s: String)
    ensures
        s@ == shorten_spec(value@, max as nat),
{
    let c = chars_of(value);
    if c.len() <= max {
        return value.to_string();
    }
    let keep: usize = if max >= 1 {
        max - 1
    } else {
        0
    };
    let prefix = crate::text::slice_chars(c.as_slice(), 0, keep);
    let mut s = string_of(&prefix);
    push_str(&mut s, "…");
    assert(c@.subrange(0, keep as int) =~= value@.take(keep as int));
    s
}

fn two_digit_string(n: u64) -> (s: String)
    ensures
        s@ == two_digits(n as nat),
{
    if n < 10 {
        concat2("0", decimal_string(n).as_str())
    } else {
        decimal_string(n)
    }
}

/// The elapsed time as `mm:ss`; see [`elapsed_text`].
pub fn elapsed_label(ms: u64) -> (s: String)
    ensures
        s@ == elapsed_text(ms),
{
    let secs = ms / 1000;
    let mut s = two_digit_string(secs / 60);
    push_str(&mut s, ":");
    push_str(&mut s, two_digit_string(secs % 60).as_str());
    s
}

/// The spinner frame for `ms` milliseconds; see [`marker`].
pub fn activity_marker(ms: u64) -> (c: char)
    ensures
        c == marker(ms),
{
    let k = (ms / 150) % 4;
    if k == 0 {
        '|'
    } else if k == 1 {
        '/'
    } else if k == 2 {
        '-'
    } else {
        '\\'
    }
}

fn line_of(l: &str, content: Vec<Span>) -> (out: Vec<Span>)
    ensures
        line_view(out) == footer_line(l@, line_view(content)),
{
    let mut out: Vec<Span> = Vec::new();
    out.push(label_span(l));
    let ghost head = line_view(out);
    let mut content = content;
    let ghost tail = line_view(content);
    out.append(&mut content);
    assert(line_view(out) =~= head + tail);
    out
}

pub(crate) fn one(s: Span) -> (v: Vec<Span>)
    ensures
        line_view(v) == seq![span_view(s)],
{
    let mut v: Vec<Span> = Vec::new();
    v.push(s);
    assert(line_view(v) =~= seq![span_view(s)]);
    v
}

pub(crate) fn empty_line() -> (v: Vec<Span>)
    ensures
        line_view(v) == Seq::<(Seq<char>, Color, bool)>::empty(),
{
    let v: Vec<Span> = Vec::new();
    assert(line_view(v) =~= Seq::<(Seq<char>, Color, bool)>::empty());
    v
}

pub(crate) fn push_span(v: &mut Vec<Span>, s: Span)
    ensures
        line_view(*final(v)) == line_view(*old(v)).push(span_view(s)),
{
    v.push(s);
    assert(line_view(*v) =~= line_view(*old(v)).push(span_view(s)));
}

pub(crate) fn push_line(ls: &mut Vec<Vec<Span>>, l: Vec<Span>)
    ensures
        lines_view(final(ls)@) == lines_view(old(ls)@).push(line_view(l)),
{
    let ghost lv = line_view(l);
    ls.push(l);
    assert(lines_view(ls@) =~= lines_view(old(ls)@).push(lv));
}

// ---------------------------------------------------------------------------
// What the footer says
// ---------------------------------------------------------------------------

pub open spec fn quit_keys() -> Seq<(Seq<char>, Color, bool)> {
    seq![key("q"@), raw(" Quit"@)]
}

pub open spec fn cancel_keys(confirm_key: Seq<char>, confirm_text: Seq<char>) -> Seq<(Seq<char>, Color, bool)> {
    seq![key(confirm_key), raw(confirm_text), key("n/Esc"@), raw(" Cancel"@)]
}

/// While the rules are scanned.
pub open spec fn scanning_footer(a: App) -> Seq<Seq<(Seq<char>, Color, bool)>> {
    seq![
        footer_line("STATUS"@, seq![styled("Scanning cleaners · "@ + decimal(a.review.received_scans as nat) + "/"@ + decimal(a.review.expected_scans as nat), Color::Cyan)]),
        footer_line("MODE"@, seq![styled("Background scan · results stream in"@, Color::Gray)]),
        footer_line("KEYS"@, quit_keys()),
    ]
}

pub open spec fn global_status(a: App) -> Seq<char> {
    if a.global.scanning {
        "Global tools · scanning providers"@
    } else {
        match a.global.tools {
            Some(r) => "Global tools · "@ + decimal(r.tools@.len()) + " installed · "@ + decimal(r.errors@.len())
                + " provider warning(s)"@,
            None => "Global tools · not scanned"@,
        }
    }
}

/// The global tools list.
pub open spec fn global_footer(a: App) -> Seq<Seq<(Seq<char>, Color, bool)>> {
    seq![
        footer_line("STATUS"@, seq![styled(shorten_spec(global_status(a), 58), if a.global.scanning {
            Color::Yellow
        } else {
            Color::Green
        })]),
        footer_line("MODE"@, seq![styled("Manager-owned command · confirmation required"@, Color::Gray)]),
        footer_line("KEYS"@, seq![
            key("↑↓"@),
            raw(" Move   "@),
            key("x/Enter"@),
            raw(" Remove   "@),
            key("r"@),
            raw(" Reload   "@),
            key("b"@),
            raw(" Back"@),
        ]),
    ]
}

/// The explorer while a folder is scanned.
pub open spec fn folder_scanning_footer() -> Seq<Seq<(Seq<char>, Color, bool)>> {
    seq![
        footer_line("STATUS"@, seq![styled("Scanning folder · Git/status and sizes"@, Color::Yellow)]),
        footer_line("MODE"@, seq![styled("Background scan"@, Color::Gray)]),
        footer_line("KEYS"@, seq![key("b"@), raw(" Back   "@), key("q"@), raw(" Quit"@)]),
    ]
}

/// The explorer with a folder open.
pub open spec fn folder_footer(a: App) -> Seq<Seq<(Seq<char>, Color, bool)>> {
    let status = match a.screen.last_action {
        Some(t) => "Explorer · "@ + shorten_spec(t@, 48),
        None => "Explorer · "@ + decimal(a.explorer.directory_scan.unwrap().entries@.len()) + " entries"@,
    };
    seq![
        footer_line("STATUS"@, seq![styled(status, if a.screen.last_action is Some {
            Color::Yellow
        } else {
            Color::Green
        })]),
        footer_line("MODE"@, seq![
            styled("Folder review · › selected   "@, Color::Gray),
            key("Enter"@),
            raw(" Open   "@),
            key("w"@),
            raw(" Allowlist   "@),
            key("x"@),
            raw(" Trash SUGGEST only"@),
        ]),
        footer_line("KEYS"@, seq![
            key("↑↓"@),
            raw(" Move   "@),
            key("b"@),
            raw(" Back   "@),
            key("f"@),
            raw(" Root   "@),
            key("q"@),
            raw(" Quit"@),
        ]),
    ]
}

/// The whole-disk inventory.
pub open spec fn inventory_footer(a: App) -> Seq<Seq<(Seq<char>, Color, bool)>> {
    let status = if a.explorer.full_disk_scanning {
        "Full-disk inventory · scanning root + HOME"@
    } else {
        "Full-disk inventory · "@ + decimal(full_disk_entries_spec(a.explorer).len()) + " entries"@
    };
    seq![
        footer_line("STATUS"@, seq![styled(match a.screen.last_action {
            Some(t) => shorten_spec(t@, 58),
            None => status,
        }, if a.screen.last_action is Some || a.explorer.full_disk_scanning {
            Color::Yellow
        } else {
            Color::Green
        })]),
        footer_line("MODE"@, seq![
            styled("Inventory only · › selected   "@, Color::Gray),
            key("Enter"@),
            raw(" Open/parent   "@),
            key("b"@),
            raw(" Targets"@),
        ]),
        footer_line("KEYS"@, seq![
            key("↑↓"@),
            raw(" Choose   "@),
            key("f"@),
            raw(" Rescan   "@),
            key("q"@),
            raw(" Quit"@),
        ]),
    ]
}

pub open spec fn review_keys(a: App) -> Seq<(Seq<char>, Color, bool)> {
    seq![
        key("↑↓"@),
        raw(" Move "@),
        key("Space"@),
        raw(" Sel "@),
        key("a"@),
        raw(" Safe "@),
        key("t"@),
        raw(" Trash "@),
        key("i"@),
        raw(" Info "@),
        key("r"@),
        raw(" Reload "@),
        key("f"@),
        raw(" Full "@),
    ] + (if a.progress.update_state is Available {
        seq![key("u"@), raw(" Upgrade "@)]
    } else {
        Seq::empty()
    }) + quit_keys()
}

/// The review list.
pub open spec fn review_footer(a: App) -> Seq<Seq<(Seq<char>, Color, bool)>> {
    let status = match a.screen.last_action {
        Some(t) => shorten_spec(t@, 58),
        None => "Ready · "@ + decimal(selected_count_spec(a.review)) + " selected · "@ + decimal_size(
            selected_size_spec(a.review) as u64,
        ),
    };
    seq![
        footer_line("STATUS"@, seq![styled(status, Color::Green)]),
        footer_line("MODE"@, seq![
            styled(if a.screen.dry_run {
                "DRY-RUN · no files will change   "@
            } else {
                "EXECUTE · targets will be processed   "@
            }, if a.screen.dry_run {
                Color::Cyan
            } else {
                Color::Yellow
            }),
            key("d"@),
            raw(" Mode   "@),
            key("Enter"@),
            raw(" Continue"@),
        ]),
        footer_line("KEYS"@, review_keys(a)),
    ]
}

/// The footer while the review screen is shown.
pub open spec fn reviewing_footer(a: App) -> Seq<Seq<(Seq<char>, Color, bool)>> {
    if a.global.show {
        global_footer(a)
    } else if a.explorer.show_full_disk {
        if a.explorer.directory_scanning {
            folder_scanning_footer()
        } else if a.explorer.directory_scan is Some {
            folder_footer(a)
        } else {
            inventory_footer(a)
        }
    } else {
        review_footer(a)
    }
}

/// While a confirmation is asked for. `pending_is_dir` says whether a
/// pending explorer deletion is a folder.
pub open spec fn confirming_footer(a: App, pending_is_dir: bool) -> Seq<Seq<(Seq<char>, Color, bool)>> {
    if a.review.pending_empty_trash {
        seq![
            footer_line("STATUS"@, seq![styled("Destructive · Empty Trash · "@ + match a.review.trash_target {
                Some(t) => decimal_size(t.size_bytes),
                None => "size unavailable"@,
            }, Color::Red)]),
            footer_line("INPUT"@, seq![
                styled("Type EMPTY TRASH: "@, Color::Yellow),
                (input_text(a.screen.confirm_text@), Color::Yellow, true),
            ]),
            footer_line("KEYS"@, cancel_keys("Enter"@, " Confirm exact phrase   "@)),
        ]
    } else {
        match a.global.pending_uninstall {
            Some(tool) => seq![
                footer_line("STATUS"@, seq![styled("Uninstall "@ + manager_label(tool.manager) + " · "@ + tool.name@, Color::Red)]),
                footer_line("MODE"@, seq![styled(if admin_needed(tool.manager) {
                    "Run sudo -v first if admin auth is needed"@
                } else {
                    "Manager command · check dependencies"@
                }, Color::Gray)]),
                footer_line("KEYS"@, cancel_keys("y"@, " Run   "@)),
            ],
            None => match a.explorer.pending_explorer_delete {
                Some(t) => seq![
                    footer_line("STATUS"@, seq![styled("Move "@ + (if pending_is_dir {
                        "folder and all contents"@
                    } else {
                        "file"@
                    }) + " to Trash · "@ + decimal_size(t.size_bytes), Color::Red)]),
                    footer_line("MODE"@, seq![styled("Recoverable via macOS Trash"@, Color::Gray)]),
                    footer_line("KEYS"@, cancel_keys("y"@, " Confirm   "@)),
                ],
                None => if manual_selection(a) {
                    seq![
                        footer_line("STATUS"@, seq![styled("Manual-risk · "@ + decimal(selected_count_spec(a.review)) + " selected · "@
                            + decimal_size(selected_size_spec(a.review) as u64), Color::Red)]),
                        footer_line("INPUT"@, seq![
                            styled("Type FORCE: "@, Color::Yellow),
                            (input_text(a.screen.confirm_text@), Color::Yellow, true),
                        ]),
                        footer_line("KEYS"@, cancel_keys("Enter"@, " Execute   "@)),
                    ]
                } else {
                    seq![
                        footer_line("STATUS"@, seq![styled((if a.screen.dry_run {
                            "Preview · "@
                        } else {
                            "Execute · "@
                        }) + decimal(selected_count_spec(a.review)) + " selected · "@ + decimal_size(
                            selected_size_spec(a.review) as u64,
                        ), if a.screen.dry_run {
                            Color::Cyan
                        } else {
                            Color::Yellow
                        })]),
                        footer_line("MODE"@, seq![styled(if a.screen.dry_run {
                            "No files will change"@
                        } else {
                            "Selected targets will be processed"@
                        }, Color::Gray)]),
                        footer_line("KEYS"@, cancel_keys("y"@, " Confirm   "@)),
                    ]
                },
            },
        }
    }
}

/// Percent of the steps done, rounded down (the product saturates).
pub open spec fn percent_done(completed: usize, total: usize) -> nat {
    if total == 0 {
        0
    } else {
        (if completed * 100 > usize::MAX {
            usize::MAX as nat
        } else {
            (completed * 100) as nat
        }) / (total as nat)
    }
}

/// While work runs; `ms` is the time since it started.
pub open spec fn cleaning_footer(a: App, ms: u64) -> Seq<Seq<(Seq<char>, Color, bool)>> {
    let m = seq![marker(ms)];
    if a.global.uninstalling {
        seq![
            footer_line("STATUS"@, seq![styled("Uninstalling global tool…"@, Color::Magenta)]),
            footer_line("PROGRESS"@, seq![styled(m + " Background command · elapsed "@ + elapsed_text(ms), Color::Gray)]),
            footer_line("KEYS"@, quit_keys()),
        ]
    } else {
        let p = a.progress;
        let target = match p.active_target {
            Some(t) => shorten_spec(t@, 64),
            None => "Waiting for cleanup worker…"@,
        };
        let size = if p.active_target_size == 0 {
            Seq::empty()
        } else {
            " · "@ + decimal_size(p.active_target_size)
        };
        let owner = match p.active_cleaner {
            Some(c) => c@,
            None => "cleaner"@,
        };
        let detail = match p.active_detail {
            Some(d) => shorten_spec(d@, 58),
            None => "worker active"@,
        };
        seq![
            footer_line("STATUS"@, seq![styled(if a.explorer.explorer_deleting {
                m + " Moving selected item to Trash"@
            } else {
                m + " Cleaning "@ + decimal(p.cleaning_completed as nat) + "/"@ + decimal(p.cleaning_total as nat)
                    + " targets · elapsed "@ + elapsed_text(ms)
            }, Color::Magenta)]),
            footer_line("TARGET"@, seq![styled("["@ + owner + "] "@ + target + size, Color::Gray)]),
            footer_line("PROGRESS"@, seq![styled(decimal(percent_done(p.cleaning_completed, p.cleaning_total)) + "% overall · "@ + detail, Color::Gray)]),
            footer_line("KEYS"@, quit_keys()),
        ]
    }
}

/// The footer for the screen `a`; `pending_is_dir` says whether a pending
/// explorer deletion is a folder and `ms` is the time since running work
/// started.
pub open spec fn footer_spec(a: App, pending_is_dir: bool, ms: u64) -> Seq<Seq<(Seq<char>, Color, bool)>> {
    match a.screen.mode {
        Mode::Scanning => scanning_footer(a),
        Mode::Reviewing => reviewing_footer(a),
        Mode::Confirming => confirming_footer(a, pending_is_dir),
        Mode::Cleaning => cleaning_footer(a, ms),
    }
}

// ---------------------------------------------------------------------------
// Building the footer
// ---------------------------------------------------------------------------

fn quit_keys_vec() -> (v: Vec<Span>)
    ensures
        line_view(v) == quit_keys(),
{
    let mut v: Vec<Span> = empty_line();
    push_span(&mut v, key_span("q"));
    push_span(&mut v, raw_span(" Quit"));
    assert(line_view(v) =~= quit_keys());
    v
}

fn cancel_keys_vec(k: &str, t: &str) -> (v: Vec<Span>)
    ensures
        line_view(v) == cancel_keys(k@, t@),
{
    let mut v: Vec<Span> = empty_line();
    push_span(&mut v, key_span(k));
    push_span(&mut v, raw_span(t));
    push_span(&mut v, key_span("n/Esc"));
    push_span(&mut v, raw_span(" Cancel"));
    assert(line_view(v) =~= cancel_keys(k@, t@));
    v
}

fn three(a: Vec<Span>, b: Vec<Span>, c: Vec<Span>) -> (out: Vec<Vec<Span>>)
    ensures
        lines_view(out@) == seq![line_view(a), line_view(b), line_view(c)],
{
    let mut out: Vec<Vec<Span>> = Vec::new();
    push_line(&mut out, a);
    push_line(&mut out, b);
    push_line(&mut out, c);
    assert(lines_view(out@) =~= seq![line_view(a), line_view(b), line_view(c)]);
    out
}

fn number(n: usize) -> (s: String)
    ensures
        s@ == decimal(n as nat),
{
    decimal_string(n as u64)
}

fn scanning_lines(a: &App) -> (out: Vec<Vec<Span>>)
    ensures
        lines_view(out@) == scanning_footer(*a),
{
    let mut status = "Scanning cleaners · ".to_string();
    push_str(&mut status, number(a.review.received_scans).as_str());
    push_str(&mut status, "/");
    push_str(&mut status, number(a.review.expected_scans).as_str());
    let l1 = line_of("STATUS", one(styled_span(status, Color::Cyan)));
    let l2 = line_of("MODE", one(styled_span("Background scan · results stream in".to_string(), Color::Gray)));
    let l3 = line_of("KEYS", quit_keys_vec());
    three(l1, l2, l3)
}

fn global_lines(a: &App) -> (out: Vec<Vec<Span>>)
    ensures
        lines_view(out@) == global_footer(*a),
{
    let status: String = if a.global.scanning {
        "Global tools · scanning providers".to_string()
    } else {
        match &a.global.tools {
            Some(r) => {
                let mut t = "Global tools · ".to_string();
                push_str(&mut t, number(r.tools.len()).as_str());
                push_str(&mut t, " installed · ");
                push_str(&mut t, number(r.errors.len()).as_str());
                push_str(&mut t, " provider warning(s)");
                t
            },
            None => "Global tools · not scanned".to_string(),
        }
    };
    let color = if a.global.scanning {
        Color::Yellow
    } else {
        Color::Green
    };
    let l1 = line_of("STATUS", one(styled_span(shorten(status.as_str(), 58), color)));
    let l2 = line_of("MODE", one(styled_span("Manager-owned command · confirmation required".to_string(), Color::Gray)));
    let mut k: Vec<Span> = empty_line();
    push_span(&mut k, key_span("↑↓"));
    push_span(&mut k, raw_span(" Move   "));
    push_span(&mut k, key_span("x/Enter"));
    push_span(&mut k, raw_span(" Remove   "));
    push_span(&mut k, key_span("r"));
    push_span(&mut k, raw_span(" Reload   "));
    push_span(&mut k, key_span("b"));
    push_span(&mut k, raw_span(" Back"));
    let l3 = line_of("KEYS", k);
    let out = three(l1, l2, l3);
    assert(lines_view(out@) =~~= global_footer(*a));
    out
}

fn folder_scanning_lines() -> (out: Vec<Vec<Span>>)
    ensures
        lines_view(out@) == folder_scanning_footer(),
{
    let l1 = line_of("STATUS", one(styled_span("Scanning folder · Git/status and sizes".to_string(), Color::Yellow)));
    let l2 = line_of("MODE", one(styled_span("Background scan".to_string(), Color::Gray)));
    let mut k: Vec<Span> = empty_line();
    push_span(&mut k, key_span("b"));
    push_span(&mut k, raw_span(" Back   "));
    push_span(&mut k, key_span("q"));
    push_span(&mut k, raw_span(" Quit"));
    let l3 = line_of("KEYS", k);
    let out = three(l1, l2, l3);
    assert(lines_view(out@) =~~= folder_scanning_footer());
    out
}

fn folder_lines(a: &App) -> (out: Vec<Vec<Span>>)
    requires
        a.explorer.directory_scan is Some,
    ensures
        lines_view(out@) == folder_footer(*a),
{
    let status: String = match &a.screen.last_action {
        Some(t) => concat2("Explorer · ", shorten(t.as_str(), 48).as_str()),
        None => {
            let n = match &a.explorer.directory_scan {
                Some(scan) => scan.entries.len(),
                None => 0,
            };
            concat3("Explorer · ", number(n).as_str(), " entries")
        },
    };
    let color = if a.screen.last_action.is_some() {
        Color::Yellow
    } else {
        Color::Green
    };
    let l1 = line_of("STATUS", one(styled_span(status, color)));
    let mut m: Vec<Span> = empty_line();
    push_span(&mut m, styled_span("Folder review · › selected   ".to_string(), Color::Gray));
    push_span(&mut m, key_span("Enter"));
    push_span(&mut m, raw_span(" Open   "));
    push_span(&mut m, key_span("w"));
    push_span(&mut m, raw_span(" Allowlist   "));
    push_span(&mut m, key_span("x"));
    push_span(&mut m, raw_span(" Trash SUGGEST only"));
    let l2 = line_of("MODE", m);
    let mut k: Vec<Span> = empty_line();
    push_span(&mut k, key_span("↑↓"));
    push_span(&mut k, raw_span(" Move   "));
    push_span(&mut k, key_span("b"));
    push_span(&mut k, raw_span(" Back   "));
    push_span(&mut k, key_span("f"));
    push_span(&mut k, raw_span(" Root   "));
    push_span(&mut k, key_span("q"));
    push_span(&mut k, raw_span(" Quit"));
    let l3 = line_of("KEYS", k);
    let out = three(l1, l2, l3);
    assert(lines_view(out@) =~~= folder_footer(*a));
    out
}

fn inventory_lines(a: &App) -> (out: Vec<Vec<Span>>)
    ensures
        lines_view(out@) == inventory_footer(*a),
{
    let status: String = match &a.screen.last_action {
        Some(t) => shorten(t.as_str(), 58),
        None => if a.explorer.full_disk_scanning {
            "Full-disk inventory · scanning root + HOME".to_string()
        } else {
            let n = a.explorer.full_disk_entries().len();
            concat3("Full-disk inventory · ", number(n).as_str(), " entries")
        },
    };
    let color = if a.screen.last_action.is_some() || a.explorer.full_disk_scanning {
        Color::Yellow
    } else {
        Color::Green
    };
    let l1 = line_of("STATUS", one(styled_span(status, color)));
    let mut m: Vec<Span> = empty_line();
    push_span(&mut m, styled_span("Inventory only · › selected   ".to_string(), Color::Gray));
    push_span(&mut m, key_span("Enter"));
    push_span(&mut m, raw_span(" Open/parent   "));
    push_span(&mut m, key_span("b"));
    push_span(&mut m, raw_span(" Targets"));
    let l2 = line_of("MODE", m);
    let mut k: Vec<Span> = empty_line();
    push_span(&mut k, key_span("↑↓"));
    push_span(&mut k, raw_span(" Choose   "));
    push_span(&mut k, key_span("f"));
    push_span(&mut k, raw_span(" Rescan   "));
    push_span(&mut k, key_span("q"));
    push_span(&mut k, raw_span(" Quit"));
    let l3 = line_of("KEYS", k);
    let out = three(l1, l2, l3);
    assert(lines_view(out@) =~~= inventory_footer(*a));
    out
}

/// The count and size of the selection, as the status line shows them.
fn selection_text(a: &App, prefix: &str) -> (s: String)
    requires
        a.review.rows@.len() < usize::MAX,
        selected_size_spec(a.review) <= u64::MAX,
    ensures
        s@ == prefix@ + decimal(selected_count_spec(a.review)) + " selected · "@ + decimal_size(
            selected_size_spec(a.review) as u64,
        ),
{
    let mut s = prefix.to_string();
    push_str(&mut s, number(a.selected_count()).as_str());
    push_str(&mut s, " selected · ");
    push_str(&mut s, format_size_decimal(a.selected_size()).as_str());
    s
}

fn review_lines(a: &App) -> (out: Vec<Vec<Span>>)
    requires
        a.review.rows@.len() < usize::MAX,
        selected_size_spec(a.review) <= u64::MAX,
    ensures
        lines_view(out@) == review_footer(*a),
{
    let status: String = match &a.screen.last_action {
        Some(t) => shorten(t.as_str(), 58),
        None => selection_text(a, "Ready · "),
    };
    let l1 = line_of("STATUS", one(styled_span(status, Color::Green)));
    let mut m: Vec<Span> = empty_line();
    if a.screen.dry_run {
        push_span(&mut m, styled_span("DRY-RUN · no files will change   ".to_string(), Color::Cyan));
    } else {
        push_span(&mut m, styled_span("EXECUTE · targets will be processed   ".to_string(), Color::Yellow));
    }
    push_span(&mut m, key_span("d"));
    push_span(&mut m, raw_span(" Mode   "));
    push_span(&mut m, key_span("Enter"));
    push_span(&mut m, raw_span(" Continue"));
    let l2 = line_of("MODE", m);
    let mut k: Vec<Span> = empty_line();
    push_span(&mut k, key_span("↑↓"));
    push_span(&mut k, raw_span(" Move "));
    push_span(&mut k, key_span("Space"));
    push_span(&mut k, raw_span(" Sel "));
    push_span(&mut k, key_span("a"));
    push_span(&mut k, raw_span(" Safe "));
    push_span(&mut k, key_span("t"));
    push_span(&mut k, raw_span(" Trash "));
    push_span(&mut k, key_span("i"));
    push_span(&mut k, raw_span(" Info "));
    push_span(&mut k, key_span("r"));
    push_span(&mut k, raw_span(" Reload "));
    push_span(&mut k, key_span("f"));
    push_span(&mut k, raw_span(" Full "));
    let available = match &a.progress.update_state {
        UpdateState::Available(_) => true,
        _ => false,
    };
    if available {
        push_span(&mut k, key_span("u"));
        push_span(&mut k, raw_span(" Upgrade "));
    }
    push_span(&mut k, key_span("q"));
    push_span(&mut k, raw_span(" Quit"));
    assert(line_view(k) =~~= review_keys(*a));
    let l3 = line_of("KEYS", k);
    let out = three(l1, l2, l3);
    assert(lines_view(out@) =~~= review_footer(*a));
    out
}

fn input_span(typed: &String) -> (s: Span)
    ensures
        span_view(s) == (input_text(typed@), Color::Yellow, true),
{
    let shown: String = if chars_of(typed.as_str()).len() == 0 {
        "_____".to_string()
    } else {
        typed.clone()
    };
    proof {
        reveal_strlit("");
    }
    span(concat3("[", shown.as_str(), "]"), Color::Yellow, true)
}

fn confirming_lines(a: &App, pending_is_dir: bool) -> (out: Vec<Vec<Span>>)
    requires
        a.review.rows@.len() < usize::MAX,
        selected_size_spec(a.review) <= u64::MAX,
    ensures
        lines_view(out@) == confirming_footer(*a, pending_is_dir),
{
    if a.review.pending_empty_trash {
        let size: String = match &a.review.trash_target {
            Some(t) => format_size_decimal(t.size_bytes),
            None => "size unavailable".to_string(),
        };
        let l1 = line_of("STATUS", one(styled_span(concat2("Destructive · Empty Trash · ", size.as_str()), Color::Red)));
        let mut i: Vec<Span> = empty_line();
        push_span(&mut i, styled_span("Type EMPTY TRASH: ".to_string(), Color::Yellow));
        push_span(&mut i, input_span(&a.screen.confirm_text));
        let l2 = line_of("INPUT", i);
        let l3 = line_of("KEYS", cancel_keys_vec("Enter", " Confirm exact phrase   "));
        let out = three(l1, l2, l3);
        assert(lines_view(out@) =~~= confirming_footer(*a, pending_is_dir));
        return out;
    }
    match &a.global.pending_uninstall {
        Some(tool) => {
            let mut t = "Uninstall ".to_string();
            push_str(&mut t, tool.manager.label());
            push_str(&mut t, " · ");
            push_str(&mut t, tool.name.as_str());
            let l1 = line_of("STATUS", one(styled_span(t, Color::Red)));
            let hint: &str = if tool.requires_admin_authentication() {
                "Run sudo -v first if admin auth is needed"
            } else {
                "Manager command · check dependencies"
            };
            let l2 = line_of("MODE", one(styled_span(hint.to_string(), Color::Gray)));
            let l3 = line_of("KEYS", cancel_keys_vec("y", " Run   "));
            let out = three(l1, l2, l3);
            assert(lines_view(out@) =~~= confirming_footer(*a, pending_is_dir));
            return out;
        },
        None => {},
    }
    match &a.explorer.pending_explorer_delete {
        Some(target) => {
            let kind: &str = if pending_is_dir {
                "folder and all contents"
            } else {
                "file"
            };
            let mut t = "Move ".to_string();
            push_str(&mut t, kind);
            push_str(&mut t, " to Trash · ");
            push_str(&mut t, format_size_decimal(target.size_bytes).as_str());
            let l1 = line_of("STATUS", one(styled_span(t, Color::Red)));
            let l2 = line_of("MODE", one(styled_span("Recoverable via macOS Trash".to_string(), Color::Gray)));
            let l3 = line_of("KEYS", cancel_keys_vec("y", " Confirm   "));
            let out = three(l1, l2, l3);
            assert(lines_view(out@) =~~= confirming_footer(*a, pending_is_dir));
            return out;
        },
        None => {},
    }
    if a.has_manual_selection() {
        let l1 = line_of("STATUS", one(styled_span(selection_text(a, "Manual-risk · "), Color::Red)));
        let mut i: Vec<Span> = empty_line();
        push_span(&mut i, styled_span("Type FORCE: ".to_string(), Color::Yellow));
        push_span(&mut i, input_span(&a.screen.confirm_text));
        let l2 = line_of("INPUT", i);
        let l3 = line_of("KEYS", cancel_keys_vec("Enter", " Execute   "));
        let out = three(l1, l2, l3);
        assert(lines_view(out@) =~~= confirming_footer(*a, pending_is_dir));
        return out;
    }
    let (head, color, mode): (&str, Color, &str) = if a.screen.dry_run {
        ("Preview · ", Color::Cyan, "No files will change")
    } else {
        ("Execute · ", Color::Yellow, "Selected targets will be processed")
    };
    let l1 = line_of("STATUS", one(styled_span(selection_text(a, head), color)));
    let l2 = line_of("MODE", one(styled_span(mode.to_string(), Color::Gray)));
    let l3 = line_of("KEYS", cancel_keys_vec("y", " Confirm   "));
    let out = three(l1, l2, l3);
    assert(lines_view(out@) =~~= confirming_footer(*a, pending_is_dir));
    out
}

fn percent(completed: usize, total: usize) -> (p: usize)
    ensures
        p == percent_done(completed, total),
{
    if total == 0 {
        0
    } else {
        match completed.checked_mul(100) {
            Some(product) => product / total,
            None => usize::MAX / total,
        }
    }
}

fn cleaning_lines(a: &App, ms: u64) -> (out: Vec<Vec<Span>>)
    ensures
        lines_view(out@) == cleaning_footer(*a, ms),
{
    let mut m = String::new();
    crate::text::push_char(&mut m, activity_marker(ms));
    assert(m@ =~= seq![marker(ms)]);
    if a.global.uninstalling {
        let l1 = line_of("STATUS", one(styled_span("Uninstalling global tool…".to_string(), Color::Magenta)));
        let mut t = m.clone();
        push_str(&mut t, " Background command · elapsed ");
        push_str(&mut t, elapsed_label(ms).as_str());
        let l2 = line_of("PROGRESS", one(styled_span(t, Color::Gray)));
        let l3 = line_of("KEYS", quit_keys_vec());
        let out = three(l1, l2, l3);
        assert(lines_view(out@) =~~= cleaning_footer(*a, ms));
        return out;
    }
    let p = &a.progress;
    let mut status = m.clone();
    if a.explorer.explorer_deleting {
        push_str(&mut status, " Moving selected item to Trash");
    } else {
        push_str(&mut status, " Cleaning ");
        push_str(&mut status, number(p.cleaning_completed).as_str());
        push_str(&mut status, "/");
        push_str(&mut status, number(p.cleaning_total).as_str());
        push_str(&mut status, " targets · elapsed ");
        push_str(&mut status, elapsed_label(ms).as_str());
    }
    let target: String = match &p.active_target {
        Some(t) => shorten(t.as_str(), 64),
        None => "Waiting for cleanup worker…".to_string(),
    };
    let owner: String = match &p.active_cleaner {
        Some(c) => c.clone(),
        None => "cleaner".to_string(),
    };
    let detail: String = match &p.active_detail {
        Some(d) => shorten(d.as_str(), 58),
        None => "worker active".to_string(),
    };
    let mut line = "[".to_string();
    push_str(&mut line, owner.as_str());
    push_str(&mut line, "] ");
    push_str(&mut line, target.as_str());
    if p.active_target_size != 0 {
        push_str(&mut line, " · ");
        push_str(&mut line, format_size_decimal(p.active_target_size).as_str());
    }
    proof {
        reveal_strlit("");
    }
    let mut progress = number(percent(p.cleaning_completed, p.cleaning_total));
    push_str(&mut progress, "% overall · ");
    push_str(&mut progress, detail.as_str());
    let mut out: Vec<Vec<Span>> = Vec::new();
    push_line(&mut out, line_of("STATUS", one(styled_span(status, Color::Magenta))));
    push_line(&mut out, line_of("TARGET", one(styled_span(line, Color::Gray))));
    push_line(&mut out, line_of("PROGRESS", one(styled_span(progress, Color::Gray))));
    push_line(&mut out, line_of("KEYS", quit_keys_vec()));
    assert(lines_view(out@) =~~= cleaning_footer(*a, ms));
    out
}

/// The footer of the screen; see [`footer_spec`]. `pending_is_dir` says
/// whether a pending explorer deletion is a folder, `ms` is the time in
/// milliseconds since running work started (0 when none runs).
pub fn footer_lines(a: &App, pending_is_dir: bool, ms: u64) -> (out: Vec<Vec<Span>>)
    requires
        a.review.rows@.len() < usize::MAX,
        selected_size_spec(a.review) <= u64::MAX,
    ensures
        lines_view(out@) == footer_spec(*a, pending_is_dir, ms),
{
    match a.screen.mode {
        Mode::Scanning => scanning_lines(a),
        Mode::Reviewing => {
            if a.global.show {
                global_lines(a)
            } else if a.explorer.show_full_disk {
                if a.explorer.directory_scanning {
                    folder_scanning_lines()
                } else if a.explorer.directory_scan.is_some() {
                    folder_lines(a)
                } else {
                    inventory_lines(a)
                }
            } else {
                review_lines(a)
            }
        },
        Mode::Confirming => confirming_lines(a, pending_is_dir),
        Mode::Cleaning => cleaning_lines(a, ms),
    }
}

} // verus!



