//! The text of the screen's panels: the header, the confirmation dialog,
//! the status sidebar and the explorer lists, as styled lines the caller
//! draws.
use crate::footer::{
    empty_line, input_text, line_view, lines_view, one, push_line, push_span, raw, raw_span, shorten,
    shorten_spec, span, span_view, styled, styled_span, Color, Span,
};
use crate::global::{admin_needed, command_text_spec, manager_label};
use crate::protection::{protected_in, ProtectedRoots};
use crate::scanner::is_protected_path;
use crate::size_format::{decimal_size, format_size_decimal};
use crate::text::{chars_of, concat2, concat3, decimal, decimal_string, push_str};
use crate::model::Category;
use crate::scanner::DiskScanEntry;
use crate::tui::{manual_selection, selected_count_spec, selected_size_spec, App, DiskUsage, Mode, TargetRow, UpdateState};
use crate::footer::pad_right;
use vstd::prelude::*;

verus! {

broadcast use vstd::string::group_string_axioms;

pub(crate) fn number(n: usize) -> (s: String)
    ensures
        s@ == decimal(n as nat),
{
    decimal_string(n as u64)
}

pub(crate) fn plain(t: String) -> (l: Vec<Span>)
    ensures
        line_view(l) == seq![raw(t@)],
{
    one(span(t, Color::Reset, false))
}

// ---------------------------------------------------------------------------
// Header
// ---------------------------------------------------------------------------

/// The screen's title line.
pub open spec fn title_spec(a: App) -> Seq<char> {
    match a.screen.mode {
        Mode::Scanning => " cleanrs — scanning "@ + decimal(a.review.received_scans as nat) + "/"@ + decimal(
            a.review.expected_scans as nat,
        ) + " cleaners "@,
        Mode::Reviewing => if a.global.show {
            " cleanrs — global tools "@
        } else if a.standalone.show {
            " cleanrs — standalone installs "@
        } else if a.explorer.show_full_disk {
            " cleanrs — full-disk explorer "@
        } else {
            " cleanrs — review targets "@
        },
        Mode::Confirming => " cleanrs — confirm "@,
        Mode::Cleaning => if a.explorer.explorer_deleting {
            " cleanrs — moving item to Trash "@
        } else {
            " cleanrs — cleaning "@ + decimal(a.progress.cleaning_completed as nat) + "/"@ + decimal(
                a.progress.cleaning_total as nat,
            ) + " targets "@
        },
    }
}

pub fn screen_title(a: &App) -> (s: String)
    ensures
        s@ == title_spec(*a),
{
    match a.screen.mode {
        Mode::Scanning => {
            let mut s = concat3(" cleanrs — scanning ", number(a.review.received_scans).as_str(), "/");
            push_str(&mut s, number(a.review.expected_scans).as_str());
            push_str(&mut s, " cleaners ");
            s
        },
        Mode::Reviewing => {
            if a.global.show {
                " cleanrs — global tools ".to_string()
            } else if a.standalone.show {
                " cleanrs — standalone installs ".to_string()
            } else if a.explorer.show_full_disk {
                " cleanrs — full-disk explorer ".to_string()
            } else {
                " cleanrs — review targets ".to_string()
            }
        },
        Mode::Confirming => " cleanrs — confirm ".to_string(),
        Mode::Cleaning => {
            if a.explorer.explorer_deleting {
                " cleanrs — moving item to Trash ".to_string()
            } else {
                let mut s = concat3(" cleanrs — cleaning ", number(a.progress.cleaning_completed).as_str(), "/");
                push_str(&mut s, number(a.progress.cleaning_total).as_str());
                push_str(&mut s, " targets ");
                s
            }
        },
    }
}

/// The colour of the title and the footer frame in each phase.
pub open spec fn mode_color_spec(m: Mode) -> Color {
    match m {
        Mode::Scanning => Color::Cyan,
        Mode::Reviewing => Color::Green,
        Mode::Confirming => Color::Yellow,
        Mode::Cleaning => Color::Magenta,
    }
}

pub fn mode_color(m: Mode) -> (c: Color)
    ensures
        c == mode_color_spec(m),
{
    match m {
        Mode::Scanning => Color::Cyan,
        Mode::Reviewing => Color::Green,
        Mode::Confirming => Color::Yellow,
        Mode::Cleaning => Color::Magenta,
    }
}

/// The disk usage line under the title.
pub open spec fn disk_line_spec(d: Option<DiskUsage>) -> Seq<char> {
    match d {
        Some(u) => "Disk /  Used "@ + decimal_size(if u.total_bytes >= u.free_bytes {
            (u.total_bytes - u.free_bytes) as u64
        } else {
            0u64
        }) + "  |  Free "@ + decimal_size(u.free_bytes) + "  |  Total "@ + decimal_size(u.total_bytes),
        None => "Disk /  usage unavailable"@,
    }
}

pub fn disk_line(d: Option<DiskUsage>) -> (s: String)
    ensures
        s@ == disk_line_spec(d),
{
    match d {
        Some(u) => {
            let mut s = concat2("Disk /  Used ", format_size_decimal(u.used_bytes()).as_str());
            push_str(&mut s, "  |  Free ");
            push_str(&mut s, format_size_decimal(u.free_bytes).as_str());
            push_str(&mut s, "  |  Total ");
            push_str(&mut s, format_size_decimal(u.total_bytes).as_str());
            s
        },
        None => "Disk /  usage unavailable".to_string(),
    }
}

// ---------------------------------------------------------------------------
// Confirmation dialog
// ---------------------------------------------------------------------------

/// Whether the pending action removes data for good or from where it is.
pub open spec fn destructive_spec(a: App) -> bool {
    a.review.pending_empty_trash || a.explorer.pending_explorer_delete is Some || a.global.pending_uninstall is Some
        || a.standalone.pending_uninstall is Some
}

pub fn confirmation_is_destructive(a: &App) -> (r: bool)
    ensures
        r == destructive_spec(*a),
{
    a.review.pending_empty_trash || a.explorer.pending_explorer_delete.is_some() || a.global.pending_uninstall.is_some()
        || a.standalone.pending_uninstall.is_some()
}

/// The dialog's title.
pub open spec fn dialog_title(a: App) -> Seq<char> {
    if destructive_spec(a) {
        " Confirm destructive action "@
    } else {
        " Confirm "@
    }
}

pub open spec fn heading(t: Seq<char>, c: Color) -> Seq<(Seq<char>, Color, bool)> {
    seq![(t, c, true)]
}

pub open spec fn text_line(t: Seq<char>) -> Seq<(Seq<char>, Color, bool)> {
    seq![raw(t)]
}

/// The dialog's lines. `pending_is_dir` says whether a pending explorer
/// deletion is a folder; `protected` is the platform's table of protected
/// trees.
pub open spec fn dialog_spec(a: App, pending_is_dir: bool, protected: ProtectedRoots) -> Seq<Seq<(Seq<char>, Color, bool)>> {
    if a.review.pending_empty_trash {
        seq![
            heading("EMPTY TRASH"@, Color::Red),
            text_line("This will remove everything inside ~/.Trash ("@ + match a.review.trash_target {
                Some(t) => decimal_size(t.size_bytes),
                None => "size unavailable"@,
            } + ")."@),
            text_line("This is irreversible from cleanrs."@),
            text_line("Type EMPTY TRASH exactly, then press [enter]."@),
            text_line("Input: "@ + input_text(a.screen.confirm_text@)),
        ]
    } else {
        match a.global.pending_uninstall {
            Some(tool) => seq![
                heading("Uninstall global tool"@, Color::Red),
                text_line(manager_label(tool.manager) + " · "@ + tool.name@ + match tool.version {
                    Some(v) => " · "@ + v@,
                    None => Seq::empty(),
                }),
                text_line("Command: "@ + command_text_spec(tool.manager, tool.name@)),
                text_line(Seq::empty()),
                text_line("This uses the package manager's official uninstall flow."@),
            ] + (if admin_needed(tool.manager) {
                seq![
                    seq![styled("Administrator password may be required."@, Color::Yellow)],
                    text_line("Run sudo -v in another Terminal first; cleanrs never captures passwords."@),
                ]
            } else {
                Seq::empty()
            }) + seq![
                text_line("Check dependencies first; Homebrew may remove linked dependents."@),
                text_line("Press [y] to execute or [n]/[esc] to cancel."@),
            ],
            None => match a.standalone.pending_uninstall {
                Some(tool) => seq![
                    heading("Remove standalone binary"@, Color::Red),
                    text_line(tool.name@ + " · "@ + tool.path@),
                    text_line("Estimated size: "@ + decimal_size(tool.size_bytes)),
                    text_line(Seq::empty()),
                    text_line("Only this exact file or symlink will move to Trash."@),
                    text_line("The scan cannot prove installer provenance; review the path before continuing."@),
                    text_line("Press [y] to confirm or [n]/[esc] to cancel."@),
                ],
                None => match a.explorer.pending_explorer_delete {
                    Some(t) => seq![
                        heading("Move to Trash"@, Color::Red),
                        text_line((if pending_is_dir {
                            "folder and all contents"@
                        } else {
                            "file"@
                        }) + ": "@ + t.path@),
                        text_line("Estimated size: "@ + decimal_size(t.size_bytes)),
                    ] + (if protected_in(protected, t.path@) {
                        seq![seq![styled("Protected-area item: verify it is stale and not in use."@, Color::Yellow)]]
                    } else {
                        Seq::empty()
                    }) + seq![
                        text_line(Seq::empty()),
                        text_line("This is recoverable from the macOS Trash."@),
                        text_line("Press [y] to confirm or [n]/[esc] to cancel."@),
                    ],
                    None => if manual_selection(a) {
                        seq![
                            heading("Manual-risk cleanup"@, Color::Red),
                            text_line("Type FORCE in the footer, then press [enter]."@),
                            text_line("Selected: "@ + decimal(selected_count_spec(a.review)) + " target(s) · "@
                                + decimal_size(selected_size_spec(a.review) as u64)),
                        ]
                    } else {
                        seq![
                            heading(if a.screen.dry_run {
                                "Preview cleanup"@
                            } else {
                                "Execute cleanup"@
                            }, if a.screen.dry_run {
                                Color::Cyan
                            } else {
                                Color::Yellow
                            }),
                            text_line(decimal(selected_count_spec(a.review)) + " selected target(s) · "@ + decimal_size(
                                selected_size_spec(a.review) as u64,
                            )),
                            text_line(if a.screen.dry_run {
                                "No files will change in preview mode."@
                            } else {
                                "Selected targets will be moved/processed."@
                            }),
                            text_line("Press [y] to confirm or [n]/[esc] to cancel."@),
                        ]
                    },
                },
            },
        }
    }
}

pub fn dialog_title_text(a: &App) -> (s: &'static str)
    ensures
        s@ == dialog_title(*a),
{
    if confirmation_is_destructive(a) {
        " Confirm destructive action "
    } else {
        " Confirm "
    }
}

pub(crate) fn bold_line(t: &str, c: Color) -> (l: Vec<Span>)
    ensures
        line_view(l) == heading(t@, c),
{
    one(span(t.to_string(), c, true))
}

pub(crate) fn text_of(t: &str) -> (l: Vec<Span>)
    ensures
        line_view(l) == text_line(t@),
{
    plain(t.to_string())
}

pub(crate) fn blank() -> (l: Vec<Span>)
    ensures
        line_view(l) == text_line(Seq::empty()),
{
    proof {
        reveal_strlit("");
    }
    plain(String::new())
}

fn input_shown(typed: &String) -> (s: String)
    ensures
        s@ == input_text(typed@),
{
    let shown: String = if chars_of(typed.as_str()).len() == 0 {
        "_____".to_string()
    } else {
        typed.clone()
    };
    proof {
        reveal_strlit("");
    }
    concat3("[", shown.as_str(), "]")
}

/// The confirmation dialog's lines; see [`dialog_spec`].
pub fn dialog_lines(a: &App, pending_is_dir: bool, protected: &ProtectedRoots) -> (out: Vec<Vec<Span>>)
    requires
        a.review.rows@.len() < usize::MAX,
        selected_size_spec(a.review) <= u64::MAX,
    ensures
        lines_view(out@) =~~= dialog_spec(*a, pending_is_dir, *protected),
{
    let mut out: Vec<Vec<Span>> = Vec::new();
    if a.review.pending_empty_trash {
        let size: String = match &a.review.trash_target {
            Some(t) => format_size_decimal(t.size_bytes),
            None => "size unavailable".to_string(),
        };
        push_line(&mut out, bold_line("EMPTY TRASH", Color::Red));
        push_line(&mut out, plain(concat3("This will remove everything inside ~/.Trash (", size.as_str(), ").")));
        push_line(&mut out, text_of("This is irreversible from cleanrs."));
        push_line(&mut out, text_of("Type EMPTY TRASH exactly, then press [enter]."));
        push_line(&mut out, plain(concat2("Input: ", input_shown(&a.screen.confirm_text).as_str())));
        assert(lines_view(out@) =~~= dialog_spec(*a, pending_is_dir, *protected));
        return out;
    }
    match &a.global.pending_uninstall {
        Some(tool) => {
            let mut t = concat3(tool.manager.label(), " · ", tool.name.as_str());
            match &tool.version {
                Some(v) => {
                    push_str(&mut t, " · ");
                    push_str(&mut t, v.as_str());
                },
                None => {},
            }
            proof {
                reveal_strlit("");
            }
            push_line(&mut out, bold_line("Uninstall global tool", Color::Red));
            push_line(&mut out, plain(t));
            push_line(&mut out, plain(concat2("Command: ", tool.uninstall_command().as_str())));
            push_line(&mut out, blank());
            push_line(&mut out, text_of("This uses the package manager's official uninstall flow."));
            if tool.requires_admin_authentication() {
                push_line(&mut out, one(styled_span("Administrator password may be required.".to_string(), Color::Yellow)));
                push_line(&mut out, text_of("Run sudo -v in another Terminal first; cleanrs never captures passwords."));
            }
            push_line(&mut out, text_of("Check dependencies first; Homebrew may remove linked dependents."));
            push_line(&mut out, text_of("Press [y] to execute or [n]/[esc] to cancel."));
            assert(lines_view(out@) =~~= dialog_spec(*a, pending_is_dir, *protected));
            return out;
        },
        None => {},
    }
    match &a.standalone.pending_uninstall {
        Some(tool) => {
            push_line(&mut out, bold_line("Remove standalone binary", Color::Red));
            push_line(&mut out, plain(concat3(tool.name.as_str(), " · ", tool.path.as_str())));
            push_line(&mut out, plain(concat2("Estimated size: ", format_size_decimal(tool.size_bytes).as_str())));
            push_line(&mut out, blank());
            push_line(&mut out, text_of("Only this exact file or symlink will move to Trash."));
            push_line(&mut out, text_of("The scan cannot prove installer provenance; review the path before continuing."));
            push_line(&mut out, text_of("Press [y] to confirm or [n]/[esc] to cancel."));
            assert(lines_view(out@) =~~= dialog_spec(*a, pending_is_dir, *protected));
            return out;
        },
        None => {},
    }
    match &a.explorer.pending_explorer_delete {
        Some(t) => {
            let kind: &str = if pending_is_dir {
                "folder and all contents"
            } else {
                "file"
            };
            push_line(&mut out, bold_line("Move to Trash", Color::Red));
            push_line(&mut out, plain(concat3(kind, ": ", t.path.as_str())));
            push_line(&mut out, plain(concat2("Estimated size: ", format_size_decimal(t.size_bytes).as_str())));
            if is_protected_path(t.path.as_str(), protected) {
                push_line(
                    &mut out,
                    one(styled_span("Protected-area item: verify it is stale and not in use.".to_string(), Color::Yellow)),
                );
            }
            push_line(&mut out, blank());
            push_line(&mut out, text_of("This is recoverable from the macOS Trash."));
            push_line(&mut out, text_of("Press [y] to confirm or [n]/[esc] to cancel."));
            assert(lines_view(out@) =~~= dialog_spec(*a, pending_is_dir, *protected));
            return out;
        },
        None => {},
    }
    let mut sel = number(a.selected_count());
    let size = format_size_decimal(a.selected_size());
    if a.has_manual_selection() {
        push_line(&mut out, bold_line("Manual-risk cleanup", Color::Red));
        push_line(&mut out, text_of("Type FORCE in the footer, then press [enter]."));
        let mut t = concat3("Selected: ", sel.as_str(), " target(s) · ");
        push_str(&mut t, size.as_str());
        push_line(&mut out, plain(t));
        assert(lines_view(out@) =~~= dialog_spec(*a, pending_is_dir, *protected));
        return out;
    }
    if a.screen.dry_run {
        push_line(&mut out, bold_line("Preview cleanup", Color::Cyan));
    } else {
        push_line(&mut out, bold_line("Execute cleanup", Color::Yellow));
    }
    push_str(&mut sel, " selected target(s) · ");
    push_str(&mut sel, size.as_str());
    push_line(&mut out, plain(sel));
    if a.screen.dry_run {
        push_line(&mut out, text_of("No files will change in preview mode."));
    } else {
        push_line(&mut out, text_of("Selected targets will be moved/processed."));
    }
    push_line(&mut out, text_of("Press [y] to confirm or [n]/[esc] to cancel."));
    assert(lines_view(out@) =~~= dialog_spec(*a, pending_is_dir, *protected));
    out
}

// ---------------------------------------------------------------------------
// Status sidebar
// ---------------------------------------------------------------------------

pub(crate) fn append_lines(out: &mut Vec<Vec<Span>>, part: Vec<Vec<Span>>)
    ensures
        lines_view(final(out)@) == lines_view(old(out)@) + lines_view(part@),
{
    let mut part = part;
    let ghost a = lines_view(out@);
    let ghost b = lines_view(part@);
    out.append(&mut part);
    assert(lines_view(out@) =~= a + b);
}

/// The number of rows in category `c`.
pub open spec fn category_count(rows: Seq<TargetRow>, c: Category) -> nat
    decreases rows.len(),
{
    if rows.len() == 0 {
        0
    } else {
        category_count(rows.drop_last(), c) + if rows.last().category == c {
            1nat
        } else {
            0nat
        }
    }
}

/// The categories with their names, in the order of their names.
pub open spec fn category_names() -> Seq<(Category, Seq<char>)> {
    seq![
        (Category::AiAgent, "AiAgent"@),
        (Category::Container, "Container"@),
        (Category::Ide, "Ide"@),
        (Category::ManualReview, "ManualReview"@),
        (Category::PackageManager, "PackageManager"@),
        (Category::SystemCache, "SystemCache"@),
    ]
}

/// One line per category that has rows: its name and how many.
pub open spec fn category_lines(names: Seq<(Category, Seq<char>)>, rows: Seq<TargetRow>) -> Seq<Seq<(Seq<char>, Color, bool)>>
    decreases names.len(),
{
    if names.len() == 0 {
        Seq::empty()
    } else {
        let rest = category_lines(names.drop_last(), rows);
        let (c, n) = names.last();
        let k = category_count(rows, c);
        if k > 0 {
            rest.push(seq![styled(pad_right(n, 14), Color::Gray), (decimal(k), Color::Reset, true)])
        } else {
            rest
        }
    }
}

fn same_category(a: Category, b: Category) -> (r: bool)
    ensures
        r == (a == b),
{
    match (a, b) {
        (Category::PackageManager, Category::PackageManager) => true,
        (Category::SystemCache, Category::SystemCache) => true,
        (Category::Container, Category::Container) => true,
        (Category::Ide, Category::Ide) => true,
        (Category::AiAgent, Category::AiAgent) => true,
        (Category::ManualReview, Category::ManualReview) => true,
        _ => false,
    }
}

fn count_category(rows: &Vec<TargetRow>, c: Category) -> (n: usize)
    ensures
        n == category_count(rows@, c),
{
    let mut n: usize = 0;
    for i in 0..rows.len()
        invariant
            n == category_count(rows@.take(i as int), c),
            n <= i,
    {
        assert(rows@.take(i + 1).drop_last() =~= rows@.take(i as int));
        if same_category(rows[i].category, c) {
            n = n + 1;
        }
    }
    assert(rows@.take(rows.len() as int) =~= rows@);
    n
}

pub(crate) fn padded(t: &str, width: usize) -> (s: String)
    requires
        width <= 64,
    ensures
        s@ == pad_right(t@, width as nat),
{
    let mut s = t.to_string();
    let n = chars_of(t).len();
    if n < width {
        let mut i: usize = n;
        while i < width
            invariant
                n <= i <= width,
                n == t@.len(),
                s@ == t@ + crate::footer::spaces((i - n) as nat),
            decreases width - i,
        {
            push_str(&mut s, " ");
            proof {
                reveal_strlit(" ");
            }
            assert(s@ =~= t@ + crate::footer::spaces((i + 1 - n) as nat));
            i = i + 1;
        }
    }
    s
}

fn category_lines_exec(rows: &Vec<TargetRow>) -> (out: Vec<Vec<Span>>)
    ensures
        lines_view(out@) =~~= category_lines(category_names(), rows@),
{
    let names: Vec<(Category, &'static str)> = vec![
        (Category::AiAgent, "AiAgent"),
        (Category::Container, "Container"),
        (Category::Ide, "Ide"),
        (Category::ManualReview, "ManualReview"),
        (Category::PackageManager, "PackageManager"),
        (Category::SystemCache, "SystemCache"),
    ];
    let ghost nv = names@.map_values(|e: (Category, &'static str)| (e.0, e.1@));
    assert(nv =~= category_names());
    let mut out: Vec<Vec<Span>> = Vec::new();
    for i in 0..names.len()
        invariant
            nv == names@.map_values(|e: (Category, &'static str)| (e.0, e.1@)),
            lines_view(out@) =~~= category_lines(nv.take(i as int), rows@),
    {
        assert(nv.take(i + 1).drop_last() =~= nv.take(i as int));
        let (c, name) = names[i];
        let k = count_category(rows, c);
        if k > 0 {
            let mut l = empty_line();
            push_span(&mut l, styled_span(padded(name, 14), Color::Gray));
            push_span(&mut l, span(number(k), Color::Reset, true));
            push_line(&mut out, l);
        }
    }
    assert(nv.take(names.len() as int) =~= nv);
    out
}

/// The rows of a tool list that may be removed.
pub open spec fn removable_count(tools: Seq<crate::global::GlobalTool>) -> nat
    decreases tools.len(),
{
    if tools.len() == 0 {
        0
    } else {
        removable_count(tools.drop_last()) + if tools.last().can_uninstall {
            1nat
        } else {
            0nat
        }
    }
}

/// The total size of inventory entries.
pub open spec fn entries_sum(s: Seq<DiskScanEntry>) -> nat
    decreases s.len(),
{
    if s.len() == 0 {
        0
    } else {
        entries_sum(s.drop_last()) + s.last().size_bytes as nat
    }
}

/// The whole-disk totals fit in 64 bits.
pub open spec fn storage_fits(a: App) -> bool {
    match a.explorer.full_disk {
        Some(r) => entries_sum(r.root_entries@) <= u64::MAX && entries_sum(r.home_entries@) <= u64::MAX
            && entries_sum(r.readonly_entries@) <= u64::MAX,
        None => true,
    }
}

/// The number of explorer entries that carry a suggestion.
pub open spec fn suggestion_count(s: Seq<crate::scanner::DirectoryScanEntry>) -> nat
    decreases s.len(),
{
    if s.len() == 0 {
        0
    } else {
        suggestion_count(s.drop_last()) + if s.last().suggestion is Some {
            1nat
        } else {
            0nat
        }
    }
}

pub open spec fn version_part(a: App) -> Seq<Seq<(Seq<char>, Color, bool)>> {
    match a.progress.update_state {
        UpdateState::UpToDate => Seq::empty(),
        _ => seq![
            text_line(Seq::empty()),
            heading("VERSION"@, Color::Cyan),
            text_line("Current: v"@ + a.progress.current_version@),
            match a.progress.update_state {
                UpdateState::Available(u) => seq![styled("New v"@ + u.latest_version@ + " · press [u]"@, Color::Green)],
                UpdateState::Unavailable(e) => seq![styled("Check unavailable · "@ + shorten_spec(e@, 24), Color::DarkGray)],
                _ => seq![styled("Checking for updates…"@, Color::Yellow)],
            },
            text_line(Seq::empty()),
        ],
    }
}

pub open spec fn global_part(a: App) -> Seq<Seq<(Seq<char>, Color, bool)>> {
    seq![heading("GLOBAL TOOLS"@, Color::Cyan)] + if a.global.scanning {
        seq![seq![styled("Scanning global tools…"@, Color::Yellow)]]
    } else {
        match a.global.tools {
            Some(r) => seq![
                text_line("Installed: "@ + decimal(r.tools@.len())),
                text_line("Removable: "@ + decimal(removable_count(r.tools@))),
            ] + if r.errors@.len() > 0 {
                seq![seq![styled("Provider warnings: "@ + decimal(r.errors@.len()), Color::Yellow)]]
            } else {
                Seq::empty()
            },
            None => seq![text_line("Press [g] to inspect"@)],
        }
    }
}

pub open spec fn storage_part(a: App) -> Seq<Seq<(Seq<char>, Color, bool)>> {
    seq![text_line(Seq::empty()), heading("STORAGE"@, Color::Cyan)] + if a.explorer.full_disk_scanning {
        if a.screen.mode == Mode::Cleaning {
            seq![
                seq![styled("Background scan · read-only"@, Color::Yellow)],
                seq![styled("Cleanup independent · snapshot may be stale"@, Color::Gray)],
            ]
        } else {
            seq![seq![styled("Scanning root + HOME…"@, Color::Yellow)]]
        }
    } else {
        match a.explorer.full_disk_error {
            Some(e) => seq![text_line("Error: "@ + e@)],
            None => match a.explorer.full_disk {
                Some(r) => seq![
                    text_line("Top root: "@ + decimal_size(entries_sum(r.root_entries@) as u64)),
                    text_line("Top HOME: "@ + decimal_size(entries_sum(r.home_entries@) as u64)),
                    text_line("Protected: "@ + decimal_size(entries_sum(r.readonly_entries@) as u64)),
                    text_line("Blocked: "@ + decimal(r.inaccessible_paths as nat)),
                ],
                None => seq![text_line("Press [f] to scan"@)],
            },
        }
    }
}

pub open spec fn git_line(is_repo: bool, dirty: bool) -> Seq<(Seq<char>, Color, bool)> {
    if !is_repo {
        seq![styled("Git  NOT A REPO"@, Color::Gray)]
    } else if dirty {
        seq![styled("Git  DIRTY · preserve changes"@, Color::Yellow)]
    } else {
        seq![styled("Git  CLEAN"@, Color::Green)]
    }
}

pub open spec fn explorer_part(a: App) -> Seq<Seq<(Seq<char>, Color, bool)>> {
    if !a.explorer.show_full_disk {
        Seq::empty()
    } else {
        seq![text_line(Seq::empty()), heading("EXPLORER"@, Color::Cyan)] + if a.explorer.directory_scanning {
            seq![seq![styled("Scanning folder…"@, Color::Yellow)]]
        } else {
            match a.explorer.directory_scan {
                Some(r) => seq![
                    seq![styled(r.path@, Color::Gray)],
                    git_line(r.is_git_repo, r.git_dirty),
                    seq![styled("Suggestions  "@, Color::Gray), (decimal(suggestion_count(r.entries@)), Color::Yellow, true)],
                ],
                None => seq![seq![styled("› selects · Enter opens folder/file parent"@, Color::Gray)]],
            }
        }
    }
}

pub open spec fn action_part(a: App) -> Seq<Seq<(Seq<char>, Color, bool)>> {
    match a.screen.last_action {
        Some(t) => seq![text_line(Seq::empty()), seq![styled(t@, Color::Yellow)]],
        None => Seq::empty(),
    }
}

/// The status sidebar: rows per category, the selection and the run mode,
/// the release check (unless up to date), the global tools, the storage
/// inventory, the explorer (when open) and the last message.
pub open spec fn sidebar_spec(a: App) -> Seq<Seq<(Seq<char>, Color, bool)>> {
    seq![heading("CLEANUP"@, Color::Cyan)] + category_lines(category_names(), a.review.rows@) + seq![
        text_line(Seq::empty()),
        seq![styled("Selected  "@, Color::Gray), (decimal(selected_count_spec(a.review)), Color::Green, true)],
        seq![styled("Size      "@, Color::Gray), (decimal_size(selected_size_spec(a.review) as u64), Color::Reset, true)],
        seq![styled("Mode      "@, Color::Gray), (if a.screen.dry_run {
            "DRY-RUN"@
        } else {
            "EXECUTE"@
        }, if a.screen.dry_run {
            Color::Cyan
        } else {
            Color::Yellow
        }, true)],
    ] + version_part(a) + global_part(a) + storage_part(a) + explorer_part(a) + action_part(a)
}

fn version_lines(a: &App) -> (out: Vec<Vec<Span>>)
    ensures
        lines_view(out@) =~~= version_part(*a),
{
    let mut out: Vec<Vec<Span>> = Vec::new();
    let status: Option<Span> = match &a.progress.update_state {
        UpdateState::UpToDate => None,
        UpdateState::Available(u) => Some(styled_span(concat3("New v", u.latest_version.as_str(), " · press [u]"), Color::Green)),
        UpdateState::Unavailable(e) => Some(styled_span(concat2("Check unavailable · ", shorten(e.as_str(), 24).as_str()), Color::DarkGray)),
        UpdateState::Checking => Some(styled_span("Checking for updates…".to_string(), Color::Yellow)),
    };
    match status {
        None => {
            assert(lines_view(out@) =~~= version_part(*a));
        },
        Some(st) => {
            push_line(&mut out, blank());
            push_line(&mut out, bold_line("VERSION", Color::Cyan));
            push_line(&mut out, plain(concat2("Current: v", a.progress.current_version.as_str())));
            push_line(&mut out, one(st));
            push_line(&mut out, blank());
            assert(lines_view(out@) =~~= version_part(*a));
        },
    }
    out
}

fn removable(tools: &Vec<crate::global::GlobalTool>) -> (n: usize)
    ensures
        n == removable_count(tools@),
{
    let mut n: usize = 0;
    for i in 0..tools.len()
        invariant
            n == removable_count(tools@.take(i as int)),
            n <= i,
    {
        assert(tools@.take(i + 1).drop_last() =~= tools@.take(i as int));
        if tools[i].can_uninstall {
            n = n + 1;
        }
    }
    assert(tools@.take(tools.len() as int) =~= tools@);
    n
}

fn global_tool_lines(a: &App) -> (out: Vec<Vec<Span>>)
    ensures
        lines_view(out@) =~~= global_part(*a),
{
    let mut out: Vec<Vec<Span>> = Vec::new();
    push_line(&mut out, bold_line("GLOBAL TOOLS", Color::Cyan));
    if a.global.scanning {
        push_line(&mut out, one(styled_span("Scanning global tools…".to_string(), Color::Yellow)));
    } else {
        match &a.global.tools {
            Some(r) => {
                push_line(&mut out, plain(concat2("Installed: ", number(r.tools.len()).as_str())));
                push_line(&mut out, plain(concat2("Removable: ", number(removable(&r.tools)).as_str())));
                if r.errors.len() > 0 {
                    push_line(
                        &mut out,
                        one(styled_span(concat2("Provider warnings: ", number(r.errors.len()).as_str()), Color::Yellow)),
                    );
                }
            },
            None => {
                push_line(&mut out, text_of("Press [g] to inspect"));
            },
        }
    }
    assert(lines_view(out@) =~~= global_part(*a));
    out
}

proof fn lemma_entries_prefix(s: Seq<DiskScanEntry>, k: int)
    requires
        0 <= k <= s.len(),
    ensures
        entries_sum(s.take(k)) <= entries_sum(s),
    decreases s.len() - k,
{
    if k < s.len() {
        lemma_entries_prefix(s, k + 1);
        assert(s.take(k + 1).drop_last() =~= s.take(k));
    } else {
        assert(s.take(k) =~= s);
    }
}

/// The total size of inventory entries, when it fits in 64 bits.
pub fn entries_total(entries: &Vec<DiskScanEntry>) -> (r: Option<u64>)
    ensures
        match r {
            Some(n) => n == entries_sum(entries@),
            None => entries_sum(entries@) > u64::MAX,
        },
{
    let mut total: u64 = 0;
    for i in 0..entries.len()
        invariant
            total == entries_sum(entries@.take(i as int)),
    {
        assert(entries@.take(i + 1).drop_last() =~= entries@.take(i as int));
        let size = entries[i].size_bytes;
        if size > u64::MAX - total {
            proof {
                lemma_entries_prefix(entries@, i + 1);
            }
            return None;
        }
        total = total + size;
    }
    assert(entries@.take(entries.len() as int) =~= entries@);
    Some(total)
}

impl App {
    /// Whether the whole-disk totals that the sidebar shows fit in 64 bits.
    pub fn storage_totals_fit(&self) -> (r: bool)
        ensures
            r == storage_fits(*self),
    {
        match &self.explorer.full_disk {
            Some(r) => entries_total(&r.root_entries).is_some() && entries_total(&r.home_entries).is_some()
                && entries_total(&r.readonly_entries).is_some(),
            None => true,
        }
    }
}

pub(crate) fn total_of(entries: &Vec<DiskScanEntry>) -> (n: u64)
    requires
        entries_sum(entries@) <= u64::MAX,
    ensures
        n == entries_sum(entries@),
{
    match entries_total(entries) {
        Some(n) => n,
        None => 0,
    }
}

fn storage_lines(a: &App) -> (out: Vec<Vec<Span>>)
    requires
        storage_fits(*a),
    ensures
        lines_view(out@) =~~= storage_part(*a),
{
    let mut out: Vec<Vec<Span>> = Vec::new();
    push_line(&mut out, blank());
    push_line(&mut out, bold_line("STORAGE", Color::Cyan));
    if a.explorer.full_disk_scanning {
        let cleaning = match a.screen.mode {
            Mode::Cleaning => true,
            _ => false,
        };
        if cleaning {
            push_line(&mut out, one(styled_span("Background scan · read-only".to_string(), Color::Yellow)));
            push_line(&mut out, one(styled_span("Cleanup independent · snapshot may be stale".to_string(), Color::Gray)));
        } else {
            push_line(&mut out, one(styled_span("Scanning root + HOME…".to_string(), Color::Yellow)));
        }
    } else {
        match &a.explorer.full_disk_error {
            Some(e) => {
                push_line(&mut out, plain(concat2("Error: ", e.as_str())));
            },
            None => match &a.explorer.full_disk {
                Some(r) => {
                    push_line(&mut out, plain(concat2("Top root: ", format_size_decimal(total_of(&r.root_entries)).as_str())));
                    push_line(&mut out, plain(concat2("Top HOME: ", format_size_decimal(total_of(&r.home_entries)).as_str())));
                    push_line(
                        &mut out,
                        plain(concat2("Protected: ", format_size_decimal(total_of(&r.readonly_entries)).as_str())),
                    );
                    push_line(&mut out, plain(concat2("Blocked: ", number(r.inaccessible_paths).as_str())));
                },
                None => {
                    push_line(&mut out, text_of("Press [f] to scan"));
                },
            },
        }
    }
    assert(lines_view(out@) =~~= storage_part(*a));
    out
}

fn suggestions(entries: &Vec<crate::scanner::DirectoryScanEntry>) -> (n: usize)
    ensures
        n == suggestion_count(entries@),
{
    let mut n: usize = 0;
    for i in 0..entries.len()
        invariant
            n == suggestion_count(entries@.take(i as int)),
            n <= i,
    {
        assert(entries@.take(i + 1).drop_last() =~= entries@.take(i as int));
        if entries[i].suggestion.is_some() {
            n = n + 1;
        }
    }
    assert(entries@.take(entries.len() as int) =~= entries@);
    n
}

fn explorer_lines(a: &App) -> (out: Vec<Vec<Span>>)
    ensures
        lines_view(out@) =~~= explorer_part(*a),
{
    let mut out: Vec<Vec<Span>> = Vec::new();
    if !a.explorer.show_full_disk {
        assert(lines_view(out@) =~~= explorer_part(*a));
        return out;
    }
    push_line(&mut out, blank());
    push_line(&mut out, bold_line("EXPLORER", Color::Cyan));
    if a.explorer.directory_scanning {
        push_line(&mut out, one(styled_span("Scanning folder…".to_string(), Color::Yellow)));
    } else {
        match &a.explorer.directory_scan {
            Some(r) => {
                push_line(&mut out, one(styled_span(r.path.clone(), Color::Gray)));
                let git = if !r.is_git_repo {
                    styled_span("Git  NOT A REPO".to_string(), Color::Gray)
                } else if r.git_dirty {
                    styled_span("Git  DIRTY · preserve changes".to_string(), Color::Yellow)
                } else {
                    styled_span("Git  CLEAN".to_string(), Color::Green)
                };
                push_line(&mut out, one(git));
                let mut l = empty_line();
                push_span(&mut l, styled_span("Suggestions  ".to_string(), Color::Gray));
                push_span(&mut l, span(number(suggestions(&r.entries)), Color::Yellow, true));
                push_line(&mut out, l);
            },
            None => {
                push_line(&mut out, one(styled_span("› selects · Enter opens folder/file parent".to_string(), Color::Gray)));
            },
        }
    }
    assert(lines_view(out@) =~~= explorer_part(*a));
    out
}

/// The status sidebar; see [`sidebar_spec`].
pub fn sidebar_lines(a: &App) -> (out: Vec<Vec<Span>>)
    requires
        a.review.rows@.len() < usize::MAX,
        selected_size_spec(a.review) <= u64::MAX,
        storage_fits(*a),
    ensures
        lines_view(out@) =~~= sidebar_spec(*a),
{
    let mut out: Vec<Vec<Span>> = Vec::new();
    push_line(&mut out, bold_line("CLEANUP", Color::Cyan));
    append_lines(&mut out, category_lines_exec(&a.review.rows));
    push_line(&mut out, blank());
    let mut l = empty_line();
    push_span(&mut l, styled_span("Selected  ".to_string(), Color::Gray));
    push_span(&mut l, span(number(a.selected_count()), Color::Green, true));
    push_line(&mut out, l);
    let mut l = empty_line();
    push_span(&mut l, styled_span("Size      ".to_string(), Color::Gray));
    push_span(&mut l, span(format_size_decimal(a.selected_size()), Color::Reset, true));
    push_line(&mut out, l);
    let mut l = empty_line();
    push_span(&mut l, styled_span("Mode      ".to_string(), Color::Gray));
    if a.screen.dry_run {
        push_span(&mut l, span("DRY-RUN".to_string(), Color::Cyan, true));
    } else {
        push_span(&mut l, span("EXECUTE".to_string(), Color::Yellow, true));
    }
    push_line(&mut out, l);
    append_lines(&mut out, version_lines(a));
    append_lines(&mut out, global_tool_lines(a));
    append_lines(&mut out, storage_lines(a));
    append_lines(&mut out, explorer_lines(a));
    match &a.screen.last_action {
        Some(t) => {
            push_line(&mut out, blank());
            push_line(&mut out, one(styled_span(t.clone(), Color::Yellow)));
        },
        None => {},
    }
    assert(lines_view(out@) =~~= sidebar_spec(*a));
    out
}

} // verus!

