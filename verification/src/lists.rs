//! The list panels of the screen as styled text: every item is a few
//! lines, and the item under the cursor is marked by its index.
use crate::footer::{
    empty_line, line_view, lines_view, one, pad_right, push_line, push_span, raw, shorten, shorten_spec, span,
    styled, styled_span, Color, Span,
};
use crate::global::{manager_label, GlobalTool};
use crate::panels::{bold_line, entries_sum, heading, number, padded, plain, storage_fits, text_line, text_of, total_of};
use crate::target_list::{wrap_spec, wrap_text, description_width};
use crate::size_format::{decimal_size, format_size_decimal};
use crate::standalone::StandaloneTool;
use crate::text::{concat2, concat3, decimal, push_str};
use crate::tui::{App, Review};
use crate::target_list::{checkbox, item_spec, target_item};
use crate::report::ReadOnlyTarget;
use crate::scanner::{DirectoryScanEntry, DiskScanEntry};
use crate::tui::full_disk_entries_spec;
use vstd::prelude::*;

verus! {

broadcast use vstd::string::group_string_axioms;

/// A list: its items (each a few lines) and the item under the cursor.
pub struct ListPanel {
    pub items: Vec<Vec<Vec<Span>>>,
    pub selected: Option<usize>,
}

pub open spec fn items_view(v: Seq<Vec<Vec<Span>>>) -> Seq<Seq<Seq<(Seq<char>, Color, bool)>>> {
    v.map_values(|it: Vec<Vec<Span>>| lines_view(it@))
}

/// An item of one plain line.
pub open spec fn text_item(t: Seq<char>) -> Seq<Seq<(Seq<char>, Color, bool)>> {
    seq![text_line(t)]
}

pub(crate) fn item_of(l: Vec<Span>) -> (it: Vec<Vec<Span>>)
    ensures
        lines_view(it@) == seq![line_view(l)],
{
    let mut it: Vec<Vec<Span>> = Vec::new();
    push_line(&mut it, l);
    assert(lines_view(it@) =~= seq![line_view(l)]);
    it
}

pub(crate) fn push_item(items: &mut Vec<Vec<Vec<Span>>>, it: Vec<Vec<Span>>)
    ensures
        items_view(final(items)@) == items_view(old(items)@).push(lines_view(it@)),
{
    let ghost v = lines_view(it@);
    items.push(it);
    assert(items_view(items@) =~= items_view(old(items)@).push(v));
}

pub(crate) fn push_text_item(items: &mut Vec<Vec<Vec<Span>>>, t: &str)
    ensures
        items_view(final(items)@) == items_view(old(items)@).push(text_item(t@)),
{
    push_item(items, item_of(text_of(t)));
}

/// A warning of a tool scan.
pub open spec fn warning_item(e: Seq<char>) -> Seq<Seq<(Seq<char>, Color, bool)>> {
    seq![seq![styled("[WARN] "@, Color::Yellow), styled(e, Color::Gray)]]
}

fn push_warnings(items: &mut Vec<Vec<Vec<Span>>>, errors: &Vec<String>)
    ensures
        items_view(final(items)@) == items_view(old(items)@) + errors@.map_values(|e: String| warning_item(e@)),
{
    let ghost start = items_view(items@);
    let ghost all = errors@.map_values(|e: String| warning_item(e@));
    for i in 0..errors.len()
        invariant
            all == errors@.map_values(|e: String| warning_item(e@)),
            items_view(items@) == start + all.take(i as int),
    {
        let mut l = empty_line();
        push_span(&mut l, styled_span("[WARN] ".to_string(), Color::Yellow));
        push_span(&mut l, styled_span(errors[i].clone(), Color::Gray));
        push_item(items, item_of(l));
        assert(all.take(i + 1) =~~= all.take(i as int).push(all[i as int]));
        assert(items_view(items@) =~~= start + all.take(i + 1));
    }
    assert(all.take(errors.len() as int) =~= all);
}

// ---------------------------------------------------------------------------
// Global tools
// ---------------------------------------------------------------------------

/// A global tool: whether it may be removed, its manager, name and version.
pub open spec fn tool_item(t: GlobalTool) -> Seq<Seq<(Seq<char>, Color, bool)>> {
    seq![seq![
        (if t.can_uninstall {
            "[UNINSTALL]"@
        } else {
            "[KEEP]"@
        }, if t.can_uninstall {
            Color::Green
        } else {
            Color::Red
        }, true),
        styled("  "@ + pad_right(manager_label(t.manager), 19) + "  "@, Color::Gray),
        (t.name@, Color::Reset, true),
        styled(match t.version {
            Some(v) => "  ·  "@ + v@,
            None => Seq::empty(),
        }, Color::Gray),
    ]]
}

/// The global tools panel: a heading, then the scan's state, its warnings
/// and its tools; the cursor's tool is selected.
pub open spec fn global_panel_items(a: App) -> Seq<Seq<Seq<(Seq<char>, Color, bool)>>> {
    seq![text_item("Global installs · x/Enter review · manager-owned uninstall"@)] + if a.global.scanning {
        seq![text_item("Scanning Cargo and other providers…"@)]
    } else {
        match a.global.error {
            Some(e) => seq![text_item("Scan error: "@ + e@)],
            None => match a.global.tools {
                Some(r) => (if r.tools@.len() == 0 && r.errors@.len() == 0 {
                    seq![text_item("No global tools found."@)]
                } else {
                    Seq::empty()
                }) + r.errors@.map_values(|e: String| warning_item(e@)) + r.tools@.map_values(
                    |t: GlobalTool| tool_item(t),
                ),
                None => seq![text_item("Press [g] to scan global tools."@)],
            },
        }
    }
}

pub open spec fn global_panel_selected(a: App) -> Option<usize> {
    if a.global.scanning {
        None
    } else {
        match a.global.error {
            Some(_) => None,
            None => match a.global.tools {
                Some(r) => if r.tools@.len() > 0 {
                    Some((1 + r.errors@.len() + a.global.cursor) as usize)
                } else {
                    None
                },
                None => None,
            },
        }
    }
}

fn tool_line(t: &GlobalTool) -> (it: Vec<Vec<Span>>)
    ensures
        lines_view(it@) =~~= tool_item(*t),
{
    let mut l = empty_line();
    if t.can_uninstall {
        push_span(&mut l, span("[UNINSTALL]".to_string(), Color::Green, true));
    } else {
        push_span(&mut l, span("[KEEP]".to_string(), Color::Red, true));
    }
    push_span(&mut l, styled_span(concat3("  ", padded(t.manager.label(), 19).as_str(), "  "), Color::Gray));
    push_span(&mut l, span(t.name.clone(), Color::Reset, true));
    let version: String = match &t.version {
        Some(v) => concat2("  ·  ", v.as_str()),
        None => String::new(),
    };
    proof {
        reveal_strlit("");
    }
    push_span(&mut l, styled_span(version, Color::Gray));
    item_of(l)
}

/// The global tools panel; see [`global_panel_items`].
pub fn global_panel(a: &App) -> (p: ListPanel)
    requires
        match a.global.tools {
            Some(r) => r.errors@.len() + a.global.cursor < usize::MAX,
            None => true,
        },
    ensures
        items_view(p.items@) =~~= global_panel_items(*a),
        p.selected == global_panel_selected(*a),
{
    let mut items: Vec<Vec<Vec<Span>>> = Vec::new();
    push_text_item(&mut items, "Global installs · x/Enter review · manager-owned uninstall");
    let mut selected: Option<usize> = None;
    if a.global.scanning {
        push_text_item(&mut items, "Scanning Cargo and other providers…");
    } else {
        match &a.global.error {
            Some(e) => {
                push_item(&mut items, item_of(plain(concat2("Scan error: ", e.as_str()))));
            },
            None => match &a.global.tools {
                Some(r) => {
                    if r.tools.len() == 0 && r.errors.len() == 0 {
                        push_text_item(&mut items, "No global tools found.");
                    }
                    push_warnings(&mut items, &r.errors);
                    let start = items.len();
                    let ghost mid = items_view(items@);
                    let ghost all = r.tools@.map_values(|t: GlobalTool| tool_item(t));
                    for i in 0..r.tools.len()
                        invariant
                            all == r.tools@.map_values(|t: GlobalTool| tool_item(t)),
                            items_view(items@) =~~= mid + all.take(i as int),
                    {
                        push_item(&mut items, tool_line(&r.tools[i]));
                        assert(all.take(i + 1) =~~= all.take(i as int).push(all[i as int]));
                    }
                    assert(all.take(r.tools.len() as int) =~~= all);
                    if r.tools.len() > 0 {
                        assert(start == 1 + r.errors@.len());
                        selected = Some(start + a.global.cursor);
                    }
                },
                None => {
                    push_text_item(&mut items, "Press [g] to scan global tools.");
                },
            },
        }
    }
    assert(items_view(items@) =~~= global_panel_items(*a));
    ListPanel { items, selected }
}

// ---------------------------------------------------------------------------
// Standalone tools
// ---------------------------------------------------------------------------

/// A standalone tool: whether it may be removed, its root, name, kind and
/// size, then its path.
pub open spec fn standalone_item(t: StandaloneTool) -> Seq<Seq<(Seq<char>, Color, bool)>> {
    seq![
        seq![
            (if t.can_remove {
                "[REMOVE]"@
            } else {
                "[KEEP]"@
            }, if t.can_remove {
                Color::Green
            } else {
                Color::Red
            }, true),
            styled("  "@ + pad_right(t.source_root@, 15) + "  "@, Color::Gray),
            (t.name@, Color::Reset, true),
            styled("  ·  "@ + (if t.is_directory {
                "DIR"@
            } else {
                "FILE"@
            }), Color::Gray),
            styled("  ·  "@ + decimal_size(t.size_bytes), Color::Gray),
        ],
        seq![styled("  path: "@, Color::DarkGray), styled(shorten_spec(t.path@, 86), Color::Gray)],
    ]
}

pub open spec fn standalone_panel_items(a: App) -> Seq<Seq<Seq<(Seq<char>, Color, bool)>>> {
    seq![text_item("Standalone/user-installed · x/Enter review · exact file → Trash"@)] + if a.standalone.scanning {
        seq![text_item("Scanning user binary roots (direct entries only)…"@)]
    } else {
        match a.standalone.error {
            Some(e) => seq![text_item("Scan error: "@ + e@)],
            None => match a.standalone.tools {
                Some(r) => (if r.tools@.len() == 0 && r.errors@.len() == 0 {
                    seq![text_item("No standalone binaries found in the approved user roots."@)]
                } else {
                    Seq::empty()
                }) + r.errors@.map_values(|e: String| warning_item(e@)) + r.tools@.map_values(
                    |t: StandaloneTool| standalone_item(t),
                ),
                None => seq![text_item("Press [s] to scan standalone installs."@)],
            },
        }
    }
}

pub open spec fn standalone_panel_selected(a: App) -> Option<usize> {
    if a.standalone.scanning {
        None
    } else {
        match a.standalone.error {
            Some(_) => None,
            None => match a.standalone.tools {
                Some(r) => if r.tools@.len() > 0 {
                    Some((1 + r.errors@.len() + a.standalone.cursor) as usize)
                } else {
                    None
                },
                None => None,
            },
        }
    }
}

fn standalone_lines(t: &StandaloneTool) -> (it: Vec<Vec<Span>>)
    ensures
        lines_view(it@) =~~= standalone_item(*t),
{
    let mut l = empty_line();
    if t.can_remove {
        push_span(&mut l, span("[REMOVE]".to_string(), Color::Green, true));
    } else {
        push_span(&mut l, span("[KEEP]".to_string(), Color::Red, true));
    }
    push_span(&mut l, styled_span(concat3("  ", padded(t.source_root.as_str(), 15).as_str(), "  "), Color::Gray));
    push_span(&mut l, span(t.name.clone(), Color::Reset, true));
    let kind: &str = if t.is_directory {
        "DIR"
    } else {
        "FILE"
    };
    push_span(&mut l, styled_span(concat2("  ·  ", kind), Color::Gray));
    push_span(&mut l, styled_span(concat2("  ·  ", format_size_decimal(t.size_bytes).as_str()), Color::Gray));
    let mut l2 = empty_line();
    push_span(&mut l2, styled_span("  path: ".to_string(), Color::DarkGray));
    push_span(&mut l2, styled_span(shorten(t.path.as_str(), 86), Color::Gray));
    let mut it: Vec<Vec<Span>> = Vec::new();
    push_line(&mut it, l);
    push_line(&mut it, l2);
    it
}

/// The standalone tools panel; see [`standalone_panel_items`].
pub fn standalone_panel(a: &App) -> (p: ListPanel)
    requires
        match a.standalone.tools {
            Some(r) => r.errors@.len() + a.standalone.cursor < usize::MAX,
            None => true,
        },
    ensures
        items_view(p.items@) =~~= standalone_panel_items(*a),
        p.selected == standalone_panel_selected(*a),
{
    let mut items: Vec<Vec<Vec<Span>>> = Vec::new();
    push_text_item(&mut items, "Standalone/user-installed · x/Enter review · exact file → Trash");
    let mut selected: Option<usize> = None;
    if a.standalone.scanning {
        push_text_item(&mut items, "Scanning user binary roots (direct entries only)…");
    } else {
        match &a.standalone.error {
            Some(e) => {
                push_item(&mut items, item_of(plain(concat2("Scan error: ", e.as_str()))));
            },
            None => match &a.standalone.tools {
                Some(r) => {
                    if r.tools.len() == 0 && r.errors.len() == 0 {
                        push_text_item(&mut items, "No standalone binaries found in the approved user roots.");
                    }
                    push_warnings(&mut items, &r.errors);
                    let start = items.len();
                    let ghost mid = items_view(items@);
                    let ghost all = r.tools@.map_values(|t: StandaloneTool| standalone_item(t));
                    for i in 0..r.tools.len()
                        invariant
                            all == r.tools@.map_values(|t: StandaloneTool| standalone_item(t)),
                            items_view(items@) =~~= mid + all.take(i as int),
                    {
                        push_item(&mut items, standalone_lines(&r.tools[i]));
                        assert(all.take(i + 1) =~~= all.take(i as int).push(all[i as int]));
                    }
                    assert(all.take(r.tools.len() as int) =~~= all);
                    if r.tools.len() > 0 {
                        assert(start == 1 + r.errors@.len());
                        selected = Some(start + a.standalone.cursor);
                    }
                },
                None => {
                    push_text_item(&mut items, "Press [s] to scan standalone installs.");
                },
            },
        }
    }
    assert(items_view(items@) =~~= standalone_panel_items(*a));
    ListPanel { items, selected }
}

// ---------------------------------------------------------------------------
// Review targets
// ---------------------------------------------------------------------------

/// The target list: one item per row at `width`, or a note that there is
/// nothing to clean; the cursor's row is selected.
pub open spec fn target_panel_items(r: Review, width: usize) -> Seq<Seq<Seq<(Seq<char>, Color, bool)>>> {
    if r.rows@.len() == 0 {
        seq![text_item("No reclaimable targets found."@)]
    } else {
        r.rows@.map_values(|row: crate::tui::TargetRow| item_spec(row, width))
    }
}

/// The target list; see [`target_panel_items`].
pub fn target_panel(r: &Review, width: usize) -> (p: ListPanel)
    ensures
        items_view(p.items@) =~~= target_panel_items(*r, width),
        p.selected == if r.rows@.len() == 0 {
            None
        } else {
            Some(r.cursor)
        },
{
    let mut items: Vec<Vec<Vec<Span>>> = Vec::new();
    if r.rows.len() == 0 {
        push_text_item(&mut items, "No reclaimable targets found.");
        assert(items_view(items@) =~~= target_panel_items(*r, width));
        return ListPanel { items, selected: None };
    }
    let ghost all = r.rows@.map_values(|row: crate::tui::TargetRow| item_spec(row, width));
    for i in 0..r.rows.len()
        invariant
            all == r.rows@.map_values(|row: crate::tui::TargetRow| item_spec(row, width)),
            items_view(items@) =~~= all.take(i as int),
    {
        push_item(&mut items, target_item(&r.rows[i], width));
        assert(all.take(i + 1) =~~= all.take(i as int).push(all[i as int]));
    }
    assert(all.take(r.rows.len() as int) =~~= all);
    ListPanel { items, selected: Some(r.cursor) }
}

/// A read-only location in the special panel.
pub open spec fn readonly_item(t: ReadOnlyTarget) -> Seq<Seq<(Seq<char>, Color, bool)>> {
    seq![seq![styled("🔒 [disabled] "@, Color::DarkGray), styled(t.path@ + "  ·  "@ + decimal_size(t.size_bytes), Color::Gray)]]
}

/// The special panel: the Trash (selectable with `t`), then up to three
/// read-only locations and a pointer to the information overlay.
pub open spec fn special_items(r: Review) -> Seq<Seq<Seq<(Seq<char>, Color, bool)>>> {
    seq![match r.trash_target {
        Some(t) => seq![seq![
            styled("🔥 "@, Color::Red),
            (checkbox(r.trash_selected) + " Empty Trash"@, Color::Red, true),
            styled("  ·  "@ + decimal_size(t.size_bytes) + "  ·  DESTRUCTIVE  ·  [t] select"@, Color::Gray),
        ]],
        None => text_item("🔥 Empty Trash unavailable or empty."@),
    }] + match r.readonly_report {
        Some(rep) => if rep.targets@.len() == 0 {
            seq![seq![seq![styled("🔒 [disabled] "@, Color::DarkGray), styled("No read-only system items reported"@, Color::Gray)]]]
        } else {
            rep.targets@.take(if rep.targets@.len() < 3 {
                rep.targets@.len() as int
            } else {
                3
            }).map_values(|t: ReadOnlyTarget| readonly_item(t)) + seq![seq![seq![styled(
                "[i] Info · read-only targets are never selectable"@,
                Color::Cyan,
            )]]]
        },
        None => seq![seq![seq![styled("🔒 Read-only inventory scanning…"@, Color::Yellow)]]],
    }
}

/// The special panel; see [`special_items`].
pub fn special_panel(r: &Review) -> (items: Vec<Vec<Vec<Span>>>)
    ensures
        items_view(items@) =~~= special_items(*r),
{
    let mut items: Vec<Vec<Vec<Span>>> = Vec::new();
    match &r.trash_target {
        Some(t) => {
            let cb: &str = if r.trash_selected {
                "[x]"
            } else {
                "[ ]"
            };
            let mut l = empty_line();
            push_span(&mut l, styled_span("🔥 ".to_string(), Color::Red));
            push_span(&mut l, span(concat2(cb, " Empty Trash"), Color::Red, true));
            push_span(
                &mut l,
                styled_span(concat3("  ·  ", format_size_decimal(t.size_bytes).as_str(), "  ·  DESTRUCTIVE  ·  [t] select"), Color::Gray),
            );
            push_item(&mut items, item_of(l));
        },
        None => {
            push_text_item(&mut items, "🔥 Empty Trash unavailable or empty.");
        },
    }
    let ghost head = items_view(items@);
    match &r.readonly_report {
        Some(rep) => {
            if rep.targets.len() == 0 {
                let mut l = empty_line();
                push_span(&mut l, styled_span("🔒 [disabled] ".to_string(), Color::DarkGray));
                push_span(&mut l, styled_span("No read-only system items reported".to_string(), Color::Gray));
                push_item(&mut items, item_of(l));
            } else {
                let n: usize = if rep.targets.len() < 3 {
                    rep.targets.len()
                } else {
                    3
                };
                let ghost all = rep.targets@.take(n as int).map_values(|t: ReadOnlyTarget| readonly_item(t));
                for i in 0..n
                    invariant
                        n <= rep.targets@.len(),
                        all == rep.targets@.take(n as int).map_values(|t: ReadOnlyTarget| readonly_item(t)),
                        items_view(items@) =~~= head + all.take(i as int),
                {
                    let t = &rep.targets[i];
                    let mut l = empty_line();
                    push_span(&mut l, styled_span("🔒 [disabled] ".to_string(), Color::DarkGray));
                    push_span(
                        &mut l,
                        styled_span(concat3(t.path.as_str(), "  ·  ", format_size_decimal(t.size_bytes).as_str()), Color::Gray),
                    );
                    push_item(&mut items, item_of(l));
                    assert(all.take(i + 1) =~~= all.take(i as int).push(all[i as int]));
                }
                assert(all.take(n as int) =~~= all);
                push_item(
                    &mut items,
                    item_of(one(styled_span("[i] Info · read-only targets are never selectable".to_string(), Color::Cyan))),
                );
            }
        },
        None => {
            push_item(&mut items, item_of(one(styled_span("🔒 Read-only inventory scanning…".to_string(), Color::Yellow))));
        },
    }
    assert(items_view(items@) =~~= special_items(*r));
    items
}

// ---------------------------------------------------------------------------
// Explorer
// ---------------------------------------------------------------------------

/// The tag of an explorer entry and its colour.
pub open spec fn entry_tag(e: DirectoryScanEntry) -> (Seq<char>, Color) {
    if e.inaccessible_paths > 0 {
        ("PARTIAL"@, Color::Yellow)
    } else if e.read_only {
        ("READONLY"@, Color::Red)
    } else if e.allowlisted {
        ("ALLOW"@, Color::Green)
    } else if e.suggestion is Some && e.suggestion.unwrap().can_delete {
        ("SUGGEST"@, Color::Green)
    } else if e.suggestion is Some {
        ("REVIEW"@, Color::Yellow)
    } else if e.is_dir {
        ("DIR"@, Color::Cyan)
    } else {
        ("FILE"@, Color::Gray)
    }
}

pub open spec fn entry_reason(e: DirectoryScanEntry) -> Seq<char> {
    match e.suggestion {
        Some(s) => " — "@ + s.reason@,
        None => Seq::empty(),
    }
}

pub open spec fn entry_text(e: DirectoryScanEntry) -> Seq<char> {
    "["@ + entry_tag(e).0 + "]  "@ + decimal_size(e.size_bytes) + "  "@ + e.path@ + entry_reason(e) + if e.inaccessible_paths
        > 0 {
        " — blocked paths: "@ + decimal(e.inaccessible_paths as nat)
    } else {
        Seq::empty()
    }
}

/// An explorer entry: on one line when it fits in `width` (tag, size,
/// path, reason), otherwise the tag and size wrapped, then the path and
/// reason wrapped and indented.
pub open spec fn entry_item(e: DirectoryScanEntry, width: usize) -> Seq<Seq<(Seq<char>, Color, bool)>> {
    let (tag, color) = entry_tag(e);
    let size = decimal_size(e.size_bytes);
    if entry_text(e).len() <= width {
        seq![seq![
            ("["@ + tag + "]"@, color, true),
            styled("  "@ + size + "  "@, Color::Gray),
            raw(e.path@),
            styled(entry_reason(e), Color::Gray),
        ]]
    } else {
        wrap_spec("["@ + tag + "]  "@ + size, width).map_values(|l: Seq<char>| seq![(l, color, true)]) + wrap_spec(
            e.path@ + entry_reason(e),
            description_width(width),
        ).map_values(|l: Seq<char>| seq![styled("  ↳ "@, Color::DarkGray), raw(l)])
    }
}

fn tag_of(e: &DirectoryScanEntry) -> (r: (&'static str, Color))
    ensures
        (r.0@, r.1) == entry_tag(*e),
{
    if e.inaccessible_paths > 0 {
        ("PARTIAL", Color::Yellow)
    } else if e.read_only {
        ("READONLY", Color::Red)
    } else if e.allowlisted {
        ("ALLOW", Color::Green)
    } else {
        match &e.suggestion {
            Some(s) => if s.can_delete {
                ("SUGGEST", Color::Green)
            } else {
                ("REVIEW", Color::Yellow)
            },
            None => if e.is_dir {
                ("DIR", Color::Cyan)
            } else {
                ("FILE", Color::Gray)
            },
        }
    }
}

fn push_wrapped(it: &mut Vec<Vec<Span>>, text: &str, width: usize, color: Color)
    ensures
        lines_view(final(it)@) =~~= lines_view(old(it)@) + wrap_spec(text@, width).map_values(
            |l: Seq<char>| seq![(l, color, true)],
        ),
{
    let ghost start = lines_view(it@);
    let lines = wrap_text(text, width);
    let ghost all = wrap_spec(text@, width).map_values(|l: Seq<char>| seq![(l, color, true)]);
    for i in 0..lines.len()
        invariant
            lines@.map_values(|s: String| s@) == wrap_spec(text@, width),
            all == wrap_spec(text@, width).map_values(|l: Seq<char>| seq![(l, color, true)]),
            lines_view(it@) =~~= start + all.take(i as int),
    {
        assert(wrap_spec(text@, width)[i as int] == lines@[i as int]@);
        push_line(it, one(span(lines[i].clone(), color, true)));
        assert(all.take(i + 1) =~~= all.take(i as int).push(all[i as int]));
    }
    assert(all.take(lines.len() as int) =~~= all);
}

fn push_indented(it: &mut Vec<Vec<Span>>, text: &str, width: usize)
    ensures
        lines_view(final(it)@) =~~= lines_view(old(it)@) + wrap_spec(text@, width).map_values(
            |l: Seq<char>| seq![styled("  ↳ "@, Color::DarkGray), raw(l)],
        ),
{
    let ghost start = lines_view(it@);
    let lines = wrap_text(text, width);
    let ghost all = wrap_spec(text@, width).map_values(|l: Seq<char>| seq![styled("  ↳ "@, Color::DarkGray), raw(l)]);
    for i in 0..lines.len()
        invariant
            lines@.map_values(|s: String| s@) == wrap_spec(text@, width),
            all == wrap_spec(text@, width).map_values(|l: Seq<char>| seq![styled("  ↳ "@, Color::DarkGray), raw(l)]),
            lines_view(it@) =~~= start + all.take(i as int),
    {
        assert(wrap_spec(text@, width)[i as int] == lines@[i as int]@);
        let mut l = empty_line();
        push_span(&mut l, styled_span("  ↳ ".to_string(), Color::DarkGray));
        push_span(&mut l, span(lines[i].clone(), Color::Reset, false));
        push_line(it, l);
        assert(all.take(i + 1) =~~= all.take(i as int).push(all[i as int]));
    }
    assert(all.take(lines.len() as int) =~~= all);
}

/// One explorer entry; see [`entry_item`].
pub fn directory_item(e: &DirectoryScanEntry, width: usize) -> (it: Vec<Vec<Span>>)
    ensures
        lines_view(it@) =~~= entry_item(*e, width),
{
    let (tag, color) = tag_of(e);
    let size = format_size_decimal(e.size_bytes);
    let reason: String = match &e.suggestion {
        Some(s) => concat2(" — ", s.reason.as_str()),
        None => String::new(),
    };
    proof {
        reveal_strlit("");
    }
    let mut full = concat3("[", tag, "]  ");
    push_str(&mut full, size.as_str());
    push_str(&mut full, "  ");
    push_str(&mut full, e.path.as_str());
    push_str(&mut full, reason.as_str());
    if e.inaccessible_paths > 0 {
        push_str(&mut full, " — blocked paths: ");
        push_str(&mut full, number(e.inaccessible_paths).as_str());
    }
    let mut it: Vec<Vec<Span>> = Vec::new();
    if crate::text::chars_of(full.as_str()).len() <= width {
        let mut l = empty_line();
        push_span(&mut l, span(concat3("[", tag, "]"), color, true));
        push_span(&mut l, styled_span(concat3("  ", size.as_str(), "  "), Color::Gray));
        push_span(&mut l, span(e.path.clone(), Color::Reset, false));
        push_span(&mut l, styled_span(reason, Color::Gray));
        push_line(&mut it, l);
        assert(lines_view(it@) =~~= entry_item(*e, width));
        return it;
    }
    let mut header = concat3("[", tag, "]  ");
    push_str(&mut header, size.as_str());
    push_wrapped(&mut it, header.as_str(), width, color);
    let detail = concat2(e.path.as_str(), reason.as_str());
    let dw: usize = if width >= 5 {
        width - 4
    } else {
        1
    };
    push_indented(&mut it, detail.as_str(), dw);
    assert(lines_view(it@) =~~= entry_item(*e, width));
    it
}

pub open spec fn git_text(is_repo: bool, dirty: bool) -> Seq<char> {
    if !is_repo {
        "Git: not a repository"@
    } else if dirty {
        "Git: DIRTY — preserve source changes"@
    } else {
        "Git: clean — generated folders may be regenerated"@
    }
}

/// The folder panel: the path, then what is going on (a deletion, a scan,
/// an error) or the folder's Git state, hint, entries, volume use and
/// blocked count; the cursor's entry is selected.
pub open spec fn directory_panel_items(a: App, width: usize) -> Seq<Seq<Seq<(Seq<char>, Color, bool)>>> {
    let e = a.explorer;
    seq![text_item("Path: "@ + match e.directory_scan {
        Some(s) => s.path@,
        None => "loading…"@,
    })] + if e.explorer_deleting {
        seq![text_item("Moving the selected item to Trash in background…"@)]
    } else if e.directory_scanning {
        seq![text_item("Git/status and children are scanning in background…"@)]
    } else {
        match e.directory_error {
            Some(err) => seq![text_item("Scan error: "@ + err@)],
            None => match e.directory_scan {
                Some(r) => seq![
                    text_item(git_text(r.is_git_repo, r.git_dirty)),
                    text_item("› selects · Enter opens folders · [w] allowlist · [x] Trash SUGGEST items"@),
                ] + (if r.entries@.len() == 0 {
                    seq![text_item("No readable children."@)]
                } else {
                    r.entries@.map_values(|x: DirectoryScanEntry| entry_item(x, width))
                }) + (match r.volume_usage {
                    Some(u) => seq![text_item("Volume used: "@ + decimal_size(if u.total_bytes >= u.available_bytes {
                        (u.total_bytes - u.available_bytes) as u64
                    } else {
                        0u64
                    }) + " / "@ + decimal_size(u.total_bytes)
                        + " · visible child bytes may be lower when snapshots or blocked paths exist"@)],
                    None => Seq::empty(),
                }) + seq![text_item("Blocked during recursive scan: "@ + decimal(r.inaccessible_paths as nat))],
                None => seq![text_item("Press [enter] to open a selected folder."@)],
            },
        }
    }
}

pub open spec fn directory_panel_selected(a: App) -> Option<usize> {
    let e = a.explorer;
    if e.explorer_deleting || e.directory_scanning || e.directory_error is Some {
        None
    } else {
        match e.directory_scan {
            Some(r) => if r.entries@.len() > 0 {
                Some((3 + e.directory_cursor) as usize)
            } else {
                None
            },
            None => None,
        }
    }
}

/// The folder panel; see [`directory_panel_items`].
pub fn directory_panel(a: &App, width: usize) -> (p: ListPanel)
    requires
        a.explorer.directory_cursor + 3 <= usize::MAX,
    ensures
        items_view(p.items@) =~~= directory_panel_items(*a, width),
        p.selected == directory_panel_selected(*a),
{
    let e = &a.explorer;
    let mut items: Vec<Vec<Vec<Span>>> = Vec::new();
    let path: String = match &e.directory_scan {
        Some(s) => s.path.clone(),
        None => "loading…".to_string(),
    };
    push_item(&mut items, item_of(plain(concat2("Path: ", path.as_str()))));
    let mut selected: Option<usize> = None;
    if e.explorer_deleting {
        push_text_item(&mut items, "Moving the selected item to Trash in background…");
    } else if e.directory_scanning {
        push_text_item(&mut items, "Git/status and children are scanning in background…");
    } else {
        match &e.directory_error {
            Some(err) => {
                push_item(&mut items, item_of(plain(concat2("Scan error: ", err.as_str()))));
            },
            None => match &e.directory_scan {
                Some(r) => {
                    let git: &str = if !r.is_git_repo {
                        "Git: not a repository"
                    } else if r.git_dirty {
                        "Git: DIRTY — preserve source changes"
                    } else {
                        "Git: clean — generated folders may be regenerated"
                    };
                    push_text_item(&mut items, git);
                    push_text_item(&mut items, "› selects · Enter opens folders · [w] allowlist · [x] Trash SUGGEST items");
                    if r.entries.len() == 0 {
                        push_text_item(&mut items, "No readable children.");
                    } else {
                        let ghost mid = items_view(items@);
                        let ghost all = r.entries@.map_values(|x: DirectoryScanEntry| entry_item(x, width));
                        for i in 0..r.entries.len()
                            invariant
                                all == r.entries@.map_values(|x: DirectoryScanEntry| entry_item(x, width)),
                                items_view(items@) =~~= mid + all.take(i as int),
                        {
                            push_item(&mut items, directory_item(&r.entries[i], width));
                            assert(all.take(i + 1) =~~= all.take(i as int).push(all[i as int]));
                        }
                        assert(all.take(r.entries.len() as int) =~~= all);
                        selected = Some(3 + e.directory_cursor);
                    }
                    match &r.volume_usage {
                        Some(u) => {
                            let mut t = concat2("Volume used: ", format_size_decimal(u.used_bytes()).as_str());
                            push_str(&mut t, " / ");
                            push_str(&mut t, format_size_decimal(u.total_bytes).as_str());
                            push_str(&mut t, " · visible child bytes may be lower when snapshots or blocked paths exist");
                            push_item(&mut items, item_of(plain(t)));
                        },
                        None => {},
                    }
                    push_item(
                        &mut items,
                        item_of(plain(concat2("Blocked during recursive scan: ", number(r.inaccessible_paths).as_str()))),
                    );
                },
                None => {
                    push_text_item(&mut items, "Press [enter] to open a selected folder.");
                },
            },
        }
    }
    assert(items_view(items@) =~~= directory_panel_items(*a, width));
    ListPanel { items, selected }
}

// ---------------------------------------------------------------------------
// Whole-disk inventory
// ---------------------------------------------------------------------------

/// The tag of an inventory entry and its colour; `is_dir` says whether its
/// path is a folder.
pub open spec fn disk_tag(e: DiskScanEntry, is_dir: bool) -> (Seq<char>, Color) {
    if e.inaccessible_paths > 0 {
        ("PARTIAL"@, Color::Yellow)
    } else if e.read_only {
        ("READONLY"@, Color::Red)
    } else if is_dir {
        ("DIR"@, Color::Cyan)
    } else {
        ("FILE"@, Color::Gray)
    }
}

/// An inventory entry: size, tag, path, the volume use of a mount and the
/// blocked count.
pub open spec fn disk_item(e: DiskScanEntry, is_dir: bool) -> Seq<Seq<(Seq<char>, Color, bool)>> {
    let (tag, color) = disk_tag(e, is_dir);
    seq![seq![
        styled(decimal_size(e.size_bytes) + "  "@, Color::Gray),
        styled("["@ + tag + "]"@, color),
        raw("  "@ + e.path@ + match e.volume_usage {
            Some(u) => "  · volume used "@ + decimal_size(if u.total_bytes >= u.available_bytes {
                (u.total_bytes - u.available_bytes) as u64
            } else {
                0u64
            }) + " / "@ + decimal_size(u.total_bytes),
            None => Seq::empty(),
        } + if e.inaccessible_paths > 0 {
            "  · blocked "@ + decimal(e.inaccessible_paths as nat)
        } else {
            Seq::empty()
        }),
    ]]
}

/// The inventory entries of `s`, with their folder flags from `dirs`.
pub open spec fn disk_items(s: Seq<DiskScanEntry>, dirs: Seq<bool>) -> Seq<Seq<Seq<(Seq<char>, Color, bool)>>> {
    Seq::new(s.len(), |i: int| disk_item(s[i], dirs[i]))
}

/// How many items precede the inventory's first root entry.
pub open spec fn root_start(a: App) -> int {
    2 + (if a.explorer.full_disk_scanning {
        1int
    } else {
        0int
    }) + (if a.explorer.full_disk_error is Some {
        1int
    } else {
        0int
    })
}

/// The inventory panel: a hint, the scan's progress and error, then the
/// root, home and protected entries under headings, and the protected and
/// blocked totals. `dirs` says which entries (root, then home, then
/// protected) are folders.
pub open spec fn full_disk_panel_items(a: App, dirs: Seq<bool>) -> Seq<Seq<Seq<(Seq<char>, Color, bool)>>> {
    let e = a.explorer;
    seq![text_item("Inventory only — › selected; Enter opens folder or file parent"@)] + (if e.full_disk_scanning {
        seq![text_item("Scanning "@ + e.full_disk_phase@ + " ("@ + decimal(e.full_disk_completed as nat) + "/"@ + decimal(
            e.full_disk_total as nat,
        ) + ") — partial results update below…"@)]
    } else {
        Seq::empty()
    }) + (match e.full_disk_error {
        Some(err) => seq![text_item("Scan error: "@ + err@)],
        None => Seq::empty(),
    }) + match e.full_disk {
        Some(r) => report_items(r, dirs),
        None => if !e.full_disk_scanning {
            seq![text_item("Press [f] to start a full-disk scan."@)]
        } else {
            Seq::empty()
        },
    }
}

/// The item of the inventory cursor: its entry inside the root, home or
/// protected section.
pub open spec fn full_disk_panel_selected(a: App) -> Option<usize> {
    match a.explorer.full_disk {
        Some(r) => report_selected(r, root_start(a), a.explorer.full_disk_cursor as int),
        None => None,
    }
}

fn disk_line(e: &DiskScanEntry, is_dir: bool) -> (it: Vec<Vec<Span>>)
    ensures
        lines_view(it@) =~~= disk_item(*e, is_dir),
{
    let (tag, color): (&str, Color) = if e.inaccessible_paths > 0 {
        ("PARTIAL", Color::Yellow)
    } else if e.read_only {
        ("READONLY", Color::Red)
    } else if is_dir {
        ("DIR", Color::Cyan)
    } else {
        ("FILE", Color::Gray)
    };
    let mut rest = concat2("  ", e.path.as_str());
    match &e.volume_usage {
        Some(u) => {
            push_str(&mut rest, "  · volume used ");
            push_str(&mut rest, format_size_decimal(u.used_bytes()).as_str());
            push_str(&mut rest, " / ");
            push_str(&mut rest, format_size_decimal(u.total_bytes).as_str());
        },
        None => {},
    }
    if e.inaccessible_paths > 0 {
        push_str(&mut rest, "  · blocked ");
        push_str(&mut rest, number(e.inaccessible_paths).as_str());
    }
    let mut l = empty_line();
    push_span(&mut l, styled_span(concat2(format_size_decimal(e.size_bytes).as_str(), "  "), Color::Gray));
    push_span(&mut l, styled_span(concat3("[", tag, "]"), color));
    push_span(&mut l, span(rest, Color::Reset, false));
    let it = item_of(l);
    assert(lines_view(it@) =~~= disk_item(*e, is_dir));
    it
}

fn push_disk_items(items: &mut Vec<Vec<Vec<Span>>>, entries: &Vec<DiskScanEntry>, dirs: &Vec<bool>, from: usize)
    requires
        from + entries@.len() <= dirs@.len(),
    ensures
        items_view(final(items)@) =~~= items_view(old(items)@) + disk_items(
            entries@,
            dirs@.subrange(from as int, from + entries@.len()),
        ),
{
    let ghost start = items_view(items@);
    let ghost all = disk_items(entries@, dirs@.subrange(from as int, from + entries@.len()));
    let n = dirs.len();
    for i in 0..entries.len()
        invariant
            n == dirs@.len(),
            from + entries@.len() <= dirs@.len(),
            all == disk_items(entries@, dirs@.subrange(from as int, from + entries@.len())),
            items_view(items@) =~~= start + all.take(i as int),
    {
        push_item(items, disk_line(&entries[i], dirs[from + i]));
        assert(all.take(i + 1) =~~= all.take(i as int).push(all[i as int]));
    }
    assert(all.take(entries.len() as int) =~~= all);
}

/// The inventory panel; see [`full_disk_panel_items`].
pub fn full_disk_panel(a: &App, dirs: &Vec<bool>) -> (p: ListPanel)
    requires
        dirs@.len() == full_disk_entries_spec(a.explorer).len(),
        full_disk_entries_spec(a.explorer).len() + a.explorer.full_disk_cursor + 32 <= usize::MAX,
        storage_fits(*a),
    ensures
        items_view(p.items@) =~~= full_disk_panel_items(*a, dirs@),
        p.selected == full_disk_panel_selected(*a),
{
    let e = &a.explorer;
    let mut items: Vec<Vec<Vec<Span>>> = Vec::new();
    push_text_item(&mut items, "Inventory only — › selected; Enter opens folder or file parent");
    if e.full_disk_scanning {
        let mut t = concat3("Scanning ", e.full_disk_phase.as_str(), " (");
        push_str(&mut t, number(e.full_disk_completed).as_str());
        push_str(&mut t, "/");
        push_str(&mut t, number(e.full_disk_total).as_str());
        push_str(&mut t, ") — partial results update below…");
        push_item(&mut items, item_of(plain(t)));
    }
    match &e.full_disk_error {
        Some(err) => {
            push_item(&mut items, item_of(plain(concat2("Scan error: ", err.as_str()))));
        },
        None => {},
    }
    let mut selected: Option<usize> = None;
    match &e.full_disk {
        Some(r) => {
            assert(items_view(items@).len() == items@.len());
            assert(items@.len() <= 3);
            selected = push_report_items(&mut items, r, dirs, e.full_disk_cursor);
        },
        None => {
            if !e.full_disk_scanning {
                push_text_item(&mut items, "Press [f] to start a full-disk scan.");
            }
        },
    }
    assert(items_view(items@) =~~= full_disk_panel_items(*a, dirs@));
    ListPanel { items, selected }
}

/// The inventory's sections and totals.
pub open spec fn report_items(r: crate::scanner::FullDiskScan, dirs: Seq<bool>) -> Seq<Seq<Seq<(Seq<char>, Color, bool)>>> {
    let nr = r.root_entries@.len() as int;
    let nh = r.home_entries@.len() as int;
    seq![seq![heading("Largest root entries"@, Color::Cyan)]] + disk_items(r.root_entries@, dirs.take(nr)) + seq![
        text_item(Seq::empty()),
        seq![heading("Largest HOME entries"@, Color::Cyan)],
    ] + disk_items(r.home_entries@, dirs.subrange(nr, nr + nh)) + seq![
        text_item(Seq::empty()),
        seq![heading("Protected system/mount paths — size only; Enter to inspect"@, Color::Red)],
    ] + disk_items(r.readonly_entries@, dirs.skip(nr + nh)) + seq![seq![seq![
        styled("Protected  "@, Color::Gray),
        styled(decimal(r.readonly_entries@.len()) + "  ·  "@ + decimal_size(entries_sum(r.readonly_entries@) as u64), Color::Red),
        styled("  ·  Inaccessible  "@, Color::Gray),
        styled(decimal(r.inaccessible_paths as nat), Color::Yellow),
    ]]] + if r.inaccessible_paths > 0 {
        seq![seq![seq![styled("Blocked paths · press [p] to open permission settings, then [f] to rescan"@, Color::Yellow)]]]
    } else {
        Seq::empty()
    }
}

/// The item of the inventory cursor `c` when the sections start at `start`.
pub open spec fn report_selected(r: crate::scanner::FullDiskScan, start: int, c: int) -> Option<usize> {
    let nr = r.root_entries@.len() as int;
    let nh = r.home_entries@.len() as int;
    let np = r.readonly_entries@.len() as int;
    if c < nr {
        Some((start + c) as usize)
    } else if c < nr + nh {
        Some((start + nr + 2 + c - nr) as usize)
    } else if c < nr + nh + np {
        Some((start + nr + 2 + nh + 2 + c - nr - nh) as usize)
    } else {
        None
    }
}

#[verifier::rlimit(40)]
fn push_report_items(items: &mut Vec<Vec<Vec<Span>>>, r: &crate::scanner::FullDiskScan, dirs: &Vec<bool>, c: usize) -> (sel: Option<usize>)
    requires
        dirs@.len() == r.root_entries@.len() + r.home_entries@.len() + r.readonly_entries@.len(),
        old(items)@.len() + dirs@.len() + c + 16 <= usize::MAX,
        entries_sum(r.readonly_entries@) <= u64::MAX,
    ensures
        items_view(final(items)@) =~~= items_view(old(items)@) + report_items(*r, dirs@),
        sel == report_selected(*r, (old(items)@.len() + 1) as int, c as int),
{
    let ghost head = items_view(items@);
    let nr = r.root_entries.len();
    let nh = r.home_entries.len();
    let np = r.readonly_entries.len();
    assert(dirs@.take(nr as int) =~= dirs@.subrange(0, nr as int));
    assert(dirs@.skip(nr + nh) =~= dirs@.subrange(nr + nh, nr + nh + np));
    push_item(items, item_of(bold_line("Largest root entries", Color::Cyan)));
    let root_first = items.len();
    push_disk_items(items, &r.root_entries, dirs, 0);
    push_item(items, item_of(blank_line()));
    push_item(items, item_of(bold_line("Largest HOME entries", Color::Cyan)));
    let home_first = items.len();
    push_disk_items(items, &r.home_entries, dirs, nr);
    push_item(items, item_of(blank_line()));
    push_item(items, item_of(bold_line("Protected system/mount paths — size only; Enter to inspect", Color::Red)));
    let readonly_first = items.len();
    push_disk_items(items, &r.readonly_entries, dirs, nr + nh);
    let mut selected: Option<usize> = None;
    if c < nr {
        selected = Some(root_first + c);
    } else if c < nr + nh {
        selected = Some(home_first + (c - nr));
    } else if c < nr + nh + np {
        selected = Some(readonly_first + (c - nr - nh));
    }
    let mut l = empty_line();
    push_span(&mut l, styled_span("Protected  ".to_string(), Color::Gray));
    let mut t = concat2(number(np).as_str(), "  ·  ");
    push_str(&mut t, format_size_decimal(total_of(&r.readonly_entries)).as_str());
    push_span(&mut l, styled_span(t, Color::Red));
    push_span(&mut l, styled_span("  ·  Inaccessible  ".to_string(), Color::Gray));
    push_span(&mut l, styled_span(number(r.inaccessible_paths), Color::Yellow));
    push_item(items, item_of(l));
    if r.inaccessible_paths > 0 {
        push_item(
            items,
            item_of(one(styled_span("Blocked paths · press [p] to open permission settings, then [f] to rescan".to_string(), Color::Yellow))),
        );
    }
    assert(items_view(items@) =~~= head + report_items(*r, dirs@));
    selected
}

fn blank_line() -> (l: Vec<Span>)
    ensures
        line_view(l) == text_line(Seq::empty()),
{
    crate::panels::blank()
}

} // verus!



