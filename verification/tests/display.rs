use cleanrs::cleaner::CleanerScan;
use cleanrs::cli::{
    clean_covers_all, clean_gate, CleanRun, clean_is_dry_run, clean_result_line, location_table_rows,
    protected_table_rows, readonly_table_rows,
    scan_table_rows, skipped_readonly_line, unknown_cleaners_message,
};
use cleanrs::footer::{activity_marker, elapsed_label, footer_lines, shorten, Color};
use cleanrs::model::{Category, CleanMethod, CleanResult, CleanTarget, RiskLevel};
use cleanrs::scanner::DiskScanEntry;
use cleanrs::target_list::wrap_text;
use cleanrs::tui::{App, DiskUsage};

fn line_text(line: &[cleanrs::footer::Span]) -> String {
    line.iter().map(|s| s.text.as_str()).collect::<Vec<_>>().join("")
}

#[test]
fn the_trash_needs_the_exact_confirmation_phrase() {
    let refused = clean_gate("trash", RiskLevel::Destructive, false, Some("empty trash"), true);
    assert_eq!(
        refused.as_deref(),
        Some("trash skipped: requires --confirm-destructive=\"EMPTY TRASH\"; --yes/--force are insufficient")
    );
    assert_eq!(clean_gate("trash", RiskLevel::Destructive, false, Some("EMPTY TRASH"), false), None);
    // A preview of the Trash still needs the phrase.
    assert!(clean_gate("trash", RiskLevel::Destructive, true, None, false).is_some());
}

#[test]
fn manual_rules_need_force_only_for_a_real_run() {
    assert_eq!(
        clean_gate("docker", RiskLevel::Manual, false, None, false).as_deref(),
        Some("docker requires --force because it is a Manual-risk cleaner")
    );
    assert_eq!(clean_gate("docker", RiskLevel::Manual, true, None, false), None);
    assert_eq!(clean_gate("docker", RiskLevel::Manual, false, None, true), None);
    assert_eq!(clean_gate("npm", RiskLevel::Safe, false, None, false), None);
}

#[test]
fn clean_is_a_preview_unless_yes_is_given() {
    assert!(clean_is_dry_run(false, false));
    assert!(clean_is_dry_run(true, true));
    assert!(!clean_is_dry_run(true, false));
    assert!(clean_covers_all(false, false));
    assert!(clean_covers_all(true, true));
    assert!(!clean_covers_all(false, true));
}

#[test]
fn unknown_ids_are_listed_in_one_message() {
    let unknown = vec!["foo".to_owned(), "bar".to_owned()];
    assert_eq!(unknown_cleaners_message(&unknown), "unknown cleaner(s): foo, bar");
}

#[test]
fn result_and_skip_lines_show_decimal_sizes() {
    let result = CleanResult {
        cleaner_id: "npm".to_owned(),
        target: "/Users/test/.npm".to_owned(),
        dry_run: true,
        executed: false,
        success: true,
        expected_freed_bytes: 1_500,
        message: String::new(),
    };
    assert_eq!(clean_result_line(&result), "[preview] npm — /Users/test/.npm (1.50 kB)");
    let cleaned = CleanResult { dry_run: false, executed: true, ..result };
    assert_eq!(clean_result_line(&cleaned), "[cleaned] npm — /Users/test/.npm (1.50 kB)");
    assert_eq!(skipped_readonly_line(2, 1_500), "[skip] Skipped 2 read-only targets (1.50 kB)");
}

#[test]
fn scan_table_rows_cover_each_report_state() {
    let base = CleanerScan {
        cleaner_id: "npm".to_owned(),
        display_name: "npm cache".to_owned(),
        category: Category::PackageManager,
        risk_level: RiskLevel::Safe,
        available: false,
        targets: Vec::new(),
        error: None,
    };
    let empty = CleanerScan { available: true, ..base.clone() };
    let failed = CleanerScan { error: Some("boom".to_owned()), ..base.clone() };
    let full = CleanerScan {
        available: true,
        targets: vec![CleanTarget {
            path: "/Users/test/.npm".to_owned(),
            size_bytes: 2_000,
            description: "npm cache".to_owned(),
            method: CleanMethod::TrashPath,
        }],
        ..base.clone()
    };
    let rows = scan_table_rows(&vec![base, empty, failed, full]);
    assert_eq!(rows.len(), 4);
    assert_eq!(rows[0], vec!["npm cache", "unavailable", "-", "Safe", "-"]);
    assert_eq!(rows[1], vec!["npm cache", "nothing to clean", "0 B", "Safe", "-"]);
    assert_eq!(rows[2], vec!["npm cache", "scan error", "-", "Safe", "boom"]);
    assert_eq!(rows[3], vec!["npm cache", "npm cache", "2 kB", "Safe", "/Users/test/.npm"]);
}

#[test]
fn an_empty_readonly_table_says_so() {
    let rows = readonly_table_rows(&Vec::new());
    assert_eq!(
        rows,
        vec![vec!["-", "READONLY", "0 B", "No report-only targets found", "System paths remain protected"]]
    );
}

#[test]
fn wrapped_lines_fit_and_long_words_are_cut() {
    assert_eq!(wrap_text("aaa bbb", 3), vec!["aaa", "bbb"]);
    assert_eq!(wrap_text("aa bb", 5), vec!["aa bb"]);
    assert_eq!(wrap_text("abcdefg", 3), vec!["abc", "def", "g"]);
    assert_eq!(wrap_text("", 4), vec![""]);
    for line in wrap_text("a somewhat longer description of a cache folder", 7) {
        assert!(line.chars().count() <= 7);
    }
}

#[test]
fn footer_helpers_format_time_and_text() {
    assert_eq!(shorten("abcdef", 4), "abc…");
    assert_eq!(shorten("abc", 4), "abc");
    assert_eq!(elapsed_label(61_000), "01:01");
    assert_eq!(elapsed_label(5_999), "00:05");
    assert_eq!(activity_marker(0), '|');
    assert_eq!(activity_marker(150), '/');
    assert_eq!(activity_marker(300), '-');
    assert_eq!(activity_marker(450), '\\');
    assert_eq!(activity_marker(600), '|');
}

#[test]
fn the_scanning_footer_counts_received_reports() {
    let app = App::new(3, "0.1.7", Some(DiskUsage { total_bytes: 100, free_bytes: 10 }));
    let lines = footer_lines(&app, false, 0);
    assert_eq!(lines.len(), 3);
    assert_eq!(line_text(&lines[0]), "STATUS  Scanning cleaners · 0/3");
    assert_eq!(lines[0][1].color, Color::Cyan);
    assert_eq!(line_text(&lines[2]), "KEYS    [q] Quit");
}

fn disk_entry_of(path: &str, size: u64, read_only: bool) -> DiskScanEntry {
    DiskScanEntry {
        path: path.to_owned(),
        size_bytes: size,
        volume_usage: None,
        inaccessible_paths: 0,
        read_only,
    }
}

#[test]
fn full_disk_tables_mark_protected_paths() {
    let entries = vec![
        disk_entry_of("/Users", 3_000_000, false),
        disk_entry_of("/System", 2_000, true),
    ];
    let rows = location_table_rows("Root disk", &entries);
    assert_eq!(rows[0], vec!["Root disk", "-", "3 MB", "/Users"]);
    assert_eq!(rows[1], vec!["Root disk", "READONLY", "2 kB", "/System"]);
    assert_eq!(
        location_table_rows("HOME", &Vec::new()),
        vec![vec!["-", "READONLY", "0 B", "No readable entries"]]
    );
    assert_eq!(
        protected_table_rows(&vec![disk_entry_of("/Volumes/Data", 1_500, true)]),
        vec![vec!["READONLY", "system/mount excluded", "1.50 kB", "/Volumes/Data"]]
    );
}

#[test]
fn a_clean_run_records_refusals_and_failures_in_order() {
    let mut run = CleanRun::new();
    assert!(!run.failed());
    assert!(run.may_run("npm", RiskLevel::Safe, false, None, false));
    assert!(!run.may_run("trash", RiskLevel::Destructive, false, None, true));
    let result = CleanResult {
        cleaner_id: "npm".to_owned(),
        target: "/Users/test/.npm".to_owned(),
        dry_run: false,
        executed: true,
        success: true,
        expected_freed_bytes: 10,
        message: String::new(),
    };
    run.record("npm", Ok(result));
    run.record("docker", Err("docker is not running".to_owned()));
    assert_eq!(run.results.len(), 1);
    assert_eq!(run.results[0].target, "/Users/test/.npm");
    assert_eq!(run.errors.len(), 2);
    assert!(run.errors[0].starts_with("trash skipped: requires --confirm-destructive"));
    assert_eq!(run.errors[1], "docker: docker is not running");
    assert!(run.failed());
}
