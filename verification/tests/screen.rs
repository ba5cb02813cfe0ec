use cleanrs::cleaner::CleanerScan;
use cleanrs::model::{Category, CleanMethod, CleanResult, CleanTarget, RiskLevel};
use cleanrs::tui::{App, DiskUsage, Key, KeyAction, Mode};
use cleanrs::workflow::{CleanMessage, RunOutcome};

fn target(path: &str, size: u64) -> CleanTarget {
    CleanTarget {
        path: path.to_owned(),
        size_bytes: size,
        description: "cache".to_owned(),
        method: CleanMethod::TrashPath,
    }
}

fn scan(id: &str, risk: RiskLevel, targets: Vec<CleanTarget>) -> CleanerScan {
    CleanerScan {
        cleaner_id: id.to_owned(),
        display_name: id.to_owned(),
        category: Category::PackageManager,
        risk_level: risk,
        available: true,
        targets,
        error: None,
    }
}

fn reviewed_app() -> App {
    let mut app = App::new(2, "0.1.7", Some(DiskUsage { total_bytes: 100_000, free_bytes: 10_000 }));
    app.add_scan(scan("npm", RiskLevel::Safe, vec![target("/Users/test/.npm", 1_000)]));
    app.add_scan(scan("personal", RiskLevel::Manual, vec![target("/Users/test/Backups", 500)]));
    app.finish_scanning_if_done(false, None);
    app
}

#[test]
fn scanning_ends_when_every_report_arrived() {
    let app = reviewed_app();
    assert_eq!(app.screen.mode, Mode::Reviewing);
    assert_eq!(app.review.rows.len(), 2);
    assert_eq!(app.review.rows[0].target.path, "/Users/test/.npm");
    assert!(app.review.rows[0].selected);
    assert!(!app.review.rows[1].selected);
    assert_eq!(app.selected_count(), 1);
    assert_eq!(app.selected_size(), 1_000);
}

#[test]
fn toggling_a_row_twice_restores_the_selection() {
    let mut app = reviewed_app();
    assert_eq!(app.handle_key(Key::Char(' ')), KeyAction::Continue);
    assert!(!app.review.rows[0].selected);
    app.handle_key(Key::Char(' '));
    assert!(app.review.rows[0].selected);
}

#[test]
fn manual_targets_need_typed_force_for_a_real_run() {
    let mut app = reviewed_app();
    app.handle_key(Key::Down);
    app.handle_key(Key::Char(' '));
    app.handle_key(Key::Char('d'));
    assert!(!app.screen.dry_run);
    app.handle_key(Key::Enter);
    assert_eq!(app.screen.mode, Mode::Confirming);
    assert_eq!(app.handle_key(Key::Char('y')), KeyAction::Continue);
    assert_eq!(app.screen.confirm_text, "y");
    app.handle_key(Key::Backspace);
    for c in "FORCE".chars() {
        app.handle_key(Key::Char(c));
    }
    assert_eq!(app.handle_key(Key::Enter), KeyAction::StartCleaning);
}

#[test]
fn q_quits_from_any_screen() {
    let mut app = reviewed_app();
    assert_eq!(app.handle_key(Key::Char('q')), KeyAction::Quit);
    app.handle_key(Key::Enter);
    assert_eq!(app.handle_key(Key::Char('q')), KeyAction::Quit);
}

#[test]
fn a_preview_runs_the_selected_targets_and_reports_sizes() {
    let mut app = reviewed_app();
    app.handle_key(Key::Enter);
    assert_eq!(app.handle_key(Key::Char('y')), KeyAction::StartCleaning);
    let jobs = app.start_cleaning(None);
    assert_eq!(app.screen.mode, Mode::Cleaning);
    assert_eq!(jobs.len(), 1);
    assert_eq!(jobs[0].0, "npm");
    assert_eq!(jobs[0].1.path, "/Users/test/.npm");
    assert_eq!(app.progress.cleaning_total, 1);

    let started = app.on_clean_message(Some(CleanMessage::Started {
        cleaner_id: "npm".to_owned(),
        target: jobs[0].1.clone(),
    }));
    assert!(!started);
    assert_eq!(app.progress.active_target.as_deref(), Some("/Users/test/.npm"));
    app.on_clean_message(Some(CleanMessage::Target(Ok(CleanResult {
        cleaner_id: "npm".to_owned(),
        target: "/Users/test/.npm".to_owned(),
        dry_run: true,
        executed: false,
        success: true,
        expected_freed_bytes: 1_500,
        message: "dry-run: would move to Trash".to_owned(),
    }))));
    assert!(app.on_clean_message(Some(CleanMessage::Finished)));
    let rescan = app.finish_cleaning(Some(DiskUsage { total_bytes: 100_000, free_bytes: 10_000 }));

    assert!(!rescan);
    assert_eq!(app.screen.mode, Mode::Reviewing);
    assert_eq!(
        app.screen.last_action.as_deref(),
        Some("Previewed 1/1 target(s), estimated 1.50 kB freed, actual free change 0 B; 0 error(s); no files changed; targets kept")
    );
}

#[test]
fn a_vanished_cleaning_worker_is_an_error() {
    let mut app = reviewed_app();
    app.handle_key(Key::Enter);
    app.start_cleaning(None);
    assert!(app.on_clean_message(None));
    assert_eq!(app.progress.errors, vec!["cleanup worker stopped unexpectedly".to_owned()]);
}

#[test]
fn the_release_check_answer_sets_the_update_state() {
    let mut app = reviewed_app();
    app.on_update_check(None);
    assert!(app.available_update().is_none());
    app.on_update_check(Some(Ok(Some(cleanrs::update::UpdateInfo {
        current_version: "0.1.7".to_owned(),
        latest_version: "0.1.8".to_owned(),
        release_url: "u".to_owned(),
    }))));
    assert_eq!(app.available_update().map(|u| u.latest_version), Some("0.1.8".to_owned()));
    assert_eq!(app.handle_key(Key::Char('u')), KeyAction::Upgrade);
}

#[test]
fn explorer_navigation_keeps_a_history() {
    let mut app = reviewed_app();
    assert!(app.open_full_disk());
    assert!(app.explorer.show_full_disk);
    assert!(!app.open_full_disk());
    let opened = app.open_directory("/", Some("/Users".to_owned()));
    assert_eq!(opened.as_deref(), Some("/Users"));
    assert!(app.explorer.directory_scanning);
    assert_eq!(app.explorer.directory_history, vec!["/".to_owned()]);
    assert!(app.back_directory("/").is_none());
    app.on_directory_scan(Some(Err("denied".to_owned())));
    assert_eq!(app.explorer.directory_error.as_deref(), Some("denied"));
    assert!(app.back_directory("/").is_none());
    assert!(app.explorer.directory_history.is_empty());
    assert!(app.back_directory("/").is_none());
    assert!(!app.explorer.show_full_disk);
}

#[test]
fn explorer_delete_needs_an_open_folder() {
    let mut app = reviewed_app();
    app.request_explorer_delete();
    assert_eq!(
        app.screen.last_action.as_deref(),
        Some("Inventory only · Enter opens folder/file parent")
    );
    assert!(app.explorer.pending_explorer_delete.is_none());
}

#[test]
fn only_quit_and_an_available_upgrade_end_the_ui() {
    let mut app = reviewed_app();
    assert!(matches!(app.outcome_of(KeyAction::Quit), Some(RunOutcome::Exit)));
    assert!(app.outcome_of(KeyAction::Upgrade).is_none());
    assert!(app.outcome_of(KeyAction::Rescan).is_none());
    app.on_update_check(Some(Ok(Some(cleanrs::update::UpdateInfo {
        current_version: "0.1.7".to_owned(),
        latest_version: "0.2.0".to_owned(),
        release_url: "u".to_owned(),
    }))));
    match app.outcome_of(KeyAction::Upgrade) {
        Some(RunOutcome::Upgrade(update)) => assert_eq!(update.latest_version, "0.2.0"),
        _ => panic!("an available release should end the UI with an upgrade"),
    }
}

#[test]
fn an_estimate_too_large_for_64_bits_is_shown_at_the_largest_value() {
    let mut app = reviewed_app();
    app.handle_key(Key::Enter);
    app.start_cleaning(None);
    for _ in 0..2 {
        app.on_clean_message(Some(CleanMessage::Target(Ok(CleanResult {
            cleaner_id: "npm".to_owned(),
            target: "/Users/test/.npm".to_owned(),
            dry_run: true,
            executed: false,
            success: true,
            expected_freed_bytes: u64::MAX,
            message: String::new(),
        }))));
    }
    assert!(app.on_clean_message(Some(CleanMessage::Finished)));
    app.finish_cleaning(None);
    assert_eq!(
        app.screen.last_action.as_deref(),
        Some("Previewed 2/1 target(s), estimated 18.45 EB freed, actual free change 0 B; 0 error(s); no files changed; targets kept")
    );
}
