use cleanrs::platform::macos::config::protected_table;
use cleanrs::scanner::{
    can_delete_path, directory_entry, directory_suggestion, file_suggestion, is_protected_path,
    readonly_directory_entry, disk_entry, protected_entry, FullDiskScan,
};

#[test]
fn home_data_is_reviewable_not_system_read_only() {
    assert!(is_protected_path("/System/Library", &protected_table()));
    assert!(is_protected_path("/private/var", &protected_table()));
    assert!(is_protected_path("/Library/Updates", &protected_table()));
    assert!(!is_protected_path("/Users/test/Library/Developer/CoreSimulator", &protected_table()));
}

#[test]
fn directory_scan_approves_allowlisted_folder() {
    let path = "/Users/test/.Cocos/profiles";
    let suggestion = directory_suggestion(path, true, Some("/Users/test")).expect("allowlisted folder");

    assert!(suggestion.can_delete);
    assert!(suggestion.reason.contains("allowlist"));
    assert!(directory_suggestion(path, false, Some("/Users/test")).is_none());
}

#[test]
fn user_file_area_items_are_explicitly_deletable() {
    let home = "/Users/test";
    for area in ["Downloads", "Desktop", "Documents"] {
        let root = format!("{home}/{area}");
        let file = file_suggestion(&format!("{root}/old.zip"), Some(home)).expect("user-area file");
        let folder =
            directory_suggestion(&format!("{root}/old-folder"), false, Some(home)).expect("user-area folder");

        assert!(file.can_delete);
        assert!(folder.can_delete);
        assert!(directory_suggestion(&root, false, Some(home)).is_none());
    }
}

#[test]
fn protected_transient_files_get_explicit_review_suggestions() {
    let core_dump = file_suggestion("/cores/core.123", None).expect("core dump should be recognized");
    assert!(core_dump.can_delete);

    let temp_file =
        file_suggestion("/private/tmp/my-cleaner.tmp", None).expect("system temp file should be recognized");
    assert!(temp_file.can_delete);

    assert!(file_suggestion("/private/var/db/system.db", None).is_none());
}

#[test]
fn directory_scan_suggests_regenerable_folders() {
    let entry = directory_entry(
        "/Users/test/project/node_modules".to_owned(),
        10,
        0,
        true,
        false,
        Some("/Users/test"),
        &protected_table(),
    );
    assert!(!entry.read_only);
    assert!(entry.suggestion.as_ref().is_some_and(|s| s.can_delete));
    assert!(entry
        .suggestion
        .as_ref()
        .is_some_and(|s| s.reason.contains("regenerable Node dependencies")));
}

#[test]
fn simulator_data_is_flagged_for_review_only() {
    let simulator = directory_entry(
        "/Users/test/scratch/CoreSimulator".to_owned(),
        10,
        0,
        true,
        false,
        Some("/Users/test"),
        &protected_table(),
    );

    assert!(!simulator.read_only);
    assert!(simulator.suggestion.as_ref().is_some_and(|s| !s.can_delete));
}

#[test]
fn readonly_directory_entries_keep_recursive_size() {
    let entry = readonly_directory_entry("/System/Library".to_owned(), 17, 0);
    assert_eq!(entry.size_bytes, 17);
    assert!(entry.read_only);
    assert!(entry.suggestion.is_none());
}

#[test]
fn protected_directories_cannot_be_deleted_but_user_data_can() {
    assert!(!can_delete_path("/System/Library", false, Some("/Users/test"), &protected_table()));
    assert!(can_delete_path("/Users/test/Library/Caches/tool", false, Some("/Users/test"), &protected_table()));
    assert!(can_delete_path("/cores/core.123", true, Some("/Users/test"), &protected_table()));
}

#[test]
fn a_scan_in_progress_keeps_the_largest_children_and_counts_blocked_paths() {
    let mut report = FullDiskScan::started("/".to_owned(), vec!["/System".to_owned()]);
    report.add_root_child(Some(disk_entry("/Users".to_owned(), 10, None, 1, &protected_table())), 1, 1);
    report.add_root_child(None, 0, 1);
    report.add_root_child(Some(disk_entry("/opt".to_owned(), 30, None, 2, &protected_table())), 2, 1);
    report.add_readonly_path(Some(protected_entry("/Volumes/b".to_owned(), 5, None, 0)), 0);
    report.add_readonly_path(Some(protected_entry("/Volumes/a".to_owned(), 7, None, 0)), 0);
    report.add_home_child(Some(disk_entry("/Users/test/Downloads".to_owned(), 3, None, 0, &protected_table())), 4, 2);

    let snapshot = report.progress("HOME", 1, 3, false);
    assert_eq!(snapshot.phase, "HOME");
    assert_eq!((snapshot.completed, snapshot.total, snapshot.finished), (1, 3, false));
    assert_eq!(snapshot.report.root, "/");
    assert_eq!(snapshot.report.readonly_paths, vec!["/System".to_owned()]);
    let root: Vec<&str> = snapshot.report.root_entries.iter().map(|e| e.path.as_str()).collect();
    assert_eq!(root, vec!["/opt"]);
    let readonly: Vec<&str> = snapshot.report.readonly_entries.iter().map(|e| e.path.as_str()).collect();
    assert_eq!(readonly, vec!["/Volumes/a", "/Volumes/b"]);
    assert!(snapshot.report.readonly_entries.iter().all(|e| e.read_only));
    assert_eq!(snapshot.report.home_entries.len(), 1);
    assert_eq!(snapshot.report.inaccessible_paths, 7);
}
