use cleanrs::platform::macos::config::protected_table;
use cleanrs::cleaner::non_empty_target;
use cleanrs::history::{history_line, record_history};
use cleanrs::model::CleanMethod;
use cleanrs::rules::macos_installers::{is_macos_installer, MacosInstallerCleaner};
use cleanrs::rules::xcode::XcodeInstallationsCleaner;
use cleanrs::scanner::{disk_entry, protected_entry, select_home_entries};
use cleanrs::standalone::{binary_tool, version_tool, BinaryEntry, VersionEntry};

#[test]
fn appends_sanitized_history_entries() {
    let record = record_history(
        "clean",
        "npm",
        "/tmp/cache\nforged",
        "success",
        "moved\tto trash",
    );
    let contents = history_line(&record, 1_700_000_000);
    assert_eq!(contents.lines().count(), 1);
    assert!(contents.contains("/tmp/cache forged"));
    assert!(contents.contains("moved to trash"));
    assert_eq!(
        contents,
        "{\"timestamp\":1700000000,\"operation\":\"clean\",\"actor\":\"npm\",\"target\":\"/tmp/cache forged\",\"status\":\"success\",\"detail\":\"moved to trash\"}"
    );
    let value: serde_json::Value = serde_json::from_str(&contents).expect("one JSON object");
    assert_eq!(value["target"], "/tmp/cache forged");
    assert_eq!(value["timestamp"], 1_700_000_000u64);
}

#[test]
fn history_fields_are_escaped_as_json_strings() {
    let record = record_history("clean", "npm", "a\"b\\c\u{1}", "failed", "x");
    let line = history_line(&record, 7);
    assert!(line.contains("\"target\":\"a\\\"b\\\\c\\u0001\""));
    let value: serde_json::Value = serde_json::from_str(&line).expect("one JSON object");
    assert_eq!(value["target"], "a\"b\\c\u{1}");
    assert_eq!(value["status"], "failed");
}

#[test]
fn non_empty_target_omits_empty_directories() {
    let target = non_empty_target(
        "/tmp/root/empty-cache".to_owned(),
        "empty cache".to_owned(),
        CleanMethod::TrashPath,
        Some(0),
    );
    assert!(target.is_none());
    let missing = non_empty_target(
        "/tmp/root/missing".to_owned(),
        "missing cache".to_owned(),
        CleanMethod::TrashPath,
        None,
    );
    assert!(missing.is_none());
}

#[test]
fn non_empty_target_reports_reclaimable_directories() {
    let target = non_empty_target(
        "/tmp/root/cache".to_owned(),
        "cache".to_owned(),
        CleanMethod::TrashPath,
        Some(10),
    )
    .expect("non-empty directory should become a target");
    assert_eq!(target.path, "/tmp/root/cache");
    assert_eq!(target.size_bytes, 10);
}

#[test]
fn finds_installer_apps_in_user_file_roots() {
    let installer = "/tmp/root/Install macOS Test.app";
    assert!(is_macos_installer(installer, true));
    assert!(!is_macos_installer("/tmp/root/Not an installer.app", true));
    assert!(!is_macos_installer(installer, false));
    let target = MacosInstallerCleaner::installer_target(installer.to_owned(), 9)
        .expect("a non-empty installer is a target");
    assert_eq!(target.path, installer);
    assert!(target.size_bytes > 0);
    assert!(MacosInstallerCleaner::installer_target(installer.to_owned(), 0).is_none());
}

#[test]
fn protected_inventory_keeps_size_without_authorizing_root_deletion() {
    let entry = protected_entry("/tmp/root/large.cache".to_owned(), 32, None, 0);
    assert_eq!(entry.inaccessible_paths, 0);
    assert_eq!(entry.size_bytes, 32);
    assert!(entry.read_only);
}

#[test]
fn home_scan_keeps_standard_directories_outside_top_limit() {
    let home = "/tmp/home";
    let standard: Vec<String> = ["Desktop", "Documents", "Downloads"]
        .iter()
        .map(|name| format!("{home}/{name}"))
        .collect();
    let mut entries = Vec::new();
    for path in &standard {
        entries.push(disk_entry(path.clone(), 0, None, 0, &protected_table()));
    }
    for index in 0..4 {
        entries.push(disk_entry(format!("{home}/cache-{index}"), 8, None, 0, &protected_table()));
    }
    let selected = select_home_entries(entries, &standard, 1);
    for path in &standard {
        assert!(selected.iter().any(|entry| &entry.path == path));
    }
    assert_eq!(selected.len(), 4);
    assert_eq!(selected[0].size_bytes, 8);
}

#[test]
fn scans_only_direct_executable_entries_and_protects_running_binary() {
    let entries = vec![
        BinaryEntry {
            name: "curl-tool".to_owned(),
            path: "/tmp/bin/curl-tool".to_owned(),
            is_file: true,
            is_symlink: false,
            is_executable: true,
            size_bytes: Some(6),
            running: true,
        },
        BinaryEntry {
            name: "notes.txt".to_owned(),
            path: "/tmp/bin/notes.txt".to_owned(),
            is_file: true,
            is_symlink: false,
            is_executable: false,
            size_bytes: Some(12),
            running: false,
        },
        BinaryEntry {
            name: "nested".to_owned(),
            path: "/tmp/bin/nested".to_owned(),
            is_file: false,
            is_symlink: false,
            is_executable: true,
            size_bytes: Some(64),
            running: false,
        },
    ];
    let tools: Vec<_> = entries
        .into_iter()
        .filter_map(|entry| binary_tool(entry, "~/bin"))
        .collect();
    assert_eq!(tools.len(), 1);
    assert_eq!(tools[0].name, "curl-tool");
    assert!(!tools[0].can_remove);
    assert!(tools[0]
        .warning
        .as_deref()
        .is_some_and(|warning| warning.contains("currently running")));
}

#[test]
fn protects_active_version_and_reports_old_directory_size() {
    let version = |name: &str, size: u64, active: bool| VersionEntry {
        name: name.to_owned(),
        path: format!("/tmp/releases/{name}"),
        is_dir: true,
        is_file: false,
        is_symlink: false,
        size_bytes: size,
        active,
    };
    let root = "~/.codex/packages/standalone/releases";
    let description = "Codex CLI standalone runtime";
    let active_tool = version_tool(version("active-version", 6, true), root, description)
        .expect("active version");
    let old_tool = version_tool(version("old-version", 11, false), root, description)
        .expect("old version");
    assert!(!active_tool.can_remove);
    assert!(old_tool.can_remove);
    assert!(old_tool.is_directory);
    assert!(old_tool.size_bytes > 0);
}

#[test]
fn finds_old_xcode_apps_but_excludes_active_app() {
    let active = "/tmp/root/Xcode.app";
    let old = "/tmp/root/Xcode-15.4.app";
    let entries = [(active, true), (old, false)];
    let targets: Vec<_> = entries
        .iter()
        .filter(|(path, is_active)| XcodeInstallationsCleaner::is_old_xcode_app(path, true, *is_active))
        .filter_map(|(path, _)| XcodeInstallationsCleaner::old_xcode_target(path.to_string(), 3))
        .collect();
    assert_eq!(targets.len(), 1);
    assert_eq!(targets[0].path, old);
    assert!(targets[0].size_bytes > 0);
}
