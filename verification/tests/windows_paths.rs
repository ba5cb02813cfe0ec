use cleanrs::platform::{macos, unsupported, windows};
use cleanrs::scanner::can_delete_path;
use cleanrs::platform::windows::config::{
    default_scan_root, excluded_root_paths, home_dir, home_path, is_default_scan_root,
    is_protected_path, read_only_advice, read_only_report_paths, win_join, win_path_eq,
};

#[test]
fn the_home_directory_prefers_the_user_profile() {
    assert_eq!(
        home_dir(Some("C:\\Users\\me"), Some("D:"), Some("\\Other")).as_deref(),
        Some("C:\\Users\\me")
    );
    assert_eq!(
        home_dir(None, Some("C:"), Some("\\Users\\me")).as_deref(),
        Some("C:\\Users\\me")
    );
    assert_eq!(home_dir(None, Some("C:"), None), None);
    assert_eq!(
        home_path(Some("C:\\Users\\me"), "AppData").as_deref(),
        Some("C:\\Users\\me\\AppData")
    );
    assert_eq!(home_path(None, "AppData"), None);
}

#[test]
fn joining_follows_windows_rules() {
    assert_eq!(win_join("C:\\Users", "\\Temp"), "C:\\Temp");
    assert_eq!(win_join("C:", "x"), "C:x");
    assert_eq!(win_join("C:\\a", "D:\\b"), "D:\\b");
    assert_eq!(win_join("C:\\a\\", "b"), "C:\\a\\b");
}

#[test]
fn the_scan_root_is_the_system_drive() {
    assert_eq!(default_scan_root(Some("D:")), "D:\\");
    assert_eq!(default_scan_root(Some("E:\\")), "E:\\");
    assert_eq!(default_scan_root(None), "C:\\");
    assert!(is_default_scan_root("c:/", None));
    assert!(!is_default_scan_root("C:\\Windows", None));
    assert!(win_path_eq("C:\\Users\\me", "C:/Users/me/"));
}

#[test]
fn system_folders_are_protected() {
    let roots = excluded_root_paths(Some("C:\\Windows"), None, Some("C:\\Program Files (x86)"), None);
    assert_eq!(roots, vec!["C:\\Windows", "C:\\Program Files (x86)"]);
    assert!(is_protected_path("C:\\Windows\\System32", &roots));
    assert!(is_protected_path("C:\\Windows", &roots));
    assert!(!is_protected_path("C:\\Users\\me", &roots));
    assert!(read_only_report_paths().is_empty());
    assert!(read_only_advice().contains("never delete"));
}

#[test]
fn the_delete_gate_uses_the_platform_protected_table() {
    let win = windows::config::protected_table(windows::config::excluded_root_paths(
        Some("C:\\Windows"),
        Some("C:\\Program Files"),
        None,
        Some("C:\\ProgramData"),
    ));
    assert!(!can_delete_path("C:\\Windows\\System32", false, None, &win));
    assert!(!can_delete_path("c:/Program Files/App", false, None, &win));
    assert!(can_delete_path("C:\\Users\\me\\AppData\\Local\\Temp", false, None, &win));
    let other = unsupported::config::protected_table();
    assert!(can_delete_path("/usr", false, None, &other));
    assert!(can_delete_path("/bin", false, None, &other));
    let mac = macos::config::protected_table();
    assert!(!can_delete_path("/usr", false, None, &mac));
}
