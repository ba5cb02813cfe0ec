use cleanrs::platform::macos::config::protected_table;
use cleanrs::allowlist::{is_allowlisted, load_delete_allowlist, toggle_delete_allowlist};

#[test]
fn loading_orders_and_deduplicates_paths() {
    let list = load_delete_allowlist(vec![
        "/Users/test/b".to_owned(),
        "/Users/test/a".to_owned(),
        "/Users/test/b/".to_owned(),
    ]);
    assert_eq!(list, vec!["/Users/test/a".to_owned(), "/Users/test/b".to_owned()]);
    assert!(is_allowlisted(&list, "/Users/test/b/"));
    assert!(!is_allowlisted(&list, "/Users/test/c"));
}

#[test]
fn toggling_adds_then_removes() {
    let mut list = load_delete_allowlist(vec!["/Users/test/a".to_owned()]);
    let start = list.clone();
    assert_eq!(toggle_delete_allowlist(&mut list, "/Users/test/.Cocos/profiles", true, Some("/Users/test"), &protected_table()), Ok(true));
    assert!(is_allowlisted(&list, "/Users/test/.Cocos/profiles"));
    assert_eq!(toggle_delete_allowlist(&mut list, "/Users/test/.Cocos/profiles", true, Some("/Users/test"), &protected_table()), Ok(false));
    assert_eq!(list, start);
}

#[test]
fn refuses_files_relative_protected_and_home_paths() {
    let mut list = Vec::new();
    assert_eq!(
        toggle_delete_allowlist(&mut list, "/Users/test/file.txt", false, Some("/Users/test"), &protected_table()),
        Err("only real directories can be added to the delete allowlist".to_owned())
    );
    assert_eq!(
        toggle_delete_allowlist(&mut list, "cache", true, Some("/Users/test"), &protected_table()),
        Err("delete allowlist path must be absolute: cache".to_owned())
    );
    assert_eq!(
        toggle_delete_allowlist(&mut list, "/System/Library", true, Some("/Users/test"), &protected_table()),
        Err("protected system paths cannot be added to the delete allowlist".to_owned())
    );
    assert_eq!(
        toggle_delete_allowlist(&mut list, "/Users/test", true, Some("/Users/test"), &protected_table()),
        Err("the home directory cannot be added to the delete allowlist".to_owned())
    );
    assert!(list.is_empty());
}

#[test]
fn toggling_a_listed_path_twice_gives_back_the_list() {
    let mut list = load_delete_allowlist(vec![
        "/Users/test/a".to_string(),
        "/Users/test/b".to_string(),
        "/Users/test/c".to_string(),
    ]);
    let before = list.clone();
    assert_eq!(toggle_delete_allowlist(&mut list, "/Users/test/b", true, Some("/Users/test"), &protected_table()), Ok(false));
    assert_eq!(list, vec!["/Users/test/a".to_string(), "/Users/test/c".to_string()]);
    assert_eq!(toggle_delete_allowlist(&mut list, "/Users/test/b", true, Some("/Users/test"), &protected_table()), Ok(true));
    assert_eq!(list, before);
}

#[test]
fn a_toggle_changes_only_the_toggled_path() {
    let mut list = load_delete_allowlist(vec![
        "/Users/test/a".to_string(),
        "/Users/test/b".to_string(),
    ]);
    assert_eq!(
        toggle_delete_allowlist(&mut list, "/Users/test/b/", true, Some("/Users/test"), &protected_table()),
        Ok(false)
    );
    assert!(!is_allowlisted(&list, "/Users/test/b"));
    assert!(is_allowlisted(&list, "/Users/test/a"));
    assert_eq!(
        toggle_delete_allowlist(&mut list, "/Users/test/c", true, Some("/Users/test"), &protected_table()),
        Ok(true)
    );
    assert!(is_allowlisted(&list, "/Users/test/a"));
    assert!(is_allowlisted(&list, "/Users/test/c"));
    assert_eq!(list.len(), 2);
}
