use cleanrs::availability::{availability, EntryTest, Probe};
use cleanrs::cleaner::{CleanerKind, Platform};

fn describe(probes: &[Probe]) -> Vec<String> {
    probes
        .iter()
        .map(|probe| match probe {
            Probe::Installed(name) => format!("installed {name}"),
            Probe::Exists(path) => format!("exists {path}"),
            Probe::IsDir(path) => format!("dir {path}"),
            Probe::IsFile(path) => format!("file {path}"),
            Probe::Known(value) => format!("known {value}"),
            Probe::HasEntry(root, EntryTest::MacosInstaller) => format!("installer in {root}"),
            Probe::HasEntry(root, EntryTest::XcodeApp) => format!("xcode in {root}"),
            Probe::Leftovers => "leftovers".to_owned(),
        })
        .collect()
}

#[test]
fn the_trash_needs_finder_scripting_and_a_trash_folder() {
    let needed = availability(CleanerKind::Trash, Platform::MacOs, Some("/Users/test"), None, &Vec::new());
    assert_eq!(describe(&needed.all), vec!["installed osascript"]);
    assert_eq!(describe(&needed.any), vec!["dir /Users/test/.Trash"]);
    let without_home = availability(CleanerKind::Trash, Platform::MacOs, None, None, &Vec::new());
    assert!(without_home.any.is_empty());
}

#[test]
fn pip_is_available_through_any_of_its_launchers() {
    let needed = availability(CleanerKind::Pip, Platform::Other, None, None, &Vec::new());
    assert!(needed.all.is_empty());
    assert_eq!(describe(&needed.any), vec!["installed pip3", "installed pip", "installed python3"]);
}

#[test]
fn codex_follows_its_home_override_and_desktop_caches() {
    let needed = availability(
        CleanerKind::Codex,
        Platform::MacOs,
        Some("/Users/test"),
        Some("/opt/codex"),
        &Vec::new(),
    );
    assert_eq!(
        describe(&needed.any),
        vec![
            "installed codex",
            "exists /opt/codex",
            "exists /Users/test/Library/Caches/Codex",
            "exists /Users/test/Library/Caches/com.openai.codex",
        ]
    );
}

#[test]
fn platform_specific_rules_check_the_platform() {
    let leftovers = availability(CleanerKind::AppLeftovers, Platform::Windows, Some("C:\\Users\\me"), None, &Vec::new());
    assert_eq!(describe(&leftovers.all), vec!["known false"]);
    let system = availability(CleanerKind::MacosSystem, Platform::MacOs, Some("/Users/test"), None, &Vec::new());
    assert_eq!(describe(&system.any), vec!["known true"]);
    let temps = vec!["C:\\Temp".to_owned()];
    let windows = availability(CleanerKind::WindowsTemp, Platform::Windows, None, None, &temps);
    assert_eq!(describe(&windows.any), vec!["dir C:\\Temp"]);
    let xcode = availability(CleanerKind::XcodeInstallations, Platform::MacOs, Some("/Users/test"), None, &Vec::new());
    assert_eq!(
        describe(&xcode.any),
        vec!["xcode in /Applications", "xcode in /Users/test/Applications"]
    );
}
