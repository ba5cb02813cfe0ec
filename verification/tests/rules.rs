use cleanrs::rules::app_leftovers::{is_orphaned_path, leftover_plan};
use cleanrs::cleaner::{scan_cleaner, CleanerKind};
use cleanrs::model::{CleanMethod, CleanTarget, RiskLevel};
use cleanrs::report::{all_reporters, ReportOnly};
use cleanrs::rules::app_leftovers::specs;
use cleanrs::rules::configured::{configured_risk, resolve_rules, ConfigRisk, ConfigRule};
use cleanrs::rules::docker::DockerCleaner;
use cleanrs::rules::ollama::OllamaCleaner;
use cleanrs::rules::simulator::{SimDevice, SimulatorUnavailableCleaner};
use cleanrs::rules::trash::{names_of, TrashEntry, TrashOrder};
use std::collections::HashSet;

#[test]
fn risk_labels_are_plain_language() {
    assert_eq!(RiskLevel::Safe.user_label(), "SAFE · can be recreated");
    assert_eq!(RiskLevel::Caution.user_label(), "REVIEW · may affect app data");
    assert_eq!(RiskLevel::Manual.user_label(), "ASK FIRST · personal/dev data");
    assert_eq!(RiskLevel::Destructive.user_label(), "IRREVERSIBLE");
}

#[test]
fn protected_report_is_report_only() {
    let reports = all_reporters();
    assert_eq!(reports.len(), 1);
    assert_eq!(reports[0].id(), "protected-system");
    assert!(reports[0].advice().contains("never delete"));
}

#[test]
fn registry_contains_high_confidence_app_families() {
    let registry = specs();
    for id in ["docker-desktop", "visual-studio-code", "cursor", "postman", "slack", "discord"] {
        assert!(registry.iter().any(|spec| spec.id == id), "missing {id}");
    }
}

#[test]
fn registry_has_no_duplicate_data_paths() {
    let mut paths = HashSet::new();
    for spec in specs() {
        for (path, _) in spec.data_paths {
            assert!(paths.insert(path), "duplicate leftover path: {path}");
        }
    }
}

/// The docker reading of a size: the number text read as a float, times the
/// unit, truncated.
fn docker_size(value: &str) -> Option<u64> {
    let (number, multiplier) = DockerCleaner::size_parts(value)?;
    let number = number.parse::<f64>().ok()?;
    Some((number * multiplier as f64) as u64)
}

#[test]
fn parses_docker_reclaimable_sizes() {
    assert_eq!(docker_size("1.5GB (20%)"), Some(1_500_000_000));
    assert_eq!(docker_size("0B"), Some(0));
    assert_eq!(docker_size("unknown"), None);
}

#[test]
fn parses_ollama_list_rows() {
    let output = "NAME ID SIZE MODIFIED\nqwen3:8b abc 4.7 GB 2 days ago\n";
    let rows: Vec<(String, u64)> = OllamaCleaner::model_rows(output)
        .into_iter()
        .filter_map(|(name, value, unit)| {
            let (number, multiplier) = OllamaCleaner::size_parts(&value, &unit)?;
            let number = number.parse::<f64>().ok()?;
            Some((name, (number * multiplier as f64) as u64))
        })
        .collect();
    assert_eq!(rows, vec![("qwen3:8b".to_owned(), 4_700_000_000)]);
}

#[test]
fn orders_trash_items_for_summary() {
    let mut entries = vec![
        TrashEntry {
            name: "small".to_owned(),
            size_bytes: 1,
            modified: 1_000_000_000,
        },
        TrashEntry {
            name: "large".to_owned(),
            size_bytes: 20,
            modified: 2_000_000_000,
        },
    ];
    let summary = names_of(&mut entries, TrashOrder::Largest);
    assert_eq!(summary.0, 2);
    assert_eq!(summary.1, "large, small");
}

#[test]
fn newest_trash_items_come_first_when_asked() {
    let mut entries = vec![
        TrashEntry { name: "old".to_owned(), size_bytes: 50, modified: 1 },
        TrashEntry { name: "new".to_owned(), size_bytes: 5, modified: 9 },
    ];
    let summary = names_of(&mut entries, TrashOrder::Newest);
    assert_eq!(summary.1, "new, old");
}

#[test]
fn scan_cleaner_drops_zero_byte_targets() {
    let target = CleanTarget {
        path: "cache://empty".to_owned(),
        size_bytes: 0,
        description: "already empty".to_owned(),
        method: CleanMethod::TrashPath,
    };
    let report = scan_cleaner(&CleanerKind::Cargo, true, Ok(vec![target]));

    assert!(report.error.is_none());
    assert!(report.targets.is_empty());
}

fn rule(path: &str, command: Option<Vec<&str>>, risk: Option<ConfigRisk>) -> ConfigRule {
    ConfigRule {
        path: path.to_owned(),
        description: None,
        command: command.map(|words| words.into_iter().map(str::to_owned).collect()),
        risk,
    }
}

#[test]
fn parses_path_and_direct_command_rules() {
    let mut first = rule("/tmp/cache", None, Some(ConfigRisk::Caution));
    first.description = Some("Temporary cache".to_owned());
    let second = rule("/tmp/tool-data", Some(vec!["tool", "cache", "clean"]), None);
    let rules = resolve_rules(vec![first, second], Some("/Users/test")).expect("rules should parse");

    assert_eq!(rules.len(), 2);
    assert_eq!(rules[0].risk, RiskLevel::Caution);
    assert!(matches!(rules[0].method, CleanMethod::TrashPath));
    assert_eq!(rules[1].risk, RiskLevel::Manual);
    assert!(matches!(rules[1].method, CleanMethod::RunCommand(_)));
}

#[test]
fn rejects_relative_paths_and_empty_commands() {
    assert!(resolve_rules(vec![rule("cache", None, None)], Some("/Users/test")).is_err());
    assert!(resolve_rules(vec![rule("/tmp/cache", Some(vec![]), None)], Some("/Users/test")).is_err());
}

#[test]
fn configured_rules_carry_their_highest_risk() {
    let safe = rule("/tmp/a", None, Some(ConfigRisk::Safe));
    let caution = rule("/tmp/b", None, None);
    let rules = resolve_rules(vec![safe, caution], Some("/Users/test"));
    assert_eq!(configured_risk(&rules), RiskLevel::Caution);
    let only_safe = resolve_rules(vec![rule("/tmp/a", None, Some(ConfigRisk::Safe))], None);
    assert_eq!(configured_risk(&only_safe), RiskLevel::Safe);
    assert_eq!(configured_risk(&Ok(Vec::new())), RiskLevel::Manual);
    assert_eq!(configured_risk(&Err("broken".to_owned())), RiskLevel::Manual);
}

#[test]
fn parses_only_unavailable_simulators() {
    let devices = vec![
        SimDevice {
            name: Some("iPhone 15".to_owned()),
            udid: Some("ACTIVE".to_owned()),
            is_available: Some(true),
        },
        SimDevice {
            name: Some("Old Phone".to_owned()),
            udid: Some("OLD".to_owned()),
            is_available: Some(false),
        },
    ];
    let devices = SimulatorUnavailableCleaner::unavailable_devices(&devices);
    assert_eq!(devices.len(), 1);
    assert_eq!(devices[0].udid, "OLD");
}

#[test]
fn docker_reports_nothing_for_blank_output() {
    assert!(DockerCleaner::targets("  \n", 0).is_empty());
    let targets = DockerCleaner::targets("Images\t1.5GB (20%)", 1_500_000_000);
    assert_eq!(targets.len(), 1);
    assert_eq!(targets[0].path, "docker://system");
    assert_eq!(targets[0].size_bytes, 1_500_000_000);
}

#[test]
fn running_and_unsized_models_are_not_offered() {
    let models = vec![
        ("llama3:8b".to_owned(), Some(4_700_000_000)),
        ("mistral:7b".to_owned(), Some(4_100_000_000)),
        ("broken".to_owned(), None),
    ];
    let running = vec!["mistral:7b".to_owned()];
    let removable = OllamaCleaner::removable_models(models, &running);
    assert_eq!(removable, vec![("llama3:8b".to_owned(), 4_700_000_000)]);
}

#[test]
fn dart_cache_cleaning_answers_its_prompt_with_y() {
    let planned = cleanrs::rules::dart::DartCleaner::planned_target("/Users/test");
    assert_eq!(planned.path, "/Users/test/.pub-cache");
    match planned.method {
        CleanMethod::RunCommandWithInput { arguments, stdin } => {
            assert_eq!(arguments, vec!["dart", "pub", "cache", "clean"]);
            assert_eq!(stdin, "y\n");
        }
        _ => panic!("dart cache cleaning should supply its confirmation"),
    }
}

#[test]
fn the_generic_cache_scan_leaves_uninstalled_apps_to_their_rule() {
    let children = vec![
        ("/Users/test/Library/Caches/com.docker.docker".to_owned(), "com.docker.docker".to_owned()),
        ("/Users/test/Library/Caches/com.example.app".to_owned(), "com.example.app".to_owned()),
        ("/Users/test/Library/Caches/Homebrew".to_owned(), "Homebrew".to_owned()),
    ];
    let docker_missing = vec![false, true, true, true, true, true];
    let planned = cleanrs::rules::macos_system::MacosSystemCleaner::child_targets(
        &children,
        "app cache",
        &cleanrs::rules::macos_system::excluded_cache_names(),
        "/Users/test",
        &docker_missing,
        &Vec::new(),
    );
    assert_eq!(planned.len(), 1);
    assert_eq!(planned[0].path, "/Users/test/Library/Caches/com.example.app");
    assert_eq!(planned[0].description, "app cache: com.example.app");

    let all_installed = vec![true; 6];
    let planned = cleanrs::rules::macos_system::MacosSystemCleaner::child_targets(
        &children,
        "app cache",
        &cleanrs::rules::macos_system::excluded_cache_names(),
        "/Users/test",
        &all_installed,
        &Vec::new(),
    );
    assert_eq!(planned.len(), 2);
    assert_eq!(planned[0].path, "/Users/test/Library/Caches/com.docker.docker");
}

#[test]
fn leftovers_are_the_data_of_apps_whose_bundle_is_absent() {
    let caches = vec![
        "/Users/test/Library/Caches/com.todesktop.230313mzl4w4u92.ShipIt".to_owned(),
        "/Users/test/Library/Caches/com.example.app".to_owned(),
    ];
    let cursor_missing = vec![true, true, false, true, true, true];
    let plan = leftover_plan("/Users/test", &cursor_missing, &caches);
    assert!(plan.iter().all(|(name, _, _)| name == "Cursor"));
    assert_eq!(plan[0].1, "/Users/test/Library/Application Support/Cursor");
    assert_eq!(plan[0].2, "Cursor application data");
    let last = plan.last().unwrap();
    assert_eq!(last.1, "/Users/test/Library/Caches/com.todesktop.230313mzl4w4u92.ShipIt");
    assert_eq!(last.2, "Cursor updater cache (com.todesktop.230313mzl4w4u92.ShipIt)");
    assert!(is_orphaned_path(
        "/Users/test/Library/Logs/Cursor/main.log",
        "/Users/test",
        &cursor_missing,
        &caches
    ));
    assert!(!is_orphaned_path(
        "/Users/test/Library/Caches/com.example.app",
        "/Users/test",
        &cursor_missing,
        &caches
    ));
    let all_installed = vec![true; 6];
    assert!(leftover_plan("/Users/test", &all_installed, &caches).is_empty());
    assert!(!is_orphaned_path(
        "/Users/test/Library/Logs/Cursor/main.log",
        "/Users/test",
        &all_installed,
        &caches
    ));
}
