use cleanrs::global::{
    parse_cargo_list, parse_dart_list, parse_dependency_map, parse_pipx_list, parse_uv_list,
    parse_yarn_list, parse_brew_list, plan_global_uninstall, finish_global_uninstall,
    scan_global_tools, CommandOutcome, GlobalTool, GlobalToolManager, PackageEntry,
    ProviderReport, UninstallPlan,
};

#[test]
fn parses_dart_global_packages() {
    let tools = parse_dart_list("melos 6.3.0\nvery_good_cli 0.24.0\n");
    assert_eq!(tools.len(), 2);
    assert_eq!(tools[0].name, "melos");
    assert_eq!(tools[0].version.as_deref(), Some("6.3.0"));
}

#[test]
fn parses_cargo_installed_packages() {
    let tools = parse_cargo_list("cargo-edit v0.13.0:\n    cargo-add\n");
    assert_eq!(tools[0].name, "cargo-edit");
    assert_eq!(tools[0].version.as_deref(), Some("0.13.0"));
}

fn package(name: &str, version: &str) -> PackageEntry {
    PackageEntry {
        name: name.to_owned(),
        version: Some(version.to_owned()),
    }
}

#[test]
fn parses_npm_global_json_and_protects_npm_itself() {
    // {"dependencies":{"npm":{"version":"11.5.1"},"typescript":{"version":"5.9.2"}}}
    let entries = vec![package("npm", "11.5.1"), package("typescript", "5.9.2")];
    let tools = parse_dependency_map(&entries, GlobalToolManager::Npm);
    assert_eq!(tools.len(), 2);
    let npm = tools.iter().find(|tool| tool.name == "npm").expect("npm");
    assert!(!npm.can_uninstall);
    assert!(tools
        .iter()
        .find(|tool| tool.name == "typescript")
        .is_some_and(|tool| tool.can_uninstall));
}

#[test]
fn parses_uv_and_yarn_versions() {
    let uv = parse_uv_list("ruff v0.9.2\n- ruff\n");
    assert_eq!(uv[0].version.as_deref(), Some("0.9.2"));

    let yarn = parse_yarn_list("info \"@scope/tool@1.2.3\" has binaries:\n");
    assert_eq!(yarn[0].name, "@scope/tool");
    assert_eq!(yarn[0].version.as_deref(), Some("1.2.3"));
}

#[test]
fn parses_pipx_and_brew_inventory() {
    // {"venvs": {"ruff": {"metadata": {"package_version": "0.9.2"}}}}
    let pipx = parse_pipx_list(&vec![package("ruff", "0.9.2")]);
    assert_eq!(pipx[0].name, "ruff");
    assert_eq!(pipx[0].version.as_deref(), Some("0.9.2"));

    let brew = parse_brew_list(
        "node 24.5.0\nvisual-studio-code 1.99.0\n",
        GlobalToolManager::BrewFormula,
    );
    assert_eq!(brew[0].version.as_deref(), Some("24.5.0"));
    assert_eq!(brew[1].manager, GlobalToolManager::BrewFormula);
}

#[test]
fn builds_manager_owned_uninstall_commands() {
    let args = GlobalToolManager::Dart.uninstall_arguments("melos");
    assert_eq!(args, ["pub", "global", "deactivate", "melos"]);
    let args = GlobalToolManager::BrewCask.uninstall_arguments("cursor");
    assert_eq!(args, ["uninstall", "--cask", "cursor"]);
    let tool = GlobalTool::new(GlobalToolManager::Uv, "ruff", Some("0.9.2".to_owned()));
    assert_eq!(tool.uninstall_command(), "uv tool uninstall ruff");
}

#[test]
fn global_scan_sorts_by_manager_then_name_and_prefixes_errors() {
    let reports = vec![
        ProviderReport {
            manager: GlobalToolManager::Uv,
            available: true,
            found: Ok(vec![GlobalTool::new(GlobalToolManager::Uv, "ruff", None)]),
        },
        ProviderReport {
            manager: GlobalToolManager::Cargo,
            available: true,
            found: Ok(vec![
                GlobalTool::new(GlobalToolManager::Cargo, "zoxide", None),
                GlobalTool::new(GlobalToolManager::Cargo, "bat", None),
            ]),
        },
        ProviderReport {
            manager: GlobalToolManager::Pipx,
            available: true,
            found: Err("pipx failed".to_owned()),
        },
    ];
    let scan = scan_global_tools(reports);
    let names: Vec<&str> = scan.tools.iter().map(|t| t.name.as_str()).collect();
    assert_eq!(names, ["bat", "zoxide", "ruff"]);
    assert_eq!(scan.errors, ["pipx: pipx failed"]);
}

#[test]
fn npm_cannot_remove_itself() {
    let npm = GlobalTool::new(GlobalToolManager::Npm, "npm", None);
    assert!(!npm.can_uninstall);
    assert!(npm.warning.is_some());
    assert!(plan_global_uninstall(&npm, false).is_err());
}

#[test]
fn uninstall_plan_previews_and_reports_the_command() {
    let tool = GlobalTool::new(GlobalToolManager::Uv, "ruff", None);
    match plan_global_uninstall(&tool, true) {
        Ok(UninstallPlan::Preview(result)) => {
            assert!(result.dry_run);
            assert!(!result.executed);
        }
        _ => panic!("a dry run previews"),
    }
    match plan_global_uninstall(&tool, false) {
        Ok(UninstallPlan::Run { .. }) => {}
        _ => panic!("a real run runs the command"),
    }
    let done = finish_global_uninstall(&tool, CommandOutcome::Exited { success: true, status: "exit status: 0".to_owned(), stderr: String::new() });
    assert!(done.result.is_ok());
    assert_eq!(done.history.operation, "uninstall");
    assert_eq!(done.history.target, tool.name);
    assert_eq!(done.history.status, "success");
    let failed = finish_global_uninstall(&tool, CommandOutcome::StartFailed);
    assert!(failed.result.is_err());
    assert_eq!(failed.history.status, "failed");
    assert_eq!(failed.history.detail, failed.result.unwrap_err());
}
