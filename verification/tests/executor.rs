use cleanrs::platform::macos::config::protected_table;
use cleanrs::executor::{
    clean_target, clean_target_with_options, clean_target_with_progress, finish_command,
    finish_trash, CleanAction, CleanStep, CommandRun, OutputSplitter,
};
use cleanrs::model::{CleanMethod, CleanOptions, CleanTarget};

fn command_target(path: &str, method: CleanMethod) -> CleanTarget {
    CleanTarget {
        path: path.to_owned(),
        size_bytes: 1,
        description: "test command".to_owned(),
        method,
    }
}

#[test]
fn run_command_with_input_supplies_confirmation_without_inheriting_tui_stdin() {
    let arguments = vec![
        "sh".to_owned(),
        "-c".to_owned(),
        "read answer && test \"$answer\" = y".to_owned(),
    ];
    let target = command_target(
        "test://interactive-command",
        CleanMethod::RunCommandWithInput {
            arguments: arguments.clone(),
            stdin: "y\n".to_owned(),
        },
    );

    let step = clean_target("test", &target, false, false, Some("/Users/test"), &protected_table());
    let CleanStep::Perform(CleanAction::RunCommand { arguments: run, stdin }) = step else {
        panic!("command should run");
    };
    assert_eq!(run, arguments);
    assert_eq!(stdin.as_deref(), Some("y\n"));

    let outcome = finish_command(
        "test",
        &target,
        &run,
        CommandRun::Exited {
            success: true,
            status: "exit status: 0".to_owned(),
            output_lines: Vec::new(),
        },
    );
    let result = outcome.result.expect("command should succeed");

    assert!(result.executed);
    assert!(result.success);
}

#[test]
fn streams_command_output_to_progress_callback() {
    let arguments = vec![
        "sh".to_owned(),
        "-c".to_owned(),
        "printf 'step-one\\n'; printf 'step-two\\r' >&2".to_owned(),
    ];
    let target = command_target("test://streaming-command", CleanMethod::RunCommand(arguments.clone()));

    let (step, first) =
        clean_target_with_progress("test", &target, CleanOptions::default(), false, None, &protected_table());
    let CleanStep::Perform(CleanAction::RunCommand { arguments: run, stdin }) = step else {
        panic!("command should run");
    };
    assert!(stdin.is_none());
    assert_eq!(
        first.as_deref(),
        Some("running sh -c printf 'step-one\\n'; printf 'step-two\\r' >&2")
    );

    let mut updates: Vec<String> = first.into_iter().collect();
    let mut stdout = OutputSplitter::new();
    for line in stdout.feed(b"step-one\n") {
        updates.push(String::from_utf8(line).expect("utf-8"));
    }
    let mut stderr = OutputSplitter::new();
    for line in stderr.feed(b"step-two\r") {
        updates.push(String::from_utf8(line).expect("utf-8"));
    }
    assert!(stdout.finish().is_none());
    assert!(stderr.finish().is_none());

    let outcome = finish_command(
        "test",
        &target,
        &run,
        CommandRun::Exited {
            success: true,
            status: "exit status: 0".to_owned(),
            output_lines: updates.clone(),
        },
    );
    let result = outcome.result.expect("command should succeed");

    assert!(result.executed);
    assert!(updates.iter().any(|update| update == "step-one"));
    assert!(updates.iter().any(|update| update == "step-two"));
}

#[test]
fn refuses_protected_system_paths() {
    let target = CleanTarget {
        path: "/System/Library".to_owned(),
        size_bytes: 1,
        description: "protected path".to_owned(),
        method: CleanMethod::TrashPath,
    };

    let CleanStep::Finished(outcome) = clean_target("test", &target, false, false, Some("/Users/test"), &protected_table()) else {
        panic!("path must be rejected");
    };
    let error = outcome.result.expect_err("path must be rejected");

    assert!(error.contains("protected or unsafe path"));
    let history = outcome.history.expect("a refusal is recorded");
    assert_eq!(history.status, "rejected");
}

#[test]
fn permanent_delete_requires_an_explicit_option_but_is_supported() {
    let target = CleanTarget {
        path: "/Users/test/project/generated".to_owned(),
        size_bytes: 9,
        description: "generated fixture".to_owned(),
        method: CleanMethod::TrashPath,
    };
    let preview = clean_target_with_options(
        "test",
        &target,
        CleanOptions { dry_run: true, permanent: true },
        true,
        Some("/Users/test"),
        &protected_table(),
    );
    let CleanStep::Finished(preview) = preview else {
        panic!("preview should succeed");
    };
    let preview = preview.result.expect("preview should succeed");
    assert!(!preview.executed);
    assert!(preview.message.contains("permanently delete"));

    let step = clean_target_with_options(
        "test",
        &target,
        CleanOptions { dry_run: false, permanent: true },
        true,
        Some("/Users/test"),
        &protected_table(),
    );
    assert!(matches!(step, CleanStep::Perform(CleanAction::DeletePermanently(ref p)) if p == "/Users/test/project/generated"));

    let step = clean_target("test", &target, false, true, Some("/Users/test"), &protected_table());
    assert!(matches!(step, CleanStep::Perform(CleanAction::MoveToTrash(_))));
}

#[test]
fn dry_runs_only_describe_the_clean() {
    let target = command_target("test://preview", CleanMethod::RunCommand(vec!["true".to_owned()]));
    let CleanStep::Finished(outcome) = clean_target("test", &target, true, false, None, &protected_table()) else {
        panic!("a dry run performs nothing");
    };
    let result = outcome.result.expect("preview");
    assert!(result.dry_run);
    assert!(!result.executed);
    assert_eq!(result.expected_freed_bytes, 1);
    assert!(outcome.history.is_none());
}

#[test]
fn empty_commands_are_errors() {
    let target = command_target("test://empty", CleanMethod::RunCommand(Vec::new()));
    let CleanStep::Finished(outcome) = clean_target("test", &target, false, false, None, &protected_table()) else {
        panic!("an empty command never runs");
    };
    assert_eq!(outcome.result.expect_err("empty"), "clean command cannot be empty");
}

#[test]
fn failing_commands_report_their_last_output_lines() {
    let arguments = vec!["tool".to_owned(), "clean".to_owned()];
    let target = command_target("test://failing", CleanMethod::RunCommand(arguments.clone()));
    let outcome = finish_command(
        "test",
        &target,
        &arguments,
        CommandRun::Exited {
            success: false,
            status: "exit status: 2".to_owned(),
            output_lines: vec!["a".to_owned(), "b".to_owned(), "c".to_owned(), "d".to_owned()],
        },
    );
    assert_eq!(
        outcome.result.expect_err("failure"),
        "clean command tool clean exited with status exit status: 2: b; c; d"
    );
    let start = finish_command("test", &target, &arguments, CommandRun::StartFailed);
    assert_eq!(start.result.expect_err("failure"), "failed to start clean command tool");
}

#[test]
fn trash_moves_are_reported() {
    let target = command_target("/Users/test/cache", CleanMethod::TrashPath);
    let moved = finish_trash("test", &target, true);
    assert!(moved.result.expect("moved").success);
    let failed = finish_trash("test", &target, false);
    assert!(failed.result.is_err());
}

#[test]
fn output_splitter_keeps_partial_lines_until_they_end() {
    let mut splitter = OutputSplitter::new();
    assert!(splitter.feed(b"par").is_empty());
    let lines = splitter.feed(b"tial\n\nnext\rlast");
    assert_eq!(lines, vec![b"partial".to_vec(), b"next".to_vec()]);
    assert_eq!(splitter.finish(), Some(b"last".to_vec()));
}

#[test]
fn previews_and_trash_moves_report_no_command_progress() {
    let target = command_target("/tmp/cleanrs-preview", CleanMethod::TrashPath);
    let options = CleanOptions {
        dry_run: true,
        permanent: false,
    };
    let (step, first) = clean_target_with_progress("test", &target, options, false, None, &protected_table());
    assert!(first.is_none());
    assert!(matches!(step, CleanStep::Finished(_)));
    let (step, first) =
        clean_target_with_progress("test", &target, CleanOptions::default(), false, None, &protected_table());
    assert!(first.is_none());
    assert!(matches!(step, CleanStep::Perform(CleanAction::MoveToTrash(_))));
}
