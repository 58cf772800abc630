use eiyah::cli::{
    child_exit_status, dispatch, finish, run_with, Command, Operation, Outcome, ShowCadStatusAction,
};
use eiyah::failure::Failure;
use eiyah::handoff::{read_answer, run_handoff, run_handoff_with, Handoff, HandoffEvent};
use eiyah::host::{Fault, FaultKind};
use eiyah::ui::{
    detail, next_operation, style_enabled, write_bold, write_diagnostic, write_error_report,
    write_operation, UserFacingError, ANSI_ERROR, ANSI_HINT, ANSI_RESET, ANSI_WARNING,
};

fn text(value: &str) -> String {
    value.to_owned()
}

#[test]
fn formats_operation_output() {
    assert_eq!(write_operation("Install Eiyah", false), "==> Install Eiyah\n");
    assert_eq!(
        write_operation("Install Eiyah", true),
        "\x1b[94m==>\x1b[0m \x1b[1mInstall Eiyah\x1b[0m\n"
    );
}

#[test]
fn formats_diagnostic_output() {
    for (label, style) in [("Error", ANSI_ERROR), ("Warning", ANSI_WARNING), ("Hint", ANSI_HINT)] {
        assert_eq!(write_diagnostic(label, "message", false), format!("{label}: message\n"));
        assert_eq!(
            write_diagnostic(label, "message", true),
            format!("{style}{label}{ANSI_RESET}: message\n")
        );
    }
}

#[test]
fn enables_style_only_for_tty_without_no_color() {
    assert!(style_enabled(true, false));
    assert!(!style_enabled(false, false));
    assert!(!style_enabled(true, true));
}

#[test]
fn further_operations_follow_an_empty_line() {
    assert_eq!(next_operation("Syncing packages", false), "\n==> Syncing packages\n");
    assert_eq!(detail("SHA-256: verified"), "SHA-256: verified\n");
    assert_eq!(write_bold("code", false), "code");
    assert_eq!(write_bold("code", true), "\x1b[1mcode\x1b[0m");
}

#[test]
fn error_reports_name_warnings_and_hints() {
    let error = UserFacingError {
        message: text("it broke"),
        warnings: vec![text("first"), text("second")],
        hints: vec![text("try again")],
    };
    assert_eq!(
        write_error_report(&error, false),
        "Error: it broke\nWarning: first\nWarning: second\nHint: try again\n"
    );
    let plain = UserFacingError::from_failure(&Failure::caused("it broke", "no reason"));
    assert_eq!(write_error_report(&plain, false), "Error: it broke: no reason\n");
    let warned = plain.with_warning(text("beware"));
    assert_eq!(
        write_error_report(&warned, false),
        "Error: it broke: no reason\nWarning: beware\n"
    );
}

#[test]
fn accepts_all_ascii_yes_and_no_inputs() {
    for (input, expected) in [
        ("\n", true),
        ("y\n", true),
        ("Y\n", true),
        ("yes\n", true),
        ("Yes\n", true),
        ("YES\n", true),
        ("n\n", false),
        ("N\n", false),
        ("no\n", false),
        ("No\n", false),
        ("NO\n", false),
    ] {
        let (result, _) = run_handoff_with(vec![text(input)]);
        assert_eq!(result.unwrap(), expected);
    }
}

#[test]
fn retries_japanese_and_full_width_input() {
    let (result, prompts) = run_handoff_with(vec![text("はい\n"), text("ｙ\n"), text("yes\n")]);
    assert!(result.unwrap());
    assert_eq!(prompts, 3);
}

#[test]
fn retries_invalid_input() {
    let (result, prompts) = run_handoff_with(vec![text("invalid\n"), text("no\n")]);
    assert!(!result.unwrap());
    assert_eq!(prompts, 2);
}

#[test]
fn reports_io_error() {
    let fault = Fault { kind: FaultKind::Other, text: text("test write failure") };
    match run_handoff().advance(HandoffEvent::Failed(fault)) {
        Handoff::Failed(failure) => assert_eq!(failure.full_text(), "test write failure"),
        other => panic!("{other:?}"),
    }
}

#[test]
fn a_closed_input_is_an_error() {
    let (result, prompts) = run_handoff_with(Vec::new());
    assert!(result.is_err());
    assert_eq!(prompts, 1);
}

#[test]
fn answers_are_read_without_their_line_end() {
    assert_eq!(read_answer("y\r\n"), Some(true));
    assert_eq!(read_answer(" no \n"), Some(false));
    assert_eq!(read_answer("maybe\n"), None);
}

#[test]
fn maps_runtime_dispatch_exit_statuses() {
    for (command, outcome, expected) in [
        (Command::Handoff, Outcome::Answer(true), 0),
        (Command::Handoff, Outcome::Answer(false), 1),
        (Command::Handoff, Outcome::Failed(text("handoff error")), 2),
        (Command::ShowCadStatusEnabled, Outcome::Answer(true), 0),
        (Command::ShowCadStatusEnabled, Outcome::Answer(false), 1),
        (Command::ShowCadStatusEnabled, Outcome::Failed(text("config error")), 2),
        (Command::Doctor, Outcome::Answer(true), 0),
        (Command::Doctor, Outcome::Answer(false), 1),
    ] {
        let ending = run_with(&dispatch(command), outcome).unwrap();
        assert_eq!(ending.status, expected);
    }
}

#[test]
fn propagates_show_cad_status_child_exit_status() {
    assert_eq!(child_exit_status(Some(37)).unwrap(), 37);
    let operation = dispatch(Command::ShowCadStatus { action: None });
    assert!(matches!(operation, Operation::Status));
    assert_eq!(run_with(&operation, Outcome::Status(37)).unwrap().status, 37);
}

#[test]
fn unusual_child_exit_statuses_are_errors() {
    assert_eq!(
        child_exit_status(Some(256)).unwrap_err(),
        "show-cad-status returned unsupported exit status 256"
    );
    assert_eq!(child_exit_status(None).unwrap_err(), "show-cad-status terminated by signal");
}

#[test]
fn dispatches_update() {
    let operation = dispatch(Command::Update);
    assert!(matches!(operation, Operation::Update));
    assert_eq!(run_with(&operation, Outcome::Done).unwrap().status, 0);
    assert!(run_with(&operation, Outcome::Failed(text("update failed"))).is_err());
}

#[test]
fn dispatches_install() {
    let operation = dispatch(Command::Install);
    assert!(matches!(operation, Operation::Install));
    assert_eq!(run_with(&operation, Outcome::Done).unwrap().status, 0);
}

#[test]
fn dispatches_uninstall() {
    let operation = dispatch(Command::Uninstall { cleanup_plan: b"/tmp/uninstall-plan".to_vec() });
    assert_eq!(run_with(&operation, Outcome::Done).unwrap().status, 0);
    match operation {
        Operation::Uninstall(received) => assert_eq!(received, b"/tmp/uninstall-plan"),
        other => panic!("{other:?}"),
    }
}

#[test]
fn dispatches_status_changes() {
    for (action, enabled) in
        [(ShowCadStatusAction::Enable, true), (ShowCadStatusAction::Disable, false)]
    {
        match dispatch(Command::ShowCadStatus { action: Some(action) }) {
            Operation::SetStatus(value) => assert_eq!(value, enabled),
            other => panic!("{other:?}"),
        }
    }
    assert!(matches!(dispatch(Command::Config), Operation::Config));
}

#[test]
fn errors_end_with_status_one() {
    let ending = finish(run_with(&Operation::Install, Outcome::Failed(text("no network"))));
    assert_eq!(ending.status, 1);
    assert_eq!(ending.error.as_deref(), Some("no network"));
    let quiet = finish(run_with(&Operation::Doctor, Outcome::Answer(false)));
    assert_eq!(quiet.status, 1);
    assert_eq!(quiet.error, None);
}
