use brew_maintainer::brew_command::BrewError;
use brew_maintainer::supervisor::clamp_timeout_millis;
use brew_maintainer::supervisor::interpret_output;
use brew_maintainer::supervisor::resolve_event;
use brew_maintainer::supervisor::scan_line;
use brew_maintainer::supervisor::validate_spawn;
use brew_maintainer::supervisor::ProcessEvent;
use brew_maintainer::supervisor::SupervisedCall;
use brew_maintainer::brew_command::BrewCommand;
use brew_maintainer::brew_command::EnvVars;

fn supervised(first_event: Option<ProcessEvent>) -> Result<(), BrewError> {
    let mut call = SupervisedCall::new();
    call.spawn_ok(4242);
    call.on_first_event(first_event);
    call.record_kill();
    call.finish()
}

fn no_env() -> EnvVars {
    EnvVars { home: None, path: None }
}

#[test]
fn prompt_event_first_returns_input_requested() {
    let r = supervised(Some(ProcessEvent::InputRequested));
    assert!(matches!(r, Err(BrewError::InputRequested)));
}

#[test]
fn timeout_event_first_returns_timeout() {
    let r = supervised(Some(ProcessEvent::Timeout));
    assert!(matches!(r, Err(BrewError::Timeout)));
}

#[test]
fn child_already_exited_zero_wins_the_race() {
    let r = supervised(Some(ProcessEvent::Completed { code: Some(0) }));
    assert!(r.is_ok());
}

#[test]
fn nonzero_exit_reports_the_code() {
    let r = supervised(Some(ProcessEvent::Completed { code: Some(2) }));
    match r {
        Err(BrewError::ExecutionFailed(m)) => {
            assert_eq!(m, "Process exited with code: 2");
        }
        _ => panic!("expected ExecutionFailed"),
    }
}

#[test]
fn signal_killed_child_reports_no_code() {
    let r = supervised(Some(ProcessEvent::Completed { code: None }));
    match r {
        Err(BrewError::ExecutionFailed(m)) => {
            assert_eq!(m, "Process exited with code: None");
        }
        _ => panic!("expected ExecutionFailed"),
    }
}

#[test]
fn negative_exit_code_is_rendered_with_sign() {
    let r = resolve_event(&Some(ProcessEvent::Completed { code: Some(-17) }));
    match r {
        Err(BrewError::ExecutionFailed(m)) => {
            assert_eq!(m, "Process exited with code: -17");
        }
        _ => panic!("expected ExecutionFailed"),
    }
}

#[test]
fn closed_channel_reports_itself() {
    let r = supervised(None);
    match r {
        Err(BrewError::ExecutionFailed(m)) => {
            assert_eq!(m, "Event channel closed");
        }
        _ => panic!("expected ExecutionFailed"),
    }
}

#[test]
fn completion_error_carries_the_io_message() {
    let r = supervised(Some(ProcessEvent::CompletionError {
        message: "waitpid failed".to_string(),
    }));
    match r {
        Err(BrewError::ExecutionFailed(m)) => {
            assert_eq!(m, "waitpid failed");
        }
        _ => panic!("expected ExecutionFailed"),
    }
}

#[test]
fn rekilling_a_terminated_child_changes_nothing() {
    let mut once = SupervisedCall::new();
    once.spawn_ok(77);
    once.on_first_event(Some(ProcessEvent::Completed { code: Some(3) }));
    once.record_kill();
    let first = once.finish();

    let mut thrice = SupervisedCall::new();
    thrice.spawn_ok(77);
    thrice.on_first_event(Some(ProcessEvent::Completed { code: Some(3) }));
    thrice.record_kill();
    thrice.record_kill();
    thrice.record_kill();
    let second = thrice.finish();

    match (first, second) {
        (Err(BrewError::ExecutionFailed(a)), Err(BrewError::ExecutionFailed(b))) => {
            assert_eq!(a, b);
        }
        _ => panic!("expected the same ExecutionFailed from both calls"),
    }
    assert_eq!(thrice.kills, 3);
}

#[test]
fn spawn_failure_ends_the_call_without_a_child() {
    let mut call = SupervisedCall::new();
    let r = call.spawn_failed("No such file or directory".to_string());
    match r {
        Err(BrewError::ExecutionFailed(m)) => {
            assert_eq!(m, "No such file or directory");
        }
        _ => panic!("expected ExecutionFailed"),
    }
    assert_eq!(call.kills, 0);
}

#[test]
fn scan_line_emits_input_requested_exactly_on_prompts() {
    assert!(matches!(
        scan_line("Proceed? (y/N)"),
        Some(ProcessEvent::InputRequested)
    ));
    assert!(scan_line("==> Pouring foo-1.1.bottle.tar.gz").is_none());
}

#[test]
fn captured_stdout_is_the_utf8_decode_of_the_bytes() {
    let bytes = "Already up-to-date.\n".as_bytes().to_vec();
    let r = interpret_output(true, bytes, String::new());
    assert_eq!(r.unwrap(), "Already up-to-date.\n");
}

#[test]
fn invalid_utf8_stdout_fails_the_call() {
    let bytes = vec![0xff, 0xfe, 0x00];
    let r = interpret_output(true, bytes, String::new());
    assert!(matches!(r, Err(BrewError::ExecutionFailed(_))));
}

#[test]
fn nonzero_exit_hands_back_the_stderr_text() {
    let r = interpret_output(false, Vec::new(), "something went wrong".to_string());
    match r {
        Err(BrewError::ExecutionFailed(m)) => {
            assert_eq!(m, "something went wrong");
        }
        _ => panic!("expected ExecutionFailed"),
    }
}

#[test]
fn negative_timeouts_clamp_to_zero() {
    assert_eq!(clamp_timeout_millis(-1), 0);
    assert_eq!(clamp_timeout_millis(-300000), 0);
    assert_eq!(clamp_timeout_millis(0), 0);
    assert_eq!(clamp_timeout_millis(300000), 300000);
}

#[test]
fn empty_upgrade_target_is_rejected_before_spawn() {
    let bad = BrewCommand::Upgrade { package_name: String::new(), envs: no_env() };
    assert!(matches!(
        validate_spawn(&bad),
        Err(BrewError::ExecutionFailed(_))
    ));
    let good = BrewCommand::Upgrade { package_name: "foo".to_string(), envs: no_env() };
    assert!(validate_spawn(&good).is_ok());
    assert!(validate_spawn(&BrewCommand::Update { envs: no_env() }).is_ok());
}
