use std::cell::RefCell;
use std::rc::Rc;

use brew_maintainer::brew_command::BrewCommand;
use brew_maintainer::brew_command::BrewError;
use brew_maintainer::brew_command::EnvVars;
use brew_maintainer::formulae::Package;
use brew_maintainer::service::record_upgrade_outcome;
use brew_maintainer::service::run_maintenance;
use brew_maintainer::service::settle_cleanup_phase;
use brew_maintainer::service::settle_listing_phase;
use brew_maintainer::service::settle_refresh_phase;
use brew_maintainer::service::BrewMaintainer;
use brew_maintainer::service::CommandExecutor;
use brew_maintainer::service::MaintenanceError;
use brew_maintainer::service::DEFAULT_UPGRADE_TIMEOUT_MS;

#[derive(Clone, Debug)]
struct CapturedCommand {
    command: String,
    args: Vec<String>,
    envs: Vec<(String, String)>,
    timeout: Option<u64>,
}

#[derive(Clone)]
struct MockBrewCommand {
    captured_commands: Rc<RefCell<Vec<CapturedCommand>>>,
    execute_responses: Rc<RefCell<Vec<Result<String, BrewError>>>>,
    timeout_responses: Rc<RefCell<Vec<Result<(), BrewError>>>>,
}

impl MockBrewCommand {
    fn new() -> Self {
        MockBrewCommand {
            captured_commands: Rc::new(RefCell::new(Vec::new())),
            execute_responses: Rc::new(RefCell::new(Vec::new())),
            timeout_responses: Rc::new(RefCell::new(Vec::new())),
        }
    }

    fn with_execute_response(self, response: Result<String, BrewError>) -> Self {
        self.execute_responses.borrow_mut().push(response);
        self
    }

    fn with_timeout_response(self, response: Result<(), BrewError>) -> Self {
        self.timeout_responses.borrow_mut().push(response);
        self
    }

    fn get_captured_commands(&self) -> Vec<CapturedCommand> {
        self.captured_commands.borrow().clone()
    }

    fn assert_command_called(&self, expected_args: &[&str]) {
        let captured = self.captured_commands.borrow();
        let found = captured.iter().any(|cmd| {
            cmd.args == expected_args.iter().map(|s| s.to_string()).collect::<Vec<_>>()
        });
        assert!(
            found,
            "Command with args {:?} was not called. Captured: {:?}",
            expected_args, *captured
        );
    }

    fn assert_call_count(&self, expected: usize) {
        let captured = self.captured_commands.borrow();
        assert_eq!(captured.len(), expected, "Expected {} calls, got {}", expected, captured.len());
    }

    fn capture(&self, cmd: &BrewCommand, timeout: Option<u64>) {
        let args = cmd.to_args();
        let env_map = cmd.to_env();
        let mut envs: Vec<(String, String)> = Vec::new();
        if let Some(home) = env_map.home {
            envs.push(("HOME".to_string(), home));
        }
        if let Some(path) = env_map.path {
            envs.push(("PATH".to_string(), path));
        }
        self.captured_commands.borrow_mut().push(CapturedCommand {
            command: "brew".to_string(),
            args,
            envs,
            timeout,
        });
    }
}

impl CommandExecutor for MockBrewCommand {
    fn execute(&self, cmd: &BrewCommand) -> Result<String, BrewError> {
        self.capture(cmd, None);
        let mut responses = self.execute_responses.borrow_mut();
        if !responses.is_empty() {
            responses.remove(0)
        } else {
            Ok("Mock output".to_string())
        }
    }

    fn envs(&self) -> EnvVars {
        EnvVars { home: Some("/mock/home".to_string()), path: Some("/mock/path".to_string()) }
    }

    fn execute_with_timeout(&self, cmd: &BrewCommand, timeout_ms: u64) -> Result<(), BrewError> {
        self.capture(cmd, Some(timeout_ms));
        let mut responses = self.timeout_responses.borrow_mut();
        if !responses.is_empty() {
            responses.remove(0)
        } else {
            Ok(())
        }
    }
}

#[test]
fn should_run_brew_update_command_with_success_when_no_update_are_present() {
    let expected_output = "";
    let mock = MockBrewCommand::new().with_execute_response(Ok(expected_output.to_string()));
    let system_under_test = BrewMaintainer::new(mock.clone());
    let output = system_under_test.update_reference_repositories();
    assert!(output.is_ok());
    assert_eq!(expected_output, output.unwrap_or_default().as_str());
    mock.assert_call_count(1);
    mock.assert_command_called(&["update"]);
}

#[test]
fn should_run_brew_update_command_with_success_when_update_are_present() {
    let expected_output = "Already up-to-date.";
    let mock = MockBrewCommand::new().with_execute_response(Ok(expected_output.to_string()));
    let system_under_test = BrewMaintainer::new(mock.clone());
    let output = system_under_test.update_reference_repositories();
    assert!(output.is_ok());
    assert_eq!(expected_output, output.unwrap_or_default().as_str());
    mock.assert_call_count(1);
    mock.assert_command_called(&["update"]);
}

#[test]
fn happy_refresh_runs_all_phases_and_upgrades_nothing() {
    let mock = MockBrewCommand::new()
        .with_execute_response(Ok(String::new()))
        .with_execute_response(Ok("{\"formulae\":[],\"casks\":[]}".to_string()))
        .with_execute_response(Ok(String::new()));
    let maintainer = BrewMaintainer::new(mock.clone());
    let report = run_maintenance(&maintainer).unwrap();
    assert!(report.failed_upgrades.is_empty());
    assert!(report.outdated_packages.formulae.is_empty());
    assert!(report.outdated_packages.casks.is_empty());
    mock.assert_call_count(3);
    let captured = mock.get_captured_commands();
    assert_eq!(captured[0].args, vec!["update"]);
    assert_eq!(captured[1].args, vec!["outdated", "--json"]);
    assert_eq!(captured[2].args, vec!["cleanup"]);
    assert!(captured.iter().all(|c| c.timeout.is_none()));
}

#[test]
fn single_outdated_package_upgrades_cleanly() {
    let listing = "{\"formulae\":[{\"name\":\"foo\",\"installed_versions\":[\"1.0\"],\
                   \"current_version\":\"1.1\",\"pinned\":false}],\"casks\":[]}";
    let mock = MockBrewCommand::new()
        .with_execute_response(Ok(String::new()))
        .with_execute_response(Ok(listing.to_string()))
        .with_execute_response(Ok(String::new()))
        .with_timeout_response(Ok(()));
    let maintainer = BrewMaintainer::new(mock.clone());
    let report = run_maintenance(&maintainer).unwrap();
    assert!(report.failed_upgrades.is_empty());
    mock.assert_call_count(4);
    let captured = mock.get_captured_commands();
    assert_eq!(captured[2].args, vec!["upgrade", "foo"]);
    assert_eq!(captured[2].timeout, Some(DEFAULT_UPGRADE_TIMEOUT_MS));
    assert_eq!(captured[2].timeout, Some(300000));
    assert_eq!(captured[3].args, vec!["cleanup"]);
}

#[test]
fn package_hanging_on_a_prompt_is_recorded_and_the_run_goes_on() {
    let listing = "{\"formulae\":[{\"name\":\"bar\",\"installed_versions\":[\"0.9\"],\
                   \"current_version\":\"1.0\",\"pinned\":false}],\"casks\":[]}";
    let mock = MockBrewCommand::new()
        .with_execute_response(Ok(String::new()))
        .with_execute_response(Ok(listing.to_string()))
        .with_execute_response(Ok(String::new()))
        .with_timeout_response(Err(BrewError::InputRequested));
    let maintainer = BrewMaintainer::new(mock.clone());
    let report = run_maintenance(&maintainer).unwrap();
    assert_eq!(report.failed_upgrades.len(), 1);
    assert_eq!(report.failed_upgrades[0].name, "bar");
    mock.assert_command_called(&["cleanup"]);
}

#[test]
fn package_timing_out_is_recorded_and_the_run_goes_on() {
    let listing = "{\"formulae\":[{\"name\":\"baz\",\"installed_versions\":[\"4\"],\
                   \"current_version\":\"5\",\"pinned\":false}],\"casks\":[]}";
    let mock = MockBrewCommand::new()
        .with_execute_response(Ok(String::new()))
        .with_execute_response(Ok(listing.to_string()))
        .with_execute_response(Ok(String::new()))
        .with_timeout_response(Err(BrewError::Timeout));
    let maintainer = BrewMaintainer::new(mock.clone());
    let report = run_maintenance(&maintainer).unwrap();
    assert_eq!(report.failed_upgrades.len(), 1);
    assert_eq!(report.failed_upgrades[0].name, "baz");
    mock.assert_command_called(&["cleanup"]);
}

#[test]
fn failing_refresh_aborts_the_run_before_anything_else() {
    let mock = MockBrewCommand::new()
        .with_execute_response(Err(BrewError::ExecutionFailed("network unreachable".to_string())));
    let maintainer = BrewMaintainer::new(mock.clone());
    let err = run_maintenance(&maintainer).unwrap_err();
    match &err {
        MaintenanceError::UpdateFailed(BrewError::ExecutionFailed(m)) => {
            assert_eq!(m, "network unreachable");
        }
        _ => panic!("expected UpdateFailed(ExecutionFailed)"),
    }
    assert_eq!(err.message(), "Failed to update reference repositories");
    mock.assert_call_count(1);
}

#[test]
fn undecodable_listing_aborts_the_run_as_a_parse_failure() {
    let mock = MockBrewCommand::new()
        .with_execute_response(Ok(String::new()))
        .with_execute_response(Ok("this is not a report".to_string()));
    let maintainer = BrewMaintainer::new(mock.clone());
    let err = run_maintenance(&maintainer).unwrap_err();
    match &err {
        MaintenanceError::FindOutdatedFailed(BrewError::ExecutionFailed(m)) => {
            assert_eq!(m, "error on parsing the outdated report");
        }
        _ => panic!("expected FindOutdatedFailed(ExecutionFailed)"),
    }
    assert_eq!(err.message(), "Failed in finding outdated packages");
    mock.assert_call_count(2);
}

#[test]
fn invariant_breaking_listing_aborts_the_run_as_a_parse_failure() {
    let listing = "{\"formulae\":[{\"name\":\"qux\",\"installed_versions\":[\"2.0\"],\
                   \"current_version\":\"2.3\",\"pinned\":true,\"pinned_version\":null}],\
                   \"casks\":[]}";
    let mock = MockBrewCommand::new()
        .with_execute_response(Ok(String::new()))
        .with_execute_response(Ok(listing.to_string()));
    let maintainer = BrewMaintainer::new(mock.clone());
    let err = run_maintenance(&maintainer).unwrap_err();
    match &err {
        MaintenanceError::FindOutdatedFailed(BrewError::ExecutionFailed(m)) => {
            assert_eq!(m, "error on parsing the outdated report");
        }
        _ => panic!("expected FindOutdatedFailed(ExecutionFailed)"),
    }
    mock.assert_call_count(2);
}

#[test]
fn failing_cleanup_aborts_the_run_with_its_phase() {
    let mock = MockBrewCommand::new()
        .with_execute_response(Ok(String::new()))
        .with_execute_response(Ok("{\"formulae\":[],\"casks\":[]}".to_string()))
        .with_execute_response(Err(BrewError::ExecutionFailed("disk full".to_string())));
    let maintainer = BrewMaintainer::new(mock.clone());
    let err = run_maintenance(&maintainer).unwrap_err();
    assert!(matches!(&err, MaintenanceError::CleanupFailed(_)));
    assert_eq!(err.message(), "Failed to cleanup");
}

#[test]
fn pinned_packages_are_still_handed_to_the_tool() {
    let listing = "{\"formulae\":[{\"name\":\"qux\",\"installed_versions\":[\"2.0\"],\
                   \"current_version\":\"2.3\",\"pinned\":true,\"pinned_version\":\"2.0\"}],\
                   \"casks\":[]}";
    let mock = MockBrewCommand::new()
        .with_execute_response(Ok(String::new()))
        .with_execute_response(Ok(listing.to_string()))
        .with_execute_response(Ok(String::new()))
        .with_timeout_response(Ok(()));
    let maintainer = BrewMaintainer::new(mock.clone());
    let report = run_maintenance(&maintainer).unwrap();
    assert!(report.failed_upgrades.is_empty());
    assert!(report.outdated_packages.formulae[0].pinned);
    assert_eq!(report.outdated_packages.formulae[0].pinned_version, Some("2.0".to_string()));
    mock.assert_command_called(&["upgrade", "qux"]);
}

#[test]
fn formulae_are_upgraded_before_casks_in_listed_order() {
    let listing = "{\"formulae\":[{\"name\":\"f1\",\"installed_versions\":[],\
                   \"current_version\":\"1\",\"pinned\":false},\
                   {\"name\":\"f2\",\"installed_versions\":[],\"current_version\":\"1\",\
                   \"pinned\":false}],\
                   \"casks\":[{\"name\":\"c1\",\"installed_versions\":[],\
                   \"current_version\":\"1\",\"pinned\":false}]}";
    let mock = MockBrewCommand::new()
        .with_execute_response(Ok(String::new()))
        .with_execute_response(Ok(listing.to_string()))
        .with_execute_response(Ok(String::new()))
        .with_timeout_response(Ok(()))
        .with_timeout_response(Err(BrewError::Timeout))
        .with_timeout_response(Ok(()));
    let maintainer = BrewMaintainer::new(mock.clone());
    let report = run_maintenance(&maintainer).unwrap();
    let captured = mock.get_captured_commands();
    let upgrades: Vec<Vec<String>> = captured
        .iter()
        .filter(|c| c.timeout.is_some())
        .map(|c| c.args.clone())
        .collect();
    assert_eq!(
        upgrades,
        vec![
            vec!["upgrade".to_string(), "f1".to_string()],
            vec!["upgrade".to_string(), "f2".to_string()],
            vec!["upgrade".to_string(), "c1".to_string()],
        ]
    );
    assert_eq!(report.failed_upgrades.len(), 1);
    assert_eq!(report.failed_upgrades[0].name, "f2");
}

#[test]
fn a_failing_outcome_is_recorded_and_a_successful_one_is_not() {
    let package = Package {
        name: "foo".to_string(),
        installed_versions: vec!["1.0".to_string()],
        current_version: "1.1".to_string(),
        pinned: false,
        pinned_version: None,
    };
    let mut failed: Vec<Package> = Vec::new();
    record_upgrade_outcome(&mut failed, &package, &Ok(()));
    assert!(failed.is_empty());
    record_upgrade_outcome(&mut failed, &package, &Err(BrewError::Timeout));
    assert_eq!(failed.len(), 1);
    assert_eq!(failed[0].name, "foo");
    record_upgrade_outcome(&mut failed, &package, &Err(BrewError::InputRequested));
    assert_eq!(failed.len(), 2);
}

#[test]
fn each_fatal_phase_maps_its_failure_to_its_own_variant() {
    assert_eq!(settle_refresh_phase(Ok("done".to_string())).unwrap(), "done");
    match settle_refresh_phase(Err(BrewError::ExecutionFailed("network unreachable".to_string()))) {
        Err(MaintenanceError::UpdateFailed(BrewError::ExecutionFailed(m))) => {
            assert_eq!(m, "network unreachable");
        }
        _ => panic!("expected UpdateFailed(ExecutionFailed)"),
    }
    match settle_listing_phase(Err(BrewError::Timeout)) {
        Err(MaintenanceError::FindOutdatedFailed(BrewError::Timeout)) => {}
        _ => panic!("expected FindOutdatedFailed(Timeout)"),
    }
    assert_eq!(settle_cleanup_phase(Ok(String::new())).unwrap(), "");
    match settle_cleanup_phase(Err(BrewError::ExecutionFailed("disk full".to_string()))) {
        Err(MaintenanceError::CleanupFailed(BrewError::ExecutionFailed(m))) => {
            assert_eq!(m, "disk full");
        }
        _ => panic!("expected CleanupFailed(ExecutionFailed)"),
    }
}

#[test]
fn descriptors_carry_the_inherited_environment() {
    let mock = MockBrewCommand::new().with_execute_response(Ok(String::new()));
    let maintainer = BrewMaintainer::new(mock.clone());
    let _ = maintainer.update_reference_repositories();
    let captured = mock.get_captured_commands();
    assert_eq!(
        captured[0].envs,
        vec![
            ("HOME".to_string(), "/mock/home".to_string()),
            ("PATH".to_string(), "/mock/path".to_string()),
        ]
    );
}
