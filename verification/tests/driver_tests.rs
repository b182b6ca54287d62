use script_host::driver::AbortReason;
use script_host::driver::Action;
use script_host::driver::Driver;
use script_host::driver::Event;
use script_host::driver::Phase;
use script_host::lifecycle::LifecycleError;
use script_host::lifecycle::Stage;

fn compiles(action: &Action, name: &str, locator: &str) -> bool {
    match action {
        Action::Compile(origin) => {
            origin.display_name == name
                && origin.locator == locator
                && origin.line_offset == 0
                && origin.column_offset == 0
        }
        _ => false,
    }
}

fn started() -> Driver {
    let mut driver = Driver::standard();
    assert!(matches!(driver.step(Event::Start), Action::InitializeEngine));
    assert!(matches!(driver.step(Event::EngineInitialized), Action::BuildContext));
    driver
}

fn at_entry() -> Driver {
    let mut driver = started();
    driver.step(Event::ContextBuilt);
    for _ in 0..3 {
        assert!(matches!(driver.step(Event::Compiled), Action::Run));
        assert!(matches!(driver.step(Event::RunSucceeded), Action::Compile(_)));
    }
    assert_eq!(driver.current_phase(), Phase::Compiling(3));
    driver
}

#[test]
fn standard_run_goes_through_every_script_in_order() {
    let mut driver = Driver::standard();
    assert_eq!(driver.current_phase(), Phase::Idle);
    assert_eq!(driver.bootstrap_count(), 3);
    assert!(matches!(driver.step(Event::Start), Action::InitializeEngine));
    assert_eq!(driver.current_phase(), Phase::Initializing);
    assert!(matches!(driver.step(Event::EngineInitialized), Action::BuildContext));
    assert_eq!(driver.current_phase(), Phase::BuildingContext);

    let action = driver.step(Event::ContextBuilt);
    assert!(compiles(&action, "require.js", "./src/modules/require.js"));
    assert_eq!(driver.current_phase(), Phase::Compiling(0));
    assert!(matches!(driver.step(Event::Compiled), Action::Run));
    assert_eq!(driver.current_phase(), Phase::Running(0));

    let action = driver.step(Event::RunSucceeded);
    assert!(compiles(&action, "console.js", "./src/modules/console.js"));
    assert!(matches!(driver.step(Event::Compiled), Action::Run));

    let action = driver.step(Event::RunSucceeded);
    assert!(compiles(&action, "colors.js", "./src/modules/colors.js"));
    assert!(matches!(driver.step(Event::Compiled), Action::Run));

    let action = driver.step(Event::RunSucceeded);
    assert!(compiles(&action, "done.js", "./done.js"));
    assert_eq!(driver.current_phase(), Phase::Compiling(3));
    assert!(matches!(driver.step(Event::Compiled), Action::Run));
    assert_eq!(driver.current_phase(), Phase::Running(3));

    assert!(matches!(driver.step(Event::RunSucceeded), Action::Shutdown));
    assert_eq!(driver.current_phase(), Phase::ShuttingDown);
    assert!(matches!(driver.step(Event::EngineDisposed), Action::Finish));
    assert_eq!(driver.current_phase(), Phase::Finished);
}

#[test]
fn lifecycle_follows_the_run() {
    let mut driver = Driver::standard();
    assert_eq!(driver.current_lifecycle().stage(), Stage::Created);
    driver.step(Event::Start);
    assert_eq!(driver.current_lifecycle().check_execute(), Err(LifecycleError::NotInitialized));
    driver.step(Event::EngineInitialized);
    assert_eq!(driver.current_lifecycle().check_execute(), Err(LifecycleError::NoContext));
    driver.step(Event::ContextBuilt);
    assert_eq!(driver.current_lifecycle().check_execute(), Ok(()));
    driver.step(Event::Compiled);
    assert_eq!(driver.current_lifecycle().check_execute(), Ok(()));
}

#[test]
fn script_after_shutdown_fails_with_lifecycle_error() {
    let mut driver = at_entry();
    driver.step(Event::Compiled);
    driver.step(Event::RunSucceeded);
    assert!(matches!(driver.step(Event::EngineDisposed), Action::Finish));
    assert_eq!(driver.current_lifecycle().stage(), Stage::ShutDown);
    assert_eq!(driver.current_lifecycle().check_execute(), Err(LifecycleError::AlreadyShutDown));
    assert!(matches!(
        driver.step(Event::Compiled),
        Action::Abort(AbortReason::UnexpectedEvent, text) if !text.is_empty()
    ));
    assert_eq!(driver.current_phase(), Phase::Aborted);
}

#[test]
fn bootstrap_exception_is_reported_then_run_goes_on() {
    let mut driver = started();
    driver.step(Event::ContextBuilt);
    driver.step(Event::Compiled);
    let diagnostic = "ReferenceError: x is not defined\n    at require.js:3:1".to_string();
    let action = driver.step(Event::RunFailed(diagnostic.clone()));
    match action {
        Action::Report(text) => {
            assert_eq!(text, diagnostic);
            assert!(text.contains("x is not defined"));
        }
        other => panic!("expected a report, got {:?}", other),
    }
    assert_eq!(driver.current_phase(), Phase::Reporting(0));
    let action = driver.step(Event::Reported);
    assert!(compiles(&action, "console.js", "./src/modules/console.js"));
    assert_eq!(driver.current_phase(), Phase::Compiling(1));
    assert_eq!(driver.exit_status(), 1);
}

#[test]
fn every_bootstrap_exception_is_reported() {
    let mut driver = started();
    let mut action = driver.step(Event::ContextBuilt);
    let mut reported: Vec<String> = Vec::new();
    let mut index = 0;
    while let Action::Compile(_) = action {
        assert!(matches!(driver.step(Event::Compiled), Action::Run));
        match driver.step(Event::RunFailed(format!("Error: boom {}", index))) {
            Action::Report(text) => reported.push(text),
            other => panic!("expected a report, got {:?}", other),
        }
        assert_eq!(driver.current_phase(), Phase::Reporting(index));
        action = driver.step(Event::Reported);
        index += 1;
    }
    assert_eq!(
        reported,
        vec!["Error: boom 0", "Error: boom 1", "Error: boom 2", "Error: boom 3"]
    );
    assert!(matches!(action, Action::Shutdown));
    assert!(matches!(driver.step(Event::EngineDisposed), Action::Finish));
    assert_eq!(driver.exit_status(), 1);
}

#[test]
fn clean_run_exits_with_zero() {
    let mut driver = at_entry();
    assert_eq!(driver.exit_status(), 0);
    driver.step(Event::Compiled);
    assert!(matches!(driver.step(Event::RunSucceeded), Action::Shutdown));
    assert!(matches!(driver.step(Event::EngineDisposed), Action::Finish));
    assert_eq!(driver.current_phase(), Phase::Finished);
    assert_eq!(driver.exit_status(), 0);
}

#[test]
fn fresh_driver_has_status_zero() {
    assert_eq!(Driver::standard().exit_status(), 0);
}

#[test]
fn bootstrap_fault_is_remembered_to_the_end() {
    let mut driver = started();
    driver.step(Event::ContextBuilt);
    driver.step(Event::Compiled);
    driver.step(Event::RunFailed("Error: early".to_string()));
    let mut action = driver.step(Event::Reported);
    while let Action::Compile(_) = action {
        driver.step(Event::Compiled);
        action = driver.step(Event::RunSucceeded);
    }
    assert!(matches!(action, Action::Shutdown));
    assert!(matches!(driver.step(Event::EngineDisposed), Action::Finish));
    assert_eq!(driver.current_phase(), Phase::Finished);
    assert_eq!(driver.exit_status(), 1);
}

#[test]
fn events_tell_of_faults() {
    assert!(Event::SourceUnreadable("missing".to_string()).is_fault());
    assert!(Event::CompileFailed("SyntaxError".to_string()).is_fault());
    assert!(Event::RunFailed("Error".to_string()).is_fault());
    assert!(!Event::Start.is_fault());
    assert!(!Event::Compiled.is_fault());
    assert!(!Event::RunSucceeded.is_fault());
    assert!(!Event::Reported.is_fault());
}

#[test]
fn entry_exception_is_reported_then_shut_down() {
    let mut driver = at_entry();
    assert!(matches!(driver.step(Event::Compiled), Action::Run));
    let diagnostic = "Error: boom\n    at done.js:1:7".to_string();
    let action = driver.step(Event::RunFailed(diagnostic.clone()));
    match action {
        Action::Report(text) => {
            assert_eq!(text, diagnostic);
            assert!(text.contains("boom"));
        }
        other => panic!("expected a report, got {:?}", other),
    }
    assert_eq!(driver.current_phase(), Phase::Reporting(3));
    assert!(matches!(driver.step(Event::Reported), Action::Shutdown));
    assert!(matches!(driver.step(Event::EngineDisposed), Action::Finish));
    assert_eq!(driver.current_phase(), Phase::Finished);
    assert_ne!(driver.exit_status(), 0);
    assert_eq!(driver.exit_status(), 1);
}

#[test]
fn compile_failure_abandons_the_run() {
    let mut driver = started();
    driver.step(Event::ContextBuilt);
    let action = driver.step(Event::CompileFailed("SyntaxError: Unexpected token".to_string()));
    assert!(matches!(
        action,
        Action::Abort(AbortReason::CompileFailed, text) if text == "SyntaxError: Unexpected token"
    ));
    assert_eq!(driver.current_phase(), Phase::Aborted);
    assert_eq!(driver.exit_status(), 1);
}

#[test]
fn entry_compile_failure_abandons_the_run() {
    let mut driver = at_entry();
    let action = driver.step(Event::CompileFailed("SyntaxError".to_string()));
    assert!(matches!(action, Action::Abort(AbortReason::CompileFailed, text) if text == "SyntaxError"));
}

#[test]
fn unreadable_source_abandons_the_run() {
    let mut driver = started();
    driver.step(Event::ContextBuilt);
    let action = driver.step(Event::SourceUnreadable("No such file or directory".to_string()));
    assert!(matches!(
        action,
        Action::Abort(AbortReason::SourceUnreadable, text) if text == "No such file or directory"
    ));
    assert_eq!(driver.current_phase(), Phase::Aborted);
    assert_eq!(driver.exit_status(), 1);
}

#[test]
fn unexpected_event_abandons_the_run() {
    let mut driver = Driver::standard();
    let action = driver.step(Event::Compiled);
    assert!(matches!(
        action,
        Action::Abort(AbortReason::UnexpectedEvent, text)
            if text == "event does not fit the phase of the run"
    ));
    assert_eq!(driver.current_phase(), Phase::Aborted);
    assert!(matches!(driver.step(Event::Start), Action::Abort(AbortReason::UnexpectedEvent, _)));
    assert_eq!(driver.current_phase(), Phase::Aborted);
    assert_eq!(driver.exit_status(), 1);
}

#[test]
fn run_without_bootstrap_opens_entry_first() {
    let mut driver = Driver::new(Vec::new(), "main.js".to_string());
    assert_eq!(driver.bootstrap_count(), 0);
    driver.step(Event::Start);
    driver.step(Event::EngineInitialized);
    let action = driver.step(Event::ContextBuilt);
    assert!(compiles(&action, "main.js", "main.js"));
    driver.step(Event::Compiled);
    assert!(matches!(
        driver.step(Event::RunFailed("boom".to_string())),
        Action::Report(text) if text == "boom"
    ));
}

#[test]
fn custom_bootstrap_runs_in_given_order() {
    let bootstrap = vec!["lib/greet.js".to_string(), "lib/uses_greet.js".to_string()];
    let mut driver = Driver::new(bootstrap, "app/entry.js".to_string());
    driver.step(Event::Start);
    driver.step(Event::EngineInitialized);
    let mut opened: Vec<String> = Vec::new();
    let mut action = driver.step(Event::ContextBuilt);
    while let Action::Compile(origin) = action {
        opened.push(origin.display_name);
        assert!(matches!(driver.step(Event::Compiled), Action::Run));
        action = driver.step(Event::RunSucceeded);
    }
    assert_eq!(opened, vec!["greet.js", "uses_greet.js", "entry.js"]);
    assert!(matches!(action, Action::Shutdown));
}
