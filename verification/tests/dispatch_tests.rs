use hook_dispatch::{
    exit_status, run, DiagnosticLog, DispatchError, DispatchOutcome, Handler, HandlerResult,
    Registry,
};
use std::cell::Cell;
use std::rc::Rc;

// A scripted test handler: counts its invocations and returns the outcome it
// was built with.
struct ScriptedHandler {
    fail_msg: Option<String>,
    calls: Rc<Cell<u32>>,
}

impl ScriptedHandler {
    fn succeeding() -> (ScriptedHandler, Rc<Cell<u32>>) {
        let calls = Rc::new(Cell::new(0));
        (
            ScriptedHandler {
                fail_msg: None,
                calls: calls.clone(),
            },
            calls,
        )
    }

    fn failing(msg: &str) -> (ScriptedHandler, Rc<Cell<u32>>) {
        let calls = Rc::new(Cell::new(0));
        (
            ScriptedHandler {
                fail_msg: Some(msg.to_string()),
                calls: calls.clone(),
            },
            calls,
        )
    }
}

impl Handler for ScriptedHandler {
    fn execute(&self) -> HandlerResult {
        self.calls.set(self.calls.get() + 1);
        match &self.fail_msg {
            None => HandlerResult::Success,
            Some(m) => HandlerResult::Failure(m.clone()),
        }
    }
}

fn args_of(name: &str) -> Vec<String> {
    vec![name.to_string()]
}

#[test]
fn start_success_no_log_exit_zero() {
    let mut registry: Registry<ScriptedHandler> = Registry::new();
    let (handler, calls) = ScriptedHandler::succeeding();
    registry.register("start".to_string(), handler);
    let mut log = DiagnosticLog::new();
    let result = run(&args_of("start"), &registry, &mut log);
    assert!(matches!(result, Ok(DispatchOutcome::HandlerSucceeded)));
    assert_eq!(calls.get(), 1);
    assert_eq!(log.len(), 0);
    assert_eq!(exit_status(&result), 0);
}

#[test]
fn config_changed_failure_logged_and_propagated() {
    let mut registry: Registry<ScriptedHandler> = Registry::new();
    let (handler, calls) = ScriptedHandler::failing("bad config");
    registry.register("config-changed".to_string(), handler);
    let mut log = DiagnosticLog::new();
    let result = run(&args_of("config-changed"), &registry, &mut log);
    match &result {
        Err(DispatchError::HandlerFailure { message }) => assert_eq!(message, "bad config"),
        Ok(_) => panic!("handler failure was not propagated"),
    }
    assert_eq!(calls.get(), 1);
    assert_eq!(log.len(), 1);
    assert_eq!(log.line(0).as_str(), "Hook failed with error: bad config");
    assert_ne!(exit_status(&result), 0);
}

#[test]
fn unrecognized_name_is_noop() {
    let mut registry: Registry<ScriptedHandler> = Registry::new();
    let (handler, calls) = ScriptedHandler::succeeding();
    registry.register("start".to_string(), handler);
    let mut log = DiagnosticLog::new();
    let result = run(&args_of("stop"), &registry, &mut log);
    assert!(matches!(result, Ok(DispatchOutcome::UnrecognizedHook)));
    assert_eq!(calls.get(), 0);
    assert_eq!(log.len(), 0);
    assert_eq!(exit_status(&result), 0);
}

#[test]
fn empty_argument_list_is_noop() {
    let mut registry: Registry<ScriptedHandler> = Registry::new();
    let (handler, calls) = ScriptedHandler::succeeding();
    registry.register("start".to_string(), handler);
    let mut log = DiagnosticLog::new();
    let args: Vec<String> = Vec::new();
    let result = run(&args, &registry, &mut log);
    assert!(matches!(result, Ok(DispatchOutcome::DegenerateInvocation)));
    assert_eq!(calls.get(), 0);
    assert_eq!(log.len(), 0);
    assert_eq!(exit_status(&result), 0);
}

#[test]
fn failure_of_unrelated_handler_writes_nothing() {
    let mut registry: Registry<ScriptedHandler> = Registry::new();
    let (failing, failing_calls) = ScriptedHandler::failing("broken");
    let (succeeding, succeeding_calls) = ScriptedHandler::succeeding();
    registry.register("stop".to_string(), failing);
    registry.register("start".to_string(), succeeding);
    let mut log = DiagnosticLog::new();
    let result = run(&args_of("start"), &registry, &mut log);
    assert!(matches!(result, Ok(DispatchOutcome::HandlerSucceeded)));
    assert_eq!(failing_calls.get(), 0);
    assert_eq!(succeeding_calls.get(), 1);
    assert_eq!(log.len(), 0);
}

#[test]
fn lookup_returns_registered_handler() {
    let mut registry: Registry<ScriptedHandler> = Registry::new();
    let (start_handler, _) = ScriptedHandler::succeeding();
    let (stop_handler, _) = ScriptedHandler::failing("stopping failed");
    registry.register("start".to_string(), start_handler);
    registry.register("stop".to_string(), stop_handler);
    let found = registry.lookup(&"stop".to_string());
    match found {
        Some(h) => assert!(matches!(
            h.execute(),
            HandlerResult::Failure(m) if m == "stopping failed"
        )),
        None => panic!("registered name was not found"),
    }
    assert!(registry.lookup(&"restart".to_string()).is_none());
}

#[test]
fn duplicate_names_resolve_to_first_registration() {
    let mut registry: Registry<ScriptedHandler> = Registry::new();
    let (first, first_calls) = ScriptedHandler::succeeding();
    let (second, second_calls) = ScriptedHandler::failing("shadowed");
    registry.register("start".to_string(), first);
    registry.register("start".to_string(), second);
    let mut log = DiagnosticLog::new();
    let result = run(&args_of("start"), &registry, &mut log);
    assert!(matches!(result, Ok(DispatchOutcome::HandlerSucceeded)));
    assert_eq!(first_calls.get(), 1);
    assert_eq!(second_calls.get(), 0);
    assert_eq!(log.len(), 0);
}

#[test]
fn invocation_under_full_path_resolves_basename() {
    let mut registry: Registry<ScriptedHandler> = Registry::new();
    let (handler, calls) = ScriptedHandler::succeeding();
    registry.register("config-changed".to_string(), handler);
    let mut log = DiagnosticLog::new();
    let result = run(
        &args_of("/var/lib/hooks/config-changed"),
        &registry,
        &mut log,
    );
    assert!(matches!(result, Ok(DispatchOutcome::HandlerSucceeded)));
    assert_eq!(calls.get(), 1);
}

#[test]
fn failure_message_is_kept_verbatim() {
    let mut registry: Registry<ScriptedHandler> = Registry::new();
    let (handler, _) = ScriptedHandler::failing("disk full: /var (97%)");
    registry.register("stop".to_string(), handler);
    let mut log = DiagnosticLog::new();
    let result = run(&args_of("stop"), &registry, &mut log);
    match &result {
        Err(DispatchError::HandlerFailure { message }) => {
            assert_eq!(message, "disk full: /var (97%)")
        }
        Ok(_) => panic!("handler failure was not propagated"),
    }
    assert_eq!(log.len(), 1);
    assert_eq!(
        log.line(0).as_str(),
        "Hook failed with error: disk full: /var (97%)"
    );
    assert_eq!(log.lines().len(), 1);
}

#[test]
fn exit_status_distinguishes_error_from_success() {
    let ok: Result<DispatchOutcome, DispatchError> = Ok(DispatchOutcome::HandlerSucceeded);
    let noop: Result<DispatchOutcome, DispatchError> = Ok(DispatchOutcome::UnrecognizedHook);
    let degenerate: Result<DispatchOutcome, DispatchError> =
        Ok(DispatchOutcome::DegenerateInvocation);
    let err: Result<DispatchOutcome, DispatchError> = Err(DispatchError::HandlerFailure {
        message: "oops".to_string(),
    });
    assert_eq!(exit_status(&ok), 0);
    assert_eq!(exit_status(&noop), 0);
    assert_eq!(exit_status(&degenerate), 0);
    assert_eq!(exit_status(&err), 1);
}
