use crate::diag::{failure_line, format_failure_line, DiagnosticLog};
use crate::handler::{Handler, HandlerResult};
use crate::name::{derive_hook_name, derived_name};
use crate::registry::{first_match, Registry};
use vstd::prelude::*;

verus! {

/// How one invocation ended when no handler failure was propagated.
#[derive(PartialEq, Eq, Structural, Debug, Clone, Copy)]
pub enum DispatchOutcome {
    /// The resolved handler ran and reported success.
    HandlerSucceeded,
    /// No binding carried the derived hook name. Lenient by design: the
    /// orchestrator may invoke names the agent never registered, so this is
    /// a benign no-op signaled to the caller, not a failure.
    UnrecognizedHook,
    /// The invocation carried no arguments at all, so no resolution was
    /// attempted and no handler ran: a defensive no-op, not an error.
    DegenerateInvocation,
}

/// The one error the dispatcher propagates: the invoked handler reported
/// failure. The wrapped message is the handler's own failure text, unaltered.
pub enum DispatchError {
    HandlerFailure { message: String },
}

/// The dispatch result owed for a handler outcome: success propagates as
/// success, failure as a `DispatchError` wrapping the same message.
pub open spec fn outcome_result(o: HandlerResult) -> Result<DispatchOutcome, DispatchError> {
    match o {
        HandlerResult::Success => Ok(DispatchOutcome::HandlerSucceeded),
        HandlerResult::Failure(m) => Err(DispatchError::HandlerFailure { message: m }),
    }
}

/// The diagnostic log owed after a handler outcome is recorded: unchanged on
/// success, extended by exactly one failure line on failure.
pub open spec fn log_after(log: Seq<Seq<char>>, o: HandlerResult) -> Seq<Seq<char>> {
    match o {
        HandlerResult::Success => log,
        HandlerResult::Failure(m) => log.push(failure_line(m@)),
    }
}

/// Converts a handler's outcome into the dispatcher's propagated result and
/// its diagnostic side effect: a failure is logged on exactly one line and
/// wrapped, never retried, suppressed, or reworded; a success is returned
/// immediately with nothing written.
pub fn record_outcome(outcome: HandlerResult, log: &mut DiagnosticLog) -> (r: Result<
    DispatchOutcome,
    DispatchError,
>)
    ensures
        r == outcome_result(outcome),
        final(log)@ == log_after(old(log)@, outcome),
{
    match outcome {
        HandlerResult::Success => Ok(DispatchOutcome::HandlerSucceeded),
        HandlerResult::Failure(msg) => {
            let line = format_failure_line(msg.as_str());
            log.record(line);
            Err(DispatchError::HandlerFailure { message: msg })
        },
    }
}

/// Resolves the handler for the current invocation and runs it exactly once.
///
/// The hook name is derived from the first process argument by the external
/// naming convention (basename of the invoked path, extension stripped) and
/// looked up in the registry. An empty argument list is a defensive no-op:
/// no resolution is attempted. An unrecognized name is a benign no-op. A
/// matched handler runs once; its failure is written to the diagnostic log
/// as one line carrying its message verbatim and propagated to the caller,
/// never escalated to a process abort.
pub fn run<H: Handler>(
    args: &Vec<String>,
    registry: &Registry<H>,
    log: &mut DiagnosticLog,
) -> (r: Result<DispatchOutcome, DispatchError>)
    ensures
        args@.len() == 0 ==> r == Ok::<DispatchOutcome, DispatchError>(
            DispatchOutcome::DegenerateInvocation,
        ) && final(log)@ == old(log)@,
        args@.len() > 0 ==> match first_match(registry.bindings(), derived_name(args@[0]@)) {
            None => r == Ok::<DispatchOutcome, DispatchError>(DispatchOutcome::UnrecognizedHook)
                && final(log)@ == old(log)@,
            Some(_h) => match r {
                Ok(oc) => oc == DispatchOutcome::HandlerSucceeded && final(log)@ == old(log)@,
                Err(e) => match e {
                    DispatchError::HandlerFailure { message } => final(log)@ == old(log)@.push(
                        failure_line(message@),
                    ),
                },
            },
        },
{
    if args.len() == 0 {
        return Ok(DispatchOutcome::DegenerateInvocation);
    }
    let name = derive_hook_name(args[0].as_str());
    match registry.lookup(&name) {
        None => Ok(DispatchOutcome::UnrecognizedHook),
        Some(h) => {
            let outcome = h.execute();
            record_outcome(outcome, log)
        },
    }
}

/// Maps a dispatch result to the process exit status: zero for success,
/// one (distinguishable from success) for a propagated error.
pub fn exit_status(r: &Result<DispatchOutcome, DispatchError>) -> (c: i32)
    ensures
        r is Ok ==> c == 0,
        r is Err ==> c == 1,
{
    match r {
        Ok(_) => 0,
        Err(_) => 1,
    }
}

} // verus!
