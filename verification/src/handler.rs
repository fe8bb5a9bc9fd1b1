use vstd::prelude::*;

verus! {

/// The outcome of one handler invocation: success, or failure carrying a
/// human-readable diagnostic message. There are no partial states.
pub enum HandlerResult {
    Success,
    Failure(String),
}

/// A unit of caller-supplied behavior bound to a hook name: invoked with no
/// arguments, it produces exactly one `HandlerResult`. Handler bodies are the
/// charm author's business logic; nothing is prescribed of them beyond the
/// shape of the outcome, so `execute` carries no contract.
pub trait Handler {
    fn execute(&self) -> HandlerResult;
}

} // verus!
