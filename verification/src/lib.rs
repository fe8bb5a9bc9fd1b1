//! A verified hook-dispatch core for an agent that an external orchestrator
//! invokes repeatedly under different names, each name signaling a distinct
//! lifecycle event. The caller builds a [`Registry`] of hook-name-to-handler
//! bindings, then hands the process arguments to [`run`], which derives the
//! hook name from the invoked path, resolves the matching handler, invokes it
//! exactly once, and converts its outcome into a propagated result plus a
//! diagnostic log record.

pub mod diag;
pub mod dispatch;
pub mod handler;
pub mod name;
pub mod registry;

pub use diag::{failure_line, format_failure_line, DiagnosticLog};
pub use dispatch::{
    exit_status, log_after, outcome_result, record_outcome, run, DispatchError, DispatchOutcome,
};
pub use handler::{Handler, HandlerResult};
pub use name::{derive_hook_name, derived_name, relation_hook_name, RelationEvent};
pub use registry::{
    contains_name, first_match, lemma_match_iff_contains, lemma_register_then_lookup, Registry,
    RegistryEntry,
};
