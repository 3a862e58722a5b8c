//! The error taxonomy of the command pipeline.

use vstd::prelude::*;

verus! {

/// An error surfaced by executing a command.
///
/// Domain and persistence errors during the write path are fatal to that
/// single execution: the events of a failed call are never partially
/// applied, and the caller must resubmit.
#[derive(Debug)]
pub enum AggregateError<T> {
    /// A command violated a business rule. Raised by `Aggregate::handle`,
    /// propagated directly to the caller, and never retried automatically.
    UserError(T),
    /// A commit was anchored on a context that is no longer current: another
    /// commit for the same identity was persisted after the context was
    /// loaded. Retryable — the caller must reload and resubmit.
    AggregateConflict,
}

} // verus!
