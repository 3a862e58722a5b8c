//! The event contract: immutable, versioned, comparable domain facts.

pub mod envelope;

pub use envelope::Envelope as EventEnvelope;

use vstd::prelude::*;

verus! {

/// Marker for event payload types.
pub trait Event {

}

/// A `DomainEvent` represents any business change in the state of an
/// `Aggregate`. Domain events are immutable, and when event sourcing is used
/// they are the single source of truth.
///
/// The name of a `DomainEvent` should always be in the past tense, e.g.,
/// - AdminPrivilegesGranted
/// - EmailAddressChanged
/// - DependencyAdded
///
/// To simplify handling, an event should be an enum, and each variant should
/// carry any important information. Once durably stored, an event's payload
/// is never mutated or deleted.
pub trait DomainEvent: Sized {
    /// The view of the name returned by `event_type`.
    spec fn spec_event_type(&self) -> Seq<char>;

    /// A name specifying the event, used for event upcasting.
    fn event_type(&self) -> (r: String)
        ensures
            r@ == self.spec_event_type(),
    ;

    /// A version of the `event_type`, used for event upcasting.
    fn event_version(&self) -> (r: String);

    /// Clones the event. Events are cloned throughout the framework — when
    /// they are enveloped, loaded, and applied to projections — and the copy
    /// must equal the original.
    fn clone_event(&self) -> (r: Self)
        ensures
            r == *self,
    ;
}

} // verus!
