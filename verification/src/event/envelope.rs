//! The durable unit: an event payload wrapped with identity, ordering and
//! metadata.

use vstd::prelude::*;

use std::collections::HashMap;

use crate::aggregate::Aggregate;
use crate::event::DomainEvent;

verus! {

/// The abstract value of an `Envelope`: its strings as character sequences,
/// its sequence number as a mathematical integer, its payload, and its
/// metadata as a map.
#[verifier::ext_equal]
pub struct EnvelopeView<E> {
    pub aggregate_id: Seq<char>,
    pub system_id: Seq<char>,
    pub sequence: int,
    pub event_type: Seq<char>,
    pub payload: E,
    pub metadata: Map<String, String>,
}

/// `EventEnvelope` encapsulates an event with pertinent information.
///
/// Event identity and event data is persisted together and can be replayed.
///
/// Each stored event is unique based on the compound key composed of its
/// `aggregate_id` and `sequence`; for a fixed `aggregate_id` the sequences
/// form the ascending run 1..N with no gaps.
pub struct Envelope<A> where A: Aggregate {
    /// The id of the aggregate instance.
    pub aggregate_id: String,
    /// The id of the system, e.g. a source control hash or version number;
    /// threaded through from the store's setup context.
    pub system_id: String,
    /// The sequence number for an aggregate instance, starting at 1.
    pub sequence: usize,
    /// The event type tag, taken from the payload's `event_type`.
    pub event_type: String,
    /// The event payload with all business information.
    pub payload: A::Event,
    /// Additional metadata for use in auditing, logging or debugging
    /// purposes. Example: relevant environment variable names and values.
    /// Insertion order is irrelevant.
    pub metadata: HashMap<String, String>,
}

impl<A: Aggregate> View for Envelope<A> {
    type V = EnvelopeView<A::Event>;

    open spec fn view(&self) -> EnvelopeView<A::Event> {
        EnvelopeView {
            aggregate_id: self.aggregate_id@,
            system_id: self.system_id@,
            sequence: self.sequence as int,
            event_type: self.event_type@,
            payload: self.payload,
            metadata: self.metadata@,
        }
    }
}

impl<A: Aggregate> Clone for Envelope<A> {
    /// The copy's view equals the original's: the payload is cloned through
    /// `DomainEvent::clone_event`, and strings clone to equal strings.
    fn clone(&self) -> (r: Self)
        ensures
            r@ == self@,
    {
        let r = Envelope {
            aggregate_id: self.aggregate_id.clone(),
            system_id: self.system_id.clone(),
            sequence: self.sequence,
            event_type: self.event_type.clone(),
            payload: self.payload.clone_event(),
            metadata: self.metadata.clone(),
        };
        proof {
            assert(r@ =~= self@);
        }
        r
    }
}

} // verus!
