//! The abstract central source for loading past events and committing new
//! events, together with the model functions that its contracts — and the
//! laws about concurrent commits — are stated over.

pub mod memory_store;

use vstd::prelude::*;

use std::collections::HashMap;

use crate::aggregate::Aggregate;
use crate::aggregate::context::AggregateContext;
use crate::aggregate::error::AggregateError;
use crate::aggregate::replay;
use crate::event::DomainEvent;
use crate::event::envelope::{Envelope, EnvelopeView};

verus! {

/// One-time setup information handed to `EventStore::init`.
#[derive(Clone, Debug)]
pub struct StoreContext {
    /// The name the running system commits under; stamped on each new
    /// envelope as its `system_id`.
    pub service_name: String,
}

/// The committed envelopes of one identity, in ascending sequence order; the
/// empty run when the identity is unknown.
pub open spec fn stored_events<E>(
    log: Map<Seq<char>, Seq<EnvelopeView<E>>>,
    aggregate_id: Seq<char>,
) -> Seq<EnvelopeView<E>> {
    if log.contains_key(aggregate_id) {
        log[aggregate_id]
    } else {
        Seq::empty()
    }
}

/// The payloads of a run of envelopes, in order.
pub open spec fn payloads_of<E>(events: Seq<EnvelopeView<E>>) -> Seq<E> {
    events.map_values(|e: EnvelopeView<E>| e.payload)
}

/// Holds exactly when a commit anchored on `current_sequence` is accepted for
/// `aggregate_id`: the anchor must still equal the number of envelopes
/// already committed for that identity.
pub open spec fn commit_accepts<E>(
    log: Map<Seq<char>, Seq<EnvelopeView<E>>>,
    aggregate_id: Seq<char>,
    current_sequence: int,
) -> bool {
    current_sequence == stored_events(log, aggregate_id).len()
}

/// The envelopes wrapped around newly produced events: consecutive sequence
/// numbers starting at `current_sequence + 1`, the committing identity, the
/// store's system id, each payload's own event type, and a shared copy of
/// the metadata.
pub open spec fn wrapped_views<E: DomainEvent>(
    aggregate_id: Seq<char>,
    system_id: Seq<char>,
    current_sequence: int,
    events: Seq<E>,
    metadata: Map<String, String>,
) -> Seq<EnvelopeView<E>> {
    Seq::new(
        events.len(),
        |i: int|
            EnvelopeView {
                aggregate_id: aggregate_id,
                system_id: system_id,
                sequence: current_sequence + 1 + i,
                event_type: events[i].spec_event_type(),
                payload: events[i],
                metadata: metadata,
            },
    )
}

/// The log after a successful non-empty commit: the committing identity's
/// run extended by the freshly wrapped envelopes, all other identities
/// untouched.
pub open spec fn committed_log<E: DomainEvent>(
    log: Map<Seq<char>, Seq<EnvelopeView<E>>>,
    aggregate_id: Seq<char>,
    system_id: Seq<char>,
    current_sequence: int,
    events: Seq<E>,
    metadata: Map<String, String>,
) -> Map<Seq<char>, Seq<EnvelopeView<E>>> {
    log.insert(
        aggregate_id,
        stored_events(log, aggregate_id) + wrapped_views(
            aggregate_id,
            system_id,
            current_sequence,
            events,
            metadata,
        ),
    )
}

/// The abstract central source for loading past events and committing new
/// events.
///
/// The store is modelled as a mapping from entity identity to its ordered
/// committed envelope run. Only `commit` mutates the mapping, and it treats
/// "read the committed run" and "extend and persist it" as one atomic
/// critical section anchored on the `current_sequence` the caller's context
/// supplies: a commit whose anchor is stale is rejected with a
/// concurrency-conflict error instead of silently losing another writer's
/// events.
pub trait EventStore<A: Aggregate>: Sized {
    /// Provides the current state of an aggregate along with surrounding
    /// context. This is used by the command orchestrator when loading an
    /// aggregate in order to handle incoming commands.
    type AC: AggregateContext<A>;

    /// The store's model: the mapping from each known identity to its
    /// ordered committed envelope run.
    spec fn log(&self) -> Map<Seq<char>, Seq<EnvelopeView<A::Event>>>;

    /// The system id stamped on envelopes committed through this store.
    spec fn system_id(&self) -> Seq<char>;

    /// The store's internal well-formedness, established by construction and
    /// preserved by every operation.
    spec fn inv(&self) -> bool;

    /// Sequencing law: in a well-formed store, every identity's committed
    /// run carries that identity, and its sequence numbers are exactly the
    /// gapless ascending run 1..N.
    proof fn sequences_gapless(&self, aggregate_id: Seq<char>)
        requires
            self.inv(),
        ensures
            forall|i: int|
                0 <= i < stored_events(self.log(), aggregate_id).len() ==> (#[trigger] stored_events(
                    self.log(),
                    aggregate_id,
                )[i]).sequence == i + 1 && stored_events(self.log(), aggregate_id)[i].aggregate_id
                    == aggregate_id,
    ;

    /// Called as part of the setup process. All setup such as opening
    /// connection pools or verifying that targets exist belongs here; the
    /// reference store only records the service name it commits under.
    fn init(&mut self, context: StoreContext) -> (r: Result<(), AggregateError<A::Error>>)
        requires
            old(self).inv(),
        ensures
            final(self).inv(),
            final(self).log() == old(self).log(),
            final(self).system_id() == context.service_name@,
            match r {
                Ok(u) => true,
                Err(_) => false,
            },
    ;

    /// Load all events for a particular `aggregate_id`, in ascending
    /// sequence order. An unknown identity yields the empty list, never an
    /// error.
    fn load_events(&self, aggregate_id: &str) -> (r: Result<
        Vec<Envelope<A>>,
        AggregateError<A::Error>,
    >)
        requires
            self.inv(),
        ensures
            match r {
                Ok(v) => v@.map_values(|e: Envelope<A>| e@) == stored_events(
                    self.log(),
                    aggregate_id@,
                ),
                Err(_) => false,
            },
    ;

    /// Load an aggregate at its current state: fold the committed events
    /// through `apply` starting from the default state, and record the last
    /// sequence seen (0 if none).
    fn load_aggregate(&self, aggregate_id: &str) -> (r: Result<
        Self::AC,
        AggregateError<A::Error>,
    >)
        requires
            self.inv(),
        ensures
            match r {
                Ok(c) => {
                    &&& c.spec_aggregate_id() == aggregate_id@
                    &&& c.spec_current_sequence() == stored_events(
                        self.log(),
                        aggregate_id@,
                    ).len()
                    &&& c.spec_aggregate() == replay::<A>(
                        payloads_of(stored_events(self.log(), aggregate_id@)),
                    )
                },
                Err(_) => false,
            },
    ;

    /// Commit new events.
    ///
    /// For an empty event list this is a no-op returning the empty list
    /// without reading or writing the log. Otherwise, when the context's
    /// anchor still matches the committed run, the events are wrapped into
    /// envelopes with consecutive sequence numbers, appended to the run, and
    /// returned in order; when the anchor is stale, the commit fails with a
    /// concurrency-conflict error and the log is unchanged.
    fn commit(
        &mut self,
        events: Vec<A::Event>,
        context: Self::AC,
        metadata: HashMap<String, String>,
    ) -> (r: Result<Vec<Envelope<A>>, AggregateError<A::Error>>)
        requires
            old(self).inv(),
            context.spec_current_sequence() + events@.len() <= usize::MAX,
        ensures
            final(self).inv(),
            final(self).system_id() == old(self).system_id(),
            ({
                let id = context.spec_aggregate_id();
                let anchor = context.spec_current_sequence();
                match r {
                    Ok(v) => if events@.len() == 0 {
                        v@.len() == 0 && final(self).log() == old(self).log()
                    } else {
                        &&& commit_accepts(old(self).log(), id, anchor)
                        &&& v@.map_values(|e: Envelope<A>| e@) == wrapped_views(
                            id,
                            old(self).system_id(),
                            anchor,
                            events@,
                            metadata@,
                        )
                        &&& final(self).log() == committed_log(
                            old(self).log(),
                            id,
                            old(self).system_id(),
                            anchor,
                            events@,
                            metadata@,
                        )
                    },
                    Err(e) => {
                        &&& e is AggregateConflict
                        &&& events@.len() > 0
                        &&& !commit_accepts(old(self).log(), id, anchor)
                        &&& final(self).log() == old(self).log()
                    },
                }
            }),
    ;
}

/// Law: two commits against the same identity can never both be anchored on
/// the same observed sequence. After a successful non-empty commit anchored
/// on `current_sequence`, a second commit carrying the same anchor — the
/// loser of the race — is no longer accepted: it observes a retryable
/// conflict instead of silently overwriting, so no two committed envelopes
/// of one identity ever carry equal sequence numbers.
pub proof fn lemma_conflicting_commit_rejected<E: DomainEvent>(
    log: Map<Seq<char>, Seq<EnvelopeView<E>>>,
    aggregate_id: Seq<char>,
    system_id: Seq<char>,
    current_sequence: int,
    events: Seq<E>,
    metadata: Map<String, String>,
)
    requires
        commit_accepts(log, aggregate_id, current_sequence),
        events.len() > 0,
    ensures
        !commit_accepts(
            committed_log(log, aggregate_id, system_id, current_sequence, events, metadata),
            aggregate_id,
            current_sequence,
        ),
{
    let extended = committed_log(log, aggregate_id, system_id, current_sequence, events, metadata);
    assert(stored_events(extended, aggregate_id).len() == current_sequence + events.len());
}

/// Law: replaying the history left behind by a successful commit yields
/// exactly the state obtained by applying the committed events, one at a
/// time and in the order they were produced, to the state replayed from the
/// history the commit extended.
pub proof fn lemma_commit_replay<A: Aggregate>(
    log: Map<Seq<char>, Seq<EnvelopeView<A::Event>>>,
    aggregate_id: Seq<char>,
    system_id: Seq<char>,
    current_sequence: int,
    events: Seq<A::Event>,
    metadata: Map<String, String>,
)
    ensures
        replay::<A>(
            payloads_of(
                stored_events(
                    committed_log(
                        log,
                        aggregate_id,
                        system_id,
                        current_sequence,
                        events,
                        metadata,
                    ),
                    aggregate_id,
                ),
            ),
        ) == crate::aggregate::apply_all::<A>(
            replay::<A>(payloads_of(stored_events(log, aggregate_id))),
            events,
        ),
{
    let prior = stored_events(log, aggregate_id);
    let fresh = wrapped_views(aggregate_id, system_id, current_sequence, events, metadata);
    let extended = committed_log(log, aggregate_id, system_id, current_sequence, events, metadata);
    assert(stored_events(extended, aggregate_id) == prior + fresh);
    assert(payloads_of(prior + fresh) =~= payloads_of(prior) + payloads_of(fresh));
    assert(payloads_of(fresh) =~= events);
    crate::aggregate::lemma_replay_extends::<A>(payloads_of(prior), events);
}

/// Law: a commit touches only its own identity's history. The committed runs
/// of all other identities are left exactly as they were, so commits against
/// different identities never interfere with each other's data.
pub proof fn lemma_commit_isolated<E: DomainEvent>(
    log: Map<Seq<char>, Seq<EnvelopeView<E>>>,
    aggregate_id: Seq<char>,
    system_id: Seq<char>,
    current_sequence: int,
    events: Seq<E>,
    metadata: Map<String, String>,
    other: Seq<char>,
)
    requires
        other != aggregate_id,
    ensures
        stored_events(
            committed_log(log, aggregate_id, system_id, current_sequence, events, metadata),
            other,
        ) == stored_events(log, other),
{
}

} // verus!
