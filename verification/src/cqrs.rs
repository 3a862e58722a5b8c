//! The command orchestrator: ties a store to a set of projections and
//! executes a command end-to-end — load, handle, commit, dispatch.

use vstd::prelude::*;

use std::collections::HashMap;

use crate::aggregate::Aggregate;
use crate::aggregate::context::AggregateContext;
use crate::aggregate::error::AggregateError;
use crate::aggregate::replay;
use crate::event::envelope::Envelope;
use crate::query::Query;
use crate::store::EventStore;
use crate::store::committed_log;
use crate::store::payloads_of;
use crate::store::stored_events;
use crate::store::wrapped_views;

verus! {

/// Base framework for applying commands to aggregates.
///
/// Each execution is one logical, non-interleaved sequence of four steps:
/// load the aggregate, handle the command, commit the produced events, and
/// dispatch the new envelopes to every registered query. A domain or
/// persistence error is terminal and propagated to the caller with nothing
/// partially applied; a query's own failures are the query's concern and
/// never undo a commit.
pub struct Cqrs<A, ES, Q> where A: Aggregate, ES: EventStore<A>, Q: Query<A> {
    store: ES,
    queries: Vec<Q>,
    services: A::Services,
}

impl<A, ES, Q> Cqrs<A, ES, Q> where A: Aggregate, ES: EventStore<A>, Q: Query<A> {
    /// The store commands are executed against.
    pub closed spec fn spec_store(&self) -> ES {
        self.store
    }

    /// The registered queries, in registration order.
    pub closed spec fn spec_queries(&self) -> Seq<Q> {
        self.queries@
    }

    /// The services injected into every `handle` call.
    pub closed spec fn spec_services(&self) -> A::Services {
        self.services
    }

    /// The state a command against `aggregate_id` is decided on: the replay
    /// of the identity's committed history.
    pub open spec fn loaded_state(&self, aggregate_id: Seq<char>) -> A::V {
        replay::<A>(payloads_of(stored_events(self.spec_store().log(), aggregate_id)))
    }

    /// Machine limit: the events a command produces must still fit in the
    /// identity's sequence range.
    pub open spec fn sequences_fit(&self, aggregate_id: Seq<char>, command: A::Command) -> bool {
        let state = self.loaded_state(aggregate_id);
        A::accepts(state, command, self.spec_services()) ==> stored_events(
            self.spec_store().log(),
            aggregate_id,
        ).len() + A::produced(state, command, self.spec_services()).len() <= usize::MAX
    }

    /// What one execution does. An accepted command commits its produced
    /// events — anchored at the end of the committed history the command was
    /// decided on — and delivers the fresh envelopes to every registered
    /// query exactly once; a rejected command returns its domain error and
    /// leaves the log and every query untouched.
    pub open spec fn executed(
        pre: Self,
        aggregate_id: Seq<char>,
        command: A::Command,
        metadata: Map<String, String>,
        post: Self,
        r: Result<(), AggregateError<A::Error>>,
    ) -> bool {
        let state = pre.loaded_state(aggregate_id);
        let services = pre.spec_services();
        let prior = stored_events(pre.spec_store().log(), aggregate_id);
        if A::accepts(state, command, services) {
            let events = A::produced(state, command, services);
            let fresh = wrapped_views(
                aggregate_id,
                pre.spec_store().system_id(),
                prior.len() as int,
                events,
                metadata,
            );
            &&& r is Ok
            &&& post.spec_store().log() == if events.len() == 0 {
                pre.spec_store().log()
            } else {
                committed_log(
                    pre.spec_store().log(),
                    aggregate_id,
                    pre.spec_store().system_id(),
                    prior.len() as int,
                    events,
                    metadata,
                )
            }
            &&& post.spec_queries().len() == pre.spec_queries().len()
            &&& forall|i: int|
                0 <= i < pre.spec_queries().len() ==> Q::dispatched(
                    pre.spec_queries()[i],
                    aggregate_id,
                    fresh,
                    #[trigger] post.spec_queries()[i],
                )
        } else {
            &&& r matches Err(AggregateError::UserError(e)) && A::rejection(
                state,
                command,
                services,
                e,
            )
            &&& post.spec_store().log() == pre.spec_store().log()
            &&& post.spec_queries() == pre.spec_queries()
        }
    }

    /// Creates a new framework for dispatching commands using the provided
    /// store, queries and services.
    pub fn new(store: ES, queries: Vec<Q>, services: A::Services) -> (r: Self)
        ensures
            r.spec_store() == store,
            r.spec_queries() == queries@,
            r.spec_services() == services,
    {
        Cqrs { store, queries, services }
    }

    /// The store commands are executed against, e.g. to inspect committed
    /// events.
    pub fn store(&self) -> (r: &ES)
        ensures
            *r == self.spec_store(),
    {
        &self.store
    }

    /// The registered queries, e.g. to inspect a materialized view.
    pub fn queries(&self) -> (r: &Vec<Q>)
        ensures
            r@ == self.spec_queries(),
    {
        &self.queries
    }

    /// Executes a command with empty metadata.
    pub fn execute(&mut self, aggregate_id: &str, command: A::Command) -> (r: Result<
        (),
        AggregateError<A::Error>,
    >)
        requires
            old(self).spec_store().inv(),
            old(self).sequences_fit(aggregate_id@, command),
        ensures
            final(self).spec_store().inv(),
            final(self).spec_services() == old(self).spec_services(),
            final(self).spec_store().system_id() == old(self).spec_store().system_id(),
            Self::executed(
                *old(self),
                aggregate_id@,
                command,
                Map::<String, String>::empty(),
                *final(self),
                r,
            ),
    {
        let metadata: HashMap<String, String> = HashMap::new();
        self.execute_with_metadata(aggregate_id, command, metadata)
    }

    /// Executes a command: loads the aggregate, lets it handle the command,
    /// commits the produced events with the caller's metadata, and delivers
    /// the fresh envelopes to every registered query exactly once.
    pub fn execute_with_metadata(
        &mut self,
        aggregate_id: &str,
        command: A::Command,
        metadata: HashMap<String, String>,
    ) -> (r: Result<(), AggregateError<A::Error>>)
        requires
            old(self).spec_store().inv(),
            old(self).sequences_fit(aggregate_id@, command),
        ensures
            final(self).spec_store().inv(),
            final(self).spec_services() == old(self).spec_services(),
            final(self).spec_store().system_id() == old(self).spec_store().system_id(),
            Self::executed(*old(self), aggregate_id@, command, metadata@, *final(self), r),
    {
        let ghost pre = *self;
        let aggregate_context = match self.store.load_aggregate(aggregate_id) {
            Ok(context) => context,
            Err(e) => {
                return Err(e);
            },
        };
        let resultant_events = match aggregate_context.aggregate().handle(
            command,
            &self.services,
        ) {
            Ok(events) => events,
            Err(e) => {
                return Err(AggregateError::UserError(e));
            },
        };
        let ghost fresh = wrapped_views(
            aggregate_id@,
            pre.spec_store().system_id(),
            stored_events(pre.spec_store().log(), aggregate_id@).len() as int,
            A::produced(pre.loaded_state(aggregate_id@), command, pre.spec_services()),
            metadata@,
        );
        let committed = match self.store.commit(resultant_events, aggregate_context, metadata) {
            Ok(envelopes) => envelopes,
            Err(e) => {
                return Err(e);
            },
        };
        proof {
            assert(committed@.map_values(|e: Envelope<A>| e@) =~= fresh);
        }
        let ghost mid = *self;
        let mut i: usize = 0;
        while i < self.queries.len()
            invariant
                i <= self.queries@.len(),
                self.queries@.len() == pre.spec_queries().len(),
                self.store == mid.spec_store(),
                self.services == pre.spec_services(),
                committed@.map_values(|e: Envelope<A>| e@) == fresh,
                forall|j: int|
                    0 <= j < i ==> Q::dispatched(
                        pre.spec_queries()[j],
                        aggregate_id@,
                        fresh,
                        #[trigger] self.queries@[j],
                    ),
                forall|j: int|
                    i <= j < self.queries@.len() ==> #[trigger] self.queries@[j]
                        == pre.spec_queries()[j],
            decreases self.queries@.len() - i,
        {
            self.queries[i].dispatch(aggregate_id, committed.as_slice());
            i += 1;
        }
        Ok(())
    }
}

} // verus!
