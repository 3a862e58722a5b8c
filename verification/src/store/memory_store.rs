//! Simple memory store useful for application development and testing
//! purposes.
//!
//! The store keeps, per identity, the ordered run of committed envelopes.
//! It persists nothing beyond the lifetime of the process, and replay always
//! starts from the aggregate's default value — there is no snapshotting — so
//! it suits workloads whose per-entity histories stay small enough to replay
//! cheaply.

use vstd::prelude::*;

use std::collections::HashMap;

use crate::aggregate::Aggregate;
use crate::aggregate::apply_all;
use crate::aggregate::context::AggregateContext;
use crate::aggregate::error::AggregateError;
use crate::event::DomainEvent;
use crate::event::envelope::{Envelope, EnvelopeView};
use crate::store::EventStore;
use crate::store::StoreContext;
use crate::store::committed_log;
use crate::store::payloads_of;
use crate::store::stored_events;
use crate::store::wrapped_views;

verus! {

/// The views of one identity's stored run.
pub open spec fn entry_views<A: Aggregate>(run: Seq<Envelope<A>>) -> Seq<EnvelopeView<A::Event>> {
    run.map_values(|e: Envelope<A>| e@)
}

/// The log modelled by an association list of identities and their runs. A
/// later entry for the same identity would win, but a well-formed store keeps
/// its identities unique.
pub open spec fn entries_log<A: Aggregate>(entries: Seq<(String, Vec<Envelope<A>>)>) -> Map<
    Seq<char>,
    Seq<EnvelopeView<A::Event>>,
>
    decreases entries.len(),
{
    if entries.len() == 0 {
        Map::empty()
    } else {
        entries_log(entries.drop_last()).insert(entries.last().0@, entry_views(entries.last().1@))
    }
}

/// Each identity appears in at most one entry.
pub open spec fn unique_ids<A: Aggregate>(entries: Seq<(String, Vec<Envelope<A>>)>) -> bool {
    forall|i: int, j: int|
        0 <= i < j < entries.len() ==> (#[trigger] entries[i].0@) != (#[trigger] entries[j].0@)
}

proof fn lemma_entries_log_contains<A: Aggregate>(
    entries: Seq<(String, Vec<Envelope<A>>)>,
    key: Seq<char>,
)
    ensures
        entries_log(entries).contains_key(key) <==> exists|i: int|
            0 <= i < entries.len() && (#[trigger] entries[i].0@) == key,
    decreases entries.len(),
{
    if entries.len() == 0 {
    } else {
        lemma_entries_log_contains(entries.drop_last(), key);
        let last = entries.len() - 1;
        if entries[last].0@ == key {
            assert(entries_log(entries).contains_key(key));
        } else {
            assert(entries_log(entries).contains_key(key) <==> entries_log(
                entries.drop_last(),
            ).contains_key(key));
            if exists|i: int| 0 <= i < entries.len() && (#[trigger] entries[i].0@) == key {
                let i = choose|i: int| 0 <= i < entries.len() && (#[trigger] entries[i].0@) == key;
                assert(i < last);
                assert(entries.drop_last()[i].0@ == key);
            }
            if exists|i: int| 0 <= i < entries.drop_last().len() && (#[trigger] entries.drop_last()[i].0@)
                == key {
                let i = choose|i: int|
                    0 <= i < entries.drop_last().len() && (#[trigger] entries.drop_last()[i].0@)
                        == key;
                assert(entries[i].0@ == key);
            }
        }
    }
}

proof fn lemma_entries_log_value<A: Aggregate>(entries: Seq<(String, Vec<Envelope<A>>)>, i: int)
    requires
        unique_ids(entries),
        0 <= i < entries.len(),
    ensures
        entries_log(entries).contains_key(entries[i].0@),
        entries_log(entries)[entries[i].0@] == entry_views(entries[i].1@),
    decreases entries.len(),
{
    let last = entries.len() - 1;
    if i == last {
    } else {
        assert(unique_ids(entries.drop_last())) by {
            assert forall|p: int, q: int| 0 <= p < q < entries.drop_last().len() implies (
            #[trigger] entries.drop_last()[p].0@) != (#[trigger] entries.drop_last()[q].0@) by {
                assert(entries[p].0@ != entries[q].0@);
            }
        }
        lemma_entries_log_value(entries.drop_last(), i);
        assert(entries.drop_last()[i] == entries[i]);
        assert(entries[last].0@ != entries[i].0@);
    }
}

proof fn lemma_entries_log_update<A: Aggregate>(
    entries: Seq<(String, Vec<Envelope<A>>)>,
    i: int,
    run: Vec<Envelope<A>>,
)
    requires
        unique_ids(entries),
        0 <= i < entries.len(),
    ensures
        entries_log(entries.update(i, (entries[i].0, run))) == entries_log(entries).insert(
            entries[i].0@,
            entry_views(run@),
        ),
    decreases entries.len(),
{
    let updated = entries.update(i, (entries[i].0, run));
    let last = entries.len() - 1;
    if i == last {
        assert(updated.drop_last() =~= entries.drop_last());
        assert(updated.last() == (entries[i].0, run));
        assert(entries_log(updated) =~= entries_log(entries).insert(
            entries[i].0@,
            entry_views(run@),
        ));
    } else {
        assert(unique_ids(entries.drop_last())) by {
            assert forall|p: int, q: int| 0 <= p < q < entries.drop_last().len() implies (
            #[trigger] entries.drop_last()[p].0@) != (#[trigger] entries.drop_last()[q].0@) by {
                assert(entries[p].0@ != entries[q].0@);
            }
        }
        assert(entries.drop_last()[i] == entries[i]);
        lemma_entries_log_update(entries.drop_last(), i, run);
        assert(updated.drop_last() =~= entries.drop_last().update(i, (entries[i].0, run)));
        assert(updated.last() == entries.last());
        // the updated identity differs from the last entry's, so the two
        // inserts commute
        assert(entries[i].0@ != entries[last].0@);
        assert(entries_log(updated) =~= entries_log(entries).insert(
            entries[i].0@,
            entry_views(run@),
        ));
    }
}

proof fn lemma_entries_log_push<A: Aggregate>(
    entries: Seq<(String, Vec<Envelope<A>>)>,
    key: String,
    run: Vec<Envelope<A>>,
)
    ensures
        entries_log(entries.push((key, run))) == entries_log(entries).insert(
            key@,
            entry_views(run@),
        ),
{
    assert(entries.push((key, run)).drop_last() =~= entries);
    assert(entries.push((key, run)).last() == (key, run));
}

/// Simple memory store backed by a per-identity association list of
/// committed envelope runs.
///
/// Commits are compare-and-set: each commit is anchored on the
/// `current_sequence` its context observed, and a stale anchor fails with a
/// concurrency-conflict error instead of silently losing a concurrent
/// writer's events.
pub struct MemoryStore<A: Aggregate> {
    events: Vec<(String, Vec<Envelope<A>>)>,
    system_id: String,
}

impl<A: Aggregate> MemoryStore<A> {
    /// The store's model: the mapping from identity to committed run.
    pub closed spec fn spec_log(&self) -> Map<Seq<char>, Seq<EnvelopeView<A::Event>>> {
        entries_log(self.events@)
    }

    /// The system id stamped on committed envelopes.
    pub closed spec fn spec_system_id(&self) -> Seq<char> {
        self.system_id@
    }

    /// Well-formedness: identities are unique, and each entry's run carries
    /// the entry's identity and the gapless ascending sequences 1..N.
    pub closed spec fn wf(&self) -> bool {
        &&& unique_ids(self.events@)
        &&& forall|i: int, k: int|
            0 <= i < self.events@.len() && 0 <= k < self.events@[i].1@.len() ==> ((
            #[trigger] self.events@[i].1@[k])@.sequence == k + 1 && self.events@[i].1@[k]@.aggregate_id
                == self.events@[i].0@)
    }

    /// Get a shared view of the events stored within the event store, keyed
    /// by identity.
    ///
    /// This can be used to verify the state of events that have been
    /// committed.
    pub fn get_events(&self) -> (r: &Vec<(String, Vec<Envelope<A>>)>)
        ensures
            entries_log(r@) == self.spec_log(),
    {
        &self.events
    }

    /// The index of the identity's entry, if the identity is known.
    fn find(&self, aggregate_id: &String) -> (r: Option<usize>)
        ensures
            match r {
                Some(i) => i < self.events@.len() && self.events@[i as int].0@ == aggregate_id@,
                None => forall|i: int|
                    0 <= i < self.events@.len() ==> (#[trigger] self.events@[i].0@)
                        != aggregate_id@,
            },
    {
        let mut i: usize = 0;
        while i < self.events.len()
            invariant
                i <= self.events@.len(),
                forall|j: int| 0 <= j < i ==> (#[trigger] self.events@[j].0@) != aggregate_id@,
            decreases self.events@.len() - i,
        {
            if self.events[i].0 == *aggregate_id {
                return Some(i);
            }
            i += 1;
        }
        None
    }

    /// Clones out the committed run of `aggregate_id`, empty when the
    /// identity is unknown.
    fn load_commited_events(&self, aggregate_id: String) -> (r: Result<
        Vec<Envelope<A>>,
        AggregateError<A::Error>,
    >)
        requires
            self.wf(),
        ensures
            match r {
                Ok(v) => v@.map_values(|e: Envelope<A>| e@) == stored_events(
                    self.spec_log(),
                    aggregate_id@,
                ),
                Err(_) => false,
            },
    {
        let mut committed_events: Vec<Envelope<A>> = Vec::new();
        match self.find(&aggregate_id) {
            None => {
                proof {
                    lemma_entries_log_contains(self.events@, aggregate_id@);
                    assert(!self.spec_log().contains_key(aggregate_id@));
                    assert(committed_events@.map_values(|e: Envelope<A>| e@) =~= stored_events(
                        self.spec_log(),
                        aggregate_id@,
                    ));
                }
            },
            Some(idx) => {
                proof {
                    lemma_entries_log_value(self.events@, idx as int);
                }
                let run = &self.events[idx].1;
                let ghost run_views = stored_events(self.spec_log(), aggregate_id@);
                let mut k: usize = 0;
                while k < run.len()
                    invariant
                        k <= run@.len(),
                        run@.len() == run_views.len(),
                        forall|j: int| 0 <= j < run@.len() ==> (#[trigger] run@[j])@ == run_views[j],
                        committed_events@.len() == k,
                        forall|j: int|
                            0 <= j < k ==> (#[trigger] committed_events@[j])@ == run_views[j],
                    decreases run@.len() - k,
                {
                    committed_events.push(run[k].clone());
                    k += 1;
                }
                proof {
                    assert(committed_events@.map_values(|e: Envelope<A>| e@) =~= run_views);
                }
            },
        };
        Ok(committed_events)
    }

    /// The identity the envelopes of one commit are destined for: the first
    /// envelope's aggregate id.
    fn aggregate_id(&self, events: &[Envelope<A>]) -> (r: String)
        requires
            events@.len() > 0,
        ensures
            r@ == events@[0]@.aggregate_id,
    {
        events[0].aggregate_id.clone()
    }

    /// Method to wrap a set of events with the additional metadata needed for
    /// persistence and publishing. Sequence numbers continue consecutively
    /// from `current_sequence`; each envelope carries the payload's own event
    /// type and a shared copy of the metadata.
    fn wrap_events(
        &self,
        aggregate_id: &str,
        current_sequence: usize,
        system_id: &str,
        resultant_events: Vec<A::Event>,
        base_metadata: HashMap<String, String>,
    ) -> (r: Vec<Envelope<A>>)
        requires
            current_sequence + resultant_events@.len() <= usize::MAX,
        ensures
            r@.map_values(|e: Envelope<A>| e@) == wrapped_views(
                aggregate_id@,
                system_id@,
                current_sequence as int,
                resultant_events@,
                base_metadata@,
            ),
    {
        let ghost fresh = wrapped_views(
            aggregate_id@,
            system_id@,
            current_sequence as int,
            resultant_events@,
            base_metadata@,
        );
        let mut sequence: usize = current_sequence;
        let mut wrapped_events: Vec<Envelope<A>> = Vec::new();
        let mut k: usize = 0;
        while k < resultant_events.len()
            invariant
                k <= resultant_events@.len(),
                current_sequence + resultant_events@.len() <= usize::MAX,
                sequence == current_sequence + k,
                fresh == wrapped_views(
                    aggregate_id@,
                    system_id@,
                    current_sequence as int,
                    resultant_events@,
                    base_metadata@,
                ),
                fresh.len() == resultant_events@.len(),
                wrapped_events@.len() == k,
                forall|j: int| 0 <= j < k ==> (#[trigger] wrapped_events@[j])@ == fresh[j],
            decreases resultant_events@.len() - k,
        {
            sequence += 1;
            let payload = resultant_events[k].clone_event();
            let event_type = payload.event_type();
            let envelope = Envelope {
                aggregate_id: String::from_str(aggregate_id),
                system_id: String::from_str(system_id),
                sequence,
                event_type,
                payload,
                metadata: base_metadata.clone(),
            };
            proof {
                assert(envelope@ =~= fresh[k as int]);
            }
            wrapped_events.push(envelope);
            k += 1;
        }
        proof {
            assert(wrapped_events@.map_values(|e: Envelope<A>| e@) =~= fresh);
        }
        wrapped_events
    }
}

impl<A: Aggregate> Default for MemoryStore<A> {
    /// A fresh store: no identities known, an empty system id.
    fn default() -> (r: Self)
        ensures
            r.wf(),
            r.spec_log() == Map::<Seq<char>, Seq<EnvelopeView<A::Event>>>::empty(),
            r.spec_system_id() == Seq::<char>::empty(),
    {
        let events: Vec<(String, Vec<Envelope<A>>)> = Vec::new();
        let system_id = String::new();
        MemoryStore { events, system_id }
    }
}

impl<A: Aggregate> EventStore<A> for MemoryStore<A> {
    type AC = MemoryStoreAggregateContext<A>;

    open spec fn log(&self) -> Map<Seq<char>, Seq<EnvelopeView<A::Event>>> {
        self.spec_log()
    }

    open spec fn system_id(&self) -> Seq<char> {
        self.spec_system_id()
    }

    open spec fn inv(&self) -> bool {
        self.wf()
    }

    proof fn sequences_gapless(&self, aggregate_id: Seq<char>) {
        lemma_entries_log_contains(self.events@, aggregate_id);
        if self.spec_log().contains_key(aggregate_id) {
            let i = choose|i: int|
                0 <= i < self.events@.len() && (#[trigger] self.events@[i].0@) == aggregate_id;
            lemma_entries_log_value(self.events@, i);
        }
    }

    fn init(&mut self, context: StoreContext) -> (r: Result<(), AggregateError<A::Error>>) {
        self.system_id = context.service_name;
        Ok(())
    }

    fn load_events(&self, aggregate_id: &str) -> (r: Result<
        Vec<Envelope<A>>,
        AggregateError<A::Error>,
    >) {
        let events = self.load_commited_events(String::from_str(aggregate_id))?;
        Ok(events)
    }

    fn load_aggregate(&self, aggregate_id: &str) -> (r: Result<
        MemoryStoreAggregateContext<A>,
        AggregateError<A::Error>,
    >) {
        let committed_events = self.load_events(aggregate_id)?;
        proof {
            self.sequences_gapless(aggregate_id@);
        }
        let ghost run = stored_events(self.spec_log(), aggregate_id@);
        let mut aggregate = A::default_state();
        let mut current_sequence: usize = 0;
        let mut k: usize = 0;
        while k < committed_events.len()
            invariant
                k <= committed_events@.len(),
                committed_events@.map_values(|e: Envelope<A>| e@) == run,
                committed_events@.len() == run.len(),
                forall|j: int| 0 <= j < run.len() ==> (#[trigger] run[j]).sequence == j + 1,
                current_sequence == k,
                aggregate@ == apply_all::<A>(
                    A::spec_default(),
                    payloads_of(run).subrange(0, k as int),
                ),
            decreases committed_events@.len() - k,
        {
            let envelope = &committed_events[k];
            proof {
                assert(committed_events@.map_values(|e: Envelope<A>| e@)[k as int] == run[k as int]);
                assert(envelope@ == run[k as int]);
            }
            current_sequence = envelope.sequence;
            aggregate.apply(envelope.payload.clone_event());
            proof {
                let prefix = payloads_of(run).subrange(0, k as int);
                let extended = payloads_of(run).subrange(0, k as int + 1);
                assert(extended =~= prefix.push(run[k as int].payload));
                crate::aggregate::lemma_apply_all_snoc::<A>(
                    A::spec_default(),
                    prefix,
                    run[k as int].payload,
                );
            }
            k += 1;
        }
        proof {
            assert(payloads_of(run).subrange(0, run.len() as int) =~= payloads_of(run));
        }
        Ok(
            MemoryStoreAggregateContext {
                aggregate_id: String::from_str(aggregate_id),
                aggregate,
                current_sequence,
            },
        )
    }

    fn commit(
        &mut self,
        events: Vec<A::Event>,
        context: MemoryStoreAggregateContext<A>,
        metadata: HashMap<String, String>,
    ) -> (r: Result<Vec<Envelope<A>>, AggregateError<A::Error>>) {
        let MemoryStoreAggregateContext { aggregate_id, aggregate: _, current_sequence } = context;
        if events.len() == 0 {
            return Ok(Vec::new());
        }
        let idx_opt = self.find(&aggregate_id);
        let stored_len: usize = match idx_opt {
            Some(idx) => {
                proof {
                    lemma_entries_log_value(self.events@, idx as int);
                }
                self.events[idx].1.len()
            },
            None => {
                proof {
                    lemma_entries_log_contains(self.events@, aggregate_id@);
                }
                0
            },
        };
        proof {
            assert(stored_len == stored_events(self.spec_log(), aggregate_id@).len());
        }
        if current_sequence != stored_len {
            return Err(AggregateError::AggregateConflict);
        }
        let ghost fresh = wrapped_views(
            aggregate_id@,
            self.spec_system_id(),
            current_sequence as int,
            events@,
            metadata@,
        );
        let wrapped_events = self.wrap_events(
            aggregate_id.as_str(),
            current_sequence,
            self.system_id.as_str(),
            events,
            metadata,
        );
        proof {
            assert(wrapped_events@.map_values(|e: Envelope<A>| e@) == fresh);
            assert(wrapped_events@.len() == fresh.len());
            assert(fresh.len() == events@.len());
            assert(wrapped_events@[0]@ == fresh[0]);
        }
        let committing_id = self.aggregate_id(wrapped_events.as_slice());
        proof {
            assert(committing_id@ == aggregate_id@);
        }
        let mut new_events = self.load_commited_events(committing_id)?;
        let ghost prior = stored_events(self.spec_log(), aggregate_id@);
        let mut k: usize = 0;
        while k < wrapped_events.len()
            invariant
                k <= wrapped_events@.len(),
                wrapped_events@.map_values(|e: Envelope<A>| e@) == fresh,
                wrapped_events@.len() == fresh.len(),
                new_events@.len() == prior.len() + k,
                forall|j: int| 0 <= j < prior.len() ==> (#[trigger] new_events@[j])@ == prior[j],
                forall|j: int|
                    prior.len() <= j < new_events@.len() ==> (#[trigger] new_events@[j])@ == fresh[
                        j - prior.len()
                    ],
            decreases wrapped_events@.len() - k,
        {
            proof {
                assert(wrapped_events@.map_values(|e: Envelope<A>| e@)[k as int] == fresh[k as int]);
            }
            new_events.push(wrapped_events[k].clone());
            k += 1;
        }
        proof {
            assert(new_events@.map_values(|e: Envelope<A>| e@) =~= prior + fresh);
            assert(entry_views(new_events@) == prior + fresh);
        }
        let ghost old_entries = self.events@;
        let ghost new_run = new_events@;
        match idx_opt {
            Some(idx) => {
                proof {
                    lemma_entries_log_update(old_entries, idx as int, new_events);
                }
                let key = self.events[idx].0.clone();
                self.events.set(idx, (key, new_events));
                proof {
                    assert(self.events@ =~= old_entries.update(
                        idx as int,
                        (old_entries[idx as int].0, self.events@[idx as int].1),
                    ));
                }
            },
            None => {
                proof {
                    lemma_entries_log_push(old_entries, aggregate_id, new_events);
                }
                self.events.push((aggregate_id, new_events));
            },
        }
        proof {
            assert(self.spec_log() == committed_log(
                entries_log(old_entries),
                aggregate_id@,
                self.spec_system_id(),
                current_sequence as int,
                events@,
                metadata@,
            ));
            // the extended run is itself well formed: the prior envelopes
            // already carried 1..N and the fresh ones continue at N + 1
            assert forall|j: int| 0 <= j < new_run.len() implies (#[trigger] new_run[j])@.sequence
                == j + 1 && new_run[j]@.aggregate_id == aggregate_id@ by {
                if j < prior.len() {
                    assert(new_run[j]@ == prior[j]);
                } else {
                    assert(new_run[j]@ == fresh[j - prior.len()]);
                }
            }
            assert(unique_ids(self.events@)) by {
                match idx_opt {
                    Some(idx) => {
                        assert forall|p: int| 0 <= p < self.events@.len() implies (
                        #[trigger] self.events@[p].0@) == old_entries[p].0@ by {
                            if p != idx as int {
                                assert(self.events@[p] == old_entries[p]);
                            }
                        }
                    },
                    None => {
                        assert forall|p: int, q: int|
                            0 <= p < q < self.events@.len() implies (
                        #[trigger] self.events@[p].0@) != (#[trigger] self.events@[q].0@) by {
                            if q < old_entries.len() {
                                assert(self.events@[p] == old_entries[p]);
                                assert(self.events@[q] == old_entries[q]);
                            } else {
                                assert(self.events@[p] == old_entries[p]);
                                assert(self.events@[q].0@ == aggregate_id@);
                            }
                        }
                    },
                }
            }
            assert(self.wf()) by {
                assert(unique_ids(self.events@));
                assert forall|i: int, k: int|
                    0 <= i < self.events@.len() && 0 <= k < self.events@[i].1@.len() implies ((
                #[trigger] self.events@[i].1@[k])@.sequence == k + 1
                    && self.events@[i].1@[k]@.aggregate_id == self.events@[i].0@) by {
                    match idx_opt {
                        Some(idx) => {
                            if i == idx as int {
                                assert(self.events@[i].1@[k] == new_run[k]);
                            } else {
                                assert(self.events@[i] == old_entries[i]);
                            }
                        },
                        None => {
                            if i == old_entries.len() {
                                assert(self.events@[i].1@[k] == new_run[k]);
                            } else {
                                assert(self.events@[i] == old_entries[i]);
                            }
                        },
                    }
                }
            }
        }
        Ok(wrapped_events)
    }
}

/// Holds context for a pure event store implementation for `MemoryStore`.
///
/// This is used internally by the command orchestrator: it is produced by one
/// load and anchors exactly the commit that follows it.
pub struct MemoryStoreAggregateContext<A> where A: Aggregate {
    /// The aggregate ID of the aggregate instance that has been loaded.
    pub aggregate_id: String,
    /// The current state of the aggregate instance.
    pub aggregate: A,
    /// The last committed event sequence number for this aggregate instance.
    pub current_sequence: usize,
}

impl<A: Aggregate> AggregateContext<A> for MemoryStoreAggregateContext<A> {
    open spec fn spec_aggregate_id(&self) -> Seq<char> {
        self.aggregate_id@
    }

    open spec fn spec_aggregate(&self) -> A::V {
        self.aggregate@
    }

    open spec fn spec_current_sequence(&self) -> int {
        self.current_sequence as int
    }

    fn aggregate(&self) -> (r: &A) {
        &self.aggregate
    }
}

} // verus!
