//! Read-model projections and the queries that feed them newly committed
//! events.

use vstd::prelude::*;

use crate::aggregate::Aggregate;
use crate::event::envelope::{Envelope, EnvelopeView};

verus! {

/// A downstream consumer of newly committed envelopes.
///
/// Each implementor fixes, through its `dispatched` relation, what exactly
/// one delivery of a batch of envelopes does to its state; the orchestrator
/// guarantees that each committed batch is delivered to each registered
/// query exactly once, in commit order.
pub trait Query<A: Aggregate>: Sized {
    /// The relation between the query's state before and after exactly one
    /// delivery of `events` for `view_id`.
    spec fn dispatched(
        pre: Self,
        view_id: Seq<char>,
        events: Seq<EnvelopeView<A::Event>>,
        post: Self,
    ) -> bool;

    /// Events will be dispatched here as they are committed. Dispatch is
    /// infallible from the caller's perspective: a query's internal failures
    /// are its own concern — routed to its own handler, never propagated —
    /// and must never roll back the already-committed events.
    fn dispatch(&mut self, view_id: &str, events: &[Envelope<A>])
        ensures
            Self::dispatched(
                *old(self),
                view_id@,
                events@.map_values(|e: Envelope<A>| e@),
                *final(self),
            ),
    ;
}

/// A view: an independently defined, read-optimized model built by folding
/// committed envelopes.
///
/// A view supports a default empty value and an `update` mutation, and is
/// owned by a repository keyed by `view_id` — which may differ from the
/// aggregate id, e.g. for grouped or global views. Its meaning is stated
/// over its abstract value `Self::V`.
pub trait Projection<A: Aggregate>: Sized + View {
    /// The empty view that exists before any envelope is applied.
    spec fn spec_default() -> Self::V;

    /// The view after one envelope is applied.
    spec fn spec_update(view: Self::V, event: EnvelopeView<A::Event>) -> Self::V;

    /// The default ("empty") view value.
    fn default_view() -> (r: Self)
        ensures
            r@ == Self::spec_default(),
    ;

    /// Applies one committed envelope to the view; total, never fails.
    fn update(&mut self, event: &Envelope<A>)
        ensures
            final(self)@ == Self::spec_update(old(self)@, event@),
    ;

    /// Clones the view, e.g. when a stored view is handed out; the copy's
    /// abstract value must equal the original's.
    fn clone_view(&self) -> (r: Self)
        ensures
            r@ == self@,
    ;
}

/// The view after a run of envelopes is applied, in order.
pub open spec fn project_all<V: Projection<A>, A: Aggregate>(
    view: V::V,
    events: Seq<EnvelopeView<A::Event>>,
) -> V::V
    decreases events.len(),
{
    if events.len() == 0 {
        view
    } else {
        project_all::<V, A>(V::spec_update(view, events.first()), events.drop_first())
    }
}

/// Updating with one more envelope after a run equals updating the run's
/// result.
pub proof fn lemma_project_all_snoc<V: Projection<A>, A: Aggregate>(
    view: V::V,
    events: Seq<EnvelopeView<A::Event>>,
    event: EnvelopeView<A::Event>,
)
    ensures
        project_all::<V, A>(view, events.push(event)) == V::spec_update(
            project_all::<V, A>(view, events),
            event,
        ),
    decreases events.len(),
{
    if events.len() == 0 {
        assert(events.push(event).first() == event);
        assert(events.push(event).drop_first() =~= Seq::<EnvelopeView<A::Event>>::empty());
        assert(project_all::<V, A>(view, events) == view);
        assert(project_all::<V, A>(view, events.push(event)) == project_all::<V, A>(
            V::spec_update(view, event),
            events.push(event).drop_first(),
        ));
        assert(project_all::<V, A>(V::spec_update(view, event), events.push(event).drop_first())
            == V::spec_update(view, event));
    } else {
        assert(events.push(event).first() == events.first());
        assert(events.push(event).drop_first() =~= events.drop_first().push(event));
        lemma_project_all_snoc::<V, A>(
            V::spec_update(view, events.first()),
            events.drop_first(),
            event,
        );
    }
}

} // verus!
