//! The transient result of loading an aggregate from a store.

use vstd::prelude::*;

use crate::aggregate::Aggregate;

verus! {

/// Returns the aggregate as well as the context around it.
///
/// This is used internally within an `EventStore` to persist an aggregate
/// instance and events with the correct context after it has been loaded and
/// modified. The spec functions expose the identity, the replayed state and
/// the last-applied sequence number that the following commit is anchored on;
/// a context is produced by one load and must feed exactly one commit.
pub trait AggregateContext<A: Aggregate>: Sized {
    /// The identity of the aggregate instance this context was loaded for.
    spec fn spec_aggregate_id(&self) -> Seq<char>;

    /// The replayed state carried by the context, as its abstract value.
    spec fn spec_aggregate(&self) -> A::V;

    /// The last committed sequence number at load time; 0 when no event
    /// existed yet.
    spec fn spec_current_sequence(&self) -> int;

    /// The aggregate instance with all state loaded.
    fn aggregate(&self) -> (r: &A)
        ensures
            r@ == self.spec_aggregate(),
    ;
}

} // verus!
