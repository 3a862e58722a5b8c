//! The aggregate contract: a domain entity's state, its command handler, and
//! its event applier, together with the replay semantics that reconstruct
//! state from a committed event history.

pub mod context;
pub mod error;

use vstd::prelude::*;

use crate::event::DomainEvent;

verus! {

/// A domain entity type with state, a command handler, and an event applier.
///
/// An aggregate's meaning is stated over its abstract value `Self::V`. The
/// spec functions fix the handler's semantics: `handle` must be
/// referentially transparent given the same state, command and services, so
/// its acceptance decision, the events it produces, and the shape of the
/// domain errors it raises are all functions of those three values alone.
/// `apply` must be total — validation belongs exclusively in `handle` — and
/// is the sole path by which state advances.
pub trait Aggregate: Sized + View {
    /// A request to change the aggregate's state; may be rejected.
    type Command;

    /// An immutable fact describing a state change that already happened.
    type Event: DomainEvent;

    /// The domain error raised when a command violates a business rule.
    type Error;

    /// External dependencies needed to decide commands, e.g. a clock or a
    /// validator.
    type Services;

    /// The state that exists before any event.
    spec fn spec_default() -> Self::V;

    /// The state after `event` is applied to `state`.
    spec fn spec_apply(state: Self::V, event: Self::Event) -> Self::V;

    /// Holds exactly when `command` is accepted in state `state`.
    spec fn accepts(state: Self::V, command: Self::Command, services: Self::Services) -> bool;

    /// The events implied by an accepted command.
    spec fn produced(state: Self::V, command: Self::Command, services: Self::Services) -> Seq<
        Self::Event,
    >;

    /// Holds of the domain error a rejected command raises.
    spec fn rejection(
        state: Self::V,
        command: Self::Command,
        services: Self::Services,
        error: Self::Error,
    ) -> bool;

    /// A constant name for the aggregate type.
    fn aggregate_type() -> (r: String);

    /// The default ("empty") state value, from which every replay starts.
    fn default_state() -> (r: Self)
        ensures
            r@ == Self::spec_default(),
    ;

    /// Advances the state in place by one event; total, never fails.
    fn apply(&mut self, event: Self::Event)
        ensures
            final(self)@ == Self::spec_apply(old(self)@, event),
    ;

    /// Decides, from the current state and the injected services, which new
    /// facts (zero or more) are implied by a command, or rejects the command
    /// with a typed domain error.
    fn handle(&self, command: Self::Command, services: &Self::Services) -> (r: Result<
        Vec<Self::Event>,
        Self::Error,
    >)
        ensures
            match r {
                Ok(events) => Self::accepts(self@, command, *services) && events@ == Self::produced(
                    self@,
                    command,
                    *services,
                ),
                Err(e) => !Self::accepts(self@, command, *services) && Self::rejection(
                    self@,
                    command,
                    *services,
                    e,
                ),
            },
    ;
}

/// The state after the events of `events` are applied, in order, to `state`.
pub open spec fn apply_all<A: Aggregate>(state: A::V, events: Seq<A::Event>) -> A::V
    decreases events.len(),
{
    if events.len() == 0 {
        state
    } else {
        apply_all::<A>(A::spec_apply(state, events.first()), events.drop_first())
    }
}

/// The state reconstructed by replaying a full event history, in order, from
/// the default state.
pub open spec fn replay<A: Aggregate>(events: Seq<A::Event>) -> A::V {
    apply_all::<A>(A::spec_default(), events)
}

/// Applying a combined run of events equals applying the first part and then
/// the second.
pub proof fn lemma_apply_all_append<A: Aggregate>(
    state: A::V,
    prefix: Seq<A::Event>,
    suffix: Seq<A::Event>,
)
    ensures
        apply_all::<A>(state, prefix + suffix) == apply_all::<A>(
            apply_all::<A>(state, prefix),
            suffix,
        ),
    decreases prefix.len(),
{
    if prefix.len() == 0 {
        assert(prefix + suffix =~= suffix);
    } else {
        assert((prefix + suffix).first() == prefix.first());
        assert((prefix + suffix).drop_first() =~= prefix.drop_first() + suffix);
        lemma_apply_all_append::<A>(
            A::spec_apply(state, prefix.first()),
            prefix.drop_first(),
            suffix,
        );
    }
}

/// Applying one more event after a run equals applying it to the run's
/// result.
pub proof fn lemma_apply_all_snoc<A: Aggregate>(
    state: A::V,
    events: Seq<A::Event>,
    event: A::Event,
)
    ensures
        apply_all::<A>(state, events.push(event)) == A::spec_apply(
            apply_all::<A>(state, events),
            event,
        ),
{
    let single = seq![event];
    lemma_apply_all_append::<A>(state, events, single);
    assert(events.push(event) =~= events + single);
    let run_state = apply_all::<A>(state, events);
    assert(single.drop_first() =~= Seq::<A::Event>::empty());
    assert(apply_all::<A>(run_state, single) == apply_all::<A>(
        A::spec_apply(run_state, single.first()),
        single.drop_first(),
    ));
    assert(apply_all::<A>(A::spec_apply(run_state, event), single.drop_first()) == A::spec_apply(
        run_state,
        event,
    ));
}

/// Law: for any committed history, replaying the whole of it through `apply`
/// from the default state yields the same state as applying the newly
/// produced events, one at a time and in order, to the state replayed from
/// the history that preceded them.
pub proof fn lemma_replay_extends<A: Aggregate>(history: Seq<A::Event>, produced: Seq<A::Event>)
    ensures
        replay::<A>(history + produced) == apply_all::<A>(replay::<A>(history), produced),
{
    lemma_apply_all_append::<A>(A::spec_default(), history, produced);
}

} // verus!
