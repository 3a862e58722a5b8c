//! A reusable query runner over a view repository.

use vstd::prelude::*;

use core::marker::PhantomData;

use crate::aggregate::Aggregate;
use crate::event::envelope::{Envelope, EnvelopeView};
use crate::persist::PersistenceError;
use crate::persist::QueryErrorHandler;
use crate::persist::ViewContext;
use crate::persist::ViewRepository;
use crate::query::Projection;
use crate::query::Query;
use crate::query::lemma_project_all_snoc;
use crate::query::project_all;

verus! {

/// The repository contents after one delivery: the stored view — or a fresh
/// default with a zero context when none is stored yet — updated by every
/// envelope in order and persisted under the version it was loaded with.
pub open spec fn delivered_views<V: Projection<A>, A: Aggregate>(
    views: Map<Seq<char>, (V::V, int)>,
    view_id: Seq<char>,
    events: Seq<EnvelopeView<A::Event>>,
) -> Map<Seq<char>, (V::V, int)> {
    let base = if views.contains_key(view_id) {
        views[view_id]
    } else {
        (V::spec_default(), 0int)
    };
    views.insert(view_id, (project_all::<V, A>(base.0, events), base.1))
}

/// A simple query and view repository. This is used both to act as a `Query`
/// for processing events and to return materialized views.
pub struct GenericQuery<R, V, A, H> where
    R: ViewRepository<V, A>,
    V: Projection<A>,
    A: Aggregate,
    H: QueryErrorHandler,
 {
    view_repository: R,
    error_handler: Option<H>,
    phantom: PhantomData<(V, A)>,
}

impl<R, V, A, H> GenericQuery<R, V, A, H> where
    R: ViewRepository<V, A>,
    V: Projection<A>,
    A: Aggregate,
    H: QueryErrorHandler,
 {
    /// The repository the views live in.
    pub closed spec fn repository(&self) -> R {
        self.view_repository
    }

    /// The configured error handler, if any.
    pub closed spec fn handler(&self) -> Option<H> {
        self.error_handler
    }

    /// Creates a new `GenericQuery` using the provided `ViewRepository`.
    ///
    /// No error handler is configured yet: until one is set, persistence
    /// failures are silently dropped — a deliberate default, but configuring
    /// a handler is strongly recommended.
    pub fn new(view_repository: R) -> (r: Self)
        ensures
            r.repository() == view_repository,
            r.handler() is None,
    {
        GenericQuery { view_repository, error_handler: None, phantom: PhantomData }
    }

    /// Allows the user to apply a custom error handler to the query.
    /// Queries are infallible and _should_ never cause errors, but
    /// programming errors or other technical problems might. Adding an error
    /// handler allows the user to choose whether to halt the application,
    /// log the error or otherwise register the issue.
    ///
    /// Use of an error handler is *strongly* recommended since without one
    /// any error encountered by the query repository will simply be ignored.
    pub fn use_error_handler(&mut self, error_handler: H)
        ensures
            final(self).repository() == old(self).repository(),
            final(self).handler() == Some(error_handler),
    {
        self.error_handler = Some(error_handler);
    }

    /// The configured error handler, e.g. to inspect what it registered.
    pub fn error_handler(&self) -> (r: &Option<H>)
        ensures
            *r == self.handler(),
    {
        &self.error_handler
    }

    /// Loads a view based on the provided view id. Use this method to load a
    /// materialized view when requested by a user. A load failure is routed
    /// to the error handler and yields `None`.
    pub fn load(&mut self, view_id: &str) -> (r: Option<V>)
        ensures
            final(self).repository() == old(self).repository(),
            match r {
                Some(view) => old(self).repository().views().contains_key(view_id@) && view@ == old(
                    self,
                ).repository().views()[view_id@].0,
                None => true,
            },
            !old(self).repository().views().contains_key(view_id@) ==> r is None,
    {
        match self.view_repository.load_with_context(view_id) {
            Ok(Some((view, _))) => Some(view),
            Ok(None) => None,
            Err(e) => {
                self.handle_error(e);
                None
            },
        }
    }

    /// Loads the view with its positional context, or a fresh default view
    /// with a zero context when none is stored yet.
    fn load_mut(&self, view_id: String) -> (r: Result<(V, ViewContext), PersistenceError>)
        ensures
            match r {
                Ok((view, context)) => {
                    &&& context.view_instance_id@ == view_id@
                    &&& if self.repository().views().contains_key(view_id@) {
                        view@ == self.repository().views()[view_id@].0 && context.version as int
                            == self.repository().views()[view_id@].1
                    } else {
                        view@ == V::spec_default() && context.version == 0
                    }
                },
                Err(_) => true,
            },
    {
        match self.view_repository.load_with_context(view_id.as_str())? {
            None => {
                let view_context = ViewContext::new(view_id, 0);
                Ok((V::default_view(), view_context))
            },
            Some((view, context)) => Ok((view, context)),
        }
    }

    /// Applies one committed batch to the view and persists the result: the
    /// view is loaded together with its positional context (or constructed
    /// fresh), every envelope is applied in sequence order, and the
    /// (view, context) pair is persisted. If persistence fails the stored
    /// views are left unchanged and the failed update is discarded.
    pub(crate) fn apply_events(&mut self, view_id: &str, events: &[Envelope<A>]) -> (r: Result<
        (),
        PersistenceError,
    >)
        ensures
            final(self).handler() == old(self).handler(),
            match r {
                Ok(u) => final(self).repository().views() == delivered_views::<V, A>(
                    old(self).repository().views(),
                    view_id@,
                    events@.map_values(|e: Envelope<A>| e@),
                ),
                Err(_) => final(self).repository().views() == old(self).repository().views(),
            },
    {
        let ghost event_views = events@.map_values(|e: Envelope<A>| e@);
        let (mut view, view_context) = self.load_mut(String::from_str(view_id))?;
        let ghost base = view@;
        let mut k: usize = 0;
        while k < events.len()
            invariant
                k <= events@.len(),
                event_views == events@.map_values(|e: Envelope<A>| e@),
                event_views.len() == events@.len(),
                view@ == project_all::<V, A>(base, event_views.subrange(0, k as int)),
            decreases events@.len() - k,
        {
            view.update(&events[k]);
            proof {
                assert(event_views.subrange(0, k as int + 1) =~= event_views.subrange(
                    0,
                    k as int,
                ).push(event_views[k as int]));
                lemma_project_all_snoc::<V, A>(
                    base,
                    event_views.subrange(0, k as int),
                    event_views[k as int],
                );
            }
            k += 1;
        }
        proof {
            assert(event_views.subrange(0, event_views.len() as int) =~= event_views);
        }
        self.view_repository.update_view(view, view_context)?;
        Ok(())
    }

    /// Routes a persistence failure to the configured error handler; without
    /// one the failure is silently swallowed.
    fn handle_error(&mut self, error: PersistenceError)
        ensures
            final(self).repository() == old(self).repository(),
    {
        match &mut self.error_handler {
            Some(handler) => handler.handle_error(&error),
            None => (),
        }
    }
}

impl<R, V, A, H> Query<A> for GenericQuery<R, V, A, H> where
    R: ViewRepository<V, A>,
    V: Projection<A>,
    A: Aggregate,
    H: QueryErrorHandler,
 {
    /// One delivery either lands fully — the stored views show exactly this
    /// batch applied, and the handler is untouched — or, when persistence
    /// failed, leaves the stored views exactly as they were, the failure
    /// routed to the handler.
    open spec fn dispatched(
        pre: Self,
        view_id: Seq<char>,
        events: Seq<EnvelopeView<A::Event>>,
        post: Self,
    ) -> bool {
        ||| (post.repository().views() == delivered_views::<V, A>(
            pre.repository().views(),
            view_id,
            events,
        ) && post.handler() == pre.handler())
        ||| post.repository().views() == pre.repository().views()
    }

    fn dispatch(&mut self, view_id: &str, events: &[Envelope<A>]) {
        match self.apply_events(view_id, events) {
            Ok(_) => {},
            Err(err) => self.handle_error(err),
        };
    }
}

} // verus!
