//! Persistence of read-model views: the repository abstraction a view lives
//! in, the positional context it travels with, and the errors the
//! persistence layer can raise.

pub mod generic_query;
pub mod memory_repository;

use vstd::prelude::*;

use crate::aggregate::Aggregate;
use crate::query::Projection;

verus! {

/// An error touching the persistence of views.
pub enum PersistenceError {
    /// The view's positional context was stale: another update won.
    OptimisticLock,
    /// The backing storage could not be reached.
    Connection(String),
    /// Any other failure encountered while loading or persisting a view.
    Unknown(String),
}

impl PersistenceError {
    /// The view of the text returned by `message`.
    pub open spec fn spec_message(&self) -> Seq<char> {
        match self {
            PersistenceError::OptimisticLock => "optimistic lock error"@,
            PersistenceError::Connection(m) => m@,
            PersistenceError::Unknown(m) => m@,
        }
    }

    /// A human-readable description of the failure.
    pub fn message(&self) -> (r: String)
        ensures
            r@ == self.spec_message(),
    {
        match self {
            PersistenceError::OptimisticLock => String::from_str("optimistic lock error"),
            PersistenceError::Connection(m) => m.clone(),
            PersistenceError::Unknown(m) => m.clone(),
        }
    }
}

/// The positional context a view instance was loaded with; persisted back
/// together with the updated view. Backends that version their rows use the
/// version for optimistic locking; the in-memory repository carries it
/// through unchanged.
pub struct ViewContext {
    /// Unique identifier of the view instance that is being modified.
    pub view_instance_id: String,
    /// The current version of the view instance that is being modified.
    pub version: u64,
}

impl ViewContext {
    pub fn new(view_instance_id: String, version: u64) -> (r: Self)
        ensures
            r.view_instance_id == view_instance_id,
            r.version == version,
    {
        ViewContext { view_instance_id, version }
    }
}

/// Handles the storage access needed by a query runner.
///
/// The repository's model is the mapping from view id to the stored view —
/// as its abstract value — and its version. Loading reports exactly what is
/// stored; a failed update leaves the stored views exactly as they were: the
/// failed update is discarded, not retried. Either operation may fail with a
/// persistence error at any time.
pub trait ViewRepository<V: Projection<A>, A: Aggregate>: Sized {
    /// The stored views with their versions, by view id.
    spec fn views(&self) -> Map<Seq<char>, (V::V, int)>;

    /// Returns the current view instance with context, or `None` when none
    /// is stored yet.
    fn load_with_context(&self, view_id: &str) -> (r: Result<
        Option<(V, ViewContext)>,
        PersistenceError,
    >)
        ensures
            match r {
                Ok(Some((view, context))) => {
                    &&& self.views().contains_key(view_id@)
                    &&& view@ == self.views()[view_id@].0
                    &&& context.version as int == self.views()[view_id@].1
                    &&& context.view_instance_id@ == view_id@
                },
                Ok(None) => !self.views().contains_key(view_id@),
                Err(_) => true,
            },
    ;

    /// Persists a view instance under the context it was loaded with.
    fn update_view(&mut self, view: V, context: ViewContext) -> (r: Result<(), PersistenceError>)
        ensures
            match r {
                Ok(u) => final(self).views() == old(self).views().insert(
                    context.view_instance_id@,
                    (view@, context.version as int),
                ),
                Err(_) => final(self).views() == old(self).views(),
            },
    ;
}

/// A query error handler.
///
/// In this design queries are downstream services and cannot return errors
/// when a problem is encountered; an error handler decides instead whether
/// to log the failure, alert on it, or escalate. The handler is called with
/// each persistence failure the query encounters and promises nothing about
/// its own state.
pub trait QueryErrorHandler: Sized {
    /// Called with each persistence failure a query encounters.
    fn handle_error(&mut self, error: &PersistenceError);
}

} // verus!
