//! A minimal event-sourcing / CQRS runtime.
//!
//! The library records immutable domain facts ("events") per logical entity
//! ("aggregate"), reconstructs an aggregate's current state by replaying its
//! event history, serialises command execution into a load -> handle ->
//! commit pipeline, and fans newly committed events out to independent
//! read-model projections.

pub mod aggregate;
pub mod config;
pub mod cqrs;
pub mod event;
pub mod persist;
pub mod query;
pub mod store;
pub mod testing;

pub use crate::aggregate::Aggregate;
pub use crate::aggregate::context::AggregateContext;
pub use crate::aggregate::error::AggregateError;
pub use crate::cqrs::Cqrs;
pub use crate::event::DomainEvent;
pub use crate::event::EventEnvelope;
pub use crate::query::Projection;
pub use crate::query::Query;
pub use crate::store::EventStore;
pub use crate::store::memory_store::MemoryStore;
