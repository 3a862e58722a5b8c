//! Configuration for the message-broker collaborator.
//!
//! Only the pre-parsed option values are part of the core; reading them from
//! the environment happens outside the library.

pub mod authentication;
pub mod cluster;
pub mod jetstream;
pub mod logging;
pub mod server;
pub mod tls;
