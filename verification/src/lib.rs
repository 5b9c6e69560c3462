//! Homeserver discovery and authentication configuration.
//!
//! Given a user-supplied string that may be a bare server name or a full
//! homeserver URL, the library classifies the input, runs a two-strategy
//! discovery protocol (server name first, URL as a fallback whose failures
//! are discarded), probes the confirmed homeserver for its login
//! capabilities, and commits the resulting configuration atomically.
//! Network transport is left to the embedding application, which drives the
//! verified state machine in [`discovery`] and hands each response back as a
//! plain value.

pub mod errors;
pub mod identifier;
pub mod login;
pub mod discovery;
pub mod service;
pub mod iterator_serialize_as_array;

pub use crate::errors::AuthenticationError;
pub use crate::login::HomeserverLoginDetails;
pub use crate::service::AuthenticationService;
pub use crate::iterator_serialize_as_array::IteratorSerializeAsArray;
