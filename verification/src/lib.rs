//! Session-authentication pipeline for a multi-tenant web service.
//!
//! The crate turns an inbound request's session cookie into a verified,
//! time-bounded identity claim and then into an application-level user
//! record.  It covers remote signing-key acquisition and caching, key
//! rotation, token decoding and claim validation, and the layered
//! (optional vs. required) request-identity extraction chain built on top.

pub mod errors;
pub mod extract;
pub mod ids;
pub mod keys;
pub mod models;
pub mod token;
pub mod users;
pub mod verify;
