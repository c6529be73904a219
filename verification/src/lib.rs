//! Credential and token authentication for a small multi-user trove service.
//!
//! The crate holds the password hasher, the token generator, the token
//! authenticator with its request guard, the registration, issuance and
//! revocation flows, and the in-memory credential store they run against.

pub mod auth;
pub mod errors;
pub mod handlers;
pub mod models;
pub mod store;
pub mod utils;
pub mod vars;
