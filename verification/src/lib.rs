//! Verified core of a small user service.
//!
//! The service stores users, each a name under an auto-assigned numeric
//! identifier, and answers two requests: fetch a user by identifier and
//! create a user from a name. This crate holds everything the service
//! decides or computes — the JSON wire form of a user, the reply chosen
//! for each store outcome, and a model of the store itself on which the
//! service's laws are proved. The surrounding binary does the network
//! and database I/O and delegates every decision to these functions.

pub mod config;
pub mod handlers;
pub mod http;
pub mod json;
pub mod laws;
pub mod store;

use vstd::prelude::*;

verus! {

/// A user payload as accepted on creation: just a name.
pub struct User {
    pub name: String,
}

/// A persisted user: the auto-assigned identifier together with the name.
pub struct StoredUser {
    pub id: u32,
    pub name: String,
}

} // verus!
