//! HTTP replies and the service's error taxonomy.

use vstd::prelude::*;

verus! {

/// A finished HTTP reply: a status code and a body.
pub struct HttpReply {
    pub status: u16,
    pub body: String,
}

/// Everything that can go wrong while serving a request.
#[derive(Clone, Copy, PartialEq, Eq, Structural, Debug)]
pub enum ServiceError {
    /// A lookup found no matching document.
    NotFound,
    /// A malformed path parameter or request body.
    ValidationError,
    /// The store could not be reached, or a query or insert failed.
    StoreUnavailable,
}

/// The status code each error maps to.
pub open spec fn spec_error_status(e: ServiceError) -> int {
    match e {
        ServiceError::NotFound => 404,
        ServiceError::ValidationError => 400,
        ServiceError::StoreUnavailable => 500,
    }
}

/// The reply for a failed request: the error's status code, empty body.
pub fn error_reply(e: ServiceError) -> (r: HttpReply)
    ensures
        r.status == spec_error_status(e),
        r.body@ == Seq::<char>::empty(),
{
    let status: u16 = match e {
        ServiceError::NotFound => 404,
        ServiceError::ValidationError => 400,
        ServiceError::StoreUnavailable => 500,
    };
    HttpReply { status, body: String::new() }
}

} // verus!
