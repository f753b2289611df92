//! The decisions each route makes, as pure functions.
//!
//! The surrounding binary performs the store I/O and hands the outcome
//! here; these functions turn that outcome into the reply to send and,
//! for a creation, the document to insert. Everything the service
//! promises about a single request is stated on them.

use vstd::prelude::*;
use crate::{StoredUser, User};
use crate::http::{HttpReply, ServiceError, error_reply};
use crate::json::{spec_user_json, user_json};

verus! {

/// The reply to a lookup, given what the store returned: the found
/// user serialized with status 200, or status 404 and an empty body.
pub fn get_user_reply(found: Option<StoredUser>) -> (r: HttpReply)
    ensures
        match found {
            Some(u) => r.status == 200 && r.body@ == spec_user_json(u.id, u.name@),
            None => r.status == 404 && r.body@ == Seq::<char>::empty(),
        },
{
    match found {
        Some(u) => HttpReply { status: 200, body: user_json(u.id, u.name.as_str()) },
        None => error_reply(ServiceError::NotFound),
    }
}

/// The reply to a request the store could not serve: status 500, empty
/// body.
pub fn store_failure_reply() -> (r: HttpReply)
    ensures
        r.status == 500,
        r.body@ == Seq::<char>::empty(),
{
    error_reply(ServiceError::StoreUnavailable)
}

/// A creation, decided: the document to insert and the reply to send.
pub struct CreatePlan {
    pub user: StoredUser,
    pub reply: HttpReply,
}

/// Decides a creation from the observed document count and the
/// supplied payload: the new user gets identifier `count + 1`, and the
/// reply carries status 201 and the new user's serialized form.
pub fn create_user_step(count: u64, new_user: User) -> (p: CreatePlan)
    requires
        count + 1 <= u32::MAX,
    ensures
        p.user.id == count + 1,
        p.user.id >= 1,
        p.user.name == new_user.name,
        p.reply.status == 201,
        p.reply.body@ == spec_user_json((count + 1) as u32, new_user.name@),
{
    let id: u32 = (count + 1) as u32;
    let body = user_json(id, new_user.name.as_str());
    CreatePlan { user: StoredUser { id, name: new_user.name }, reply: HttpReply { status: 201, body } }
}

} // verus!
