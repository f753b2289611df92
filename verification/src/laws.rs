//! The service's laws, proved over the store model.

use vstd::prelude::*;
use crate::StoredUser;
use crate::json::spec_user_json;
use crate::store::{spec_create, spec_find_user, spec_get_body, spec_get_status, spec_new_id};

verus! {

/// Identifiers are unique across the collection.
pub open spec fn spec_ids_unique(users: Seq<StoredUser>) -> bool {
    forall|j: int, k: int| 0 <= j < k < users.len() ==> users[j].id != users[k].id
}

/// Each stored user's identifier is its position plus one — the shape
/// every collection built by creations alone has.
pub open spec fn spec_ids_sequential(users: Seq<StoredUser>) -> bool {
    forall|j: int| 0 <= j < users.len() ==> users[j].id == j + 1
}

/// A collection of sequential identifiers has unique identifiers.
pub proof fn lemma_sequential_ids_unique(users: Seq<StoredUser>)
    requires
        spec_ids_sequential(users),
    ensures
        spec_ids_unique(users),
{
}

/// A creation keeps identifiers sequential.
pub proof fn lemma_create_preserves_sequential(users: Seq<StoredUser>, name: String)
    requires
        spec_ids_sequential(users),
        users.len() + 1 <= u32::MAX,
    ensures
        spec_ids_sequential(spec_create(users, name)),
{
    let created = spec_create(users, name);
    assert forall|j: int| 0 <= j < created.len() implies created[j].id == j + 1 by {
        if j < users.len() {
            assert(created[j] == users[j]);
        }
    }
}

/// Under unique identifiers, looking up a stored user's identifier
/// finds exactly that user.
proof fn lemma_find_present(users: Seq<StoredUser>, i: int)
    requires
        0 <= i < users.len(),
        spec_ids_unique(users),
    ensures
        spec_find_user(users, users[i].id) == Some(users[i]),
    decreases i,
{
    if i > 0 {
        assert(users[0].id != users[i].id);
        assert(spec_ids_unique(users.skip(1))) by {
            assert forall|j: int, k: int|
                0 <= j < k < users.skip(1).len() implies users.skip(1)[j].id != users.skip(
                1,
            )[k].id by {
                assert(users.skip(1)[j] == users[j + 1]);
                assert(users.skip(1)[k] == users[k + 1]);
            }
        }
        lemma_find_present(users.skip(1), i - 1);
        assert(users.skip(1)[i - 1] == users[i]);
    }
}

/// A lookup of an identifier no stored user carries finds nothing.
proof fn lemma_find_missing(users: Seq<StoredUser>, id: u32)
    requires
        forall|j: int| 0 <= j < users.len() ==> users[j].id != id,
    ensures
        spec_find_user(users, id) is None,
    decreases users.len(),
{
    if users.len() > 0 {
        assert(forall|j: int|
            0 <= j < users.skip(1).len() ==> #[trigger] users.skip(1)[j] == users[j + 1]);
        lemma_find_missing(users.skip(1), id);
    }
}

/// Every stored user can be fetched back: as long as identifiers are
/// unique, a lookup of a stored user's identifier replies 200 with
/// that user's serialized form.
pub proof fn lemma_get_stored_user(users: Seq<StoredUser>, i: int)
    requires
        0 <= i < users.len(),
        spec_ids_unique(users),
    ensures
        spec_get_status(users, users[i].id) == 200,
        spec_get_body(users, users[i].id) == spec_user_json(users[i].id, users[i].name@),
{
    lemma_find_present(users, i);
}

/// A lookup of an identifier no stored user carries replies 404 with
/// an empty body.
pub proof fn lemma_get_absent(users: Seq<StoredUser>, id: u32)
    requires
        forall|j: int| 0 <= j < users.len() ==> users[j].id != id,
    ensures
        spec_get_status(users, id) == 404,
        spec_get_body(users, id) == Seq::<char>::empty(),
{
    lemma_find_missing(users, id);
}

/// A lookup has no effect on the collection — it takes the store by
/// shared reference — and its reply is a function of the collection's
/// contents and the requested identifier alone, so repeating it any
/// number of times returns the same reply.
pub proof fn lemma_get_idempotent(users: Seq<StoredUser>, id: u32)
    ensures
        spec_get_status(users, id) == spec_get_status(users, id),
        spec_get_body(users, id) == spec_get_body(users, id),
{
}

/// Two sequential creations hand out distinct identifiers, each one
/// greater than the document count observed at the time of its call.
pub proof fn lemma_create_ids_distinct(users: Seq<StoredUser>, first: String, second: String)
    requires
        users.len() + 2 <= u32::MAX,
    ensures
        spec_new_id(users) == users.len() + 1,
        spec_new_id(spec_create(users, first)) == users.len() + 2,
        spec_new_id(spec_create(users, first)) != spec_new_id(users),
{
}

} // verus!
