//! A model of the document collection and of the service running on it.
//!
//! The deployed service keeps its users in a remote collection; this
//! module gives the same operations on an in-memory collection, so that
//! what a whole request does — query, decide, reply — can be stated and
//! proved end to end. The spec functions here are also the vocabulary
//! in which the service's laws are written.

use vstd::prelude::*;
use crate::{StoredUser, User};
use crate::handlers::{create_user_step, get_user_reply};
use crate::http::HttpReply;
use crate::json::{spec_user_json, user_json};

verus! {

/// The first stored user carrying the given identifier, if any — the
/// document a lookup by identifier returns.
pub open spec fn spec_find_user(users: Seq<StoredUser>, id: u32) -> Option<StoredUser>
    decreases users.len(),
{
    if users.len() == 0 {
        None
    } else if users[0].id == id {
        Some(users[0])
    } else {
        spec_find_user(users.skip(1), id)
    }
}

/// The identifier a creation assigns: one more than the document count.
pub open spec fn spec_new_id(users: Seq<StoredUser>) -> int {
    users.len() as int + 1
}

/// The collection after a creation with the given name.
pub open spec fn spec_create(users: Seq<StoredUser>, name: String) -> Seq<StoredUser> {
    users.push(StoredUser { id: spec_new_id(users) as u32, name })
}

/// The status of a lookup reply: 200 when the identifier is stored,
/// 404 when it is not.
pub open spec fn spec_get_status(users: Seq<StoredUser>, id: u32) -> int {
    if spec_find_user(users, id) is Some {
        200
    } else {
        404
    }
}

/// The body of a lookup reply: the found user's serialized form, or
/// nothing.
pub open spec fn spec_get_body(users: Seq<StoredUser>, id: u32) -> Seq<char> {
    match spec_find_user(users, id) {
        Some(u) => spec_user_json(u.id, u.name@),
        None => Seq::empty(),
    }
}

/// Searching past a prefix free of the identifier finds the same user.
proof fn lemma_find_skip(users: Seq<StoredUser>, id: u32, i: int)
    requires
        0 <= i <= users.len(),
        forall|j: int| 0 <= j < i ==> users[j].id != id,
    ensures
        spec_find_user(users, id) == spec_find_user(users.skip(i), id),
    decreases i,
{
    if i > 0 {
        assert(users.skip(0) =~= users);
        lemma_find_skip(users.skip(1), id, i - 1);
        assert(users.skip(1).skip(i - 1) =~= users.skip(i));
    } else {
        assert(users.skip(0) =~= users);
    }
}

/// An in-memory document collection of users.
pub struct UserStore {
    users: Vec<StoredUser>,
}

impl View for UserStore {
    type V = Seq<StoredUser>;

    closed spec fn view(&self) -> Seq<StoredUser> {
        self.users@
    }
}

impl UserStore {
    /// An empty collection.
    pub fn new() -> (s: UserStore)
        ensures
            s@ == Seq::<StoredUser>::empty(),
    {
        let s = UserStore { users: Vec::new() };
        proof {
            assert(s@ =~= Seq::<StoredUser>::empty());
        }
        s
    }

    /// Counts the stored documents.
    pub fn count(&self) -> (n: u64)
        ensures
            n == self@.len(),
    {
        self.users.len() as u64
    }

    /// Serves a lookup: queries the collection for the identifier and
    /// replies 200 with the found user's serialized form, or 404 with
    /// an empty body. The collection is untouched.
    pub fn handle_get(&self, id: u32) -> (r: HttpReply)
        ensures
            r.status == spec_get_status(self@, id),
            r.body@ == spec_get_body(self@, id),
    {
        let n = self.users.len();
        let mut i: usize = 0;
        while i < n
            invariant
                n == self.users.len(),
                i <= n,
                forall|j: int| 0 <= j < i ==> self.users@[j].id != id,
            decreases n - i,
        {
            if self.users[i].id == id {
                proof {
                    lemma_find_skip(self@, id, i as int);
                    assert(self@.skip(i as int)[0] == self@[i as int]);
                }
                let body = user_json(self.users[i].id, self.users[i].name.as_str());
                return HttpReply { status: 200, body };
            }
            i = i + 1;
        }
        proof {
            lemma_find_skip(self@, id, n as int);
            assert(self@.skip(n as int) =~= Seq::<StoredUser>::empty());
        }
        get_user_reply(None)
    }

    /// Serves a creation: counts the documents, stores a new user
    /// under the next identifier, and replies 201 with the new user's
    /// serialized form.
    pub fn handle_create(&mut self, name: String) -> (r: HttpReply)
        requires
            old(self)@.len() + 1 <= u32::MAX,
        ensures
            final(self)@ == spec_create(old(self)@, name),
            r.status == 201,
            r.body@ == spec_user_json(spec_new_id(old(self)@) as u32, name@),
    {
        let count = self.count();
        let plan = create_user_step(count, User { name });
        proof {
            assert(plan.user == (StoredUser { id: spec_new_id(self@) as u32, name }));
        }
        self.users.push(plan.user);
        plan.reply
    }
}

} // verus!
