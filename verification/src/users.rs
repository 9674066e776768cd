//! User accounts: unique usernames, optional email, Argon2 password hash.
//! Rows are created at registration and never mutated afterwards.

use crate::codec::EntityId;
use crate::errors::ApiError;
use vstd::prelude::*;

verus! {

/// One user row.
pub struct UserRecord {
    pub id: EntityId,
    pub username: String,
    pub email: Option<String>,
    pub password_hash: String,
}

/// Some row holds this user id.
pub open spec fn has_user_id(us: Seq<UserRecord>, id: EntityId) -> bool {
    exists|i: int| 0 <= i < us.len() && us[i].id == id
}

/// Some row holds this username.
pub open spec fn has_username(us: Seq<UserRecord>, name: Seq<char>) -> bool {
    exists|i: int| 0 <= i < us.len() && us[i].username@ == name
}

/// The index of the row holding this user id (unique when the table is
/// well-formed).
pub open spec fn user_idx(us: Seq<UserRecord>, id: EntityId) -> int {
    choose|i: int| 0 <= i < us.len() && us[i].id == id
}

/// The index of the row holding this username (unique when the table is
/// well-formed).
pub open spec fn uname_idx(us: Seq<UserRecord>, name: Seq<char>) -> int {
    choose|i: int| 0 <= i < us.len() && us[i].username@ == name
}

/// The user table.
pub struct UserTable {
    pub users: Vec<UserRecord>,
}

impl UserTable {
    /// Table invariant: ids and usernames are unique, ids in range.
    pub open spec fn wf(&self) -> bool {
        &&& forall|i: int, j: int|
            0 <= i < j < self.users@.len() ==> self.users@[i].id != self.users@[j].id
        &&& forall|i: int, j: int|
            0 <= i < j < self.users@.len() ==> self.users@[i].username@ != self.users@[j].username@
        &&& forall|i: int| 0 <= i < self.users@.len() ==> (#[trigger] self.users@[i].id).valid()
    }

    pub fn new() -> (r: Self)
        ensures
            r.users@ =~= Seq::<UserRecord>::empty(),
            r.wf(),
    {
        UserTable { users: Vec::new() }
    }

    /// Insert a new user. A duplicate id or username violates the table's
    /// uniqueness and fails as a storage error, leaving the table unchanged.
    pub fn insert(&mut self, rec: UserRecord) -> (r: Result<(), ApiError>)
        requires
            old(self).wf(),
            rec.id.valid(),
        ensures
            final(self).wf(),
            has_user_id(old(self).users@, rec.id) || has_username(old(self).users@, rec.username@)
                ==> r == Err::<(), ApiError>(ApiError::Database) && final(self).users@ == old(
                self,
            ).users@,
            !(has_user_id(old(self).users@, rec.id) || has_username(
                old(self).users@,
                rec.username@,
            )) ==> r is Ok && final(self).users@ == old(self).users@.push(rec),
    {
        let n = self.users.len();
        let mut i: usize = 0;
        while i < n
            invariant
                i <= n,
                n == self.users@.len(),
                self.users@ == old(self).users@,
                self.wf(),
                forall|j: int|
                    0 <= j < i ==> self.users@[j].id != rec.id && self.users@[j].username@
                        != rec.username@,
            decreases n - i,
        {
            if self.users[i].id == rec.id || self.users[i].username == rec.username {
                return Err(ApiError::Database);
            }
            i = i + 1;
        }
        self.users.push(rec);
        proof {
            assert forall|a: int, b: int|
                0 <= a < b < self.users@.len() implies self.users@[a].id != self.users@[b].id
                && self.users@[a].username@ != self.users@[b].username@ by {
                if b < self.users@.len() - 1 {
                    assert(old(self).users@[a].id != old(self).users@[b].id);
                    assert(old(self).users@[a].username@ != old(self).users@[b].username@);
                }
            }
        }
        Ok(())
    }

    /// Look a user up by username.
    pub fn find_by_username(&self, name: &String) -> (r: Option<&UserRecord>)
        requires
            self.wf(),
        ensures
            has_username(self.users@, name@) ==> (r matches Some(u) && self.users@.contains(*u)
                && u.username@ == name@),
            !has_username(self.users@, name@) ==> r is None,
    {
        let n = self.users.len();
        let mut i: usize = 0;
        while i < n
            invariant
                i <= n,
                n == self.users@.len(),
                forall|j: int| 0 <= j < i ==> self.users@[j].username@ != name@,
            decreases n - i,
        {
            if self.users[i].username == *name {
                proof {
                    assert(self.users@.contains(self.users@[i as int]));
                }
                return Some(&self.users[i]);
            }
            i = i + 1;
        }
        None
    }

    /// Look a user up by id.
    pub fn find_by_id(&self, id: EntityId) -> (r: Option<&UserRecord>)
        requires
            self.wf(),
        ensures
            has_user_id(self.users@, id) ==> (r matches Some(u) && self.users@.contains(*u) && u.id
                == id),
            !has_user_id(self.users@, id) ==> r is None,
    {
        let n = self.users.len();
        let mut i: usize = 0;
        while i < n
            invariant
                i <= n,
                n == self.users@.len(),
                forall|j: int| 0 <= j < i ==> self.users@[j].id != id,
            decreases n - i,
        {
            if self.users[i].id == id {
                proof {
                    assert(self.users@.contains(self.users@[i as int]));
                }
                return Some(&self.users[i]);
            }
            i = i + 1;
        }
        None
    }
}

} // verus!
