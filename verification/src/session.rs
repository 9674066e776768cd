//! Session middleware: cookie-based session resolution with a 30-minute
//! sliding expiry and last-IP tracking. Sessions are credential rows whose
//! body holds the last observed peer address; they bind no relying party, so
//! the record's client slot carries the user id.

use crate::codec::EntityId;
use crate::errors::ApiError;
use crate::store::{
    live_uid, uid_idx, CredRecord, CredStore, SessionBody, SESSION_LIFETIME_SECS,
};
use crate::users::{has_user_id, user_idx, UserTable};
use vstd::prelude::*;

verus! {

/// The session table.
pub type SessionStore = CredStore<SessionBody>;

/// The request-scoped value of an authenticated session.
pub struct AuthSession {
    pub sid: String,
    pub user_id: EntityId,
    pub username: String,
    pub last_ip: String,
    pub expires: u64,
}

/// A `session_id` cookie to set: its value and its expiry instant. Expiry 0
/// is the epoch: such a cookie clears the browser's session.
pub struct SessionCookie {
    pub value: String,
    pub expires: u64,
}

impl AuthSession {
    /// Resolve a request's `session_id` cookie: look the session up, join it
    /// with its user, slide the expiry 30 minutes from `now` (never
    /// regressing), and record the peer address. Absent a cookie, a live
    /// session, or the user row, nothing is attached and nothing changes.
    pub fn resolve(
        store: &mut SessionStore,
        users: &UserTable,
        cookie: Option<&String>,
        peer_ip: &String,
        now: u64,
    ) -> (r: Option<AuthSession>)
        requires
            old(store).wf(),
            users.wf(),
            now <= u64::MAX - SESSION_LIFETIME_SECS,
        ensures
            final(store).wf(),
            cookie is None ==> r is None && final(store).records@ == old(store).records@,
            cookie matches Some(c) ==> !live_uid(old(store).records@, c@, now) ==> (r is None
                && final(store).records@ == old(store).records@),
            cookie matches Some(c) ==> live_uid(old(store).records@, c@, now) ==> ({
                let ors = old(store).records@;
                let i = uid_idx(ors, c@);
                let row = ors[i];
                let bumped = if row.expires >= now + SESSION_LIFETIME_SECS {
                    row.expires
                } else {
                    (now + SESSION_LIFETIME_SECS) as u64
                };
                if has_user_id(users.users@, row.user_id) {
                    &&& r matches Some(s)
                    &&& s.sid@ == c@
                    &&& s.user_id == row.user_id
                    &&& s.username@ == users.users@[user_idx(users.users@, row.user_id)].username@
                    &&& s.last_ip@ == peer_ip@
                    &&& s.expires == bumped
                    &&& s.expires >= now + SESSION_LIFETIME_SECS
                    &&& final(store).records@ == ors.update(
                        i,
                        (CredRecord {
                            uid: row.uid,
                            user_id: row.user_id,
                            client_id: row.client_id,
                            expires: bumped,
                            body: (SessionBody { last_ip: *peer_ip }),
                        }),
                    )
                } else {
                    r is None && final(store).records@ == ors
                }
            }),
    {
        let sid = match cookie {
            Some(s) => s,
            None => {
                return None;
            },
        };
        let user_id = match store.get(sid, now) {
            Some(rec) => {
                proof {
                    let ors = store.records@;
                    let i = uid_idx(ors, sid@);
                    assert(0 <= i < ors.len() && ors[i].uid@ == sid@);
                    let k = choose|k: int| 0 <= k < ors.len() && ors[k] == *rec;
                    if k != i {
                        assert(ors[k].uid@ != ors[i].uid@);
                    }
                }
                rec.user_id
            },
            None => {
                return None;
            },
        };
        let username = match users.find_by_id(user_id) {
            Some(u) => {
                proof {
                    let us = users.users@;
                    let j = user_idx(us, user_id);
                    assert(0 <= j < us.len() && us[j].id == user_id);
                    let k = choose|k: int| 0 <= k < us.len() && us[k] == *u;
                    if k != j {
                        assert(us[k].id != us[j].id);
                    }
                }
                u.username.clone()
            },
            None => {
                return None;
            },
        };
        let new_expires = now + SESSION_LIFETIME_SECS;
        match store.touch(sid, now, new_expires, SessionBody { last_ip: peer_ip.clone() }) {
            Some((uid, _client, expires)) => Some(
                AuthSession {
                    sid: sid.clone(),
                    user_id: uid,
                    username,
                    last_ip: peer_ip.clone(),
                    expires,
                },
            ),
            None => None,
        }
    }

    /// Mint a session for a freshly authenticated user: a new row expiring
    /// 30 minutes from now, and the cookie that carries it.
    pub fn create(store: &mut SessionStore, user_id: EntityId, ip: &String, now: u64) -> (r: Result<
        SessionCookie,
        ApiError,
    >)
        requires
            old(store).wf(),
            now <= u64::MAX - SESSION_LIFETIME_SECS,
        ensures
            final(store).wf(),
            r matches Ok(c) ==> ({
                let frs = final(store).records@;
                &&& c.value@.len() == 64
                &&& crate::codec::all_digits(c.value@)
                &&& c.expires == now + SESSION_LIFETIME_SECS
                &&& frs.len() == old(store).records@.len() + 1
                &&& frs.take(old(store).records@.len() as int) == old(store).records@
                &&& frs.last().uid@ == c.value@
                &&& frs.last().user_id == user_id
                &&& frs.last().expires == c.expires
                &&& frs.last().body.last_ip@ == ip@
                &&& live_uid(frs, c.value@, now)
            }),
            r is Err ==> r == Err::<SessionCookie, ApiError>(ApiError::Database)
                && final(store).records@ == old(store).records@,
    {
        let expires = now + SESSION_LIFETIME_SECS;
        match store.insert(user_id, user_id, expires, SessionBody { last_ip: ip.clone() }) {
            Ok(uid) => {
                proof {
                    let frs = store.records@;
                    assert(frs[frs.len() - 1].uid@ == uid@ && frs[frs.len() - 1].expires > now);
                }
                Ok(SessionCookie { value: uid, expires })
            },
            Err(e) => Err(e),
        }
    }

    /// Destroy this session: delete exactly its own row, touching no other,
    /// and hand back the epoch-expired cookie that clears the browser's copy.
    pub fn destroy(&self, store: &mut SessionStore) -> (r: SessionCookie)
        requires
            old(store).wf(),
        ensures
            final(store).wf(),
            !crate::store::has_uid(final(store).records@, self.sid@),
            crate::store::has_uid(old(store).records@, self.sid@) ==> exists|i: int|
                0 <= i < old(store).records@.len() && old(store).records@[i].uid@ == self.sid@
                    && final(store).records@ == old(store).records@.remove(i),
            !crate::store::has_uid(old(store).records@, self.sid@) ==> final(store).records@ == old(
                store,
            ).records@,
            r.value@.len() == 0,
            r.expires == 0,
    {
        store.delete(&self.sid);
        SessionCookie { value: String::new(), expires: 0 }
    }
}

} // verus!
