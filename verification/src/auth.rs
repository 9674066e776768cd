//! The interactive authentication flows: login, registration, logout. Each
//! is CSRF-guarded; login and registration end by minting a session.

use crate::codec::EntityId;
use crate::csrf::CsrfNonce;
use crate::errors::ApiError;
use crate::password::{hash_password, password_check, verify_password, VerifyOutcome};
use crate::session::{AuthSession, SessionCookie, SessionStore};
use crate::store::SESSION_LIFETIME_SECS;
use crate::users::{has_username, uname_idx, UserRecord, UserTable};
use vstd::prelude::*;

verus! {

/// The query parameter naming where to send the browser afterwards.
pub struct RedirectQuery {
    pub redirect_uri: String,
}

/// The login form body.
pub struct LoginRequest {
    pub username: String,
    pub password: String,
    pub csrf: CsrfNonce,
}

/// The registration form body.
pub struct RegisterRequest {
    pub username: String,
    pub email: String,
    pub password: String,
    pub csrf: CsrfNonce,
}

/// The logout form body.
pub struct LogoutRequest {
    pub csrf: CsrfNonce,
}

/// How a login attempt ends short of an internal error.
pub enum LoginOutcome {
    /// Re-render the login page with this message.
    Retry(String),
    /// Set this session cookie and redirect to the caller's redirect URI.
    Success(SessionCookie),
}

/// Log a user in: verify the CSRF echo, find the user, check the password
/// with Argon2, and mint a session. An unknown username or a wrong password
/// re-renders the page; a malformed stored hash is an internal error.
pub fn login(
    users: &UserTable,
    sessions: &mut SessionStore,
    cookie_nonce: &CsrfNonce,
    req: &LoginRequest,
    peer_ip: &String,
    now: u64,
) -> (r: Result<LoginOutcome, ApiError>)
    requires
        users.wf(),
        old(sessions).wf(),
        now <= u64::MAX - SESSION_LIFETIME_SECS,
    ensures
        final(sessions).wf(),
        cookie_nonce.0@ != req.csrf.0@ ==> r == Err::<LoginOutcome, ApiError>(ApiError::CsrfFailure)
            && final(sessions).records@ == old(sessions).records@,
        cookie_nonce.0@ == req.csrf.0@ && !has_username(users.users@, req.username@) ==> (r
            matches Ok(o) && (o matches LoginOutcome::Retry(m) && m@ == "No such user"@))
            && final(sessions).records@ == old(sessions).records@,
        cookie_nonce.0@ == req.csrf.0@ && has_username(users.users@, req.username@) ==> ({
            let u = users.users@[uname_idx(users.users@, req.username@)];
            if password_check(u.password_hash@, req.password@) == Some(true) {
                ||| (r matches Ok(o) && (o matches LoginOutcome::Success(c) && ({
                    let frs = final(sessions).records@;
                    &&& c.value@.len() == 64
                    &&& crate::codec::all_digits(c.value@)
                    &&& c.expires == now + SESSION_LIFETIME_SECS
                    &&& frs.len() == old(sessions).records@.len() + 1
                    &&& frs.take(old(sessions).records@.len() as int) == old(sessions).records@
                    &&& frs.last().uid@ == c.value@
                    &&& frs.last().user_id == u.id
                    &&& frs.last().expires == c.expires
                    &&& frs.last().body.last_ip@ == peer_ip@
                })))
                ||| (r == Err::<LoginOutcome, ApiError>(ApiError::Database)
                    && final(sessions).records@ == old(sessions).records@)
            } else if password_check(u.password_hash@, req.password@) == Some(false) {
                (r matches Ok(o) && (o matches LoginOutcome::Retry(m) && m@ == "Wrong password"@))
                    && final(sessions).records@ == old(sessions).records@
            } else {
                r == Err::<LoginOutcome, ApiError>(ApiError::PasswordHash)
                    && final(sessions).records@ == old(sessions).records@
            }
        }),
{
    if let Err(e) = cookie_nonce.verify(&req.csrf) {
        return Err(e);
    }
    let user = match users.find_by_username(&req.username) {
        Some(u) => u,
        None => {
            return Ok(LoginOutcome::Retry(String::from_str("No such user")));
        },
    };
    proof {
        let us = users.users@;
        let j = uname_idx(us, req.username@);
        assert(0 <= j < us.len() && us[j].username@ == req.username@);
        let k = choose|k: int| 0 <= k < us.len() && us[k] == *user;
        if k != j {
            assert(us[k].username@ != us[j].username@);
        }
    }
    match verify_password(&user.password_hash, &req.password) {
        VerifyOutcome::Match => {
            let user_id = user.id;
            match AuthSession::create(sessions, user_id, peer_ip, now) {
                Ok(cookie) => Ok(LoginOutcome::Success(cookie)),
                Err(e) => Err(e),
            }
        },
        VerifyOutcome::WrongPassword => Ok(LoginOutcome::Retry(String::from_str("Wrong password"))),
        VerifyOutcome::BadHash => Err(ApiError::PasswordHash),
    }
}

/// Register a user: verify the CSRF echo, hash the password under a fresh
/// salt, insert the user row under a fresh id, and mint a session. A taken
/// username fails as the storage error its uniqueness constraint raises.
pub fn register(
    users: &mut UserTable,
    sessions: &mut SessionStore,
    cookie_nonce: &CsrfNonce,
    req: &RegisterRequest,
    peer_ip: &String,
    now: u64,
) -> (r: Result<SessionCookie, ApiError>)
    requires
        old(users).wf(),
        old(sessions).wf(),
        now <= u64::MAX - SESSION_LIFETIME_SECS,
    ensures
        final(users).wf(),
        final(sessions).wf(),
        cookie_nonce.0@ != req.csrf.0@ ==> r == Err::<SessionCookie, ApiError>(
            ApiError::CsrfFailure,
        ) && final(users).users@ == old(users).users@ && final(sessions).records@ == old(
            sessions,
        ).records@,
        cookie_nonce.0@ == req.csrf.0@ && has_username(old(users).users@, req.username@) ==> r
            is Err,
        cookie_nonce.0@ == req.csrf.0@ ==> (r is Ok || r == Err::<SessionCookie, ApiError>(
            ApiError::Database,
        ) || r == Err::<SessionCookie, ApiError>(ApiError::PasswordHash)),
        r == Err::<SessionCookie, ApiError>(ApiError::PasswordHash) ==> final(users).users@ == old(
            users,
        ).users@,
        r is Err ==> final(sessions).records@ == old(sessions).records@,
        r is Err ==> (final(users).users@ == old(users).users@ || r == Err::<
            SessionCookie,
            ApiError,
        >(ApiError::Database)),
        r matches Ok(c) ==> ({
            let us = final(users).users@;
            let rec = us.last();
            let frs = final(sessions).records@;
            &&& cookie_nonce.0@ == req.csrf.0@
            &&& !has_username(old(users).users@, req.username@)
            &&& us.len() == old(users).users@.len() + 1
            &&& us.take(old(users).users@.len() as int) == old(users).users@
            &&& rec.username@ == req.username@
            &&& rec.email matches Some(e) && e@ == req.email@
            &&& rec.id.valid()
            &&& password_check(rec.password_hash@, req.password@) == Some(true)
            &&& c.value@.len() == 64
            &&& crate::codec::all_digits(c.value@)
            &&& c.expires == now + SESSION_LIFETIME_SECS
            &&& frs.len() == old(sessions).records@.len() + 1
            &&& frs.take(old(sessions).records@.len() as int) == old(sessions).records@
            &&& frs.last().uid@ == c.value@
            &&& frs.last().user_id == rec.id
            &&& frs.last().expires == c.expires
            &&& frs.last().body.last_ip@ == peer_ip@
        }),
{
    if let Err(e) = cookie_nonce.verify(&req.csrf) {
        return Err(e);
    }
    let password_hash = match hash_password(&req.password) {
        Ok(h) => h,
        Err(()) => {
            return Err(ApiError::PasswordHash);
        },
    };
    let id = EntityId::generate();
    let rec = UserRecord {
        id,
        username: req.username.clone(),
        email: Some(req.email.clone()),
        password_hash,
    };
    if let Err(e) = users.insert(rec) {
        return Err(e);
    }
    match AuthSession::create(sessions, id, peer_ip, now) {
        Ok(cookie) => Ok(cookie),
        Err(e) => Err(e),
    }
}

/// Log out: verify the CSRF echo, delete the session row, and clear the
/// cookie.
pub fn logout(
    sessions: &mut SessionStore,
    cookie_nonce: &CsrfNonce,
    req: &LogoutRequest,
    session: &AuthSession,
) -> (r: Result<SessionCookie, ApiError>)
    requires
        old(sessions).wf(),
    ensures
        final(sessions).wf(),
        cookie_nonce.0@ != req.csrf.0@ ==> r == Err::<SessionCookie, ApiError>(
            ApiError::CsrfFailure,
        ) && final(sessions).records@ == old(sessions).records@,
        cookie_nonce.0@ == req.csrf.0@ ==> (r matches Ok(c) && ({
            let ors = old(sessions).records@;
            let frs = final(sessions).records@;
            &&& !crate::store::has_uid(frs, session.sid@)
            &&& (crate::store::has_uid(ors, session.sid@) ==> exists|i: int|
                0 <= i < ors.len() && ors[i].uid@ == session.sid@ && frs == ors.remove(i))
            &&& (!crate::store::has_uid(ors, session.sid@) ==> frs == ors)
            &&& c.value@.len() == 0
            &&& c.expires == 0
        })),
{
    if let Err(e) = cookie_nonce.verify(&req.csrf) {
        return Err(e);
    }
    Ok(session.destroy(sessions))
}

} // verus!
