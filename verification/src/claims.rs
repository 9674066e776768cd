//! The claim gatherer: map a user row and the granted scopes to the standard
//! claim bundle.

use crate::codec::encode_digits;
use crate::scopes::Scopes;
use crate::users::UserRecord;
use vstd::prelude::*;

verus! {

/// The standard claims this provider issues.
pub struct Claims {
    pub sub: String,
    pub preferred_username: Option<String>,
    pub email: Option<String>,
    pub email_verified: Option<bool>,
}

/// Gather the claims for a user under the granted scopes: `sub` is the
/// encoded user id; the `profile` scope grants `preferred_username`; the
/// `email` scope grants `email` when one is stored, with `email_verified`
/// true exactly when an email exists.
pub fn gather(user: &UserRecord, scope: &Scopes) -> (r: Claims)
    requires
        user.id.valid(),
    ensures
        r.sub@ == encode_digits(user.id.spec_raw() as nat, 8),
        scope.view_elems().contains("profile"@) ==> (r.preferred_username matches Some(u) && u@
            == user.username@),
        !scope.view_elems().contains("profile"@) ==> r.preferred_username is None,
        scope.view_elems().contains("email"@) && user.email is Some ==> (r.email matches Some(e)
            && e@ == user.email.unwrap()@ && r.email_verified == Some(true)),
        scope.view_elems().contains("email"@) && user.email is None ==> r.email is None
            && r.email_verified is None,
        !scope.view_elems().contains("email"@) ==> r.email is None && r.email_verified is None,
{
    let sub = user.id.encode();
    let profile_key = String::from_str("profile");
    let email_key = String::from_str("email");
    let preferred_username = if scope.contains_scope(&profile_key) {
        Some(user.username.clone())
    } else {
        None
    };
    let (email, email_verified) = if scope.contains_scope(&email_key) {
        match &user.email {
            Some(e) => (Some(e.clone()), Some(true)),
            None => (None, None),
        }
    } else {
        (None, None)
    };
    Claims { sub, preferred_username, email, email_verified }
}

} // verus!
