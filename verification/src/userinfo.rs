//! The UserInfo endpoint: verify the bearer access token, then project the
//! stored scopes onto the user's claims.

use crate::claims::{gather, Claims};
use crate::codec::encode_digits;
use crate::errors::ApiError;
use crate::store::{live_uid, uid_idx, AccessTokenBody, CredStore};
use crate::users::{has_user_id, user_idx, UserTable};
use vstd::prelude::*;

verus! {

/// Serve a UserInfo request. A missing, unknown, or expired bearer token is
/// 401 (`WWW-Authenticate: Bearer error="invalid_token"`); a live one yields
/// the claims gathered from the token's user under the token's scopes.
pub fn userinfo(
    tokens: &CredStore<AccessTokenBody>,
    users: &UserTable,
    bearer: Option<&String>,
    now: u64,
) -> (r: Result<Claims, ApiError>)
    requires
        tokens.wf(),
        users.wf(),
    ensures
        bearer is None ==> r == Err::<Claims, ApiError>(ApiError::Unauthorized),
        bearer matches Some(t) ==> !live_uid(tokens.records@, t@, now) ==> r == Err::<
            Claims,
            ApiError,
        >(ApiError::Unauthorized),
        bearer matches Some(t) ==> live_uid(tokens.records@, t@, now) ==> ({
            let row = tokens.records@[uid_idx(tokens.records@, t@)];
            if has_user_id(users.users@, row.user_id) {
                let u = users.users@[user_idx(users.users@, row.user_id)];
                let sc = row.body.scope.view_elems();
                r matches Ok(c) && ({
                    &&& c.sub@ == encode_digits(row.user_id.spec_raw() as nat, 8)
                    &&& (sc.contains("profile"@) ==> (c.preferred_username matches Some(n) && n@
                        == u.username@))
                    &&& (!sc.contains("profile"@) ==> c.preferred_username is None)
                    &&& (sc.contains("email"@) && u.email is Some ==> (c.email matches Some(e)
                        && e@ == u.email.unwrap()@ && c.email_verified == Some(true)))
                    &&& (!(sc.contains("email"@) && u.email is Some) ==> c.email is None
                        && c.email_verified is None)
                })
            } else {
                r == Err::<Claims, ApiError>(ApiError::Database)
            }
        }),
{
    let token = match bearer {
        Some(t) => t,
        None => {
            return Err(ApiError::Unauthorized);
        },
    };
    let row = match tokens.get(token, now) {
        Some(rec) => rec,
        None => {
            return Err(ApiError::Unauthorized);
        },
    };
    proof {
        let trs = tokens.records@;
        let i = uid_idx(trs, token@);
        assert(0 <= i < trs.len() && trs[i].uid@ == token@);
        let k = choose|k: int| 0 <= k < trs.len() && trs[k] == *row;
        if k != i {
            assert(trs[k].uid@ != trs[i].uid@);
        }
    }
    let user = match users.find_by_id(row.user_id) {
        Some(u) => u,
        None => {
            return Err(ApiError::Database);
        },
    };
    proof {
        let us = users.users@;
        let j = user_idx(us, row.user_id);
        assert(0 <= j < us.len() && us[j].id == row.user_id);
        let k = choose|k: int| 0 <= k < us.len() && us[k] == *user;
        if k != j {
            assert(us[k].id != us[j].id);
        }
    }
    Ok(gather(user, &row.body.scope))
}

} // verus!
