//! The token endpoint: authenticate the client with HTTP Basic credentials,
//! redeem the single-use authorization code after re-binding its redirect
//! URI, sign the RS256 ID token, and mint the opaque access token.

use crate::claims::{gather, Claims};
use crate::clients::{client_secret_matches, ClientRegistry};
use crate::codec::{eid_of, encode_digits, lemma_eid_of, lemma_eid_unique, val_of, EntityId};
use crate::errors::{ApiError, TokenErrorKind};
use crate::keys::{spec_active_key, KeyStore, SigningKey};
use crate::store::{
    has_uid, live_uid, uid_idx, AccessTokenBody, AuthorizationCodeBody, CredRecord, CredStore,
    TOKEN_LIFETIME_SECS,
};
use crate::users::{has_user_id, user_idx, UserRecord, UserTable};
use chrono::DateTime;
use openidconnect::AuthorizationCode as RpAuthorizationCode;
use openidconnect::{
    Audience, EmptyAdditionalClaims, EndUserEmail, EndUserUsername, IssuerUrl, JsonWebKeyId,
    StandardClaims, SubjectIdentifier,
};
use vstd::prelude::*;

verus! {

/// The form body of a token request.
pub struct TokenRequestBody {
    pub code: String,
    pub redirect_uri: String,
}

/// A successful token response: `token_type` is always `Bearer`.
pub struct TokenResponse {
    pub access_token: String,
    pub token_type: String,
    pub id_token: String,
}

/// What building and signing the ID token from these claim inputs yields:
/// the serialized RS256 JWS under the PEM-encoded key (with `kid`), its
/// `c_hash` bound to `code` — or nothing, when the issuer URL, the key, or a
/// timestamp cannot be used. JSON serialization, PKCS#1 v1.5 signing, and
/// every failure mode are deterministic, so the outcome is a function of
/// these arguments alone.
pub uninterp spec fn id_token_of(
    issuer: Seq<char>,
    aud: Seq<char>,
    sub: Seq<char>,
    username: Option<Seq<char>>,
    email: Option<Seq<char>>,
    email_verified: Option<bool>,
    iat: int,
    exp: int,
    pem: Seq<char>,
    kid: Seq<char>,
    code: Seq<char>,
) -> Option<Seq<char>>;

/// Build and sign the ID token.
///
/// Relies on openidconnect's `CoreIdTokenClaims::new`, `CoreIdToken::new`
/// and `CoreRsaPrivateSigningKey::from_pem`: the result is the RS256 JWS
/// over exactly these claims under the key `pem`, with `c_hash` computed
/// from `code`; success and the token alike are determined by the arguments.
#[verifier::external_body]
fn sign_id_token(
    issuer: String,
    aud: String,
    sub: String,
    username: Option<String>,
    email: Option<String>,
    ev: Option<bool>,
    iat: i64,
    exp: i64,
    pem: &String,
    kid: String,
    code: String,
) -> (r: Option<String>)
    ensures
        (r is Some) == (id_token_of(
            issuer@,
            aud@,
            sub@,
            crate::authreq::opt_view(username),
            crate::authreq::opt_view(email),
            ev,
            iat as int,
            exp as int,
            pem@,
            kid@,
            code@,
        ) is Some),
        r matches Some(t) ==> Some(t@) == id_token_of(
            issuer@,
            aud@,
            sub@,
            crate::authreq::opt_view(username),
            crate::authreq::opt_view(email),
            ev,
            iat as int,
            exp as int,
            pem@,
            kid@,
            code@,
        ),
{
    let sc = StandardClaims::new(SubjectIdentifier::new(sub))
        .set_preferred_username(username.map(EndUserUsername::new))
        .set_email(email.map(EndUserEmail::new))
        .set_email_verified(ev);
    let c = openidconnect::core::CoreIdTokenClaims::new(
        IssuerUrl::new(issuer).ok()?,
        vec![Audience::new(aud)],
        DateTime::from_timestamp(exp, 0)?,
        DateTime::from_timestamp(iat, 0)?,
        sc,
        EmptyAdditionalClaims {},
    );
    let k = openidconnect::core::CoreRsaPrivateSigningKey::from_pem(pem, Some(JsonWebKeyId::new(kid))).ok()?;
    openidconnect::core::CoreIdToken::new(c, &k, openidconnect::core::CoreJwsSigningAlgorithm::RsaSsaPkcs1V15Sha256, None, Some(&RpAuthorizationCode::new(code))).ok().map(|t| t.to_string())
}

/// Once no row holds a code, no later instant sees it live: a second
/// exchange of a consumed code must answer `invalid_grant`.
pub proof fn lemma_code_single_use(
    rs: Seq<CredRecord<AuthorizationCodeBody>>,
    code: Seq<char>,
    later: u64,
)
    requires
        !has_uid(rs, code),
    ensures
        !live_uid(rs, code, later),
{
}

/// A well-formed client id in a Basic username.
pub open spec fn valid_client_id(s: Seq<char>) -> bool {
    s.len() == 8 && crate::codec::all_digits(s) && crate::codec::ID_MIN <= val_of(s)
        < crate::codec::ID_LIMIT
}

/// The token request's redirect URI is byte-equal to the one stored with
/// the code row.
pub open spec fn code_redirect_matches(
    codes: Seq<CredRecord<AuthorizationCodeBody>>,
    code: Seq<char>,
    uri: Seq<char>,
) -> bool {
    codes[uid_idx(codes, code)].body.redirect_uri@ == uri
}

/// The ID token an exchange of `code` must produce, or nothing where
/// signing cannot succeed: claims are gathered from the code's user under
/// the code's scopes, the audience is the authenticated client, the key is
/// the store's active (lowest-id) key, and validity runs 30 minutes from
/// `now`.
pub open spec fn expected_id_token(
    codes: Seq<CredRecord<AuthorizationCodeBody>>,
    users: Seq<UserRecord>,
    keys: Seq<SigningKey>,
    issuer: Seq<char>,
    basic_username: Seq<char>,
    code: Seq<char>,
    now: u64,
) -> Option<Seq<char>> {
    let row = codes[uid_idx(codes, code)];
    let u = users[user_idx(users, row.user_id)];
    let sc = row.body.scope.view_elems();
    let k = spec_active_key(keys);
    id_token_of(
        issuer,
        encode_digits(val_of(basic_username) as nat, 8),
        encode_digits(row.user_id.spec_raw() as nat, 8),
        if sc.contains("profile"@) {
            Some(u.username@)
        } else {
            None
        },
        if sc.contains("email"@) && u.email is Some {
            Some(u.email.unwrap()@)
        } else {
            None
        },
        if sc.contains("email"@) && u.email is Some {
            Some(true)
        } else {
            None
        },
        now as int,
        now + TOKEN_LIFETIME_SECS,
        k.pem@,
        encode_digits(k.id.spec_raw() as nat, 8),
        code,
    )
}

/// What a successful exchange did: the code row alone is consumed; one
/// access token was minted under the code's subject, client binding, and
/// scopes, expiring 30 minutes from now; and the ID token is exactly the
/// expected RS256 JWS, signed with the lowest-id key, bound to the code.
pub open spec fn exchange_success(
    codes_before: Seq<CredRecord<AuthorizationCodeBody>>,
    codes_after: Seq<CredRecord<AuthorizationCodeBody>>,
    tokens_before: Seq<CredRecord<AccessTokenBody>>,
    tokens_after: Seq<CredRecord<AccessTokenBody>>,
    users: Seq<UserRecord>,
    keys: Seq<SigningKey>,
    issuer: Seq<char>,
    basic_username: Seq<char>,
    code: Seq<char>,
    now: u64,
    resp: TokenResponse,
) -> bool {
    let row = codes_before[uid_idx(codes_before, code)];
    let minted = tokens_after.last();
    &&& exists|i: int|
        0 <= i < codes_before.len() && codes_before[i].uid@ == code && codes_after == codes_before
            .remove(i)
    &&& !has_uid(codes_after, code)
    &&& tokens_after.len() == tokens_before.len() + 1
    &&& tokens_after.take(tokens_before.len() as int) == tokens_before
    &&& minted.uid@ == resp.access_token@
    &&& resp.access_token@.len() == 64
    &&& crate::codec::all_digits(resp.access_token@)
    &&& minted.user_id == row.user_id
    &&& minted.client_id == row.client_id
    &&& minted.expires == now + TOKEN_LIFETIME_SECS
    &&& minted.body.scope.view_elems() == row.body.scope.view_elems()
    &&& resp.token_type@ == "Bearer"@
    &&& Some(resp.id_token@) == expected_id_token(
        codes_before,
        users,
        keys,
        issuer,
        basic_username,
        code,
        now,
    )
}

/// Exchange an authorization code for tokens.
///
/// The code is looked up first (`invalid_grant` if absent, expired, or
/// already used), the request's redirect URI is re-bound to the one that
/// carried the code (`invalid_grant` on mismatch), the client is
/// authenticated by id and secret (`invalid_client`), the claims are
/// gathered under the code's scopes, the ID token is signed with the active
/// key, the code row is deleted, and a fresh access token is minted
/// carrying the code's scopes.
pub fn oauth_token(
    registry: &ClientRegistry,
    users: &UserTable,
    keys: &KeyStore,
    codes: &mut CredStore<AuthorizationCodeBody>,
    tokens: &mut CredStore<AccessTokenBody>,
    issuer: &String,
    basic_username: &String,
    basic_password: &String,
    req: &TokenRequestBody,
    now: u64,
) -> (r: Result<TokenResponse, ApiError>)
    requires
        registry.wf(),
        users.wf(),
        keys.wf(),
        keys.keys@.len() > 0,
        old(codes).wf(),
        old(tokens).wf(),
        now <= 9223372036854775807u64 - TOKEN_LIFETIME_SECS,
    ensures
        final(codes).wf(),
        final(tokens).wf(),
        !live_uid(old(codes).records@, req.code@, now) ==> r == Err::<TokenResponse, ApiError>(
            ApiError::OauthToken(TokenErrorKind::InvalidGrant),
        ) && final(codes).records@ == old(codes).records@ && final(tokens).records@ == old(
            tokens,
        ).records@,
        live_uid(old(codes).records@, req.code@, now) && !code_redirect_matches(
            old(codes).records@,
            req.code@,
            req.redirect_uri@,
        ) ==> r == Err::<TokenResponse, ApiError>(ApiError::OauthToken(TokenErrorKind::InvalidGrant))
            && final(codes).records@ == old(codes).records@ && final(tokens).records@ == old(
            tokens,
        ).records@,
        live_uid(old(codes).records@, req.code@, now) && code_redirect_matches(
            old(codes).records@,
            req.code@,
            req.redirect_uri@,
        ) && !valid_client_id(basic_username@) ==> r == Err::<TokenResponse, ApiError>(
            ApiError::OauthToken(TokenErrorKind::InvalidClient),
        ) && final(codes).records@ == old(codes).records@ && final(tokens).records@ == old(
            tokens,
        ).records@,
        live_uid(old(codes).records@, req.code@, now) && code_redirect_matches(
            old(codes).records@,
            req.code@,
            req.redirect_uri@,
        ) && valid_client_id(basic_username@) && !client_secret_matches(
            registry.clients@,
            eid_of(val_of(basic_username@) as u64),
            basic_password@,
        ) ==> r == Err::<TokenResponse, ApiError>(
            ApiError::OauthToken(TokenErrorKind::InvalidClient),
        ) && final(codes).records@ == old(codes).records@ && final(tokens).records@ == old(
            tokens,
        ).records@,
        live_uid(old(codes).records@, req.code@, now) && code_redirect_matches(
            old(codes).records@,
            req.code@,
            req.redirect_uri@,
        ) && valid_client_id(basic_username@) && client_secret_matches(
            registry.clients@,
            eid_of(val_of(basic_username@) as u64),
            basic_password@,
        ) ==> ({
            let row = old(codes).records@[uid_idx(old(codes).records@, req.code@)];
            let expected = expected_id_token(
                old(codes).records@,
                users.users@,
                keys.keys@,
                issuer@,
                basic_username@,
                req.code@,
                now,
            );
            if !has_user_id(users.users@, row.user_id) {
                r == Err::<TokenResponse, ApiError>(ApiError::Database) && final(codes).records@
                    == old(codes).records@ && final(tokens).records@ == old(tokens).records@
            } else if expected is None {
                r == Err::<TokenResponse, ApiError>(ApiError::Crypto) && final(codes).records@
                    == old(codes).records@ && final(tokens).records@ == old(tokens).records@
            } else {
                ||| (r == Err::<TokenResponse, ApiError>(ApiError::Database)
                    && final(tokens).records@ == old(tokens).records@)
                ||| (r matches Ok(resp) && exchange_success(
                    old(codes).records@,
                    final(codes).records@,
                    old(tokens).records@,
                    final(tokens).records@,
                    users.users@,
                    keys.keys@,
                    issuer@,
                    basic_username@,
                    req.code@,
                    now,
                    resp,
                ))
            }
        }),
        r is Ok ==> !has_uid(final(codes).records@, req.code@),
{
    let code_row = match codes.get(&req.code, now) {
        Some(rec) => rec,
        None => {
            return Err(ApiError::OauthToken(TokenErrorKind::InvalidGrant));
        },
    };
    proof {
        let ors = codes.records@;
        let i = uid_idx(ors, req.code@);
        assert(0 <= i < ors.len() && ors[i].uid@ == req.code@);
        let k = choose|k: int| 0 <= k < ors.len() && ors[k] == *code_row;
        if k != i {
            assert(ors[k].uid@ != ors[i].uid@);
        }
    }
    if !(code_row.body.redirect_uri == req.redirect_uri) {
        return Err(ApiError::OauthToken(TokenErrorKind::InvalidGrant));
    }
    let code_user = code_row.user_id;
    let code_scope = code_row.body.scope.duplicate();
    let client_id = match EntityId::parse(basic_username.as_str()) {
        Ok(id) => id,
        Err(_) => {
            return Err(ApiError::OauthToken(TokenErrorKind::InvalidClient));
        },
    };
    proof {
        lemma_eid_of(client_id.spec_raw());
        lemma_eid_unique(client_id, eid_of(val_of(basic_username@) as u64));
    }
    if !registry.check_client_secret(client_id, basic_password) {
        return Err(ApiError::OauthToken(TokenErrorKind::InvalidClient));
    }
    let user = match users.find_by_id(code_user) {
        Some(u) => u,
        None => {
            return Err(ApiError::Database);
        },
    };
    proof {
        let us = users.users@;
        let j = user_idx(us, code_user);
        assert(0 <= j < us.len() && us[j].id == code_user);
        let k = choose|k: int| 0 <= k < us.len() && us[k] == *user;
        if k != j {
            assert(us[k].id != us[j].id);
        }
    }
    let the_claims = gather(user, &code_scope);
    let key = match keys.active_key() {
        Some(k) => k,
        None => {
            proof {
                assert(false);
            }
            return Err(ApiError::Crypto);
        },
    };
    let kid = key.id.encode();
    proof {
        let ks = keys.keys@;
        let k = choose|k: int| 0 <= k < ks.len() && ks[k] == *key;
        assert(ks[k].id.valid());
    }
    let aud = client_id.encode();
    let iat = now as i64;
    let exp = (now + TOKEN_LIFETIME_SECS) as i64;
    let username_arg = match &the_claims.preferred_username {
        Some(s) => Some(s.clone()),
        None => None,
    };
    let email_arg = match &the_claims.email {
        Some(s) => Some(s.clone()),
        None => None,
    };
    proof {
        assert(id_token_of(
            issuer@,
            aud@,
            the_claims.sub@,
            crate::authreq::opt_view(username_arg),
            crate::authreq::opt_view(email_arg),
            the_claims.email_verified,
            iat as int,
            exp as int,
            key.pem@,
            kid@,
            req.code@,
        ) == expected_id_token(
            old(codes).records@,
            users.users@,
            keys.keys@,
            issuer@,
            basic_username@,
            req.code@,
            now,
        ));
    }
    let id_token = match sign_id_token(
        issuer.clone(),
        aud,
        the_claims.sub.clone(),
        username_arg,
        email_arg,
        the_claims.email_verified,
        iat,
        exp,
        &key.pem,
        kid,
        req.code.clone(),
    ) {
        Some(t) => t,
        None => {
            return Err(ApiError::Crypto);
        },
    };
    let consumed = match codes.take(&req.code, now) {
        Some(rec) => rec,
        None => {
            proof {
                assert(false);
            }
            return Err(ApiError::OauthToken(TokenErrorKind::InvalidGrant));
        },
    };
    proof {
        let ors = old(codes).records@;
        let i = uid_idx(ors, req.code@);
        let w = choose|w: int|
            0 <= w < ors.len() && ors[w] == consumed && codes.records@ == ors.remove(w);
        if w != i {
            assert(ors[w].uid@ != ors[i].uid@);
        }
        assert(consumed == ors[i]);
    }
    let access_token = match tokens.insert(
        consumed.user_id,
        consumed.client_id,
        now + TOKEN_LIFETIME_SECS,
        AccessTokenBody { scope: consumed.body.scope },
    ) {
        Ok(uid) => uid,
        Err(e) => {
            return Err(e);
        },
    };
    Ok(
        TokenResponse {
            access_token,
            token_type: String::from_str("Bearer"),
            id_token,
        },
    )
}

} // verus!
