//! The authorization endpoint: consent-screen gating on GET, consent
//! decision on POST. An unverified redirect URI never receives a redirect:
//! whitelist misses render 404.

use crate::authreq::{
    error_redirect_url, first_value, head_ok, parse_head, stage_two_desc, success_redirect_url,
    QueryPairs,
};
use crate::clients::{client_has_redirect, ClientRegistry};
use crate::codec::{eid_of, lemma_eid_of, lemma_eid_unique, val_of};
use crate::csrf::CsrfNonce;
use crate::errors::ApiError;
use crate::scopes::{split_spaces, Scopes};
use crate::session::AuthSession;
use crate::store::{AuthorizationCodeBody, CredStore, CODE_LIFETIME_SECS};
use vstd::prelude::*;

verus! {

/// What the consent page shows: the client's display data, and the scopes
/// the relying party asks for.
pub struct ConsentPage {
    pub client_name: String,
    pub logo_uri: String,
    pub scopes: Scopes,
}

/// The client id stage one denotes, for specifications.
pub open spec fn spec_head_client(q: Seq<(String, String)>) -> crate::codec::EntityId {
    eid_of(val_of(first_value(q, "client_id"@).unwrap()) as u64)
}

/// GET: require a session (the caller resolves it first), parse stage one,
/// join client and redirect URI against the whitelist, parse stage two, and
/// render the consent page. A whitelist miss is 404, never a redirect.
pub fn authorization_code(registry: &ClientRegistry, q: &QueryPairs) -> (r: Result<
    ConsentPage,
    ApiError,
>)
    requires
        registry.wf(),
    ensures
        !head_ok(q@) ==> r == Err::<ConsentPage, ApiError>(ApiError::BadRequest),
        head_ok(q@) && !client_has_redirect(
            registry.clients@,
            spec_head_client(q@),
            first_value(q@, "redirect_uri"@).unwrap(),
        ) ==> r == Err::<ConsentPage, ApiError>(ApiError::NotFound),
        head_ok(q@) && client_has_redirect(
            registry.clients@,
            spec_head_client(q@),
            first_value(q@, "redirect_uri"@).unwrap(),
        ) ==> ({
            if stage_two_desc(q@) is Some {
                r matches Err(e) && (e matches ApiError::Redirect(u) && u@ == error_redirect_url(
                    first_value(q@, "redirect_uri"@).unwrap(),
                    first_value(q@, "state"@).unwrap(),
                    "invalid_request"@,
                    stage_two_desc(q@).unwrap(),
                ))
            } else {
                r matches Ok(page) && ({
                    &&& exists|i: int|
                        0 <= i < registry.clients@.len() && registry.clients@[i].id
                            == spec_head_client(q@) && page.client_name@
                            == registry.clients@[i].client_name@ && page.logo_uri@
                            == registry.clients@[i].logo_uri@
                    &&& page.scopes.view_elems() == split_spaces(
                        first_value(q@, "scope"@).unwrap(),
                    )
                })
            }
        }),
{
    let head = match parse_head(q) {
        Ok(h) => h,
        Err(e) => {
            return Err(e);
        },
    };
    proof {
        lemma_eid_of(head.client_id.spec_raw());
        lemma_eid_unique(head.client_id, spec_head_client(q@));
    }
    let consent = match registry.consent_lookup(head.client_id, &head.redirect_uri) {
        Some(pair) => pair,
        None => {
            return Err(ApiError::NotFound);
        },
    };
    let full = match head.next(q) {
        Ok(f) => f,
        Err(e) => {
            return Err(e);
        },
    };
    Ok(ConsentPage { client_name: consent.0, logo_uri: consent.1, scopes: full.scope })
}

/// The consent decision a browser submits.
#[derive(Clone, Copy, Debug, PartialEq, Eq, Structural)]
pub enum AuthorizeAction {
    Allow,
    Deny,
}

/// The consent form body: the echoed CSRF nonce and the decision.
pub struct AuthorizeRequest {
    pub csrf: CsrfNonce,
    pub action: AuthorizeAction,
}

/// POST: verify the CSRF echo, re-validate the redirect URI against the
/// whitelist, parse stage two, then either redirect with `access_denied` or
/// mint a single-use authorization code and redirect with it.
pub fn authorization_code_post(
    registry: &ClientRegistry,
    codes: &mut CredStore<AuthorizationCodeBody>,
    auth: &AuthSession,
    cookie_nonce: &CsrfNonce,
    form: &AuthorizeRequest,
    q: &QueryPairs,
    now: u64,
) -> (r: Result<String, ApiError>)
    requires
        registry.wf(),
        old(codes).wf(),
        now <= u64::MAX - CODE_LIFETIME_SECS,
    ensures
        final(codes).wf(),
        !head_ok(q@) ==> r == Err::<String, ApiError>(ApiError::BadRequest)
            && final(codes).records@ == old(codes).records@,
        head_ok(q@) && cookie_nonce.0@ != form.csrf.0@ ==> r == Err::<String, ApiError>(
            ApiError::CsrfFailure,
        ) && final(codes).records@ == old(codes).records@,
        head_ok(q@) && cookie_nonce.0@ == form.csrf.0@ && !client_has_redirect(
            registry.clients@,
            spec_head_client(q@),
            first_value(q@, "redirect_uri"@).unwrap(),
        ) ==> r == Err::<String, ApiError>(ApiError::NotFound)
            && final(codes).records@ == old(codes).records@,
        head_ok(q@) && cookie_nonce.0@ == form.csrf.0@ && client_has_redirect(
            registry.clients@,
            spec_head_client(q@),
            first_value(q@, "redirect_uri"@).unwrap(),
        ) ==> ({
            let ru = first_value(q@, "redirect_uri"@).unwrap();
            let st = first_value(q@, "state"@).unwrap();
            if stage_two_desc(q@) is Some {
                r matches Err(e) && (e matches ApiError::Redirect(u) && u@ == error_redirect_url(
                    ru,
                    st,
                    "invalid_request"@,
                    stage_two_desc(q@).unwrap(),
                )) && final(codes).records@ == old(codes).records@
            } else if form.action is Deny {
                r matches Err(e) && (e matches ApiError::Redirect(u) && u@ == error_redirect_url(
                    ru,
                    st,
                    "access_denied"@,
                    "User denied access."@,
                )) && final(codes).records@ == old(codes).records@
            } else {
                (r == Err::<String, ApiError>(ApiError::Database)
                    && final(codes).records@ == old(codes).records@) || (r matches Ok(url) && ({
                    let frs = final(codes).records@;
                    let rec = frs.last();
                    &&& frs.len() == old(codes).records@.len() + 1
                    &&& frs.take(old(codes).records@.len() as int) == old(codes).records@
                    &&& rec.user_id == auth.user_id
                    &&& rec.client_id == spec_head_client(q@)
                    &&& rec.expires == now + CODE_LIFETIME_SECS
                    &&& rec.body.scope.view_elems() == split_spaces(
                        first_value(q@, "scope"@).unwrap(),
                    )
                    &&& rec.body.state@ == st
                    &&& rec.body.redirect_uri@ == ru
                    &&& crate::authreq::opt_view(rec.body.nonce) == first_value(q@, "nonce"@)
                    &&& crate::codec::all_digits(rec.uid@)
                    &&& url@ == success_redirect_url(ru, rec.uid@, st)
                }))
            }
        }),
{
    let head = match parse_head(q) {
        Ok(h) => h,
        Err(e) => {
            return Err(e);
        },
    };
    if let Err(e) = cookie_nonce.verify(&form.csrf) {
        return Err(e);
    }
    proof {
        lemma_eid_of(head.client_id.spec_raw());
        lemma_eid_unique(head.client_id, spec_head_client(q@));
    }
    if !registry.redirect_uri_valid(head.client_id, &head.redirect_uri) {
        return Err(ApiError::NotFound);
    }
    let full = match head.next(q) {
        Ok(f) => f,
        Err(e) => {
            return Err(e);
        },
    };
    if let AuthorizeAction::Deny = form.action {
        return Err(full.error("access_denied", "User denied access."));
    }
    let expires = now + CODE_LIFETIME_SECS;
    let body = AuthorizationCodeBody {
        scope: full.scope.duplicate(),
        state: full.state.clone(),
        nonce: clone_nonce(&full.nonce),
        redirect_uri: full.redirect_uri.clone(),
    };
    let code = match codes.insert(auth.user_id, full.client_id, expires, body) {
        Ok(uid) => uid,
        Err(e) => {
            return Err(e);
        },
    };
    Ok(full.proceed(&code))
}

/// Clone an optional nonce.
fn clone_nonce(o: &Option<String>) -> (r: Option<String>)
    ensures
        crate::authreq::opt_view(r) == crate::authreq::opt_view(*o),
{
    match o {
        Some(s) => Some(s.clone()),
        None => None,
    }
}

} // verus!
