//! The OIDC discovery document: constant provider metadata derived from the
//! issuer and its endpoint URLs.

use crate::links::ServerLinks;
use crate::scopes::views_of;
use vstd::prelude::*;

verus! {

/// The provider metadata served at `/.well-known/openid-configuration`.
pub struct ProviderMetadata {
    pub issuer: String,
    pub authorization_endpoint: String,
    pub token_endpoint: String,
    pub userinfo_endpoint: String,
    pub jwks_uri: String,
    pub registration_endpoint: String,
    pub response_types_supported: Vec<String>,
    pub subject_types_supported: Vec<String>,
    pub id_token_signing_alg_values_supported: Vec<String>,
    pub scopes_supported: Vec<String>,
    pub claims_supported: Vec<String>,
}

/// Build the discovery document: the issuer and endpoint URLs, the sole
/// `code` response type, `public` subjects, `RS256` signatures, the three
/// supported scopes, and the supported claim names.
pub fn configuration(links: &ServerLinks) -> (r: ProviderMetadata)
    ensures
        r.issuer@ == links.issuer@,
        r.authorization_endpoint@ == links.oauth_authorize@,
        r.token_endpoint@ == links.oauth_token@,
        r.userinfo_endpoint@ == links.oidc_userinfo@,
        r.jwks_uri@ == links.oidc_jwks@,
        r.registration_endpoint@ == links.oidc_register@,
        views_of(r.response_types_supported@) =~= seq!["code"@],
        views_of(r.subject_types_supported@) =~= seq!["public"@],
        views_of(r.id_token_signing_alg_values_supported@) =~= seq!["RS256"@],
        views_of(r.scopes_supported@) =~= seq!["openid"@, "profile"@, "email"@],
        views_of(r.claims_supported@) =~= seq![
            "sub"@,
            "iss"@,
            "aud"@,
            "exp"@,
            "iat"@,
            "preferred_username"@,
            "email"@,
            "email_verified"@,
        ],
{
    let mut response_types_supported: Vec<String> = Vec::new();
    response_types_supported.push(String::from_str("code"));
    let mut subject_types_supported: Vec<String> = Vec::new();
    subject_types_supported.push(String::from_str("public"));
    let mut id_token_signing_alg_values_supported: Vec<String> = Vec::new();
    id_token_signing_alg_values_supported.push(String::from_str("RS256"));
    let mut scopes_supported: Vec<String> = Vec::new();
    scopes_supported.push(String::from_str("openid"));
    scopes_supported.push(String::from_str("profile"));
    scopes_supported.push(String::from_str("email"));
    let mut claims_supported: Vec<String> = Vec::new();
    claims_supported.push(String::from_str("sub"));
    claims_supported.push(String::from_str("iss"));
    claims_supported.push(String::from_str("aud"));
    claims_supported.push(String::from_str("exp"));
    claims_supported.push(String::from_str("iat"));
    claims_supported.push(String::from_str("preferred_username"));
    claims_supported.push(String::from_str("email"));
    claims_supported.push(String::from_str("email_verified"));
    ProviderMetadata {
        issuer: links.issuer.clone(),
        authorization_endpoint: links.oauth_authorize.clone(),
        token_endpoint: links.oauth_token.clone(),
        userinfo_endpoint: links.oidc_userinfo.clone(),
        jwks_uri: links.oidc_jwks.clone(),
        registration_endpoint: links.oidc_register.clone(),
        response_types_supported,
        subject_types_supported,
        id_token_signing_alg_values_supported,
        scopes_supported,
        claims_supported,
    }
}

} // verus!
