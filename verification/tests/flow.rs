//! End-to-end protocol scenarios against the provider state: the full happy
//! path, denied consent, bad client credentials, code replay, untrusted
//! redirect URIs, and token expiry.

use std::time::{SystemTime, UNIX_EPOCH};

use mini_oidc::auth::{login, register, LoginOutcome, LoginRequest, RegisterRequest};
use mini_oidc::authorize::{
    authorization_code, authorization_code_post, AuthorizeAction, AuthorizeRequest,
};
use mini_oidc::claims::Claims;
use mini_oidc::codec::EntityId;
use mini_oidc::csrf::CsrfNonce;
use mini_oidc::errors::{ApiError, TokenErrorKind};
use mini_oidc::clients::{ClientMetadata, RegistrationResponse};
use mini_oidc::session::AuthSession;
use mini_oidc::state::ServerState;
use mini_oidc::token::{oauth_token, TokenRequestBody, TokenResponse};
use mini_oidc::userinfo::userinfo;

use openidconnect::{ClientId, IssuerUrl, JsonWebKeyId, JsonWebKeySet, Nonce, PrivateSigningKey};

const ISSUER: &str = "https://idp.test";
const REDIRECT: &str = "https://rp.test/cb";

fn now_secs() -> u64 {
    SystemTime::now().duration_since(UNIX_EPOCH).unwrap().as_secs()
}

fn pairs(entries: &[(&str, &str)]) -> Vec<(String, String)> {
    entries
        .iter()
        .map(|(k, v)| (String::from(*k), String::from(*v)))
        .collect()
}

struct World {
    state: ServerState,
    client: RegistrationResponse,
    alice: AuthSession,
    csrf: CsrfNonce,
    now: u64,
}

/// Boot the provider, register one relying party, register `alice`, and log
/// a session in for her.
fn world() -> World {
    let now = now_secs();
    let mut state = ServerState::init(String::from(ISSUER)).unwrap();
    let client = state
        .clients
        .register_client(
            ClientMetadata {
                client_name: Some(String::from("Test RP")),
                application_type: None,
                client_uri: None,
                logo_uri: None,
                redirect_uris: vec![String::from(REDIRECT)],
                contacts: vec![String::from("rp@example.test")],
            },
            &state.links,
        )
        .unwrap();
    let csrf = CsrfNonce(String::from("nonce-1"));
    let peer = String::from("127.0.0.1:4000");
    register(
        &mut state.users,
        &mut state.sessions,
        &csrf,
        &RegisterRequest {
            username: String::from("alice"),
            email: String::from("alice@example.test"),
            password: String::from("p4ss"),
            csrf: CsrfNonce(String::from("nonce-1")),
        },
        &peer,
        now,
    )
    .unwrap();
    let outcome = login(
        &state.users,
        &mut state.sessions,
        &csrf,
        &LoginRequest {
            username: String::from("alice"),
            password: String::from("p4ss"),
            csrf: CsrfNonce(String::from("nonce-1")),
        },
        &peer,
        now,
    )
    .unwrap();
    let cookie = match outcome {
        LoginOutcome::Success(c) => c,
        LoginOutcome::Retry(m) => panic!("login retried: {m}"),
    };
    let alice = AuthSession::resolve(
        &mut state.sessions,
        &state.users,
        Some(&cookie.value),
        &peer,
        now,
    )
    .unwrap();
    World { state, client, alice, csrf, now }
}

fn auth_query(world: &World) -> Vec<(String, String)> {
    let client_id = world.client.client_id.encode();
    pairs(&[
        ("client_id", client_id.as_str()),
        ("redirect_uri", REDIRECT),
        ("scope", "openid email"),
        ("state", "xyz"),
        ("response_type", "code"),
    ])
}

/// Run consent + allow and hand back the code from the redirect URL.
fn obtain_code(world: &mut World) -> String {
    let q = auth_query(world);
    let page = authorization_code(&world.state.clients, &q).unwrap();
    assert_eq!(page.client_name, "Test RP");
    assert_eq!(
        page.logo_uri,
        format!("{ISSUER}/static/default_icon.png")
    );
    assert_eq!(page.scopes.format(), "openid email");
    let url = authorization_code_post(
        &world.state.clients,
        &mut world.state.codes,
        &world.alice,
        &world.csrf,
        &AuthorizeRequest {
            csrf: CsrfNonce(world.csrf.0.clone()),
            action: AuthorizeAction::Allow,
        },
        &q,
        world.now,
    )
    .unwrap();
    let prefix = format!("{REDIRECT}?code=");
    assert!(url.starts_with(&prefix));
    assert!(url.ends_with("&state=xyz"));
    let code = &url[prefix.len()..url.len() - "&state=xyz".len()];
    String::from(code)
}

fn exchange_at(
    world: &mut World,
    code: &str,
    secret: &str,
    redirect_uri: &str,
) -> Result<TokenResponse, ApiError> {
    let issuer = String::from(ISSUER);
    let username = world.client.client_id.encode();
    let password = String::from(secret);
    oauth_token(
        &world.state.clients,
        &world.state.users,
        &world.state.keys,
        &mut world.state.codes,
        &mut world.state.tokens,
        &issuer,
        &username,
        &password,
        &TokenRequestBody {
            code: String::from(code),
            redirect_uri: String::from(redirect_uri),
        },
        world.now,
    )
}

fn exchange(world: &mut World, code: &str, secret: &str) -> Result<TokenResponse, ApiError> {
    exchange_at(world, code, secret, REDIRECT)
}

fn bearer_claims(world: &World, token: &str, at: u64) -> Result<Claims, ApiError> {
    let bearer = String::from(token);
    userinfo(&world.state.tokens, &world.state.users, Some(&bearer), at)
}

#[test]
fn full_happy_path() {
    let mut world = world();
    let code = obtain_code(&mut world);
    let secret = world.client.client_secret.clone();
    let resp = exchange(&mut world, &code, &secret).unwrap();
    assert_eq!(resp.token_type, "Bearer");
    assert_eq!(resp.access_token.len(), 64);

    // The ID token is an RS256 JWS over the expected claims, verifiable
    // with the provider's own public key.
    let key_row = &world.state.keys.get_all()[0];
    let signing_key = openidconnect::core::CoreRsaPrivateSigningKey::from_pem(
        &key_row.pem,
        Some(JsonWebKeyId::new(key_row.id.encode())),
    )
    .unwrap();
    let verifier: openidconnect::core::CoreIdTokenVerifier =
        openidconnect::core::CoreIdTokenVerifier::new_public_client(
        ClientId::new(world.client.client_id.encode()),
        IssuerUrl::new(String::from(ISSUER)).unwrap(),
        JsonWebKeySet::new(vec![signing_key.as_verification_key()]),
    );
    let token: openidconnect::core::CoreIdToken = resp.id_token.parse().unwrap();
    let claims = token
        .claims(&verifier, |_: Option<&Nonce>| Ok(()))
        .unwrap();
    assert_eq!(claims.subject().as_str(), world.alice.user_id.encode());
    assert_eq!(
        claims.email().map(|e| e.as_str()),
        Some("alice@example.test")
    );
    assert_eq!(claims.email_verified(), Some(true));
    assert!(claims.preferred_username().is_none());

    // UserInfo with the access token.
    let info = bearer_claims(&world, &resp.access_token, world.now).unwrap();
    assert_eq!(info.sub, world.alice.user_id.encode());
    assert_eq!(info.email.as_deref(), Some("alice@example.test"));
    assert_eq!(info.email_verified, Some(true));
    assert!(info.preferred_username.is_none());
}

#[test]
fn denied_consent_redirects_with_access_denied() {
    let mut world = world();
    let q = auth_query(&world);
    let r = authorization_code_post(
        &world.state.clients,
        &mut world.state.codes,
        &world.alice,
        &world.csrf,
        &AuthorizeRequest {
            csrf: CsrfNonce(world.csrf.0.clone()),
            action: AuthorizeAction::Deny,
        },
        &q,
        world.now,
    );
    match r {
        Err(ApiError::Redirect(url)) => {
            assert!(url.starts_with(&format!("{REDIRECT}?error=access_denied")));
            assert!(url.contains("error_description=User+denied+access."));
            assert!(url.ends_with("&state=xyz"));
        }
        other => panic!("expected a redirect, got {:?}", other.map(|_| ())),
    }
    assert_eq!(world.state.codes.records.len(), 0);
}

#[test]
fn wrong_client_secret_is_invalid_client() {
    let mut world = world();
    let code = obtain_code(&mut world);
    let r = exchange(&mut world, &code, "WRONG");
    assert!(matches!(
        r,
        Err(ApiError::OauthToken(TokenErrorKind::InvalidClient))
    ));
}

#[test]
fn replaying_a_code_is_invalid_grant() {
    let mut world = world();
    let code = obtain_code(&mut world);
    let secret = world.client.client_secret.clone();
    exchange(&mut world, &code, &secret).unwrap();
    let replay = exchange(&mut world, &code, &secret);
    assert!(matches!(
        replay,
        Err(ApiError::OauthToken(TokenErrorKind::InvalidGrant))
    ));
}

#[test]
fn unknown_codes_and_expired_codes_are_invalid_grant() {
    let mut world = world();
    let r = exchange(&mut world, "never-issued", "S");
    assert!(matches!(
        r,
        Err(ApiError::OauthToken(TokenErrorKind::InvalidGrant))
    ));
    let code = obtain_code(&mut world);
    let secret = world.client.client_secret.clone();
    world.now += 121;  // past the 2-minute code window
    let late = exchange(&mut world, &code, &secret);
    assert!(matches!(
        late,
        Err(ApiError::OauthToken(TokenErrorKind::InvalidGrant))
    ));
}

#[test]
fn mismatched_redirect_uri_at_the_token_endpoint_is_invalid_grant() {
    let mut world = world();
    let code = obtain_code(&mut world);
    let secret = world.client.client_secret.clone();
    let r = exchange_at(&mut world, &code, &secret, "https://rp.test/other");
    assert!(matches!(
        r,
        Err(ApiError::OauthToken(TokenErrorKind::InvalidGrant))
    ));
    // The mismatch consumed nothing: re-binding correctly still redeems.
    assert!(exchange(&mut world, &code, &secret).is_ok());
}

#[test]
fn untrusted_redirect_uri_is_not_found() {
    let world = world();
    let client_id = world.client.client_id.encode();
    let q = pairs(&[
        ("client_id", client_id.as_str()),
        ("redirect_uri", "https://evil.test/cb"),
        ("scope", "openid"),
        ("state", "xyz"),
        ("response_type", "code"),
    ]);
    let r = authorization_code(&world.state.clients, &q);
    assert!(matches!(r, Err(ApiError::NotFound)));
    assert_eq!(ApiError::NotFound.status(), 404);
}

#[test]
fn unknown_client_id_is_not_found() {
    let world = world();
    let other = EntityId::from_raw(mini_oidc::codec::ID_MIN + 5).unwrap();
    let id = other.encode();
    let q = pairs(&[
        ("client_id", id.as_str()),
        ("redirect_uri", REDIRECT),
        ("scope", "openid"),
        ("state", "xyz"),
        ("response_type", "code"),
    ]);
    assert!(matches!(
        authorization_code(&world.state.clients, &q),
        Err(ApiError::NotFound)
    ));
}

#[test]
fn expired_access_token_is_unauthorized() {
    let mut world = world();
    let code = obtain_code(&mut world);
    let secret = world.client.client_secret.clone();
    let resp = exchange(&mut world, &code, &secret).unwrap();
    assert!(bearer_claims(&world, &resp.access_token, world.now).is_ok());
    let after_31_min = world.now + 31 * 60;
    let r = bearer_claims(&world, &resp.access_token, after_31_min);
    assert!(matches!(r, Err(ApiError::Unauthorized)));
    assert!(matches!(
        bearer_claims(&world, "unknown-token", world.now),
        Err(ApiError::Unauthorized)
    ));
    let none = userinfo(&world.state.tokens, &world.state.users, None, world.now);
    assert!(matches!(none, Err(ApiError::Unauthorized)));
}

#[test]
fn profile_scope_grants_preferred_username() {
    let mut world = world();
    let client_id = world.client.client_id.encode();
    let q = pairs(&[
        ("client_id", client_id.as_str()),
        ("redirect_uri", REDIRECT),
        ("scope", "openid profile email"),
        ("state", "st8"),
        ("response_type", "code"),
    ]);
    let url = authorization_code_post(
        &world.state.clients,
        &mut world.state.codes,
        &world.alice,
        &world.csrf,
        &AuthorizeRequest {
            csrf: CsrfNonce(world.csrf.0.clone()),
            action: AuthorizeAction::Allow,
        },
        &q,
        world.now,
    )
    .unwrap();
    let prefix = format!("{REDIRECT}?code=");
    let code = &url[prefix.len()..url.len() - "&state=st8".len()];
    let secret = world.client.client_secret.clone();
    let resp = exchange(&mut world, &String::from(code), &secret).unwrap();
    let info = bearer_claims(&world, &resp.access_token, world.now).unwrap();
    assert_eq!(info.preferred_username.as_deref(), Some("alice"));
}
