//! Two-stage request parsing, client registration, and the discovery
//! document.

use mini_oidc::authreq::{lookup, parse_head, parse_i64, OidcAuthRequestHead};
use mini_oidc::clients::{AppType, ClientMetadata, ClientRegistry};
use mini_oidc::discovery::configuration;
use mini_oidc::errors::{ApiError, RegisterErrorKind};
use mini_oidc::links::ServerLinks;

fn pairs(entries: &[(&str, &str)]) -> Vec<(String, String)> {
    entries
        .iter()
        .map(|(k, v)| (String::from(*k), String::from(*v)))
        .collect()
}

fn links() -> ServerLinks {
    ServerLinks::from(String::from("https://idp.test"))
}

fn valid_client_id() -> String {
    mini_oidc::codec::EntityId::from_raw(mini_oidc::codec::ID_MIN + 9).unwrap().encode()
}

#[test]
fn stage_one_requires_its_three_fields() {
    let id = valid_client_id();
    let ok = parse_head(&pairs(&[
        ("client_id", id.as_str()),
        ("redirect_uri", "https://rp.test/cb"),
        ("state", "xyz"),
    ]))
    .unwrap();
    assert_eq!(ok.client_id.encode(), id);
    assert_eq!(ok.redirect_uri, "https://rp.test/cb");
    assert_eq!(ok.state, "xyz");

    for q in [
        pairs(&[("redirect_uri", "https://rp.test/cb"), ("state", "xyz")]),
        pairs(&[("client_id", id.as_str()), ("state", "xyz")]),
        pairs(&[("client_id", id.as_str()), ("redirect_uri", "https://rp.test/cb")]),
        pairs(&[
            ("client_id", "not-an-id"),
            ("redirect_uri", "https://rp.test/cb"),
            ("state", "xyz"),
        ]),
    ] {
        assert!(matches!(parse_head(&q), Err(ApiError::BadRequest)));
    }
}

#[test]
fn stage_one_rejects_malformed_redirect_uris() {
    let id = valid_client_id();
    for bad in ["not a url", "://missing.scheme", "1http://x", "http:", "x"] {
        let q = pairs(&[("client_id", id.as_str()), ("redirect_uri", bad), ("state", "xyz")]);
        assert!(matches!(parse_head(&q), Err(ApiError::BadRequest)));
    }
    for good in ["https://rp.test/cb", "mailto:x", "a+b-c.d://host"] {
        let q = pairs(&[("client_id", id.as_str()), ("redirect_uri", good), ("state", "xyz")]);
        assert!(parse_head(&q).is_ok());
    }
}

#[test]
fn stage_two_rejects_unsupported_response_types() {
    let head = OidcAuthRequestHead {
        client_id: mini_oidc::codec::EntityId::from_raw(mini_oidc::codec::ID_MIN).unwrap(),
        redirect_uri: String::from("https://rp.test/cb"),
        state: String::from("xyz"),
    };
    let r = head.next(&pairs(&[("scope", "openid"), ("response_type", "token")]));
    match r {
        Err(ApiError::Redirect(url)) => {
            assert!(url.contains("error=invalid_request"));
            assert!(url.contains("error_description=unsupported+response_type"));
        }
        _ => panic!("expected an error redirect"),
    }
}

#[test]
fn stage_two_failures_redirect_to_the_attested_uri() {
    let head = OidcAuthRequestHead {
        client_id: mini_oidc::codec::EntityId::from_raw(mini_oidc::codec::ID_MIN).unwrap(),
        redirect_uri: String::from("https://rp.test/cb"),
        state: String::from("xyz"),
    };
    let r = head.next(&pairs(&[("response_type", "code")]));
    match r {
        Err(ApiError::Redirect(url)) => {
            assert_eq!(
                url,
                "https://rp.test/cb?error=invalid_request\
                 &error_description=missing+scope&state=xyz"
            );
        }
        _ => panic!("expected an error redirect"),
    }
}

#[test]
fn stage_two_parses_the_optional_fields() {
    let head = OidcAuthRequestHead {
        client_id: mini_oidc::codec::EntityId::from_raw(mini_oidc::codec::ID_MIN).unwrap(),
        redirect_uri: String::from("https://rp.test/cb"),
        state: String::from("xyz"),
    };
    let full = head
        .next(&pairs(&[
            ("scope", "openid email"),
            ("response_type", "code"),
            ("nonce", "n-0S6_WzA2Mj"),
            ("display", "page"),
            ("prompt", "consent"),
            ("max_age", "3600"),
            ("ui_locales", "fr-CA fr en"),
            ("login_hint", "alice"),
        ]))
        .unwrap();
    assert_eq!(full.scope.format(), "openid email");
    assert_eq!(full.response_type, "code");
    assert_eq!(full.nonce.as_deref(), Some("n-0S6_WzA2Mj"));
    assert_eq!(full.display.as_deref(), Some("page"));
    assert_eq!(full.prompt.as_deref(), Some("consent"));
    assert_eq!(full.max_age, Some(3600));
    assert_eq!(full.ui_locales, vec!["fr-CA", "fr", "en"]);
    assert_eq!(full.login_hint.as_deref(), Some("alice"));
    assert!(full.response_mode.is_none());
    assert!(full.id_token_hint.is_none());
}

#[test]
fn bad_max_age_redirects() {
    let head = OidcAuthRequestHead {
        client_id: mini_oidc::codec::EntityId::from_raw(mini_oidc::codec::ID_MIN).unwrap(),
        redirect_uri: String::from("https://rp.test/cb"),
        state: String::from("xyz"),
    };
    let r = head.next(&pairs(&[
        ("scope", "openid"),
        ("response_type", "code"),
        ("max_age", "soon"),
    ]));
    match r {
        Err(ApiError::Redirect(url)) => {
            assert!(url.contains("error_description=invalid+max_age"));
        }
        _ => panic!("expected an error redirect"),
    }
}

#[test]
fn parse_i64_covers_the_whole_range() {
    assert_eq!(parse_i64("0"), Ok(0));
    assert_eq!(parse_i64("3600"), Ok(3600));
    assert_eq!(parse_i64("-5"), Ok(-5));
    assert_eq!(parse_i64("007"), Ok(7));
    assert_eq!(parse_i64("9223372036854775807"), Ok(i64::MAX));
    assert_eq!(parse_i64("-9223372036854775808"), Ok(i64::MIN));
    assert!(parse_i64("9223372036854775808").is_err());
    assert!(parse_i64("-9223372036854775809").is_err());
    assert!(parse_i64("").is_err());
    assert!(parse_i64("-").is_err());
    assert!(parse_i64("12a").is_err());
    assert!(parse_i64("+5").is_err());
}

#[test]
fn lookup_takes_the_first_occurrence() {
    let q = pairs(&[("a", "1"), ("b", "2"), ("a", "3")]);
    assert_eq!(lookup(&q, "a").map(String::as_str), Some("1"));
    assert_eq!(lookup(&q, "b").map(String::as_str), Some("2"));
    assert!(lookup(&q, "c").is_none());
}

#[test]
fn registration_requires_a_client_name() {
    let mut registry = ClientRegistry::new();
    let r = registry.register_client(
        ClientMetadata {
            client_name: None,
            application_type: None,
            client_uri: None,
            logo_uri: None,
            redirect_uris: vec![String::from("https://rp.test/cb")],
            contacts: vec![],
        },
        &links(),
    );
    assert!(matches!(
        r,
        Err(ApiError::OidcRegistration(
            RegisterErrorKind::InvalidClientMetadata
        ))
    ));
    assert_eq!(registry.clients.len(), 0);
}

#[test]
fn registration_rejects_malformed_redirect_uris() {
    let mut registry = ClientRegistry::new();
    let r = registry.register_client(
        ClientMetadata {
            client_name: Some(String::from("My RP")),
            application_type: None,
            client_uri: None,
            logo_uri: None,
            redirect_uris: vec![String::from("https://rp.test/cb"), String::from("not a url")],
            contacts: vec![],
        },
        &links(),
    );
    assert!(matches!(
        r,
        Err(ApiError::OidcRegistration(
            RegisterErrorKind::InvalidClientMetadata
        ))
    ));
    assert_eq!(registry.clients.len(), 0);
}

#[test]
fn registration_defaults_and_echoes() {
    let mut registry = ClientRegistry::new();
    let resp = registry
        .register_client(
            ClientMetadata {
                client_name: Some(String::from("My RP")),
                application_type: None,
                client_uri: None,
                logo_uri: None,
                redirect_uris: vec![
                    String::from("https://rp.test/cb"),
                    String::from("https://rp.test/alt"),
                ],
                contacts: vec![String::from("ops@rp.test")],
            },
            &links(),
        )
        .unwrap();
    assert_eq!(resp.application_type, AppType::Web);
    assert_eq!(resp.client_secret.len(), 64);
    assert_eq!(resp.registration_token.len(), 64);
    assert_eq!(
        resp.registration_client_uri,
        format!("https://idp.test/api/oidc/config/{}", resp.client_id.encode())
    );
    assert_eq!(resp.redirect_uris.len(), 2);
    assert_eq!(resp.contacts, vec![String::from("ops@rp.test")]);

    let stored = registry.find(resp.client_id).unwrap();
    assert_eq!(stored.client_name, "My RP");
    assert_eq!(stored.logo_uri, "https://idp.test/static/default_icon.png");
    assert_eq!(stored.app_type, AppType::Web);

    assert!(registry.redirect_uri_valid(resp.client_id, &String::from("https://rp.test/alt")));
    assert!(!registry.redirect_uri_valid(resp.client_id, &String::from("https://rp.test/cb/")));
    assert!(registry.check_client_secret(resp.client_id, &resp.client_secret));
    assert!(!registry.check_client_secret(resp.client_id, &String::from("WRONG")));
}

#[test]
fn discovery_document_is_derived_from_the_issuer() {
    let meta = configuration(&links());
    assert_eq!(meta.issuer, "https://idp.test");
    assert_eq!(
        meta.authorization_endpoint,
        "https://idp.test/api/oauth2/auth"
    );
    assert_eq!(meta.token_endpoint, "https://idp.test/api/oauth2/token");
    assert_eq!(meta.userinfo_endpoint, "https://idp.test/api/oidc/userinfo");
    assert_eq!(meta.jwks_uri, "https://idp.test/api/oidc/jwks");
    assert_eq!(
        meta.registration_endpoint,
        "https://idp.test/api/oidc/register"
    );
    assert_eq!(meta.response_types_supported, vec![String::from("code")]);
    assert_eq!(meta.subject_types_supported, vec![String::from("public")]);
    assert_eq!(
        meta.id_token_signing_alg_values_supported,
        vec![String::from("RS256")]
    );
    assert_eq!(meta.scopes_supported, vec!["openid", "profile", "email"]);
    assert_eq!(meta.claims_supported.len(), 8);
}

#[test]
fn links_carry_the_redirect_parameter() {
    let l = links();
    assert_eq!(
        l.login_from(&String::from("https://idp.test/api/oauth2/auth?x=1")),
        "https://idp.test/login?redirect_uri=https%3A%2F%2Fidp.test%2Fapi%2Foauth2%2Fauth%3Fx%3D1"
    );
    assert_eq!(
        l.register_from(&String::from("/")),
        "https://idp.test/register?redirect_uri=%2F"
    );
    assert_eq!(l.user_page(&String::from("10000000")), "https://idp.test/user/10000000");
}
