//! Argon2 hashing, CSRF verification, secrets, and error rendering.

use mini_oidc::csrf::{constant_time_eq, CsrfNonce};
use mini_oidc::errors::{ApiError, RegisterErrorKind, TokenErrorKind};
use mini_oidc::password::{hash_password, verify_password, VerifyOutcome};
use mini_oidc::secret::gen_secret;

#[test]
fn hashing_then_verifying_matches() {
    let password = String::from("p4ss");
    let hash = hash_password(&password).unwrap();
    assert_ne!(hash, password);
    assert!(hash.starts_with("$argon2"));
    assert!(matches!(
        verify_password(&hash, &password),
        VerifyOutcome::Match
    ));
}

#[test]
fn wrong_password_is_distinguished_from_a_bad_hash() {
    let hash = hash_password(&String::from("p4ss")).unwrap();
    assert!(matches!(
        verify_password(&hash, &String::from("other")),
        VerifyOutcome::WrongPassword
    ));
    assert!(matches!(
        verify_password(&String::from("not a phc hash"), &String::from("p4ss")),
        VerifyOutcome::BadHash
    ));
}

#[test]
fn secrets_are_long_alphanumeric_and_fresh() {
    let a = gen_secret();
    let b = gen_secret();
    assert_eq!(a.len(), 64);
    assert_eq!(b.len(), 64);
    assert!(a.chars().all(|c| c.is_ascii_alphanumeric()));
    assert_ne!(a, b);
}

#[test]
fn csrf_nonces_must_match_exactly() {
    let cookie = CsrfNonce(String::from("abc123"));
    assert!(cookie.verify(&CsrfNonce(String::from("abc123"))).is_ok());
    let mismatch = cookie.verify(&CsrfNonce(String::from("abc124")));
    assert!(matches!(mismatch, Err(ApiError::CsrfFailure)));
    assert_eq!(mismatch.unwrap_err().status(), 400);
    let missing = cookie.verify(&CsrfNonce(String::new()));
    assert!(matches!(missing, Err(ApiError::CsrfFailure)));
}

#[test]
fn constant_time_comparison_agrees_with_equality() {
    assert!(constant_time_eq(&String::from("same"), &String::from("same")));
    assert!(!constant_time_eq(&String::from("same"), &String::from("samf")));
    assert!(!constant_time_eq(&String::from("short"), &String::from("longer")));
    assert!(constant_time_eq(&String::new(), &String::new()));
}

#[test]
fn error_kinds_render_their_statuses_and_codes() {
    assert_eq!(ApiError::CsrfFailure.status(), 400);
    assert_eq!(ApiError::Database.status(), 500);
    assert_eq!(ApiError::PasswordHash.status(), 500);
    assert_eq!(ApiError::Url.status(), 500);
    assert_eq!(ApiError::Crypto.status(), 500);
    assert_eq!(
        ApiError::OauthToken(TokenErrorKind::InvalidGrant).status(),
        400
    );
    assert_eq!(
        ApiError::OidcRegistration(RegisterErrorKind::InvalidClientMetadata).status(),
        400
    );
    assert_eq!(ApiError::BadRequest.status(), 400);
    assert_eq!(ApiError::NotFound.status(), 404);
    assert_eq!(ApiError::Unauthorized.status(), 401);
    assert_eq!(ApiError::Redirect(String::from("https://x/")).status(), 303);
    assert_eq!(TokenErrorKind::InvalidGrant.code(), "invalid_grant");
    assert_eq!(TokenErrorKind::InvalidClient.code(), "invalid_client");
    assert_eq!(
        RegisterErrorKind::InvalidClientMetadata.code(),
        "invalid_client_metadata"
    );
}
