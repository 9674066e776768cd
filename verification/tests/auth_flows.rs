//! Login, registration, and logout flows, and the CSRF guard on every
//! state-changing form.

use mini_oidc::auth::{login, logout, register, LoginOutcome, LoginRequest, LogoutRequest,
    RegisterRequest};
use mini_oidc::authorize::{authorization_code_post, AuthorizeAction, AuthorizeRequest};
use mini_oidc::csrf::CsrfNonce;
use mini_oidc::errors::ApiError;
use mini_oidc::session::AuthSession;
use mini_oidc::state::ServerState;

const NOW: u64 = 1_900_000_000;

fn state_with_alice() -> ServerState {
    let mut state = ServerState::init(String::from("https://idp.test")).unwrap();
    register(
        &mut state.users,
        &mut state.sessions,
        &CsrfNonce(String::from("n")),
        &RegisterRequest {
            username: String::from("alice"),
            email: String::from("alice@example.test"),
            password: String::from("p4ss"),
            csrf: CsrfNonce(String::from("n")),
        },
        &String::from("1.2.3.4:5"),
        NOW,
    )
    .unwrap();
    state
}

fn try_login(state: &mut ServerState, username: &str, password: &str) -> LoginOutcome {
    login(
        &state.users,
        &mut state.sessions,
        &CsrfNonce(String::from("n")),
        &LoginRequest {
            username: String::from(username),
            password: String::from(password),
            csrf: CsrfNonce(String::from("n")),
        },
        &String::from("1.2.3.4:5"),
        NOW,
    )
    .unwrap()
}

#[test]
fn registration_mints_a_session_and_login_works() {
    let mut state = state_with_alice();
    assert_eq!(state.users.users.len(), 1);
    assert_eq!(state.sessions.records.len(), 1);
    match try_login(&mut state, "alice", "p4ss") {
        LoginOutcome::Success(cookie) => {
            assert_eq!(cookie.value.len(), 64);
            assert_eq!(cookie.expires, NOW + 1800);
        }
        LoginOutcome::Retry(m) => panic!("unexpected retry: {m}"),
    }
}

#[test]
fn login_reports_unknown_users_and_wrong_passwords() {
    let mut state = state_with_alice();
    match try_login(&mut state, "nobody", "p4ss") {
        LoginOutcome::Retry(m) => assert_eq!(m, "No such user"),
        LoginOutcome::Success(_) => panic!("login must not succeed"),
    }
    match try_login(&mut state, "alice", "wrong") {
        LoginOutcome::Retry(m) => assert_eq!(m, "Wrong password"),
        LoginOutcome::Success(_) => panic!("login must not succeed"),
    }
}

#[test]
fn duplicate_usernames_are_rejected() {
    let mut state = state_with_alice();
    let r = register(
        &mut state.users,
        &mut state.sessions,
        &CsrfNonce(String::from("n")),
        &RegisterRequest {
            username: String::from("alice"),
            email: String::from("other@example.test"),
            password: String::from("x"),
            csrf: CsrfNonce(String::from("n")),
        },
        &String::from("1.2.3.4:5"),
        NOW,
    );
    assert!(matches!(r, Err(ApiError::Database)));
    assert_eq!(state.users.users.len(), 1);
}

#[test]
fn logout_destroys_the_session() {
    let mut state = state_with_alice();
    let cookie = match try_login(&mut state, "alice", "p4ss") {
        LoginOutcome::Success(c) => c,
        LoginOutcome::Retry(m) => panic!("unexpected retry: {m}"),
    };
    let ip = String::from("1.2.3.4:5");
    let session = AuthSession::resolve(
        &mut state.sessions,
        &state.users,
        Some(&cookie.value),
        &ip,
        NOW,
    )
    .unwrap();
    let cleared = logout(
        &mut state.sessions,
        &CsrfNonce(String::from("n")),
        &LogoutRequest { csrf: CsrfNonce(String::from("n")) },
        &session,
    )
    .unwrap();
    assert_eq!(cleared.value, "");
    assert_eq!(cleared.expires, 0);
    assert!(
        AuthSession::resolve(&mut state.sessions, &state.users, Some(&cookie.value), &ip, NOW)
            .is_none()
    );
}

#[test]
fn every_state_changing_form_enforces_csrf() {
    let mut state = state_with_alice();
    let cookie_nonce = CsrfNonce(String::from("browser-nonce"));
    let forged = CsrfNonce(String::from("forged"));
    let ip = String::from("1.2.3.4:5");

    let r = login(
        &state.users,
        &mut state.sessions,
        &cookie_nonce,
        &LoginRequest {
            username: String::from("alice"),
            password: String::from("p4ss"),
            csrf: CsrfNonce(forged.0.clone()),
        },
        &ip,
        NOW,
    );
    assert!(matches!(r, Err(ApiError::CsrfFailure)));

    let r = register(
        &mut state.users,
        &mut state.sessions,
        &cookie_nonce,
        &RegisterRequest {
            username: String::from("mallory"),
            email: String::from("m@example.test"),
            password: String::from("x"),
            csrf: CsrfNonce(forged.0.clone()),
        },
        &ip,
        NOW,
    );
    assert!(matches!(r, Err(ApiError::CsrfFailure)));

    let cookie = match try_login(&mut state, "alice", "p4ss") {
        LoginOutcome::Success(c) => c,
        LoginOutcome::Retry(m) => panic!("unexpected retry: {m}"),
    };
    let session = AuthSession::resolve(
        &mut state.sessions,
        &state.users,
        Some(&cookie.value),
        &ip,
        NOW,
    )
    .unwrap();
    let r = logout(
        &mut state.sessions,
        &cookie_nonce,
        &LogoutRequest { csrf: CsrfNonce(forged.0.clone()) },
        &session,
    );
    assert!(matches!(r, Err(ApiError::CsrfFailure)));
    // The session survives the rejected logout.
    assert!(state.sessions.get(&cookie.value, NOW).is_some());

    let client_id = mini_oidc::codec::EntityId::from_raw(mini_oidc::codec::ID_MIN)
        .unwrap()
        .encode();
    let q: Vec<(String, String)> = vec![
        (String::from("client_id"), client_id),
        (String::from("redirect_uri"), String::from("https://rp.test/cb")),
        (String::from("scope"), String::from("openid")),
        (String::from("state"), String::from("xyz")),
        (String::from("response_type"), String::from("code")),
    ];
    let r = authorization_code_post(
        &state.clients,
        &mut state.codes,
        &session,
        &cookie_nonce,
        &AuthorizeRequest { csrf: CsrfNonce(forged.0.clone()), action: AuthorizeAction::Allow },
        &q,
        NOW,
    );
    assert!(matches!(r, Err(ApiError::CsrfFailure)));
    assert_eq!(r.unwrap_err().status(), 400);
    assert_eq!(state.codes.records.len(), 0);
}
