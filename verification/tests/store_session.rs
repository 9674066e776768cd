//! Credential-store behavior: expiry checks, single use, the sweep, and the
//! sliding session refresh.

use mini_oidc::codec::EntityId;
use mini_oidc::session::{AuthSession, SessionStore};
use mini_oidc::store::{AccessTokenBody, CredStore, SessionBody};
use mini_oidc::scopes::Scopes;
use mini_oidc::users::{UserRecord, UserTable};

fn some_id(offset: u64) -> EntityId {
    EntityId::from_raw(mini_oidc::codec::ID_MIN + offset).unwrap()
}

fn token_body(scope: &str) -> AccessTokenBody {
    AccessTokenBody { scope: Scopes::parse(scope) }
}

#[test]
fn get_respects_the_validity_window() {
    let mut store: CredStore<AccessTokenBody> = CredStore::new();
    let uid = store
        .insert(some_id(1), some_id(2), 1_000_000, token_body("openid"))
        .unwrap();
    assert!(store.get(&uid, 999_999).is_some());
    assert!(store.get(&uid, 1_000_000).is_none());
    assert!(store.get(&uid, 2_000_000).is_none());
    assert!(store.get(&String::from("unknown"), 0).is_none());
}

#[test]
fn take_is_single_use() {
    let mut store: CredStore<AccessTokenBody> = CredStore::new();
    let uid = store
        .insert(some_id(1), some_id(2), 1_000_000, token_body("openid"))
        .unwrap();
    let first = store.take(&uid, 10);
    assert!(first.is_some());
    assert_eq!(first.unwrap().uid, uid);
    assert!(store.take(&uid, 10).is_none());
    assert!(store.get(&uid, 10).is_none());
}

#[test]
fn sweep_deletes_exactly_the_expired_rows() {
    let mut store: CredStore<AccessTokenBody> = CredStore::new();
    let dead = store.insert(some_id(1), some_id(2), 100, token_body("a")).unwrap();
    let live = store.insert(some_id(3), some_id(4), 300, token_body("b")).unwrap();
    let border = store.insert(some_id(5), some_id(6), 200, token_body("c")).unwrap();
    let removed = store.sweep(200);
    assert_eq!(removed, 1);
    assert!(store.get(&dead, 150).is_none());
    assert!(store.get(&live, 150).is_some());
    // A row expiring exactly at the sweep instant stays (only `< now` goes).
    assert!(store.get(&border, 150).is_some());
}

#[test]
fn sweep_twice_changes_nothing_more() {
    let mut store: CredStore<AccessTokenBody> = CredStore::new();
    for k in 0..6u64 {
        store
            .insert(some_id(k), some_id(k + 10), 100 * k, token_body("s"))
            .unwrap();
    }
    let first = store.sweep(250);
    assert_eq!(first, 3);
    let uids_after_one: Vec<String> =
        store.records.iter().map(|r| r.uid.clone()).collect();
    let second = store.sweep(250);
    assert_eq!(second, 0);
    let uids_after_two: Vec<String> =
        store.records.iter().map(|r| r.uid.clone()).collect();
    assert_eq!(uids_after_one, uids_after_two);
}

#[test]
fn delete_removes_regardless_of_expiry() {
    let mut store: CredStore<AccessTokenBody> = CredStore::new();
    let uid = store.insert(some_id(1), some_id(2), 100, token_body("x")).unwrap();
    assert!(store.delete(&uid));
    assert!(!store.delete(&uid));
}

fn user_table_with(username: &str) -> (UserTable, EntityId) {
    let mut users = UserTable::new();
    let id = some_id(77);
    users
        .insert(UserRecord {
            id,
            username: String::from(username),
            email: None,
            password_hash: String::from("x"),
        })
        .unwrap();
    (users, id)
}

#[test]
fn session_resolution_slides_the_expiry() {
    let (users, user_id) = user_table_with("alice");
    let mut sessions: SessionStore = CredStore::new();
    let ip = String::from("127.0.0.1:9000");
    let cookie = AuthSession::create(&mut sessions, user_id, &ip, 1_000).unwrap();
    assert_eq!(cookie.expires, 1_000 + 1800);

    let later_ip = String::from("127.0.0.1:9001");
    let resolved =
        AuthSession::resolve(&mut sessions, &users, Some(&cookie.value), &later_ip, 2_000)
            .unwrap();
    assert_eq!(resolved.user_id, user_id);
    assert_eq!(resolved.username, "alice");
    assert_eq!(resolved.last_ip, "127.0.0.1:9001");
    assert!(resolved.expires >= 2_000 + 1800);
    // The stored row slid with it: a lookup at the old deadline still works.
    assert!(sessions.get(&cookie.value, 1_000 + 1800).is_some());
}

#[test]
fn session_expiry_never_regresses() {
    let (users, user_id) = user_table_with("bob");
    let mut sessions: SessionStore = CredStore::new();
    let ip = String::from("10.0.0.1:1");
    let cookie = AuthSession::create(&mut sessions, user_id, &ip, 5_000).unwrap();
    let resolved =
        AuthSession::resolve(&mut sessions, &users, Some(&cookie.value), &ip, 5_001).unwrap();
    // now + 30 min from the later request.
    assert_eq!(resolved.expires, 5_001 + 1800);
    let row_expires = sessions.get(&cookie.value, 5_001).unwrap().expires;
    assert_eq!(row_expires, 5_001 + 1800);
}

#[test]
fn expired_or_missing_sessions_resolve_to_nothing() {
    let (users, user_id) = user_table_with("carol");
    let mut sessions: SessionStore = CredStore::new();
    let ip = String::from("10.0.0.2:1");
    let cookie = AuthSession::create(&mut sessions, user_id, &ip, 1_000).unwrap();
    assert!(AuthSession::resolve(&mut sessions, &users, None, &ip, 1_001).is_none());
    assert!(
        AuthSession::resolve(&mut sessions, &users, Some(&String::from("nope")), &ip, 1_001)
            .is_none()
    );
    assert!(
        AuthSession::resolve(&mut sessions, &users, Some(&cookie.value), &ip, 1_000 + 1800)
            .is_none()
    );
}

#[test]
fn destroy_clears_the_row_and_the_cookie() {
    let (users, user_id) = user_table_with("dave");
    let mut sessions: SessionStore = CredStore::new();
    let ip = String::from("10.0.0.3:1");
    let cookie = AuthSession::create(&mut sessions, user_id, &ip, 1_000).unwrap();
    let session =
        AuthSession::resolve(&mut sessions, &users, Some(&cookie.value), &ip, 1_001).unwrap();
    let cleared = session.destroy(&mut sessions);
    assert_eq!(cleared.value, "");
    assert_eq!(cleared.expires, 0);
    assert!(sessions.get(&cookie.value, 1_001).is_none());
}
