use blazebooru::errors::AuthError;
use blazebooru::ip::IpAddress;
use blazebooru::store::SessionStore;

const IP: IpAddress = IpAddress::V4(0x7f00_0001);

#[test]
fn create_then_rotate() {
    let mut store = SessionStore::new();
    let created = store.create_refresh_token(1, IP, 100, 111).expect("creation must succeed");
    assert_eq!(created.token, 111);

    let rotated = store.refresh_refresh_token(111, IP, 200, 222).expect("rotation must succeed");
    assert_eq!(rotated.token, 222);
    assert_eq!(rotated.session, created.session);
    assert_eq!(rotated.user_id, 1);
}

#[test]
fn rotate_unknown_token() {
    let mut store = SessionStore::new();
    store.create_refresh_token(1, IP, 100, 111).expect("creation must succeed");
    assert_eq!(
        store.refresh_refresh_token(999, IP, 200, 222),
        Err(AuthError::RefreshNotFound)
    );
}

#[test]
fn rotation_exactly_once() {
    // Of several rotations presenting the identical token, exactly one
    // succeeds; every other one observes the consumed record.
    let mut store = SessionStore::new();
    store.create_refresh_token(1, IP, 100, 111).expect("creation must succeed");
    let mut successes = 0;
    let mut consumed = 0;
    for attempt in 0..5u128 {
        match store.refresh_refresh_token(111, IP, 200, 1000 + attempt) {
            Ok(_) => successes += 1,
            Err(AuthError::RefreshConsumed) => consumed += 1,
            Err(e) => panic!("unexpected rotation error: {:?}", e),
        }
    }
    assert_eq!(successes, 1);
    assert_eq!(consumed, 4);
}

#[test]
fn consumed_token_never_succeeds_again() {
    let mut store = SessionStore::new();
    store.create_refresh_token(1, IP, 100, 111).expect("creation must succeed");
    store.refresh_refresh_token(111, IP, 200, 222).expect("first rotation must succeed");
    for attempt in 0..3u128 {
        assert_eq!(
            store.refresh_refresh_token(111, IP, 300, 2000 + attempt),
            Err(AuthError::RefreshConsumed)
        );
    }
    // rotating the successor still works after the replays were refused
    assert!(store.refresh_refresh_token(222, IP, 400, 333).is_ok());
}

#[test]
fn new_token_collision_is_unavailable() {
    let mut store = SessionStore::new();
    store.create_refresh_token(1, IP, 100, 111).expect("creation must succeed");
    store.create_refresh_token(2, IP, 100, 112).expect("creation must succeed");
    // the drawn successor identifier already names a record
    assert_eq!(
        store.refresh_refresh_token(111, IP, 200, 112),
        Err(AuthError::Unavailable)
    );
    // and so does a second session creation drawing a used identifier
    assert_eq!(
        store.create_refresh_token(3, IP, 100, 111),
        Err(AuthError::Unavailable)
    );
}

#[test]
fn logout_is_idempotent() {
    let mut store = SessionStore::new();
    let created = store.create_refresh_token(1, IP, 100, 111).expect("creation must succeed");
    store.invalidate_session(created.session);
    // the second call succeeds just as silently and changes nothing
    store.invalidate_session(created.session);
    assert_eq!(
        store.refresh_refresh_token(111, IP, 200, 222),
        Err(AuthError::SessionRevoked)
    );
}

#[test]
fn invalidate_unknown_session_is_silent() {
    let mut store = SessionStore::new();
    store.invalidate_session(424242);
    let created = store.create_refresh_token(1, IP, 100, 111).expect("creation must succeed");
    assert!(store.refresh_refresh_token(111, IP, 200, 222).is_ok());
    let _ = created;
}

#[test]
fn revoked_session_blocks_all_its_tokens() {
    // After revocation, rotation with any of the session's tokens —
    // consumed or not — answers `SessionRevoked`.
    let mut store = SessionStore::new();
    let created = store.create_refresh_token(1, IP, 100, 111).expect("creation must succeed");
    store.refresh_refresh_token(111, IP, 200, 222).expect("rotation must succeed");
    store.invalidate_session(created.session);
    // 111 is consumed, 222 was the valid successor: both are refused the same way
    assert_eq!(
        store.refresh_refresh_token(111, IP, 300, 331),
        Err(AuthError::SessionRevoked)
    );
    assert_eq!(
        store.refresh_refresh_token(222, IP, 300, 332),
        Err(AuthError::SessionRevoked)
    );
}

#[test]
fn sessions_are_independent() {
    let mut store = SessionStore::new();
    let a = store.create_refresh_token(1, IP, 100, 111).expect("creation must succeed");
    let b = store.create_refresh_token(2, IP, 100, 211).expect("creation must succeed");
    assert_ne!(a.session, b.session);
    store.invalidate_session(a.session);
    // the other session's token still rotates
    let rotated = store.refresh_refresh_token(211, IP, 200, 212).expect("rotation must succeed");
    assert_eq!(rotated.user_id, 2);
    assert_eq!(
        store.refresh_refresh_token(111, IP, 200, 113),
        Err(AuthError::SessionRevoked)
    );
}
