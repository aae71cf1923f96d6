use blazebooru::claims::SHORT_TTL_SECONDS;
use blazebooru::codec::SigningKey;
use blazebooru::errors::AuthError;
use blazebooru::ip::IpAddress;
use blazebooru::manager::SessionManager;

const IP: IpAddress = IpAddress::V4(0x0a00_0001);

fn manager() -> SessionManager {
    SessionManager::new(SigningKey { key: 0x5eed_5eed_5eed_5eed })
}

#[test]
fn register_refresh_replay() {
    // Register "alice" (user id 1): receive {A1, R1}; refresh R1:
    // receive {A2, R2} with R2 != R1; refresh R1 again: replay refused.
    let mut mgr = manager();
    let first = mgr.login_or_register(1, IP, 1000, 101).expect("registration must succeed");
    let r1 = first.refresh_token;
    let a1 = first.access_token.clone();

    let claims = mgr.verify_access_token(&a1, 1000).expect("fresh access token must verify");
    assert_eq!(claims.claims.user_id, 1);

    let second = mgr.refresh(r1, IP, 1200, 202).expect("first refresh must succeed");
    let r2 = second.refresh_token;
    assert_ne!(r2, r1);
    assert_ne!(second.access_token, a1);

    assert!(matches!(mgr.refresh(r1, IP, 1300, 303), Err(AuthError::RefreshConsumed)));
    // and the new pair still works
    let claims2 = mgr
        .verify_access_token(&second.access_token, 1200)
        .expect("new access token must verify");
    assert_eq!(claims2.claims.user_id, 1);
    assert_eq!(claims2.session, claims.session);
}

#[test]
fn access_token_expires() {
    let mut mgr = manager();
    let login = mgr.login_or_register(7, IP, 1000, 101).expect("login must succeed");
    assert_eq!(login.exp, 1000 + SHORT_TTL_SECONDS);
    assert!(mgr.verify_access_token(&login.access_token, login.exp - 1).is_ok());
    assert_eq!(
        mgr.verify_access_token(&login.access_token, login.exp),
        Err(AuthError::TokenExpired)
    );
}

#[test]
fn logout_then_refresh_is_revoked() {
    // logout(session) and then a refresh with the session's last-valid
    // token answers `SessionRevoked`.
    let mut mgr = manager();
    let first = mgr.login_or_register(1, IP, 1000, 101).expect("login must succeed");
    let second = mgr.refresh(first.refresh_token, IP, 1100, 202).expect("refresh must succeed");
    let claims = mgr
        .verify_access_token(&second.access_token, 1100)
        .expect("access token must verify");

    mgr.logout(claims.session);
    assert!(matches!(
        mgr.refresh(second.refresh_token, IP, 1200, 303),
        Err(AuthError::SessionRevoked)
    ));
}

#[test]
fn logout_twice_is_silent() {
    let mut mgr = manager();
    let login = mgr.login_or_register(1, IP, 1000, 101).expect("login must succeed");
    let claims = mgr.verify_access_token(&login.access_token, 1000).expect("token must verify");
    mgr.logout(claims.session);
    mgr.logout(claims.session);
    assert!(matches!(
        mgr.refresh(login.refresh_token, IP, 1100, 202),
        Err(AuthError::SessionRevoked)
    ));
}

#[test]
fn tokens_of_other_managers_are_refused() {
    let mut issuing = manager();
    let other = SessionManager::new(SigningKey { key: 1 });
    let login = issuing.login_or_register(1, IP, 1000, 101).expect("login must succeed");
    assert_eq!(
        other.verify_access_token(&login.access_token, 1000),
        Err(AuthError::TokenInvalid)
    );
}

#[test]
fn login_against_host_clock() {
    // Exercises the real clock and the real identifier generator.
    let mut mgr = manager();
    let first = mgr.login_or_register_now(5, IP).expect("login must succeed");
    let second = mgr.refresh_now(first.refresh_token, IP).expect("refresh must succeed");
    assert_ne!(first.refresh_token, second.refresh_token);
    assert_ne!(first.refresh_token, 0);
    assert_ne!(second.refresh_token, 0);
    assert!(matches!(
        mgr.refresh_now(first.refresh_token, IP),
        Err(AuthError::RefreshConsumed)
    ));
}
