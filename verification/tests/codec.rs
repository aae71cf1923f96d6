use blazebooru::claims::{AuthClaims, SessionClaims, TokenKind, TtlPolicy, SHORT_TTL_SECONDS};
use blazebooru::codec::{issue, verify, SigningKey, TOKEN_LEN};
use blazebooru::errors::AuthError;

fn sample_claims() -> SessionClaims {
    SessionClaims { session: 7, claims: AuthClaims { user_id: 42 } }
}

#[test]
fn issue_verify_roundtrip() {
    let key = SigningKey { key: 0x1234_5678_9abc_def0 };
    let claims = sample_claims();
    let token = issue(claims, TtlPolicy::Short, 1000, &key);
    assert_eq!(token.len(), TOKEN_LEN);
    let p = verify(&token, &key, 1000 + SHORT_TTL_SECONDS - 1).expect("fresh token must verify");
    assert_eq!(p.claims, claims);
    assert_eq!(p.iat, 1000);
    assert_eq!(p.exp, 1000 + SHORT_TTL_SECONDS);
    assert_eq!(p.kind, TokenKind::Access);
}

#[test]
fn roundtrip_negative_ids() {
    let key = SigningKey { key: 3 };
    let claims = SessionClaims { session: -9_000_000_000, claims: AuthClaims { user_id: -5 } };
    let token = issue(claims, TtlPolicy::Seconds(60), 500, &key);
    let p = verify(&token, &key, 510).expect("token must verify");
    assert_eq!(p.claims, claims);
}

#[test]
fn verify_expired_after_ttl() {
    // TTL of one second; two seconds later the token is expired,
    // and the failure is expiry, not invalidity.
    let key = SigningKey { key: 99 };
    let token = issue(sample_claims(), TtlPolicy::Seconds(1), 1000, &key);
    assert_eq!(verify(&token, &key, 1002), Err(AuthError::TokenExpired));
}

#[test]
fn verify_expired_at_expiry_instant() {
    let key = SigningKey { key: 99 };
    let token = issue(sample_claims(), TtlPolicy::Seconds(1), 1000, &key);
    assert_eq!(verify(&token, &key, 1001), Err(AuthError::TokenExpired));
    assert!(verify(&token, &key, 1000).is_ok());
}

#[test]
fn expired_never_invalid() {
    // A well-signed token stays `TokenExpired` at every later instant.
    let key = SigningKey { key: 1 };
    let token = issue(sample_claims(), TtlPolicy::Short, 0, &key);
    for now in [SHORT_TTL_SECONDS, SHORT_TTL_SECONDS + 1, 10_000, u64::MAX] {
        assert_eq!(verify(&token, &key, now), Err(AuthError::TokenExpired));
    }
}

#[test]
fn tampering_any_byte_is_invalid() {
    // Flipping any single byte of payload or signature breaks the tag
    // check (or the payload shape) and is always `TokenInvalid`.
    let key = SigningKey { key: 0xdead_beef };
    let token = issue(sample_claims(), TtlPolicy::Short, 1000, &key);
    let mut rng: u64 = 0x2545_f491_4f6c_dd1d;
    for i in 0..token.len() {
        for mask in [0x01u8, 0x80u8, 0xffu8] {
            let mut t = token.clone();
            t[i] ^= mask;
            assert_eq!(verify(&t, &key, 1000), Err(AuthError::TokenInvalid));
        }
        // a pseudo-random flip as well
        rng = rng.wrapping_mul(6364136223846793005).wrapping_add(1442695040888963407);
        let mask = (rng >> 33) as u8;
        if mask != 0 {
            let mut t = token.clone();
            t[i] ^= mask;
            assert_eq!(verify(&t, &key, 1000), Err(AuthError::TokenInvalid));
        }
    }
}

#[test]
fn malformed_tokens_are_invalid() {
    let key = SigningKey { key: 5 };
    assert_eq!(verify(&[], &key, 0), Err(AuthError::TokenInvalid));
    assert_eq!(verify(&[0u8; 10], &key, 0), Err(AuthError::TokenInvalid));
    assert_eq!(verify(&[0u8; 37], &key, 0), Err(AuthError::TokenInvalid));
    let token = issue(sample_claims(), TtlPolicy::Short, 1000, &key);
    assert_eq!(verify(&token[..36], &key, 1000), Err(AuthError::TokenInvalid));
}

#[test]
fn wrong_key_is_invalid() {
    let token = issue(sample_claims(), TtlPolicy::Short, 1000, &SigningKey { key: 1 });
    assert_eq!(
        verify(&token, &SigningKey { key: 2 }, 1000),
        Err(AuthError::TokenInvalid)
    );
}

#[test]
fn ttl_policy_seconds() {
    assert_eq!(TtlPolicy::Short.ttl_seconds(), SHORT_TTL_SECONDS);
    assert_eq!(TtlPolicy::Seconds(1).ttl_seconds(), 1);
}

#[test]
fn text_token_roundtrip() {
    let key = SigningKey { key: 0xfeed };
    let claims = sample_claims();
    let text = blazebooru::codec::issue_text(claims, TtlPolicy::Short, 1000, &key);
    assert_eq!(text.len(), 2 * TOKEN_LEN);
    assert!(text.chars().all(|c| c.is_ascii_hexdigit() && !c.is_ascii_uppercase()));
    let p = blazebooru::codec::verify_text(&text, &key, 1000).expect("text token must verify");
    assert_eq!(p.claims, claims);
}

#[test]
fn tampering_text_is_invalid() {
    let key = SigningKey { key: 0xfeed };
    let text = blazebooru::codec::issue_text(sample_claims(), TtlPolicy::Short, 1000, &key);
    let chars: Vec<char> = text.chars().collect();
    for i in 0..chars.len() {
        // replace the digit with a different one, and with a stray character
        let replacement = if chars[i] == '0' { '1' } else { '0' };
        let mut t = chars.clone();
        t[i] = replacement;
        let tampered: String = t.iter().collect();
        assert_eq!(
            blazebooru::codec::verify_text(&tampered, &key, 1000),
            Err(AuthError::TokenInvalid)
        );
        let mut t = chars.clone();
        t[i] = 'z';
        let tampered: String = t.iter().collect();
        assert_eq!(
            blazebooru::codec::verify_text(&tampered, &key, 1000),
            Err(AuthError::TokenInvalid)
        );
    }
    // truncation and oddness are refused too
    assert_eq!(
        blazebooru::codec::verify_text(&text[..text.len() - 1], &key, 1000),
        Err(AuthError::TokenInvalid)
    );
    assert_eq!(
        blazebooru::codec::verify_text("", &key, 1000),
        Err(AuthError::TokenInvalid)
    );
}
