//! Session manager: thin orchestration of the token codec and the
//! session store, exposing login/registration, refresh and logout to
//! the routing layer.
//!
//! Either the caller gets a fully new credential pair or nothing is
//! issued: no operation here partially succeeds beyond what the store's
//! own atomic step already performed.

use vstd::prelude::*;

use crate::claims::{AuthClaims, JwtClaims, SessionClaims, TtlPolicy, SHORT_TTL_SECONDS};
use crate::codec;
use crate::codec::SigningKey;
use crate::errors::AuthError;
use crate::host;
use crate::ip::IpAddress;
use crate::store::{spec_create, spec_invalidate, spec_rotate, SessionStore, StoreModel};

verus! {

/// The credential envelope handed back on login, registration or
/// refresh: a signed access token, its expiry, and the opaque
/// single-use refresh token.
pub struct LoginResult {
    pub access_token: String,
    pub exp: u64,
    pub refresh_token: u128,
}

/// What a finished login or registration looks like: the store took
/// the creation step, and on success the envelope carries the fresh
/// refresh token and an access token signed over the new session.
pub open spec fn spec_login_outcome(
    pre: StoreModel,
    key: u64,
    user_id: i32,
    ip: IpAddress,
    now: u64,
    token_id: u128,
    post: StoreModel,
    r: Result<LoginResult, AuthError>,
) -> bool {
    let (m2, cres) = spec_create(pre, user_id, ip, now, token_id);
    &&& post == m2
    &&& match cres {
        Ok(c) => r matches Ok(lr) && lr.refresh_token == c.token && lr.exp == (now
            + SHORT_TTL_SECONDS) as u64 && lr.access_token@ == codec::spec_token_text(
            JwtClaims::spec_short(
                SessionClaims { session: c.session, claims: AuthClaims { user_id } },
                now,
            ),
            key,
        ),
        Err(e) => r matches Err(e2) && e2 == e,
    }
}

/// What a finished refresh looks like: the store took the rotation
/// step, and on success the envelope carries the successor refresh
/// token and an access token signed over the same session.
pub open spec fn spec_refresh_outcome(
    pre: StoreModel,
    key: u64,
    presented: u128,
    ip: IpAddress,
    now: u64,
    new_token: u128,
    post: StoreModel,
    r: Result<LoginResult, AuthError>,
) -> bool {
    let (m2, rres) = spec_rotate(pre, presented, ip, now, new_token);
    &&& post == m2
    &&& match rres {
        Ok(c) => r matches Ok(lr) && lr.refresh_token == c.token && lr.exp == (now
            + SHORT_TTL_SECONDS) as u64 && lr.access_token@ == codec::spec_token_text(
            JwtClaims::spec_short(
                SessionClaims { session: c.session, claims: AuthClaims { user_id: c.user_id } },
                now,
            ),
            key,
        ),
        Err(e) => r matches Err(e2) && e2 == e,
    }
}

/// The access token handed out by a successful login or registration
/// verifies, at any instant before its expiry, to the very claims of
/// the session that was created.
pub proof fn lemma_login_token_verifies(
    pre: StoreModel,
    key: u64,
    user_id: i32,
    ip: IpAddress,
    now: u64,
    token_id: u128,
    post: StoreModel,
    r: Result<LoginResult, AuthError>,
    t: u64,
)
    requires
        spec_login_outcome(pre, key, user_id, ip, now, token_id, post, r),
        r is Ok,
        now + SHORT_TTL_SECONDS <= u64::MAX,
        t < now + SHORT_TTL_SECONDS,
    ensures
        (codec::spec_verify_text(r->Ok_0.access_token@, key, t) matches Ok(p) && p.claims == (
        SessionClaims {
            session: spec_create(pre, user_id, ip, now, token_id).1->Ok_0.session,
            claims: AuthClaims { user_id },
        })),
{
    let c = spec_create(pre, user_id, ip, now, token_id).1->Ok_0;
    let claims = SessionClaims { session: c.session, claims: AuthClaims { user_id } };
    assert(JwtClaims::spec_short(claims, now) == JwtClaims::spec_with_policy(
        claims,
        TtlPolicy::Short,
        now,
    ));
    codec::lemma_verify_text_of_token(JwtClaims::spec_short(claims, now), key, t);
    codec::lemma_verify_of_issued(claims, TtlPolicy::Short, key, now, t);
}

/// The access token handed out by a successful refresh verifies, at
/// any instant before its expiry, to the claims of the rotated
/// session.
pub proof fn lemma_refresh_token_verifies(
    pre: StoreModel,
    key: u64,
    presented: u128,
    ip: IpAddress,
    now: u64,
    new_token: u128,
    post: StoreModel,
    r: Result<LoginResult, AuthError>,
    t: u64,
)
    requires
        spec_refresh_outcome(pre, key, presented, ip, now, new_token, post, r),
        r is Ok,
        now + SHORT_TTL_SECONDS <= u64::MAX,
        t < now + SHORT_TTL_SECONDS,
    ensures
        (codec::spec_verify_text(r->Ok_0.access_token@, key, t) matches Ok(p) && p.claims == (
        SessionClaims {
            session: spec_rotate(pre, presented, ip, now, new_token).1->Ok_0.session,
            claims: AuthClaims {
                user_id: spec_rotate(pre, presented, ip, now, new_token).1->Ok_0.user_id,
            },
        })),
{
    let c = spec_rotate(pre, presented, ip, now, new_token).1->Ok_0;
    let claims = SessionClaims { session: c.session, claims: AuthClaims { user_id: c.user_id } };
    assert(JwtClaims::spec_short(claims, now) == JwtClaims::spec_with_policy(
        claims,
        TtlPolicy::Short,
        now,
    ));
    codec::lemma_verify_text_of_token(JwtClaims::spec_short(claims, now), key, t);
    codec::lemma_verify_of_issued(claims, TtlPolicy::Short, key, now, t);
}

/// The session manager: the store and the process-wide signing key,
/// initialized once and read-only thereafter.
pub struct SessionManager {
    pub store: SessionStore,
    pub key: SigningKey,
}

impl SessionManager {
    /// A manager over an empty store.
    pub fn new(key: SigningKey) -> (r: SessionManager)
        ensures
            r.store@.wf(),
            r.store@.sessions.len() == 0,
            r.store@.tokens.len() == 0,
            r.key == key,
    {
        SessionManager { store: SessionStore::new(), key }
    }

    /// Log a (new or returning) user in: create a session record and
    /// its first refresh token in the store, then mint a short-lived
    /// access token over the new session's claims.
    pub fn login_or_register(
        &mut self,
        user_id: i32,
        ip: IpAddress,
        now: u64,
        token_id: u128,
    ) -> (r: Result<LoginResult, AuthError>)
        requires
            old(self).store@.wf(),
            now + SHORT_TTL_SECONDS <= u64::MAX,
        ensures
            final(self).store@.wf(),
            final(self).key == old(self).key,
            spec_login_outcome(
                old(self).store@,
                old(self).key.key,
                user_id,
                ip,
                now,
                token_id,
                final(self).store@,
                r,
            ),
    {
        let created = match self.store.create_refresh_token(user_id, ip, now, token_id) {
            Ok(c) => c,
            Err(e) => {
                return Err(e);
            },
        };
        let claims = SessionClaims { session: created.session, claims: AuthClaims { user_id } };
        let payload = JwtClaims::short(claims, now);
        let signed = codec::sign_claims(&payload, &self.key);
        let access_token = crate::hex::hex_encode_text(signed.as_slice());
        Ok(LoginResult { access_token, exp: payload.exp, refresh_token: created.token })
    }

    /// Exchange a presented refresh token: rotate it atomically in the
    /// store and, only on success, mint a fresh access token bound to
    /// the same session.  Every store rejection passes through
    /// unchanged; nothing is issued on failure.
    pub fn refresh(
        &mut self,
        presented: u128,
        ip: IpAddress,
        now: u64,
        new_token: u128,
    ) -> (r: Result<LoginResult, AuthError>)
        requires
            old(self).store@.wf(),
            now + SHORT_TTL_SECONDS <= u64::MAX,
        ensures
            final(self).store@.wf(),
            final(self).key == old(self).key,
            spec_refresh_outcome(
                old(self).store@,
                old(self).key.key,
                presented,
                ip,
                now,
                new_token,
                final(self).store@,
                r,
            ),
    {
        let rotated = match self.store.refresh_refresh_token(presented, ip, now, new_token) {
            Ok(c) => c,
            Err(e) => {
                return Err(e);
            },
        };
        let claims = SessionClaims {
            session: rotated.session,
            claims: AuthClaims { user_id: rotated.user_id },
        };
        let payload = JwtClaims::short(claims, now);
        let signed = codec::sign_claims(&payload, &self.key);
        let access_token = crate::hex::hex_encode_text(signed.as_slice());
        Ok(LoginResult { access_token, exp: payload.exp, refresh_token: rotated.token })
    }

    /// Revoke the session.  Idempotent; always succeeds.
    pub fn logout(&mut self, session: i64)
        requires
            old(self).store@.wf(),
        ensures
            final(self).store@.wf(),
            final(self).key == old(self).key,
            final(self).store@ == spec_invalidate(old(self).store@, session),
    {
        self.store.invalidate_session(session);
    }

    /// Gate of every protected request: verify the presented access
    /// token and hand back the session claims it carries.  Pure — no
    /// store lookup.
    pub fn verify_access_token(&self, token: &str, now: u64) -> (r: Result<
        SessionClaims,
        AuthError,
    >)
        ensures
            match codec::spec_verify_text(token@, self.key.key, now) {
                Ok(p) => r == Ok::<SessionClaims, AuthError>(p.claims),
                Err(e) => r == Err::<SessionClaims, AuthError>(e),
            },
    {
        match codec::verify_text(token, &self.key, now) {
            Ok(p) => Ok(p.claims),
            Err(e) => Err(e),
        }
    }

    /// Log in against the host's own clock and entropy: draws the
    /// current time and a fresh token identifier, then takes the
    /// verified login step with them.
    pub fn login_or_register_now(&mut self, user_id: i32, ip: IpAddress) -> (r: Result<
        LoginResult,
        AuthError,
    >)
        requires
            old(self).store@.wf(),
        ensures
            final(self).store@.wf(),
            final(self).key == old(self).key,
            exists|now: u64, token_id: u128|
                spec_login_outcome(
                    old(self).store@,
                    old(self).key.key,
                    user_id,
                    ip,
                    now,
                    token_id,
                    final(self).store@,
                    r,
                ),
    {
        let t = host::now_unix();
        let now: u64 = if t < 0 {
            0u64
        } else {
            t as u64
        };
        let token_id = host::fresh_token_id();
        let r = self.login_or_register(user_id, ip, now, token_id);
        proof {
            assert(spec_login_outcome(
                old(self).store@,
                old(self).key.key,
                user_id,
                ip,
                now,
                token_id,
                self.store@,
                r,
            ));
        }
        r
    }

    /// Refresh against the host's own clock and entropy.
    pub fn refresh_now(&mut self, presented: u128, ip: IpAddress) -> (r: Result<
        LoginResult,
        AuthError,
    >)
        requires
            old(self).store@.wf(),
        ensures
            final(self).store@.wf(),
            final(self).key == old(self).key,
            exists|now: u64, new_token: u128|
                spec_refresh_outcome(
                    old(self).store@,
                    old(self).key.key,
                    presented,
                    ip,
                    now,
                    new_token,
                    final(self).store@,
                    r,
                ),
    {
        let t = host::now_unix();
        let now: u64 = if t < 0 {
            0u64
        } else {
            t as u64
        };
        let new_token = host::fresh_token_id();
        let r = self.refresh(presented, ip, now, new_token);
        proof {
            assert(spec_refresh_outcome(
                old(self).store@,
                old(self).key.key,
                presented,
                ip,
                now,
                new_token,
                self.store@,
                r,
            ));
        }
        r
    }
}

} // verus!
