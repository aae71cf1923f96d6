//! Identity and session claims carried inside a signed token.
//!
//! A `SessionClaims` embeds the full `AuthClaims` rather than a mere
//! reference, so a verified token is self-sufficient: no store lookup
//! is needed to learn who the caller is.

use vstd::prelude::*;

verus! {

/// Identity facts of one authenticated principal.
#[derive(Clone, Copy, Debug, PartialEq, Eq, Structural)]
pub struct AuthClaims {
    pub user_id: i32,
}

/// Session facts: the server-issued session identifier together with
/// the full identity claims of its owner.
#[derive(Clone, Copy, Debug, PartialEq, Eq, Structural)]
pub struct SessionClaims {
    pub session: i64,
    pub claims: AuthClaims,
}

/// Which lifetime policy a signed token was minted under.
#[derive(Clone, Copy, Debug, PartialEq, Eq, Structural)]
pub enum TokenKind {
    Access,
    Refresh,
}

/// Lifetime policy chosen at minting time.  Access tokens use the
/// short policy; an explicit duration in seconds is available where a
/// caller needs a different lifetime.
#[derive(Clone, Copy, Debug, PartialEq, Eq, Structural)]
pub enum TtlPolicy {
    Short,
    Seconds(u64),
}

/// Lifetime of the short policy, in seconds.
pub const SHORT_TTL_SECONDS: u64 = 900;

impl TtlPolicy {
    /// Duration in seconds granted by this policy.
    pub open spec fn spec_ttl_seconds(self) -> u64 {
        match self {
            TtlPolicy::Short => SHORT_TTL_SECONDS,
            TtlPolicy::Seconds(s) => s,
        }
    }

    /// Duration in seconds granted by this policy.
    pub fn ttl_seconds(self) -> (r: u64)
        ensures
            r == self.spec_ttl_seconds(),
    {
        match self {
            TtlPolicy::Short => SHORT_TTL_SECONDS,
            TtlPolicy::Seconds(s) => s,
        }
    }
}

/// The full payload of a signed bearer token: the claims, both
/// timestamps, and the kind the token was minted as.
#[derive(Clone, Copy, Debug, PartialEq, Eq, Structural)]
pub struct JwtClaims {
    pub claims: SessionClaims,
    pub iat: u64,
    pub exp: u64,
    pub kind: TokenKind,
}

impl JwtClaims {
    /// Payload of a short-lived access token minted at `now`.
    pub open spec fn spec_short(claims: SessionClaims, now: u64) -> JwtClaims {
        JwtClaims {
            claims,
            iat: now,
            exp: (now + SHORT_TTL_SECONDS) as u64,
            kind: TokenKind::Access,
        }
    }

    /// Mint the payload of a short-lived access token at `now`.
    pub fn short(claims: SessionClaims, now: u64) -> (r: JwtClaims)
        requires
            now + SHORT_TTL_SECONDS <= u64::MAX,
        ensures
            r == JwtClaims::spec_short(claims, now),
    {
        JwtClaims { claims, iat: now, exp: now + SHORT_TTL_SECONDS, kind: TokenKind::Access }
    }

    /// Payload minted at `now` under `policy`.
    pub open spec fn spec_with_policy(claims: SessionClaims, policy: TtlPolicy, now: u64) -> JwtClaims {
        JwtClaims {
            claims,
            iat: now,
            exp: (now + policy.spec_ttl_seconds()) as u64,
            kind: TokenKind::Access,
        }
    }

    /// Mint a payload at `now` under `policy`.
    pub fn with_policy(claims: SessionClaims, policy: TtlPolicy, now: u64) -> (r: JwtClaims)
        requires
            now + policy.spec_ttl_seconds() <= u64::MAX,
        ensures
            r == JwtClaims::spec_with_policy(claims, policy, now),
    {
        let ttl = policy.ttl_seconds();
        JwtClaims { claims, iat: now, exp: now + ttl, kind: TokenKind::Access }
    }
}

} // verus!
