//! Error taxonomy of the authentication subsystem.

use vstd::prelude::*;

verus! {

/// Every failure the authentication subsystem can surface.
///
/// `TokenInvalid` is a hard failure (bad signature or malformed
/// payload) and must never trigger a retry; `TokenExpired` may prompt
/// the caller to attempt a refresh.  The refresh-path errors mirror the
/// session store's rejections, and `Unavailable` marks a transient
/// condition that is safe to retry.
#[derive(Clone, Copy, Debug, PartialEq, Eq, Structural)]
pub enum AuthError {
    TokenInvalid,
    TokenExpired,
    RefreshNotFound,
    RefreshConsumed,
    SessionRevoked,
    Unavailable,
}

/// Rejections of the request-handling rules around the core.
#[derive(Clone, Copy, Debug, PartialEq, Eq, Structural)]
pub enum ApiError {
    Unauthorized,
    Forbidden,
    NotFound,
    BadRequest,
}

} // verus!
