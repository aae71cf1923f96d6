//! The two host facilities the subsystem draws on: the wall clock and
//! an unguessable token identifier.  Both are inherently
//! nondeterministic, so nothing is promised of their values; every
//! caller is verified for whatever comes back.

use vstd::prelude::*;

verus! {

/// Relies on chrono's `Utc::now` and `DateTime::timestamp`: the
/// server's wall clock as whole seconds since the Unix epoch.  The
/// clock's reading is not a function of anything the library knows, so
/// nothing is promised of it.
#[verifier::external_body]
pub(crate) fn now_unix() -> i64 {
    chrono::Utc::now().timestamp()
}

/// Relies on uuid's `Uuid::new_v4` and `Uuid::as_u128`: a random
/// identifier.  `new_v4` always sets the version and variant bits, so
/// the value is never zero; nothing else holds of a random draw.
#[verifier::external_body]
pub(crate) fn fresh_token_id() -> (r: u128)
    ensures
        r != 0,
{
    uuid::Uuid::new_v4().as_u128()
}

} // verus!
