//! Client network addresses, as the plain values the logic reads.

use vstd::prelude::*;

verus! {

/// A client address: the four bytes of a v4 address or the sixteen of
/// a v6 address, as one integer each.
#[derive(Clone, Copy, Debug, PartialEq, Eq, Structural)]
pub enum IpAddress {
    V4(u32),
    V6(u128),
}

} // verus!
