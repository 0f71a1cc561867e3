//! Errors for the fallible numeric-index-to-role conversions.

use vstd::prelude::*;

verus! {

/// Why a numeric index could not be turned into the requested particle role.
#[derive(Clone, Copy, Debug, PartialEq, Eq, Structural)]
pub enum Error {
    /// The index is outside the four mass slots `0..=3`.
    InvalidIndex,
    /// An incoming role was requested, but the index names an outgoing one.
    UnexpectedOutgoing,
    /// An outgoing role was requested, but the index names an incoming one.
    UnexpectedIncoming,
}

} // verus!
