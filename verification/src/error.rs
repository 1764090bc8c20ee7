//! The typed, recoverable failures of the ledger.

use vstd::prelude::*;

verus! {

/// Why a call was turned down. A call that is turned down changes nothing and
/// may be repeated with corrected inputs.
#[derive(Debug, Clone, Copy, PartialEq, Eq, Structural)]
pub enum Error {
    /// The call is reserved to the owner and somebody else made it.
    OnlyOwner,
    /// The value sent with the call does not cover the fee.
    InsufficientTransfer,
}

} // verus!
