//! The payment actor's failure modes. Every precondition is checked before
//! any state change or effect construction, so a failing call produces no
//! observable change.

use vstd::prelude::*;

verus! {

/// Why a call to the payment actor was rejected.
#[derive(Clone, Copy, Debug, PartialEq, Eq, Structural)]
pub enum ContractError {
    /// An address failed the host's address-format validation.
    InvalidAddress,
    /// Funds were attached to a message that accepts none.
    DontSendFunds,
}

} // verus!
