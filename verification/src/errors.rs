//! The errors a creation call can surface. Every one of them aborts the
//! whole call: no partial state is ever committed.

use vstd::prelude::*;

verus! {

/// Why a multisig creation call failed.
#[derive(Clone, Copy, Debug, PartialEq, Eq, Structural)]
pub enum MultisigError {
    /// The supplied treasury is not the one the configuration record registers.
    InvalidAccount,
    /// The threshold/member-count relationship is violated, or the member
    /// set holds two entries with the same identity.
    StateInvariantError,
    /// The derived address (or leaf) is already occupied: the create key was
    /// used before.
    AlreadyInitialized,
    /// The creation fee cannot be transferred in full.
    TransferError,
}

impl MultisigError {
    /// A short stable name for the error, for callers that log or display it.
    pub fn name(&self) -> (r: &'static str)
        ensures
            self is InvalidAccount ==> r@ == "InvalidAccount"@,
            self is StateInvariantError ==> r@ == "StateInvariantError"@,
            self is AlreadyInitialized ==> r@ == "AlreadyInitialized"@,
            self is TransferError ==> r@ == "TransferError"@,
    {
        match self {
            MultisigError::InvalidAccount => "InvalidAccount",
            MultisigError::StateInvariantError => "StateInvariantError",
            MultisigError::AlreadyInitialized => "AlreadyInitialized",
            MultisigError::TransferError => "TransferError",
        }
    }
}

} // verus!
