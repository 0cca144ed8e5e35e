//! Error kinds a request can fail with. Every failure aborts its whole
//! operation with no partial mutation; the host transaction boundary
//! supplies the atomicity.

use vstd::prelude::*;

verus! {

#[derive(Clone, Copy, Debug, PartialEq, Eq, Structural)]
pub enum ContractError {
    /// Caller is not entitled to the operation: a config update from a
    /// non-owner, a stake notice from an unrecognized collection, or a
    /// depositor who does not own the token being staked.
    Unauthorized,
    /// Unstake target absent from the holder's list, or a token kind
    /// outside the two stakeable collections.
    InvalidToken,
    /// A custody-receive notification without the stake intent.
    MissingIntent,
    /// The duration engine was invoked on an empty token list.
    AccrualUndefined,
    /// The persistence layer failed; raised by the host wiring, never by
    /// the ledger logic itself.
    StorageFailure,
}

impl ContractError {
    /// A short human-readable reason for the failure.
    pub fn reason(&self) -> (r: &'static str)
        ensures
            *self is Unauthorized ==> r@ == "unauthorized"@,
            *self is InvalidToken ==> r@ == "invalid token"@,
            *self is MissingIntent ==> r@ == "missing stake hook"@,
            *self is AccrualUndefined ==> r@ == "no tokens staked"@,
            *self is StorageFailure ==> r@ == "storage failure"@,
    {
        match self {
            ContractError::Unauthorized => "unauthorized",
            ContractError::InvalidToken => "invalid token",
            ContractError::MissingIntent => "missing stake hook",
            ContractError::AccrualUndefined => "no tokens staked",
            ContractError::StorageFailure => "storage failure",
        }
    }
}

} // verus!
