//! Errors of the stream operations.

use vstd::prelude::*;

verus! {

/// Errors.
#[derive(Clone, Copy, Debug, PartialEq, Eq, Structural)]
pub enum ErrorCode {
    /// Stream must end after its start time.
    InvalidSchedule,
    /// Insufficient withdrawal balance.
    InsufficientWithdrawalBalance,
    /// Insufficient stream token balance.
    InsufficientStreamTokens,
    /// Stream is irrevocable.
    Irrevocable,
    /// Must be revoker to perform this operation.
    NotRevoker,
    /// Two accounts that must be the same are not.
    KeyMismatch,
    /// A precondition on the accounts or on the schedule does not hold.
    InvariantFailed,
    /// An amount could not be computed without overflow or underflow.
    IntegerOverflow,
}

} // verus!
