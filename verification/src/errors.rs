//! Why an operation on a swap was turned down.

use vstd::prelude::*;

verus! {

/// The reason an operation changed nothing.
#[derive(Clone, Copy, Debug, PartialEq, Eq, Structural)]
pub enum SwapError {
    /// No swap is registered under the identifier.
    UnknownSwap,
    /// The swap is not in the state that the operation needs.
    InvalidState,
    /// The recomputed commitment differs from the stored one.
    VerificationMismatch,
    /// The lock time is already behind the current time, so the refund window
    /// is closed.
    LockExpired,
    /// The ledger could not move the funds.
    TransferFailed,
}

} // verus!
