use vstd::prelude::*;

verus! {

/// Every way an operation of the board can fail. Each failure leaves all
/// state as it was before the call.
#[derive(Debug, Clone, Copy, PartialEq, Eq, Structural)]
pub enum GifError {
    /// The authorizing account did not sign the call.
    Unauthorized,
    /// The slot already holds an initialized account.
    AlreadyInitialized,
    /// The payer could not fund the reserved capacity.
    AllocationFailed,
    /// The new record would not fit in the account's reserved capacity.
    CapacityExceeded,
    /// The sender holds less than the amount to move.
    InsufficientBalance,
    /// The runtime would refuse the transfer (read-only account, or a
    /// recipient balance that cannot grow by the amount).
    TransferRejected,
}

} // verus!
