//! The failure kinds that the escrow operations report.

use vstd::prelude::*;

verus! {

/// Why an escrow operation was refused.  Every mutating operation returns
/// either a success signal or one of these; none partially applies its
/// effect when it returns an error.
#[derive(Clone, Copy, Debug, PartialEq, Eq, Structural)]
pub enum EscrowError {
    /// The job id names no stored record.
    NotFound,
    /// The caller is not the party the operation requires.
    Unauthorized,
    /// A non-positive total, or a percentage outside 0 to 100.
    InvalidAmount,
    /// The deadline was not strictly in the future at creation.
    InvalidDeadline,
    /// The operation is not legal in the job's current state.
    InvalidState,
    /// The operation needs the deadline (plus any grace period) to have passed.
    DeadlineNotYetPassed,
    /// The operation is only legal up to the deadline.
    DeadlinePassed,
    /// The ledger refused the value movement.
    TransferFailed,
}

} // verus!
