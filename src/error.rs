use vstd::prelude::*;

verus! {

/// Why an operation on the escrow registry was refused.
#[derive(Clone, Copy, Debug, PartialEq, Eq, Structural)]
pub enum EscrowError {
    /// Nothing was deposited with the creation call.
    InsufficientFunds,
    /// The beneficiary already has an escrow.
    EscrowAlreadyExists,
    /// The milestone percentages do not add up to one hundred.
    InvalidMilestonePercentages,
    /// Percentages and descriptions differ in number, or there are none.
    MilestoneCountMismatch,
    /// The beneficiary has no escrow.
    EscrowNotFound,
    /// The milestone index is past the last milestone.
    InvalidMilestoneIndex,
    /// The milestone was already paid out.
    MilestoneAlreadyReleased,
    /// The ledger refused the transfer; nothing changed.
    TransferFailed,
    /// The escrow was cancelled.
    EscrowCancelled,
    /// Every milestone of the escrow was already paid out.
    EscrowCompleted,
    /// The caller does not hold the role the operation asks for.
    Unauthorized,
    /// The escrow is already cancelled or completed.
    CannotCancelEscrow,
}

} // verus!
