//! Milestone-gated escrow of a fixed pledge, with an admin who may claw back
//! what has not been disbursed.

pub mod accounting;
pub mod contract;
pub mod error;
pub mod escrow;
pub mod identity;
pub mod laws;
pub mod records;
