use vstd::prelude::*;

use crate::identity::AccountId;

verus! {

/// A payment that the ledger is asked to make out of the escrow pool.
#[derive(Clone, Copy)]
pub struct Transfer {
    pub to: AccountId,
    pub amount: u128,
}

/// Notice that an escrow was created.
pub struct EscrowCreated {
    pub project_owner: AccountId,
    pub total_amount: u128,
    pub milestone_count: u32,
}

/// Notice that a milestone was paid out.
pub struct FundsReleased {
    pub project_owner: AccountId,
    pub milestone_index: u32,
    pub amount: u128,
}

/// Notice that an escrow was cancelled, with what went back to the admin.
pub struct EscrowCancelled {
    pub project_owner: AccountId,
    pub remaining_amount: u128,
}

/// A progress report of the beneficiary on one milestone.
pub struct ProgressRecorded {
    pub project_owner: AccountId,
    pub milestone_index: u32,
    pub progress_notes: Vec<u8>,
}

/// Summary of one escrow.
pub struct EscrowInfo {
    pub project_owner: AccountId,
    pub admin: AccountId,
    pub total_amount: u128,
    pub released_amount: u128,
    pub remaining_amount: u128,
    pub is_cancelled: bool,
    pub is_completed: bool,
    pub milestone_count: u32,
}

/// Summary of one milestone.
pub struct MilestoneInfo {
    pub release_percentage: u32,
    pub amount: u128,
    pub is_released: bool,
    pub released_at: u64,
}

/// The descriptive data of a project.
pub struct ProjectMetadataInfo {
    pub project_id: Vec<u8>,
    pub project_name: Vec<u8>,
    pub arkiv_entity_url: Vec<u8>,
    pub created_at: u64,
}

} // verus!
