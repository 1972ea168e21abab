use vstd::prelude::*;

use crate::accounting::pct_sum;
use crate::contract::RegistryView;
use crate::error::EscrowError;
use crate::escrow::{
    MetadataView, all_released, amount_total, lemma_amount_total, lemma_new_amounts, lemma_none_released,
    lemma_release_wf, new_escrow, percentages,
};
use crate::identity::AccountId;

verus! {

/// The milestones of a new escrow pay out together no more than its total:
/// exactly the total less its remainder modulo one hundred.
pub proof fn law_milestones_within_total(
    owner: AccountId,
    admin: AccountId,
    total: u128,
    metadata: MetadataView,
    pcts: Seq<u32>,
    descriptions: Seq<Seq<u8>>,
)
    requires
        pct_sum(pcts) == 100,
    ensures
        amount_total(new_escrow(owner, admin, total, metadata, pcts, descriptions).milestones)
            <= total,
        total - amount_total(new_escrow(owner, admin, total, metadata, pcts, descriptions).milestones)
            == total % 100,
{
    let ms = new_escrow(owner, admin, total, metadata, pcts, descriptions).milestones;
    assert(percentages(ms) =~= pcts);
    lemma_new_amounts(owner, admin, total, metadata, pcts, descriptions);
    lemma_amount_total(ms, total);
}

/// Where the total's remainder modulo one hundred is below the number of
/// milestones, what the milestones of a new escrow leave over is at most one
/// less than their number.
pub proof fn law_shortfall_below_count(
    owner: AccountId,
    admin: AccountId,
    total: u128,
    metadata: MetadataView,
    pcts: Seq<u32>,
    descriptions: Seq<Seq<u8>>,
)
    requires
        pct_sum(pcts) == 100,
        total % 100 < pcts.len(),
    ensures
        total - amount_total(new_escrow(owner, admin, total, metadata, pcts, descriptions).milestones)
            <= pcts.len() - 1,
{
    law_milestones_within_total(owner, admin, total, metadata, pcts, descriptions);
}

/// In every well-formed registry each escrow's released and remaining
/// amounts add up to its total, and a release or a cancellation that passes
/// its checks leaves the registry well-formed.
pub proof fn law_balance_kept(
    r: RegistryView,
    caller: AccountId,
    owner: AccountId,
    index: u32,
    now: u64,
)
    requires
        r.wf(),
    ensures
        r.escrows.contains_key(owner) ==> r.escrows[owner].released_amount
            + r.escrows[owner].remaining_amount == r.escrows[owner].total_amount,
        r.release_check(caller, owner, index) is Ok ==> r.after_release(owner, index, now).wf(),
        r.cancel_check(caller, owner) is Ok ==> r.after_cancel(owner).wf(),
{
    if r.release_check(caller, owner, index) is Ok {
        lemma_release_wf(r.escrows[owner], index as int, now);
    }
}

/// Once a milestone was paid out, asking again for it is refused, so no
/// second transfer is asked for: with `MilestoneAlreadyReleased`, or with
/// `EscrowCompleted` where it was the escrow's last pending milestone.
pub proof fn law_no_double_release(
    r: RegistryView,
    caller: AccountId,
    again: AccountId,
    owner: AccountId,
    index: u32,
    now: u64,
)
    requires
        r.wf(),
        r.release_check(caller, owner, index) is Ok,
    ensures
        r.after_release(owner, index, now).release_check(again, owner, index) == if r.after_release(
            owner,
            index,
            now,
        ).escrows[owner].is_completed {
            Err::<u128, EscrowError>(EscrowError::EscrowCompleted)
        } else {
            Err::<u128, EscrowError>(EscrowError::MilestoneAlreadyReleased)
        },
{
}

/// An escrow whose milestones were all paid out is completed, and its admin
/// can no longer cancel it.
pub proof fn law_completed_cannot_cancel(r: RegistryView, owner: AccountId)
    requires
        r.wf(),
        r.escrows.contains_key(owner),
        all_released(r.escrows[owner].milestones),
    ensures
        r.escrows[owner].is_completed,
        r.cancel_check(r.escrows[owner].admin, owner) == Err::<u128, EscrowError>(
            EscrowError::CannotCancelEscrow,
        ),
{
}

/// Cancelling an escrow of which nothing was paid out hands its whole total
/// back to the admin and marks it cancelled; every later release is refused
/// with `EscrowCancelled`.
pub proof fn law_cancel_before_release(
    r: RegistryView,
    caller: AccountId,
    owner: AccountId,
    later: AccountId,
    index: u32,
)
    requires
        r.wf(),
        r.cancel_check(caller, owner) is Ok,
        forall|i: int|
            0 <= i < r.escrows[owner].milestones.len() ==> !(#[trigger] r.escrows[owner].milestones[i]).is_released,
    ensures
        caller == r.escrows[owner].admin,
        r.cancel_check(caller, owner) == Ok::<u128, EscrowError>(r.escrows[owner].total_amount),
        r.escrows[owner].total_amount > 0,
        r.after_cancel(owner).escrows[owner].is_cancelled,
        r.after_cancel(owner).release_check(later, owner, index) == Err::<u128, EscrowError>(
            EscrowError::EscrowCancelled,
        ),
{
    lemma_none_released(r.escrows[owner].milestones);
}

} // verus!
