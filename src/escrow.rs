use vstd::prelude::*;

use crate::accounting::{amount_of, pct_sum};
use crate::identity::AccountId;

verus! {

/// One slice of an escrow's pledge.
pub struct Milestone {
    /// Share of the total, in percent.
    pub release_percentage: u32,
    /// What the milestone pays out: `(total / 100) * release_percentage`.
    pub amount: u128,
    /// Whether the milestone was paid out.
    pub is_released: bool,
    /// When it was paid out; 0 while pending.
    pub released_at: u64,
    /// What the milestone stands for.
    pub description: Vec<u8>,
}

/// Descriptive data on the funded project.
pub struct ProjectMetadata {
    pub project_id: Vec<u8>,
    pub project_name: Vec<u8>,
    pub description: Vec<u8>,
    pub arkiv_entity_url: Vec<u8>,
    pub created_at: u64,
}

/// The escrow of one beneficiary.
pub struct FundingEscrow {
    /// The beneficiary, who receives the released funds.
    pub project_owner: AccountId,
    /// The creator, who may cancel.
    pub admin: AccountId,
    pub total_amount: u128,
    pub released_amount: u128,
    /// What the escrow still holds. Cancelling moves it back to the admin but
    /// leaves this figure in place, as the record of what was recovered.
    pub remaining_amount: u128,
    pub milestones: Vec<Milestone>,
    pub project_metadata: ProjectMetadata,
    pub is_cancelled: bool,
    pub is_completed: bool,
}

/// A milestone as the contracts speak of it.
pub struct MilestoneView {
    pub release_percentage: u32,
    pub amount: u128,
    pub is_released: bool,
    pub released_at: u64,
    pub description: Seq<u8>,
}

/// Project metadata as the contracts speak of it.
pub struct MetadataView {
    pub project_id: Seq<u8>,
    pub project_name: Seq<u8>,
    pub description: Seq<u8>,
    pub arkiv_entity_url: Seq<u8>,
    pub created_at: u64,
}

/// An escrow as the contracts speak of it.
pub struct EscrowView {
    pub project_owner: AccountId,
    pub admin: AccountId,
    pub total_amount: u128,
    pub released_amount: u128,
    pub remaining_amount: u128,
    pub milestones: Seq<MilestoneView>,
    pub metadata: MetadataView,
    pub is_cancelled: bool,
    pub is_completed: bool,
}

impl View for Milestone {
    type V = MilestoneView;

    open spec fn view(&self) -> MilestoneView {
        MilestoneView {
            release_percentage: self.release_percentage,
            amount: self.amount,
            is_released: self.is_released,
            released_at: self.released_at,
            description: self.description@,
        }
    }
}

impl View for ProjectMetadata {
    type V = MetadataView;

    open spec fn view(&self) -> MetadataView {
        MetadataView {
            project_id: self.project_id@,
            project_name: self.project_name@,
            description: self.description@,
            arkiv_entity_url: self.arkiv_entity_url@,
            created_at: self.created_at,
        }
    }
}

/// The views of a list of milestones.
pub open spec fn milestones_view(ms: Seq<Milestone>) -> Seq<MilestoneView> {
    ms.map_values(|m: Milestone| m@)
}

impl View for FundingEscrow {
    type V = EscrowView;

    open spec fn view(&self) -> EscrowView {
        EscrowView {
            project_owner: self.project_owner,
            admin: self.admin,
            total_amount: self.total_amount,
            released_amount: self.released_amount,
            remaining_amount: self.remaining_amount,
            milestones: milestones_view(self.milestones@),
            metadata: self.project_metadata@,
            is_cancelled: self.is_cancelled,
            is_completed: self.is_completed,
        }
    }
}

/// The percentages of the milestones, in order.
pub open spec fn percentages(ms: Seq<MilestoneView>) -> Seq<u32> {
    ms.map_values(|m: MilestoneView| m.release_percentage)
}

/// What all milestones pay out together.
pub open spec fn amount_total(ms: Seq<MilestoneView>) -> int
    decreases ms.len(),
{
    if ms.len() == 0 {
        0
    } else {
        amount_total(ms.drop_last()) + ms.last().amount
    }
}

/// What the milestones paid out so far pay together.
pub open spec fn released_total(ms: Seq<MilestoneView>) -> int
    decreases ms.len(),
{
    if ms.len() == 0 {
        0
    } else {
        released_total(ms.drop_last()) + if ms.last().is_released {
            ms.last().amount as int
        } else {
            0
        }
    }
}

/// Whether every milestone was paid out.
pub open spec fn all_released(ms: Seq<MilestoneView>) -> bool {
    forall|i: int| 0 <= i < ms.len() ==> #[trigger] ms[i].is_released
}

/// A milestone once paid out at `now`.
pub open spec fn paid_out(m: MilestoneView, now: u64) -> MilestoneView {
    MilestoneView { is_released: true, released_at: now, ..m }
}

/// A fresh milestone of `pct` percent of `total`.
pub open spec fn pending_milestone(total: u128, pct: u32, description: Seq<u8>) -> MilestoneView {
    MilestoneView {
        release_percentage: pct,
        amount: amount_of(total, pct) as u128,
        is_released: false,
        released_at: 0,
        description,
    }
}

impl EscrowView {
    /// The invariant every stored escrow keeps.
    pub open spec fn wf(self) -> bool {
        let ms = self.milestones;
        &&& 1 <= ms.len() <= u32::MAX
        &&& pct_sum(percentages(ms)) == 100
        &&& forall|i: int|
            0 <= i < ms.len() ==> #[trigger] ms[i].amount == amount_of(
                self.total_amount,
                ms[i].release_percentage,
            )
        &&& self.total_amount > 0
        &&& self.released_amount + self.remaining_amount == self.total_amount
        &&& self.released_amount == released_total(ms)
        &&& forall|i: int| 0 <= i < ms.len() && !(#[trigger] ms[i]).is_released ==> ms[i].released_at == 0
        &&& self.is_completed == all_released(ms)
        &&& !(self.is_cancelled && self.is_completed)
    }

    /// The escrow after milestone `i` was paid out at `now`: the amount moves
    /// from remaining to released, and the escrow completes with its last
    /// pending milestone.
    pub open spec fn release(self, i: int, now: u64) -> EscrowView {
        let ms = self.milestones.update(i, paid_out(self.milestones[i], now));
        EscrowView {
            released_amount: (self.released_amount + self.milestones[i].amount) as u128,
            remaining_amount: (self.remaining_amount - self.milestones[i].amount) as u128,
            milestones: ms,
            is_completed: all_released(ms),
            ..self
        }
    }

    /// The escrow after cancellation. The remaining amount is kept as the
    /// record of what went back to the admin.
    pub open spec fn cancel(self) -> EscrowView {
        EscrowView { is_cancelled: true, ..self }
    }
}

/// A new escrow of `total`, one pending milestone for each percentage, with
/// nothing released.
pub open spec fn new_escrow(
    owner: AccountId,
    admin: AccountId,
    total: u128,
    metadata: MetadataView,
    pcts: Seq<u32>,
    descriptions: Seq<Seq<u8>>,
) -> EscrowView {
    EscrowView {
        project_owner: owner,
        admin,
        total_amount: total,
        released_amount: 0,
        remaining_amount: total,
        milestones: Seq::new(pcts.len(), |k: int| pending_milestone(total, pcts[k], descriptions[k])),
        metadata,
        is_cancelled: false,
        is_completed: false,
    }
}

/// Nothing is released while no milestone is.
pub proof fn lemma_none_released(ms: Seq<MilestoneView>)
    requires
        forall|i: int| 0 <= i < ms.len() ==> !(#[trigger] ms[i]).is_released,
    ensures
        released_total(ms) == 0,
    decreases ms.len(),
{
    if ms.len() > 0 {
        lemma_none_released(ms.drop_last());
    }
}

/// A new escrow over percentages that sum to one hundred keeps the invariant.
pub proof fn lemma_new_escrow_wf(
    owner: AccountId,
    admin: AccountId,
    total: u128,
    metadata: MetadataView,
    pcts: Seq<u32>,
    descriptions: Seq<Seq<u8>>,
)
    requires
        pct_sum(pcts) == 100,
        1 <= pcts.len() <= u32::MAX,
        total > 0,
    ensures
        new_escrow(owner, admin, total, metadata, pcts, descriptions).wf(),
{
    let e = new_escrow(owner, admin, total, metadata, pcts, descriptions);
    assert(percentages(e.milestones) =~= pcts);
    lemma_none_released(e.milestones);
    assert(!e.milestones[0].is_released);
    lemma_new_amounts(owner, admin, total, metadata, pcts, descriptions);
}

/// Each milestone of a new escrow pays its exact share.
pub proof fn lemma_new_amounts(
    owner: AccountId,
    admin: AccountId,
    total: u128,
    metadata: MetadataView,
    pcts: Seq<u32>,
    descriptions: Seq<Seq<u8>>,
)
    requires
        pct_sum(pcts) == 100,
    ensures
        forall|i: int|
            0 <= i < pcts.len() ==> #[trigger] new_escrow(
                owner,
                admin,
                total,
                metadata,
                pcts,
                descriptions,
            ).milestones[i].amount == amount_of(total, pcts[i]),
{
    let e = new_escrow(owner, admin, total, metadata, pcts, descriptions);
    assert forall|i: int| 0 <= i < pcts.len() implies #[trigger] e.milestones[i].amount
        == amount_of(total, pcts[i]) by {
        crate::accounting::lemma_pct_entry_le_sum(pcts, i);
        let q = (total / 100) as int;
        let p = pcts[i] as int;
        assert(q * p <= q * 100) by (nonlinear_arith)
            requires
                0 <= p <= 100,
                0 <= q,
        ;
        assert(q * 100 <= total) by (nonlinear_arith)
            requires
                q == (total / 100) as int,
        ;
    }
}

/// Together the milestones pay `total / 100` for each percent.
pub proof fn lemma_amount_total(ms: Seq<MilestoneView>, total: u128)
    requires
        forall|i: int|
            0 <= i < ms.len() ==> #[trigger] ms[i].amount == amount_of(total, ms[i].release_percentage),
    ensures
        amount_total(ms) == (total / 100) as int * pct_sum(percentages(ms)),
    decreases ms.len(),
{
    if ms.len() > 0 {
        let q = (total / 100) as int;
        assert(percentages(ms).drop_last() =~= percentages(ms.drop_last()));
        lemma_amount_total(ms.drop_last(), total);
        let a = pct_sum(percentages(ms.drop_last()));
        let p = ms.last().release_percentage as int;
        assert(ms.last().amount == q * p);
        assert(q * a + q * p == q * (a + p)) by (nonlinear_arith);
    }
}

/// What was paid out is part of what all milestones pay; a pending milestone
/// fits beside it.
pub proof fn lemma_released_le(ms: Seq<MilestoneView>, i: int)
    requires
        0 <= i < ms.len(),
    ensures
        released_total(ms) <= amount_total(ms),
        !ms[i].is_released ==> released_total(ms) + ms[i].amount <= amount_total(ms),
    decreases ms.len(),
{
    let rest = ms.drop_last();
    if ms.len() == 1 {
        assert(released_total(rest) == 0 && amount_total(rest) == 0);
    } else if i < ms.len() - 1 {
        assert(rest[i] == ms[i]);
        lemma_released_le(rest, i);
    } else {
        lemma_released_le(rest, 0);
    }
}

/// Paying out a pending milestone adds its amount to the released total and
/// changes neither the percentages nor the amounts.
pub proof fn lemma_pay_out(ms: Seq<MilestoneView>, i: int, now: u64)
    requires
        0 <= i < ms.len(),
        !ms[i].is_released,
    ensures
        released_total(ms.update(i, paid_out(ms[i], now))) == released_total(ms) + ms[i].amount,
        amount_total(ms.update(i, paid_out(ms[i], now))) == amount_total(ms),
        percentages(ms.update(i, paid_out(ms[i], now))) == percentages(ms),
    decreases ms.len(),
{
    let ms2 = ms.update(i, paid_out(ms[i], now));
    assert(percentages(ms2) =~= percentages(ms));
    if i < ms.len() - 1 {
        assert(ms2.drop_last() =~= ms.drop_last().update(i, paid_out(ms[i], now)));
        lemma_pay_out(ms.drop_last(), i, now);
    } else {
        assert(ms2.drop_last() =~= ms.drop_last());
    }
}

/// Paying out a pending milestone of an active escrow keeps the invariant.
pub proof fn lemma_release_wf(e: EscrowView, i: int, now: u64)
    requires
        e.wf(),
        !e.is_cancelled,
        !e.is_completed,
        0 <= i < e.milestones.len(),
        !e.milestones[i].is_released,
    ensures
        e.release(i, now).wf(),
        e.released_amount + e.milestones[i].amount <= e.total_amount,
{
    let ms = e.milestones;
    lemma_pay_out(ms, i, now);
    lemma_released_le(ms, i);
    lemma_amount_total(ms, e.total_amount);
    let q = (e.total_amount / 100) as int;
    assert(q * 100 <= e.total_amount) by (nonlinear_arith)
        requires
            q == (e.total_amount / 100) as int,
    ;
    let e2 = e.release(i, now);
    assert(forall|j: int| 0 <= j < ms.len() ==> #[trigger] e2.milestones[j].release_percentage == ms[j].release_percentage);
}

} // verus!
