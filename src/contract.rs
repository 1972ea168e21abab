use vstd::prelude::*;

use crate::accounting::{milestone_amount, pct_sum, validate_percentages, validate_shape};
use crate::error::EscrowError;
use crate::escrow::{
    EscrowView, FundingEscrow, MetadataView, Milestone, ProjectMetadata, lemma_new_escrow_wf,
    lemma_release_wf, new_escrow, paid_out, pending_milestone,
};
use crate::identity::AccountId;
use crate::records::{
    EscrowCancelled, EscrowCreated, EscrowInfo, FundsReleased, MilestoneInfo, ProgressRecorded,
    ProjectMetadataInfo, Transfer,
};

verus! {

/// The registry of escrows, at most one per beneficiary, with the list of
/// beneficiaries in order of creation and an optional verifier who may
/// release milestones beside each escrow's admin.
pub struct FundingEscrowContract {
    escrows: Vec<FundingEscrow>,
    active_projects: Vec<AccountId>,
    verifier: Option<AccountId>,
}

/// What the registry holds: each beneficiary's escrow, the beneficiaries in
/// order of creation, and the verifier.
pub struct RegistryView {
    pub escrows: Map<AccountId, EscrowView>,
    pub projects: Seq<AccountId>,
    pub verifier: Option<AccountId>,
}

impl RegistryView {
    /// Every escrow keeps its invariant and is filed under its beneficiary.
    pub open spec fn wf(self) -> bool {
        forall|b: AccountId| #[trigger]
            self.escrows.contains_key(b) ==> self.escrows[b].wf() && self.escrows[b].project_owner
                == b
    }

    /// The admin of the escrow, or the verifier, may release its milestones.
    pub open spec fn may_release(self, e: EscrowView, caller: AccountId) -> bool {
        caller == e.admin || self.verifier == Some(caller)
    }

    /// The outcome of asking to release milestone `index` of `owner`'s
    /// escrow: the amount to pay out, or the first check that fails.
    pub open spec fn release_check(self, caller: AccountId, owner: AccountId, index: u32) -> Result<
        u128,
        EscrowError,
    > {
        if !self.escrows.contains_key(owner) {
            Err(EscrowError::EscrowNotFound)
        } else {
            let e = self.escrows[owner];
            if e.is_cancelled {
                Err(EscrowError::EscrowCancelled)
            } else if e.is_completed {
                Err(EscrowError::EscrowCompleted)
            } else if index >= e.milestones.len() {
                Err(EscrowError::InvalidMilestoneIndex)
            } else if e.milestones[index as int].is_released {
                Err(EscrowError::MilestoneAlreadyReleased)
            } else if !self.may_release(e, caller) {
                Err(EscrowError::Unauthorized)
            } else {
                Ok(e.milestones[index as int].amount)
            }
        }
    }

    /// The outcome of asking to create an escrow for `owner` with
    /// `deposited` funds: the first check that fails, if any.
    pub open spec fn create_check(
        self,
        deposited: u128,
        owner: AccountId,
        pcts: Seq<u32>,
        n_descriptions: int,
    ) -> Result<(), EscrowError> {
        if deposited == 0 {
            Err(EscrowError::InsufficientFunds)
        } else if self.escrows.contains_key(owner) {
            Err(EscrowError::EscrowAlreadyExists)
        } else if pct_sum(pcts) != 100 {
            Err(EscrowError::InvalidMilestonePercentages)
        } else if pcts.len() != n_descriptions || pcts.len() < 1 {
            Err(EscrowError::MilestoneCountMismatch)
        } else {
            Ok(())
        }
    }

    /// The registry once `e` was filed as `owner`'s new escrow.
    pub open spec fn after_create(self, owner: AccountId, e: EscrowView) -> RegistryView {
        RegistryView {
            escrows: self.escrows.insert(owner, e),
            projects: self.projects.push(owner),
            verifier: self.verifier,
        }
    }

    /// The outcome of asking to cancel `owner`'s escrow: the amount that goes
    /// back to the admin, or the first check that fails.
    pub open spec fn cancel_check(self, caller: AccountId, owner: AccountId) -> Result<u128, EscrowError> {
        if !self.escrows.contains_key(owner) {
            Err(EscrowError::EscrowNotFound)
        } else {
            let e = self.escrows[owner];
            if caller != e.admin {
                Err(EscrowError::Unauthorized)
            } else if e.is_cancelled || e.is_completed {
                Err(EscrowError::CannotCancelEscrow)
            } else {
                Ok(e.remaining_amount)
            }
        }
    }

    /// The registry after `owner`'s escrow was cancelled.
    pub open spec fn after_cancel(self, owner: AccountId) -> RegistryView {
        self.with_escrow(owner, self.escrows[owner].cancel())
    }

    /// The outcome of a progress report on milestone `index` of `owner`'s
    /// escrow.
    pub open spec fn progress_check(self, caller: AccountId, owner: AccountId, index: u32) -> Result<
        (),
        EscrowError,
    > {
        if !self.escrows.contains_key(owner) {
            Err(EscrowError::EscrowNotFound)
        } else {
            let e = self.escrows[owner];
            if caller != owner {
                Err(EscrowError::Unauthorized)
            } else if e.is_cancelled {
                Err(EscrowError::EscrowCancelled)
            } else if index >= e.milestones.len() {
                Err(EscrowError::InvalidMilestoneIndex)
            } else {
                Ok(())
            }
        }
    }

    /// The registry with `owner`'s escrow replaced by `e`.
    pub open spec fn with_escrow(self, owner: AccountId, e: EscrowView) -> RegistryView {
        RegistryView { escrows: self.escrows.insert(owner, e), ..self }
    }

    /// The registry after milestone `index` of `owner` was paid out at `now`.
    pub open spec fn after_release(self, owner: AccountId, index: u32, now: u64) -> RegistryView {
        self.with_escrow(owner, self.escrows[owner].release(index as int, now))
    }
}

impl FundingEscrowContract {
    spec fn has(self, b: AccountId) -> bool {
        exists|k: int| 0 <= k < self.escrows@.len() && self.escrows@[k].project_owner == b
    }

    spec fn slot(self, b: AccountId) -> int {
        choose|k: int| 0 <= k < self.escrows@.len() && self.escrows@[k].project_owner == b
    }

    pub closed spec fn view(self) -> RegistryView {
        RegistryView {
            escrows: Map::new(|b: AccountId| self.has(b), |b: AccountId| self.escrows@[self.slot(b)]@),
            projects: self.active_projects@,
            verifier: self.verifier,
        }
    }

    /// Beneficiaries are unique, each escrow keeps its invariant, and the
    /// project list names the beneficiaries in storage order.
    pub closed spec fn wf(self) -> bool {
        &&& forall|j: int, k: int|
            0 <= j < self.escrows@.len() && 0 <= k < self.escrows@.len()
                && (#[trigger] self.escrows@[j]).project_owner == (#[trigger] self.escrows@[k]).project_owner
                ==> j == k
        &&& forall|k: int| 0 <= k < self.escrows@.len() ==> (#[trigger] self.escrows@[k])@.wf()
        &&& self.active_projects@.len() == self.escrows@.len()
        &&& forall|k: int|
            0 <= k < self.escrows@.len() ==> self.active_projects@[k] == (
            #[trigger] self.escrows@[k]).project_owner
    }

    proof fn lemma_slot(self, k: int)
        requires
            self.wf(),
            0 <= k < self.escrows@.len(),
        ensures
            self@.escrows.contains_key(self.escrows@[k].project_owner),
            self@.escrows[self.escrows@[k].project_owner] == self.escrows@[k]@,
            self.slot(self.escrows@[k].project_owner) == k,
    {
        let b = self.escrows@[k].project_owner;
        assert(self.has(b));
        let j = self.slot(b);
        assert(self.escrows@[j].project_owner == self.escrows@[k].project_owner);
    }

    proof fn lemma_view_wf(self)
        requires
            self.wf(),
        ensures
            self@.wf(),
    {
        assert forall|b: AccountId| #[trigger] self@.escrows.contains_key(b) implies self@.escrows[b].wf()
            && self@.escrows[b].project_owner == b by {
            let k = self.slot(b);
            self.lemma_slot(k);
        }
    }

    /// Replacing the escrow at `k` by one of the same beneficiary replaces it
    /// in the view.
    proof fn lemma_replace(self, next: Self, k: int)
        requires
            self.wf(),
            0 <= k < self.escrows@.len(),
            next.escrows@.len() == self.escrows@.len(),
            next.escrows@[k].project_owner == self.escrows@[k].project_owner,
            forall|j: int| 0 <= j < self.escrows@.len() && j != k ==> next.escrows@[j] == self.escrows@[j],
            next.escrows@[k]@.wf(),
            next.active_projects == self.active_projects,
            next.verifier == self.verifier,
        ensures
            next.wf(),
            next@ == self@.with_escrow(self.escrows@[k].project_owner, next.escrows@[k]@),
    {
        let b = self.escrows@[k].project_owner;
        assert forall|j: int, i: int|
            0 <= j < next.escrows@.len() && 0 <= i < next.escrows@.len()
                && (#[trigger] next.escrows@[j]).project_owner == (#[trigger] next.escrows@[i]).project_owner
                implies j == i by {
            assert(self.escrows@[j].project_owner == self.escrows@[i].project_owner);
        }
        assert forall|j: int| 0 <= j < next.escrows@.len() implies (#[trigger] next.escrows@[j])@.wf() by {
            if j != k {
                assert(self.escrows@[j]@.wf());
            }
        }
        assert forall|j: int| 0 <= j < next.escrows@.len() implies next.active_projects@[j] == (
        #[trigger] next.escrows@[j]).project_owner by {
            assert(self.active_projects@[j] == self.escrows@[j].project_owner);
        }
        assert(next.wf());
        let target = self@.with_escrow(b, next.escrows@[k]@);
        assert forall|c: AccountId| next@.escrows.contains_key(c) == target.escrows.contains_key(c) by {
            if next.has(c) {
                let j = next.slot(c);
                if j != k {
                    assert(self.escrows@[j].project_owner == c);
                }
            }
            if self.has(c) {
                let j = self.slot(c);
                assert(next.escrows@[j].project_owner == c);
            }
        }
        assert forall|c: AccountId| #[trigger] next@.escrows.contains_key(c) implies next@.escrows[c]
            == target.escrows[c] by {
            let j = next.slot(c);
            next.lemma_slot(j);
            if j != k {
                self.lemma_slot(j);
            }
        }
        assert(next@.escrows =~= target.escrows);
    }

    /// Filing a new escrow of a new beneficiary adds it to the view.
    proof fn lemma_push(self, next: Self, e: FundingEscrow)
        requires
            self.wf(),
            !self@.escrows.contains_key(e.project_owner),
            e@.wf(),
            next.escrows@ == self.escrows@.push(e),
            next.active_projects@ == self.active_projects@.push(e.project_owner),
            next.verifier == self.verifier,
        ensures
            next.wf(),
            next@ == self@.after_create(e.project_owner, e@),
    {
        let n = self.escrows@.len() as int;
        assert forall|j: int| 0 <= j < n implies self.escrows@[j].project_owner != e.project_owner by {
            self.lemma_slot(j);
        }
        assert forall|j: int, i: int|
            0 <= j < next.escrows@.len() && 0 <= i < next.escrows@.len()
                && (#[trigger] next.escrows@[j]).project_owner == (#[trigger] next.escrows@[i]).project_owner
                implies j == i by {
            if j < n && i < n {
                assert(self.escrows@[j].project_owner == self.escrows@[i].project_owner);
            }
        }
        assert forall|j: int| 0 <= j < next.escrows@.len() implies (#[trigger] next.escrows@[j])@.wf() by {
            if j < n {
                assert(self.escrows@[j]@.wf());
            }
        }
        assert forall|j: int| 0 <= j < next.escrows@.len() implies next.active_projects@[j] == (
        #[trigger] next.escrows@[j]).project_owner by {
            if j < n {
                assert(self.active_projects@[j] == self.escrows@[j].project_owner);
            }
        }
        assert(next.wf());
        let target = self@.after_create(e.project_owner, e@);
        assert forall|c: AccountId| next@.escrows.contains_key(c) == target.escrows.contains_key(c) by {
            if next.has(c) {
                let j = next.slot(c);
                if j < n {
                    assert(self.escrows@[j].project_owner == c);
                }
            }
            if self.has(c) {
                let j = self.slot(c);
                assert(next.escrows@[j].project_owner == c);
            }
            if c == e.project_owner {
                assert(next.escrows@[n].project_owner == c);
            }
        }
        assert forall|c: AccountId| #[trigger] next@.escrows.contains_key(c) implies next@.escrows[c]
            == target.escrows[c] by {
            let j = next.slot(c);
            next.lemma_slot(j);
            if j < n {
                self.lemma_slot(j);
            }
        }
        assert(next@.escrows =~= target.escrows);
    }

    /// Where `owner`'s escrow is stored.
    fn find(&self, owner: AccountId) -> (r: Option<usize>)
        requires
            self.wf(),
        ensures
            match r {
                Some(k) => k < self.escrows@.len() && self.escrows@[k as int].project_owner == owner
                    && self@.escrows.contains_key(owner) && self@.escrows[owner] == self.escrows@[k as int]@,
                None => !self@.escrows.contains_key(owner),
            },
    {
        let mut k: usize = 0;
        while k < self.escrows.len()
            invariant
                self.wf(),
                0 <= k <= self.escrows@.len(),
                forall|j: int| 0 <= j < k ==> self.escrows@[j].project_owner != owner,
            decreases self.escrows@.len() - k,
        {
            if self.escrows[k].project_owner.same(&owner) {
                proof {
                    self.lemma_slot(k as int);
                }
                return Some(k);
            }
            k = k + 1;
        }
        None
    }

    /// An empty registry with no verifier: only each escrow's admin may
    /// release its milestones.
    pub fn new() -> (r: Self)
        ensures
            r.wf(),
            r@.escrows == Map::<AccountId, EscrowView>::empty(),
            r@.projects == Seq::<AccountId>::empty(),
            r@.verifier == None::<AccountId>,
    {
        let r = FundingEscrowContract { escrows: Vec::new(), active_projects: Vec::new(), verifier: None };
        assert(r@.escrows =~= Map::<AccountId, EscrowView>::empty());
        r
    }

    /// An empty registry in which `verifier` may release the milestones of
    /// every escrow, beside each escrow's admin.
    pub fn with_verifier(verifier: AccountId) -> (r: Self)
        ensures
            r.wf(),
            r@.escrows == Map::<AccountId, EscrowView>::empty(),
            r@.projects == Seq::<AccountId>::empty(),
            r@.verifier == Some(verifier),
    {
        let r = FundingEscrowContract {
            escrows: Vec::new(),
            active_projects: Vec::new(),
            verifier: Some(verifier),
        };
        assert(r@.escrows =~= Map::<AccountId, EscrowView>::empty());
        r
    }

    /// Creates the escrow of `project_owner` from the `deposited` funds, with
    /// `caller` as its admin and `now` as its creation time. Refused, with
    /// nothing changed, when nothing was deposited, when the beneficiary has
    /// an escrow already, when the percentages do not sum to one hundred, or
    /// when there is not exactly one description per percentage (in that
    /// order). Each milestone gets `(deposited / 100) * percentage`; the
    /// remainder `deposited % 100` stays in the escrow's remaining amount.
    pub fn create_escrow(
        &mut self,
        caller: AccountId,
        deposited: u128,
        now: u64,
        project_owner: AccountId,
        project_id: Vec<u8>,
        project_name: Vec<u8>,
        description: Vec<u8>,
        arkiv_entity_url: Vec<u8>,
        milestone_percentages: Vec<u32>,
        milestone_descriptions: Vec<Vec<u8>>,
    ) -> (r: Result<EscrowCreated, EscrowError>)
        requires
            old(self).wf(),
            milestone_percentages@.len() <= u32::MAX,
        ensures
            final(self).wf(),
            match old(self)@.create_check(
                deposited,
                project_owner,
                milestone_percentages@,
                milestone_descriptions@.len() as int,
            ) {
                Err(e) => r == Err::<EscrowCreated, EscrowError>(e) && final(self)@ == old(self)@,
                Ok(_) => {
                    &&& r == Ok::<EscrowCreated, EscrowError>(
                        (EscrowCreated {
                            project_owner,
                            total_amount: deposited,
                            milestone_count: milestone_percentages@.len() as u32,
                        }),
                    )
                    &&& final(self)@ == old(self)@.after_create(
                        project_owner,
                        new_escrow(
                            project_owner,
                            caller,
                            deposited,
                            (MetadataView {
                                project_id: project_id@,
                                project_name: project_name@,
                                description: description@,
                                arkiv_entity_url: arkiv_entity_url@,
                                created_at: now,
                            }),
                            milestone_percentages@,
                            milestone_descriptions@.map_values(|d: Vec<u8>| d@),
                        ),
                    )
                },
            },
    {
        if deposited == 0 {
            return Err(EscrowError::InsufficientFunds);
        }
        if self.find(project_owner).is_some() {
            return Err(EscrowError::EscrowAlreadyExists);
        }
        if !validate_percentages(&milestone_percentages) {
            return Err(EscrowError::InvalidMilestonePercentages);
        }
        if !validate_shape(&milestone_percentages, &milestone_descriptions) {
            return Err(EscrowError::MilestoneCountMismatch);
        }
        let ghost pcts = milestone_percentages@;
        let ghost descs = milestone_descriptions@.map_values(|d: Vec<u8>| d@);
        let mut milestones: Vec<Milestone> = Vec::new();
        let mut k: usize = 0;
        while k < milestone_percentages.len()
            invariant
                pct_sum(pcts) == 100,
                pcts == milestone_percentages@,
                descs == milestone_descriptions@.map_values(|d: Vec<u8>| d@),
                milestone_descriptions@.len() == pcts.len(),
                0 <= k <= pcts.len(),
                milestones@.len() == k,
                forall|j: int|
                    0 <= j < k ==> (#[trigger] milestones@[j])@ == pending_milestone(
                        deposited,
                        pcts[j],
                        descs[j],
                    ),
            decreases pcts.len() - k,
        {
            let pct = milestone_percentages[k];
            proof {
                crate::accounting::lemma_pct_entry_le_sum(pcts, k as int);
            }
            let text = milestone_descriptions[k].clone();
            assert(text@ =~= descs[k as int]);
            milestones.push(
                Milestone {
                    release_percentage: pct,
                    amount: milestone_amount(deposited, pct),
                    is_released: false,
                    released_at: 0,
                    description: text,
                },
            );
            k = k + 1;
        }
        let count = milestone_percentages.len() as u32;
        let escrow = FundingEscrow {
            project_owner,
            admin: caller,
            total_amount: deposited,
            released_amount: 0,
            remaining_amount: deposited,
            milestones,
            project_metadata: ProjectMetadata {
                project_id,
                project_name,
                description,
                arkiv_entity_url,
                created_at: now,
            },
            is_cancelled: false,
            is_completed: false,
        };
        proof {
            let target = new_escrow(project_owner, caller, deposited, escrow.project_metadata@, pcts, descs);
            assert(escrow@.milestones =~= target.milestones);
            lemma_new_escrow_wf(project_owner, caller, deposited, escrow.project_metadata@, pcts, descs);
        }
        let ghost before = *self;
        self.escrows.push(escrow);
        self.active_projects.push(project_owner);
        proof {
            before.lemma_push(*self, self.escrows@.last());
        }
        Ok(EscrowCreated { project_owner, total_amount: deposited, milestone_count: count })
    }

    fn may_release(&self, k: usize, caller: &AccountId) -> (r: bool)
        requires
            k < self.escrows@.len(),
        ensures
            r == (*caller == self.escrows@[k as int].admin || self.verifier == Some(*caller)),
    {
        if caller.same(&self.escrows[k].admin) {
            return true;
        }
        match &self.verifier {
            Some(v) => v.same(caller),
            None => false,
        }
    }

    /// Runs the checks of a release, in order, without changing anything:
    /// the transfer to make, or the error of the first check that fails.
    fn check_release(&self, caller: AccountId, owner: AccountId, milestone_index: u32) -> (r:
        Result<(usize, u128), EscrowError>)
        requires
            self.wf(),
        ensures
            match self@.release_check(caller, owner, milestone_index) {
                Ok(amount) => r matches Ok((k, a)) && a == amount && k < self.escrows@.len()
                    && self.escrows@[k as int].project_owner == owner,
                Err(e) => r == Err::<(usize, u128), EscrowError>(e),
            },
    {
        let k = match self.find(owner) {
            Some(k) => k,
            None => return Err(EscrowError::EscrowNotFound),
        };
        let e = &self.escrows[k];
        if e.is_cancelled {
            return Err(EscrowError::EscrowCancelled);
        }
        if e.is_completed {
            return Err(EscrowError::EscrowCompleted);
        }
        let i = milestone_index as usize;
        if i >= e.milestones.len() {
            return Err(EscrowError::InvalidMilestoneIndex);
        }
        if e.milestones[i].is_released {
            return Err(EscrowError::MilestoneAlreadyReleased);
        }
        if !self.may_release(k, &caller) {
            return Err(EscrowError::Unauthorized);
        }
        Ok((k, e.milestones[i].amount))
    }

    /// The transfer that releasing milestone `milestone_index` of `owner`'s
    /// escrow asks of the ledger, or why the release is refused. Nothing
    /// changes.
    pub fn plan_release(&self, caller: AccountId, owner: AccountId, milestone_index: u32) -> (r:
        Result<Transfer, EscrowError>)
        requires
            self.wf(),
        ensures
            match self@.release_check(caller, owner, milestone_index) {
                Ok(amount) => r == Ok::<Transfer, EscrowError>(Transfer { to: owner, amount }),
                Err(e) => r == Err::<Transfer, EscrowError>(e),
            },
    {
        match self.check_release(caller, owner, milestone_index) {
            Ok((_, amount)) => Ok(Transfer { to: owner, amount }),
            Err(e) => Err(e),
        }
    }

    /// Releases milestone `milestone_index` of `owner`'s escrow at time
    /// `now`. `transfer_ok` is the ledger's answer to the transfer that
    /// `plan_release` asked for. If a check fails, or the ledger refused,
    /// nothing changes; otherwise the milestone is marked paid, its amount
    /// moves from remaining to released, and the escrow completes with its
    /// last milestone.
    pub fn release_milestone(
        &mut self,
        caller: AccountId,
        owner: AccountId,
        milestone_index: u32,
        now: u64,
        transfer_ok: bool,
    ) -> (r: Result<FundsReleased, EscrowError>)
        requires
            old(self).wf(),
        ensures
            final(self).wf(),
            match old(self)@.release_check(caller, owner, milestone_index) {
                Err(e) => r == Err::<FundsReleased, EscrowError>(e) && final(self)@ == old(self)@,
                Ok(amount) => if transfer_ok {
                    &&& r == Ok::<FundsReleased, EscrowError>(
                        (FundsReleased { project_owner: owner, milestone_index, amount }),
                    )
                    &&& final(self)@ == old(self)@.after_release(owner, milestone_index, now)
                } else {
                    r == Err::<FundsReleased, EscrowError>(EscrowError::TransferFailed)
                        && final(self)@ == old(self)@
                },
            },
    {
        let (k, amount) = match self.check_release(caller, owner, milestone_index) {
            Ok(found) => found,
            Err(e) => return Err(e),
        };
        if !transfer_ok {
            return Err(EscrowError::TransferFailed);
        }
        let ghost before = *self;
        let i = milestone_index as usize;
        proof {
            lemma_release_wf(self.escrows@[k as int]@, i as int, now);
        }
        let e = &mut self.escrows[k];
        let m = &mut e.milestones[i];
        m.is_released = true;
        m.released_at = now;
        e.released_amount = e.released_amount + amount;
        e.remaining_amount = e.remaining_amount - amount;
        e.is_completed = all_paid(&e.milestones);
        proof {
            let old_e = before.escrows@[k as int];
            assert(e.milestones@.map_values(|m: crate::escrow::Milestone| m@) =~= old_e@.milestones.update(
                i as int,
                paid_out(old_e@.milestones[i as int], now),
            ));
            before.lemma_replace(*self, k as int);
        }
        Ok(FundsReleased { project_owner: owner, milestone_index, amount })
    }

    fn check_cancel(&self, caller: AccountId, owner: AccountId) -> (r: Result<usize, EscrowError>)
        requires
            self.wf(),
        ensures
            match self@.cancel_check(caller, owner) {
                Ok(remaining) => r matches Ok(k) && k < self.escrows@.len()
                    && self.escrows@[k as int].project_owner == owner
                    && self.escrows@[k as int].remaining_amount == remaining
                    && self.escrows@[k as int].admin == caller,
                Err(e) => r == Err::<usize, EscrowError>(e),
            },
    {
        let k = match self.find(owner) {
            Some(k) => k,
            None => return Err(EscrowError::EscrowNotFound),
        };
        let e = &self.escrows[k];
        if !caller.same(&e.admin) {
            return Err(EscrowError::Unauthorized);
        }
        if e.is_cancelled || e.is_completed {
            return Err(EscrowError::CannotCancelEscrow);
        }
        Ok(k)
    }

    /// The transfer that cancelling `owner`'s escrow asks of the ledger: all
    /// that remains, back to the admin; none when nothing remains. Or why
    /// the cancellation is refused. Nothing changes.
    pub fn plan_cancel(&self, caller: AccountId, owner: AccountId) -> (r: Result<
        Option<Transfer>,
        EscrowError,
    >)
        requires
            self.wf(),
        ensures
            match self@.cancel_check(caller, owner) {
                Ok(remaining) => r == Ok::<Option<Transfer>, EscrowError>(
                    if remaining > 0 {
                        Some(Transfer { to: self@.escrows[owner].admin, amount: remaining })
                    } else {
                        None
                    },
                ),
                Err(e) => r == Err::<Option<Transfer>, EscrowError>(e),
            },
    {
        match self.check_cancel(caller, owner) {
            Ok(k) => {
                let e = &self.escrows[k];
                if e.remaining_amount > 0 {
                    Ok(Some(Transfer { to: e.admin, amount: e.remaining_amount }))
                } else {
                    Ok(None)
                }
            },
            Err(e) => Err(e),
        }
    }

    /// Cancels `owner`'s escrow on behalf of its admin. `transfer_ok` is the
    /// ledger's answer to the transfer that `plan_cancel` asked for; it
    /// matters only when something remains. If a check fails, or the ledger
    /// refused, nothing changes; otherwise the escrow is marked cancelled and
    /// keeps its remaining amount as the record of what was recovered.
    pub fn cancel_escrow(&mut self, caller: AccountId, owner: AccountId, transfer_ok: bool) -> (r:
        Result<EscrowCancelled, EscrowError>)
        requires
            old(self).wf(),
        ensures
            final(self).wf(),
            match old(self)@.cancel_check(caller, owner) {
                Err(e) => r == Err::<EscrowCancelled, EscrowError>(e) && final(self)@ == old(self)@,
                Ok(remaining) => if remaining > 0 && !transfer_ok {
                    r == Err::<EscrowCancelled, EscrowError>(EscrowError::TransferFailed)
                        && final(self)@ == old(self)@
                } else {
                    &&& r == Ok::<EscrowCancelled, EscrowError>(
                        (EscrowCancelled { project_owner: owner, remaining_amount: remaining }),
                    )
                    &&& final(self)@ == old(self)@.after_cancel(owner)
                },
            },
    {
        let k = match self.check_cancel(caller, owner) {
            Ok(k) => k,
            Err(e) => return Err(e),
        };
        let remaining = self.escrows[k].remaining_amount;
        if remaining > 0 && !transfer_ok {
            return Err(EscrowError::TransferFailed);
        }
        let ghost before = *self;
        self.escrows[k].is_cancelled = true;
        proof {
            before.lemma_replace(*self, k as int);
        }
        Ok(EscrowCancelled { project_owner: owner, remaining_amount: remaining })
    }

    /// Checks a progress report of the beneficiary on one milestone and hands
    /// it back as a notice for the project registry. Nothing changes: a
    /// report neither gates nor unlocks a release.
    pub fn record_progress(
        &self,
        caller: AccountId,
        owner: AccountId,
        milestone_index: u32,
        progress_notes: Vec<u8>,
    ) -> (r: Result<ProgressRecorded, EscrowError>)
        requires
            self.wf(),
        ensures
            match self@.progress_check(caller, owner, milestone_index) {
                Err(e) => r matches Err(x) && x == e,
                Ok(_) => r matches Ok(ev) && ev.project_owner == owner && ev.milestone_index
                    == milestone_index && ev.progress_notes@ == progress_notes@,
            },
    {
        let k = match self.find(owner) {
            Some(k) => k,
            None => return Err(EscrowError::EscrowNotFound),
        };
        let e = &self.escrows[k];
        if !caller.same(&owner) {
            return Err(EscrowError::Unauthorized);
        }
        if e.is_cancelled {
            return Err(EscrowError::EscrowCancelled);
        }
        if milestone_index as usize >= e.milestones.len() {
            return Err(EscrowError::InvalidMilestoneIndex);
        }
        Ok(ProgressRecorded { project_owner: owner, milestone_index, progress_notes })
    }

    /// Summary of `owner`'s escrow, if there is one.
    pub fn get_escrow(&self, owner: AccountId) -> (r: Option<EscrowInfo>)
        requires
            self.wf(),
        ensures
            match r {
                None => !self@.escrows.contains_key(owner),
                Some(info) => {
                    let e = self@.escrows[owner];
                    &&& self@.escrows.contains_key(owner)
                    &&& info == (EscrowInfo {
                        project_owner: e.project_owner,
                        admin: e.admin,
                        total_amount: e.total_amount,
                        released_amount: e.released_amount,
                        remaining_amount: e.remaining_amount,
                        is_cancelled: e.is_cancelled,
                        is_completed: e.is_completed,
                        milestone_count: e.milestones.len() as u32,
                    })
                },
            },
    {
        match self.find(owner) {
            None => None,
            Some(k) => {
                let e = &self.escrows[k];
                Some(
                    EscrowInfo {
                        project_owner: e.project_owner,
                        admin: e.admin,
                        total_amount: e.total_amount,
                        released_amount: e.released_amount,
                        remaining_amount: e.remaining_amount,
                        is_cancelled: e.is_cancelled,
                        is_completed: e.is_completed,
                        milestone_count: e.milestones.len() as u32,
                    },
                )
            },
        }
    }

    /// Total, released amount, and the two terminal flags of `owner`'s
    /// escrow, if there is one.
    pub fn get_escrow_status(&self, owner: AccountId) -> (r: Option<(u128, u128, bool, bool)>)
        requires
            self.wf(),
        ensures
            match r {
                None => !self@.escrows.contains_key(owner),
                Some(status) => {
                    let e = self@.escrows[owner];
                    self@.escrows.contains_key(owner) && status == (
                    e.total_amount,
                    e.released_amount,
                    e.is_cancelled,
                    e.is_completed,
                    )
                },
            },
    {
        match self.find(owner) {
            None => None,
            Some(k) => {
                let e = &self.escrows[k];
                Some((e.total_amount, e.released_amount, e.is_cancelled, e.is_completed))
            },
        }
    }

    /// Summary of milestone `milestone_index` of `owner`'s escrow, if both
    /// exist.
    pub fn get_milestone(&self, owner: AccountId, milestone_index: u32) -> (r: Option<MilestoneInfo>)
        requires
            self.wf(),
        ensures
            match r {
                None => !self@.escrows.contains_key(owner) || milestone_index
                    >= self@.escrows[owner].milestones.len(),
                Some(info) => {
                    let m = self@.escrows[owner].milestones[milestone_index as int];
                    &&& self@.escrows.contains_key(owner)
                    &&& milestone_index < self@.escrows[owner].milestones.len()
                    &&& info == (MilestoneInfo {
                        release_percentage: m.release_percentage,
                        amount: m.amount,
                        is_released: m.is_released,
                        released_at: m.released_at,
                    })
                },
            },
    {
        match self.find(owner) {
            None => None,
            Some(k) => {
                let e = &self.escrows[k];
                let i = milestone_index as usize;
                if i < e.milestones.len() {
                    let m = &e.milestones[i];
                    Some(
                        MilestoneInfo {
                            release_percentage: m.release_percentage,
                            amount: m.amount,
                            is_released: m.is_released,
                            released_at: m.released_at,
                        },
                    )
                } else {
                    None
                }
            },
        }
    }

    /// Amount and paid-out flag of milestone `milestone_index` of `owner`'s
    /// escrow, if both exist.
    pub fn get_milestone_status(&self, owner: AccountId, milestone_index: u32) -> (r: Option<
        (u128, bool),
    >)
        requires
            self.wf(),
        ensures
            match r {
                None => !self@.escrows.contains_key(owner) || milestone_index
                    >= self@.escrows[owner].milestones.len(),
                Some(status) => {
                    let m = self@.escrows[owner].milestones[milestone_index as int];
                    &&& self@.escrows.contains_key(owner)
                    &&& milestone_index < self@.escrows[owner].milestones.len()
                    &&& status == (m.amount, m.is_released)
                },
            },
    {
        match self.get_milestone(owner, milestone_index) {
            None => None,
            Some(info) => Some((info.amount, info.is_released)),
        }
    }

    /// The descriptive data of `owner`'s project, if it has an escrow.
    pub fn get_project_metadata(&self, owner: AccountId) -> (r: Option<ProjectMetadataInfo>)
        requires
            self.wf(),
        ensures
            match r {
                None => !self@.escrows.contains_key(owner),
                Some(info) => {
                    let md = self@.escrows[owner].metadata;
                    &&& self@.escrows.contains_key(owner)
                    &&& info.project_id@ == md.project_id
                    &&& info.project_name@ == md.project_name
                    &&& info.arkiv_entity_url@ == md.arkiv_entity_url
                    &&& info.created_at == md.created_at
                },
            },
    {
        match self.find(owner) {
            None => None,
            Some(k) => {
                let md = &self.escrows[k].project_metadata;
                let project_id = md.project_id.clone();
                let project_name = md.project_name.clone();
                let arkiv_entity_url = md.arkiv_entity_url.clone();
                assert(project_id@ =~= md.project_id@);
                assert(project_name@ =~= md.project_name@);
                assert(arkiv_entity_url@ =~= md.arkiv_entity_url@);
                Some(
                    ProjectMetadataInfo {
                        project_id,
                        project_name,
                        arkiv_entity_url,
                        created_at: md.created_at,
                    },
                )
            },
        }
    }

    /// How many escrows were ever created, capped at `u32::MAX`.
    pub fn get_project_count(&self) -> (r: u32)
        ensures
            r == if self@.projects.len() <= u32::MAX {
                self@.projects.len() as u32
            } else {
                u32::MAX
            },
    {
        let n = self.active_projects.len();
        if n <= u32::MAX as usize {
            n as u32
        } else {
            u32::MAX
        }
    }
}

/// Whether every milestone was paid out.
fn all_paid(milestones: &Vec<crate::escrow::Milestone>) -> (r: bool)
    ensures
        r == crate::escrow::all_released(crate::escrow::milestones_view(milestones@)),
{
    let mut k: usize = 0;
    while k < milestones.len()
        invariant
            0 <= k <= milestones@.len(),
            forall|j: int| 0 <= j < k ==> milestones@[j].is_released,
        decreases milestones@.len() - k,
    {
        if !milestones[k].is_released {
            assert(!crate::escrow::milestones_view(milestones@)[k as int].is_released);
            return false;
        }
        k = k + 1;
    }
    assert forall|j: int| 0 <= j < milestones@.len() implies #[trigger] crate::escrow::milestones_view(
        milestones@,
    )[j].is_released by {
        assert(milestones@[j].is_released);
    }
    true
}

} // verus!
