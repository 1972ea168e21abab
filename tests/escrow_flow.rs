use funding_escrow::accounting::{milestone_amount, validate_percentages, validate_shape};
use funding_escrow::contract::FundingEscrowContract;
use funding_escrow::error::EscrowError;
use funding_escrow::identity::AccountId;

fn id(b: u8) -> AccountId {
    AccountId([b; 32])
}

fn admin() -> AccountId {
    id(1)
}

fn owner() -> AccountId {
    id(2)
}

fn descriptions(n: usize) -> Vec<Vec<u8>> {
    (0..n).map(|k| format!("phase {}", k).into_bytes()).collect()
}

fn create(
    c: &mut FundingEscrowContract,
    who: AccountId,
    deposited: u128,
    pcts: Vec<u32>,
) -> Result<funding_escrow::records::EscrowCreated, EscrowError> {
    let n = pcts.len();
    c.create_escrow(
        admin(),
        deposited,
        1_000,
        who,
        b"project_123".to_vec(),
        b"My Project".to_vec(),
        b"Building an app".to_vec(),
        b"https://example.com/p/123".to_vec(),
        pcts,
        descriptions(n),
    )
}

fn release(c: &mut FundingEscrowContract, index: u32, now: u64) -> Result<u128, EscrowError> {
    c.release_milestone(admin(), owner(), index, now, true).map(|ev| ev.amount)
}

#[test]
fn quarters_release_to_completion() {
    let mut c = FundingEscrowContract::new();
    let ev = create(&mut c, owner(), 10_000, vec![25, 25, 25, 25]).unwrap();
    assert_eq!(ev.total_amount, 10_000);
    assert_eq!(ev.milestone_count, 4);
    for i in 0..4 {
        assert_eq!(c.get_milestone_status(owner(), i), Some((2_500, false)));
    }
    assert_eq!(release(&mut c, 0, 2_000), Ok(2_500));
    let info = c.get_escrow(owner()).unwrap();
    assert_eq!(info.released_amount, 2_500);
    assert_eq!(info.remaining_amount, 7_500);
    assert!(!info.is_completed);
    for i in 1..4 {
        assert_eq!(release(&mut c, i, 3_000), Ok(2_500));
    }
    let info = c.get_escrow(owner()).unwrap();
    assert!(info.is_completed);
    assert_eq!(info.released_amount, 10_000);
    assert_eq!(info.remaining_amount, 0);
    let m = c.get_milestone(owner(), 0).unwrap();
    assert!(m.is_released);
    assert_eq!(m.released_at, 2_000);
}

#[test]
fn percentages_summing_to_ninety_are_refused() {
    let mut c = FundingEscrowContract::new();
    assert_eq!(
        create(&mut c, owner(), 10_000, vec![30, 30, 30]).err(),
        Some(EscrowError::InvalidMilestonePercentages)
    );
    assert!(c.get_escrow(owner()).is_none());
    assert_eq!(c.get_project_count(), 0);
}

#[test]
fn second_escrow_for_a_beneficiary_is_refused() {
    let mut c = FundingEscrowContract::new();
    create(&mut c, owner(), 10_000, vec![50, 50]).unwrap();
    assert_eq!(
        create(&mut c, owner(), 500, vec![100]).err(),
        Some(EscrowError::EscrowAlreadyExists)
    );
    assert_eq!(c.get_escrow_status(owner()), Some((10_000, 0, false, false)));
    assert_eq!(c.get_escrow(owner()).unwrap().milestone_count, 2);
    assert_eq!(c.get_project_count(), 1);
}

#[test]
fn zero_deposit_is_refused() {
    let mut c = FundingEscrowContract::new();
    assert_eq!(create(&mut c, owner(), 0, vec![100]).err(), Some(EscrowError::InsufficientFunds));
}

#[test]
fn description_count_must_match() {
    let mut c = FundingEscrowContract::new();
    let r = c.create_escrow(
        admin(),
        100,
        0,
        owner(),
        vec![],
        vec![],
        vec![],
        vec![],
        vec![60, 40],
        descriptions(1),
    );
    assert_eq!(r.err(), Some(EscrowError::MilestoneCountMismatch));
    assert_eq!(create(&mut c, owner(), 100, vec![]).err(), Some(EscrowError::InvalidMilestonePercentages));
    assert!(c.get_escrow(owner()).is_none());
}

#[test]
fn second_release_is_refused_without_transfer() {
    let mut c = FundingEscrowContract::new();
    create(&mut c, owner(), 1_000, vec![40, 60]).unwrap();
    let t = c.plan_release(admin(), owner(), 0).unwrap();
    assert!(t.to == owner());
    assert_eq!(t.amount, 400);
    assert_eq!(release(&mut c, 0, 5), Ok(400));
    assert_eq!(c.plan_release(admin(), owner(), 0).err(), Some(EscrowError::MilestoneAlreadyReleased));
    assert_eq!(release(&mut c, 0, 6), Err(EscrowError::MilestoneAlreadyReleased));
    assert_eq!(c.get_escrow_status(owner()), Some((1_000, 400, false, false)));
    assert_eq!(c.get_milestone(owner(), 0).unwrap().released_at, 5);
}

#[test]
fn release_after_completion_reports_completed() {
    let mut c = FundingEscrowContract::new();
    create(&mut c, owner(), 700, vec![100]).unwrap();
    assert_eq!(release(&mut c, 0, 1), Ok(700));
    assert_eq!(release(&mut c, 0, 2), Err(EscrowError::EscrowCompleted));
}

#[test]
fn completed_escrow_cannot_be_cancelled() {
    let mut c = FundingEscrowContract::new();
    create(&mut c, owner(), 1_000, vec![50, 50]).unwrap();
    release(&mut c, 1, 1).unwrap();
    release(&mut c, 0, 2).unwrap();
    assert!(c.get_escrow(owner()).unwrap().is_completed);
    assert_eq!(c.plan_cancel(admin(), owner()).err(), Some(EscrowError::CannotCancelEscrow));
    assert_eq!(c.cancel_escrow(admin(), owner(), true).err(), Some(EscrowError::CannotCancelEscrow));
}

#[test]
fn cancel_before_release_returns_everything() {
    let mut c = FundingEscrowContract::new();
    create(&mut c, owner(), 10_000, vec![25, 75]).unwrap();
    let t = c.plan_cancel(admin(), owner()).unwrap().unwrap();
    assert!(t.to == admin());
    assert_eq!(t.amount, 10_000);
    let ev = c.cancel_escrow(admin(), owner(), true).unwrap();
    assert_eq!(ev.remaining_amount, 10_000);
    assert!(ev.project_owner == owner());
    let info = c.get_escrow(owner()).unwrap();
    assert!(info.is_cancelled);
    assert!(!info.is_completed);
    assert_eq!(info.remaining_amount, 10_000);
    assert_eq!(release(&mut c, 0, 9), Err(EscrowError::EscrowCancelled));
    assert_eq!(c.cancel_escrow(admin(), owner(), true).err(), Some(EscrowError::CannotCancelEscrow));
}

#[test]
fn cancel_after_partial_release_returns_the_rest() {
    let mut c = FundingEscrowContract::new();
    create(&mut c, owner(), 10_050, vec![30, 70]).unwrap();
    assert_eq!(release(&mut c, 0, 1), Ok(3_000));
    let t = c.plan_cancel(admin(), owner()).unwrap().unwrap();
    assert_eq!(t.amount, 7_050);
}

#[test]
fn cancel_is_for_the_admin_only() {
    let mut c = FundingEscrowContract::new();
    create(&mut c, owner(), 100, vec![100]).unwrap();
    assert_eq!(c.cancel_escrow(owner(), owner(), true).err(), Some(EscrowError::Unauthorized));
    assert_eq!(c.cancel_escrow(admin(), id(9), true).err(), Some(EscrowError::EscrowNotFound));
    assert!(!c.get_escrow(owner()).unwrap().is_cancelled);
}

#[test]
fn failed_release_transfer_changes_nothing() {
    let mut c = FundingEscrowContract::new();
    create(&mut c, owner(), 1_000, vec![50, 50]).unwrap();
    assert_eq!(
        c.release_milestone(admin(), owner(), 0, 7, false).err(),
        Some(EscrowError::TransferFailed)
    );
    assert_eq!(c.get_escrow_status(owner()), Some((1_000, 0, false, false)));
    let m = c.get_milestone(owner(), 0).unwrap();
    assert!(!m.is_released);
    assert_eq!(m.released_at, 0);
}

#[test]
fn failed_cancel_transfer_changes_nothing() {
    let mut c = FundingEscrowContract::new();
    create(&mut c, owner(), 1_000, vec![100]).unwrap();
    assert_eq!(c.cancel_escrow(admin(), owner(), false).err(), Some(EscrowError::TransferFailed));
    assert_eq!(c.get_escrow_status(owner()), Some((1_000, 0, false, false)));
}

#[test]
fn cancel_with_nothing_left_needs_no_transfer() {
    let mut c = FundingEscrowContract::new();
    create(&mut c, owner(), 100, vec![100, 0]).unwrap();
    assert_eq!(release(&mut c, 0, 1), Ok(100));
    assert!(c.plan_cancel(admin(), owner()).unwrap().is_none());
    let ev = c.cancel_escrow(admin(), owner(), false).unwrap();
    assert_eq!(ev.remaining_amount, 0);
    assert!(c.get_escrow(owner()).unwrap().is_cancelled);
}

#[test]
fn release_needs_admin_or_verifier() {
    let mut c = FundingEscrowContract::new();
    create(&mut c, owner(), 1_000, vec![50, 50]).unwrap();
    assert_eq!(
        c.release_milestone(owner(), owner(), 0, 1, true).err(),
        Some(EscrowError::Unauthorized)
    );
    let mut v = FundingEscrowContract::with_verifier(id(7));
    create(&mut v, owner(), 1_000, vec![50, 50]).unwrap();
    assert_eq!(v.release_milestone(id(7), owner(), 1, 1, true).unwrap().amount, 500);
    assert_eq!(
        v.release_milestone(id(8), owner(), 0, 1, true).err(),
        Some(EscrowError::Unauthorized)
    );
}

#[test]
fn release_checks_come_in_order() {
    let mut c = FundingEscrowContract::new();
    assert_eq!(release(&mut c, 0, 1), Err(EscrowError::EscrowNotFound));
    create(&mut c, owner(), 1_000, vec![50, 50]).unwrap();
    assert_eq!(release(&mut c, 2, 1), Err(EscrowError::InvalidMilestoneIndex));
    assert_eq!(
        c.release_milestone(id(9), owner(), 2, 1, true).err(),
        Some(EscrowError::InvalidMilestoneIndex)
    );
}

#[test]
fn remainder_stays_unassigned() {
    let mut c = FundingEscrowContract::new();
    create(&mut c, owner(), 199, vec![100]).unwrap();
    assert_eq!(c.get_milestone_status(owner(), 0), Some((100, false)));
    assert_eq!(release(&mut c, 0, 1), Ok(100));
    let info = c.get_escrow(owner()).unwrap();
    assert!(info.is_completed);
    assert_eq!(info.released_amount, 100);
    assert_eq!(info.remaining_amount, 99);
}

#[test]
fn milestone_amounts_sum_within_total() {
    let mut c = FundingEscrowContract::new();
    create(&mut c, owner(), 10_050, vec![33, 33, 34]).unwrap();
    let amounts: Vec<u128> =
        (0..3).map(|i| c.get_milestone_status(owner(), i).unwrap().0).collect();
    assert_eq!(amounts, vec![3_300, 3_300, 3_400]);
    let sum: u128 = amounts.iter().sum();
    assert_eq!(sum, 10_000);
    assert_eq!(10_050 - sum, 50);
}

#[test]
fn balance_holds_after_each_step() {
    let mut c = FundingEscrowContract::new();
    create(&mut c, owner(), 12_345, vec![10, 20, 30, 40]).unwrap();
    for i in [2u32, 0, 3] {
        release(&mut c, i, 1).unwrap();
        let info = c.get_escrow(owner()).unwrap();
        assert_eq!(info.released_amount + info.remaining_amount, 12_345);
    }
    c.cancel_escrow(admin(), owner(), true).unwrap();
    let info = c.get_escrow(owner()).unwrap();
    assert_eq!(info.released_amount + info.remaining_amount, 12_345);
    assert_eq!(info.released_amount, 123 * 80);
}

#[test]
fn progress_is_reported_by_the_beneficiary() {
    let mut c = FundingEscrowContract::new();
    assert_eq!(
        c.record_progress(owner(), owner(), 0, b"x".to_vec()).err(),
        Some(EscrowError::EscrowNotFound)
    );
    create(&mut c, owner(), 1_000, vec![50, 50]).unwrap();
    let ev = c.record_progress(owner(), owner(), 1, b"prototype done".to_vec()).unwrap();
    assert_eq!(ev.milestone_index, 1);
    assert_eq!(ev.progress_notes, b"prototype done".to_vec());
    assert!(ev.project_owner == owner());
    assert_eq!(
        c.record_progress(admin(), owner(), 0, vec![]).err(),
        Some(EscrowError::Unauthorized)
    );
    assert_eq!(
        c.record_progress(owner(), owner(), 2, vec![]).err(),
        Some(EscrowError::InvalidMilestoneIndex)
    );
    c.cancel_escrow(admin(), owner(), true).unwrap();
    assert_eq!(
        c.record_progress(owner(), owner(), 0, vec![]).err(),
        Some(EscrowError::EscrowCancelled)
    );
}

#[test]
fn queries_report_what_was_stored() {
    let mut c = FundingEscrowContract::new();
    assert!(c.get_project_metadata(owner()).is_none());
    assert!(c.get_milestone(owner(), 0).is_none());
    create(&mut c, owner(), 1_000, vec![20, 80]).unwrap();
    create(&mut c, id(3), 50, vec![100]).unwrap();
    assert_eq!(c.get_project_count(), 2);
    let md = c.get_project_metadata(owner()).unwrap();
    assert_eq!(md.project_id, b"project_123".to_vec());
    assert_eq!(md.project_name, b"My Project".to_vec());
    assert_eq!(md.arkiv_entity_url, b"https://example.com/p/123".to_vec());
    assert_eq!(md.created_at, 1_000);
    let m = c.get_milestone(owner(), 1).unwrap();
    assert_eq!(m.release_percentage, 80);
    assert_eq!(m.amount, 800);
    assert!(c.get_milestone(owner(), 2).is_none());
    let info = c.get_escrow(id(3)).unwrap();
    assert!(info.admin == admin());
    assert!(info.project_owner == id(3));
    assert_eq!(info.total_amount, 50);
    assert_eq!(c.get_milestone_status(id(3), 0), Some((0, false)));
}

#[test]
fn amount_formula() {
    assert_eq!(milestone_amount(10_000, 25), 2_500);
    assert_eq!(milestone_amount(199, 100), 100);
    assert_eq!(milestone_amount(99, 50), 0);
    assert_eq!(milestone_amount(u128::MAX, 100), (u128::MAX / 100) * 100);
}

#[test]
fn percentage_and_shape_validation() {
    assert!(validate_percentages(&vec![25, 25, 25, 25]));
    assert!(!validate_percentages(&vec![30, 30, 30]));
    assert!(!validate_percentages(&vec![]));
    assert!(!validate_percentages(&vec![u32::MAX, 101]));
    assert!(validate_percentages(&vec![100, 0]));
    assert!(validate_shape(&vec![100], &descriptions(1)));
    assert!(!validate_shape(&vec![], &descriptions(0)));
    assert!(!validate_shape(&vec![50, 50], &descriptions(3)));
}

#[test]
fn identities_compare_by_bytes() {
    let mut a = [5u8; 32];
    assert!(AccountId(a) == id(5));
    a[31] = 6;
    assert!(AccountId(a) != id(5));
    assert!(id(5).same(&id(5)));
}
