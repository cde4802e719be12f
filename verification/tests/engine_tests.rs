use stellarbridge::engine::StellarBridgeContract;
use stellarbridge::model::{Address, Error, MilestoneStatus};

fn addr(id: u64) -> Address {
    Address { id }
}

const HASH: [u8; 32] = [7u8; 32];

/// A state with configuration set (verifier 1, token 9).
fn initialized() -> StellarBridgeContract {
    let mut s = StellarBridgeContract::new();
    assert_eq!(s.initialize(addr(1), addr(1), addr(9)), Ok(()));
    s
}

/// An initialized state with one project of owner 2, goal 1000 and
/// milestones (600, d=10) and (400, d=20).
fn with_project() -> StellarBridgeContract {
    let mut s = initialized();
    let r = s.create_project(addr(2), addr(2), 1000, vec![600, 400], vec![10, 20]);
    assert_eq!(r, Ok(1));
    s
}

#[test]
fn initialize_succeeds_once() {
    let mut s = StellarBridgeContract::new();
    assert!(!s.is_initialized());
    assert_eq!(s.initialize(addr(1), addr(1), addr(9)), Ok(()));
    assert!(s.is_initialized());
    assert_eq!(s.get_project_count(), 0);
}

#[test]
fn initialize_twice_fails() {
    let mut s = initialized();
    assert_eq!(
        s.initialize(addr(1), addr(1), addr(9)),
        Err(Error::AlreadyInitialized)
    );
    assert_eq!(
        s.initialize(addr(4), addr(4), addr(8)),
        Err(Error::AlreadyInitialized)
    );
}

#[test]
fn initialize_needs_verifier_authorization() {
    let mut s = StellarBridgeContract::new();
    assert_eq!(s.initialize(addr(2), addr(1), addr(9)), Err(Error::Unauthorized));
    assert!(!s.is_initialized());
}

#[test]
fn create_project_returns_new_id() {
    let mut s = with_project();
    let p = s.get_project(1).unwrap();
    assert_eq!(p.id, 1);
    assert_eq!(p.owner, addr(2));
    assert_eq!(p.goal_amount, 1000);
    assert_eq!(p.raised_amount, 0);
    assert!(p.active);
    assert_eq!(p.milestones.len(), 2);
    assert_eq!(p.milestones[0].amount, 600);
    assert_eq!(p.milestones[0].deadline, 10);
    assert_eq!(p.milestones[0].status, MilestoneStatus::Pending);
    assert_eq!(p.milestones[0].evidence_hash, None);
    assert_eq!(p.milestones[1].amount, 400);
    assert_eq!(p.milestones[1].deadline, 20);
    assert_eq!(s.get_project_count(), 1);
}

#[test]
fn project_ids_are_dense_from_one() {
    let mut s = initialized();
    assert_eq!(s.create_project(addr(2), addr(2), 100, vec![100], vec![1]), Ok(1));
    assert_eq!(s.create_project(addr(3), addr(3), 200, vec![200], vec![2]), Ok(2));
    assert_eq!(s.create_project(addr(2), addr(2), 300, vec![], vec![]), Ok(3));
    assert_eq!(s.get_project_count(), 3);
    for id in 1..=3u32 {
        assert_eq!(s.get_project(id).unwrap().id, id);
    }
}

#[test]
fn create_project_mismatched_lists_fails() {
    let mut s = initialized();
    let r = s.create_project(addr(2), addr(2), 1000, vec![600, 400], vec![10]);
    assert_eq!(r, Err(Error::MalformedInput));
    assert_eq!(s.get_project_count(), 0);
    assert!(matches!(s.get_project(1), Err(Error::NotFound)));
}

#[test]
fn create_project_needs_owner_authorization() {
    let mut s = initialized();
    let r = s.create_project(addr(3), addr(2), 1000, vec![600], vec![10]);
    assert_eq!(r, Err(Error::Unauthorized));
    assert_eq!(s.get_project_count(), 0);
}

#[test]
fn create_project_with_no_milestones() {
    let mut s = initialized();
    assert_eq!(s.create_project(addr(2), addr(2), 500, vec![], vec![]), Ok(1));
    assert_eq!(s.get_project(1).unwrap().milestones.len(), 0);
}

#[test]
fn invest_records_everything_together() {
    let mut s = with_project();
    assert_eq!(s.invest(addr(5), 1, addr(5), 250, 100, true), Ok(()));
    assert_eq!(s.get_project(1).unwrap().raised_amount, 250);
    assert_eq!(s.get_investor_amount(1, addr(5)), 250);
    assert_eq!(s.invest(addr(5), 1, addr(5), 50, 101, true), Ok(()));
    assert_eq!(s.get_project(1).unwrap().raised_amount, 300);
    assert_eq!(s.get_investor_amount(1, addr(5)), 300);
}

#[test]
fn raised_amount_equals_sum_of_ledger_entries() {
    let mut s = with_project();
    assert_eq!(s.invest(addr(5), 1, addr(5), 250, 100, true), Ok(()));
    assert_eq!(s.invest(addr(6), 1, addr(6), 100, 101, true), Ok(()));
    assert_eq!(s.invest(addr(5), 1, addr(5), 150, 102, true), Ok(()));
    assert_eq!(s.invest(addr(7), 1, addr(7), 500, 103, true), Ok(()));
    let raised = s.get_project(1).unwrap().raised_amount;
    assert_eq!(raised, 1000);
    let by_ledger = s.get_investor_amount(1, addr(5))
        + s.get_investor_amount(1, addr(6))
        + s.get_investor_amount(1, addr(7));
    assert_eq!(raised, by_ledger);
    assert_eq!(s.get_investor_amount(1, addr(5)), 400);
    assert_eq!(s.get_investor_amount(1, addr(6)), 100);
    assert_eq!(s.get_investor_amount(1, addr(7)), 500);
}

#[test]
fn invest_on_unknown_project_leaves_no_ledger_entry() {
    let mut s = with_project();
    assert_eq!(s.invest(addr(5), 7, addr(5), 250, 100, true), Err(Error::NotFound));
    assert_eq!(s.get_investor_amount(7, addr(5)), 0);
    assert_eq!(s.get_project(1).unwrap().raised_amount, 0);
}

#[test]
fn invest_needs_investor_authorization() {
    let mut s = with_project();
    assert_eq!(s.invest(addr(6), 1, addr(5), 250, 100, true), Err(Error::Unauthorized));
    assert_eq!(s.get_investor_amount(1, addr(5)), 0);
}

#[test]
fn invest_rejects_non_positive_amounts() {
    let mut s = with_project();
    assert_eq!(s.invest(addr(5), 1, addr(5), 0, 100, true), Err(Error::InvalidOperation));
    assert_eq!(s.invest(addr(5), 1, addr(5), -3, 100, true), Err(Error::InvalidOperation));
    assert_eq!(s.get_project(1).unwrap().raised_amount, 0);
}

#[test]
fn failed_transfer_rejects_the_whole_investment() {
    let mut s = with_project();
    assert_eq!(s.invest(addr(5), 1, addr(5), 250, 100, false), Err(Error::TransferFailed));
    assert_eq!(s.get_project(1).unwrap().raised_amount, 0);
    assert_eq!(s.get_investor_amount(1, addr(5)), 0);
}

#[test]
fn submit_evidence_moves_pending_forward() {
    let mut s = with_project();
    assert_eq!(s.submit_evidence(addr(2), 1, 0, HASH), Ok(()));
    let p = s.get_project(1).unwrap();
    assert_eq!(p.milestones[0].status, MilestoneStatus::EvidenceSubmitted);
    assert_eq!(p.milestones[0].evidence_hash, Some(HASH));
    assert_eq!(p.milestones[1].status, MilestoneStatus::Pending);
    assert_eq!(p.milestones[1].evidence_hash, None);
}

#[test]
fn submit_evidence_by_stranger_changes_nothing() {
    let mut s = with_project();
    assert_eq!(s.submit_evidence(addr(3), 1, 0, HASH), Err(Error::Unauthorized));
    let p = s.get_project(1).unwrap();
    assert_eq!(p.milestones[0].status, MilestoneStatus::Pending);
    assert_eq!(p.milestones[0].evidence_hash, None);
}

#[test]
fn submit_evidence_on_unknown_project_fails() {
    let mut s = with_project();
    assert_eq!(s.submit_evidence(addr(2), 9, 0, HASH), Err(Error::NotFound));
}

#[test]
fn submit_evidence_with_bad_index_fails() {
    let mut s = with_project();
    assert_eq!(s.submit_evidence(addr(2), 1, 2, HASH), Err(Error::InvalidOperation));
}

#[test]
fn submit_evidence_twice_fails() {
    let mut s = with_project();
    assert_eq!(s.submit_evidence(addr(2), 1, 0, HASH), Ok(()));
    assert_eq!(s.submit_evidence(addr(2), 1, 0, [9u8; 32]), Err(Error::InvalidState));
    let p = s.get_project(1).unwrap();
    assert_eq!(p.milestones[0].evidence_hash, Some(HASH));
}

#[test]
fn verify_without_evidence_fails() {
    let mut s = with_project();
    assert_eq!(s.verify_milestone(addr(1), 1, 0, true, true), Err(Error::InvalidState));
    assert_eq!(
        s.get_project(1).unwrap().milestones[0].status,
        MilestoneStatus::Pending
    );
}

#[test]
fn verify_needs_the_configured_verifier() {
    let mut s = with_project();
    assert_eq!(s.submit_evidence(addr(2), 1, 0, HASH), Ok(()));
    assert_eq!(s.verify_milestone(addr(2), 1, 0, true, true), Err(Error::Unauthorized));
    assert_eq!(
        s.get_project(1).unwrap().milestones[0].status,
        MilestoneStatus::EvidenceSubmitted
    );
}

#[test]
fn verify_with_bad_index_fails() {
    let mut s = with_project();
    assert_eq!(s.verify_milestone(addr(1), 1, 5, true, true), Err(Error::InvalidOperation));
}

#[test]
fn approval_without_payout_keeps_the_milestone() {
    let mut s = with_project();
    assert_eq!(s.submit_evidence(addr(2), 1, 0, HASH), Ok(()));
    assert_eq!(s.verify_milestone(addr(1), 1, 0, true, false), Err(Error::TransferFailed));
    assert_eq!(
        s.get_project(1).unwrap().milestones[0].status,
        MilestoneStatus::EvidenceSubmitted
    );
    assert_eq!(s.verify_milestone(addr(1), 1, 0, true, true), Ok(()));
    assert_eq!(
        s.get_project(1).unwrap().milestones[0].status,
        MilestoneStatus::Verified
    );
}

#[test]
fn rejection_is_terminal() {
    let mut s = with_project();
    assert_eq!(s.submit_evidence(addr(2), 1, 0, HASH), Ok(()));
    assert_eq!(s.verify_milestone(addr(1), 1, 0, false, true), Ok(()));
    let p = s.get_project(1).unwrap();
    assert_eq!(p.milestones[0].status, MilestoneStatus::Rejected);
    assert_eq!(p.raised_amount, 0);
    assert_eq!(s.submit_evidence(addr(2), 1, 0, HASH), Err(Error::InvalidState));
    assert_eq!(s.verify_milestone(addr(1), 1, 0, true, true), Err(Error::InvalidState));
}

#[test]
fn full_lifecycle_scenario() {
    let mut s = StellarBridgeContract::new();
    assert_eq!(s.initialize(addr(1), addr(1), addr(9)), Ok(()));
    let id = s
        .create_project(addr(2), addr(2), 1000, vec![600, 400], vec![10, 20])
        .unwrap();
    assert_eq!(id, 1);
    assert_eq!(s.invest(addr(5), 1, addr(5), 1000, 50, true), Ok(()));
    assert_eq!(s.get_project(1).unwrap().raised_amount, 1000);
    assert_eq!(s.get_investor_amount(1, addr(5)), 1000);
    assert_eq!(s.submit_evidence(addr(2), 1, 0, HASH), Ok(()));
    assert_eq!(
        s.get_project(1).unwrap().milestones[0].status,
        MilestoneStatus::EvidenceSubmitted
    );
    assert_eq!(s.verify_milestone(addr(1), 1, 0, true, true), Ok(()));
    let p = s.get_project(1).unwrap();
    assert_eq!(p.milestones[0].status, MilestoneStatus::Verified);
    assert_eq!(p.milestones[0].amount, 600);
    assert_eq!(s.verify_milestone(addr(1), 1, 0, true, true), Err(Error::InvalidState));
}

#[test]
fn get_project_on_unknown_id_fails() {
    let s = with_project();
    assert!(matches!(s.get_project(0), Err(Error::NotFound)));
    assert!(matches!(s.get_project(2), Err(Error::NotFound)));
}

#[test]
fn get_investor_amount_defaults_to_zero() {
    let s = with_project();
    assert_eq!(s.get_investor_amount(1, addr(42)), 0);
    assert_eq!(s.get_investor_amount(3, addr(42)), 0);
}

#[test]
fn investment_log_keeps_timestamps_apart() {
    let mut s = with_project();
    assert_eq!(s.invest(addr(5), 1, addr(5), 10, 111, true), Ok(()));
    assert_eq!(s.invest(addr(6), 1, addr(6), 20, 222, true), Ok(()));
    assert_eq!(s.get_project(1).unwrap().raised_amount, 30);
    assert_eq!(s.get_investor_amount(1, addr(5)), 10);
    assert_eq!(s.get_investor_amount(1, addr(6)), 20);
}

#[test]
fn project_count_starts_at_zero() {
    let s = StellarBridgeContract::new();
    assert_eq!(s.get_project_count(), 0);
    assert!(matches!(s.get_project(1), Err(Error::NotFound)));
}

#[test]
fn create_project_does_not_need_configuration() {
    let mut s = StellarBridgeContract::new();
    assert_eq!(s.create_project(addr(2), addr(2), 100, vec![100], vec![1]), Ok(1));
    assert_eq!(s.get_project_count(), 1);
}
