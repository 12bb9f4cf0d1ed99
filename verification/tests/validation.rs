use multisig_treasury::engine::MultisigTreasuryContract;
use multisig_treasury::types::{TreasuryError, TxStatus};

fn initialized_engine(roster: &[u64], required: u32) -> MultisigTreasuryContract {
    let mut eng = MultisigTreasuryContract::new();
    let r = eng.initialize(100, true, roster.to_vec(), required);
    assert_eq!(r, Ok(()));
    eng
}

#[test]
fn initialize_rejects_zero_quorum() {
    let mut eng = MultisigTreasuryContract::new();
    assert_eq!(
        eng.initialize(100, true, vec![1, 2, 3], 0),
        Err(TreasuryError::InvalidQuorum)
    );
}

#[test]
fn initialize_rejects_quorum_above_roster() {
    let mut eng = MultisigTreasuryContract::new();
    assert_eq!(
        eng.initialize(100, true, vec![1, 2, 3], 4),
        Err(TreasuryError::InvalidQuorum)
    );
}

#[test]
fn initialize_rejects_second_call() {
    let mut eng = initialized_engine(&[1, 2, 3], 2);
    assert_eq!(
        eng.initialize(100, true, vec![4, 5], 1),
        Err(TreasuryError::AlreadyInitialized)
    );
}

#[test]
fn initialize_rejects_unauthorized_admin() {
    let mut eng = MultisigTreasuryContract::new();
    assert_eq!(
        eng.initialize(100, false, vec![1, 2, 3], 2),
        Err(TreasuryError::Unauthorized)
    );
    assert!(!eng.is_initialized());
}

#[test]
fn quorum_equal_to_roster_size_is_accepted() {
    let mut eng = initialized_engine(&[1, 2], 2);
    let id = eng
        .propose_transaction(1, true, 9, 7, 10, String::from("all hands"), 100, 0)
        .unwrap();
    assert_eq!(eng.approve_transaction(1, true, id, 1), Ok(()));
    assert_eq!(eng.approve_transaction(2, true, id, 2), Ok(()));
    assert_eq!(eng.get_transaction(id).unwrap().status, TxStatus::Approved);
}

#[test]
fn propose_rejects_outsiders_and_bad_amounts() {
    let mut eng = initialized_engine(&[1, 2, 3], 2);
    assert_eq!(
        eng.propose_transaction(4, true, 9, 7, 100, String::from("x"), 100, 0),
        Err(TreasuryError::NotSigner)
    );
    assert_eq!(
        eng.propose_transaction(1, true, 9, 7, 0, String::from("x"), 100, 0),
        Err(TreasuryError::InvalidAmount)
    );
    assert_eq!(
        eng.propose_transaction(1, true, 9, 7, -5, String::from("x"), 100, 0),
        Err(TreasuryError::InvalidAmount)
    );
    assert_eq!(
        eng.propose_transaction(1, false, 9, 7, 100, String::from("x"), 100, 0),
        Err(TreasuryError::Unauthorized)
    );
    assert!(eng.get_transaction(1).is_none());
}

#[test]
fn approve_rejects_outsiders_unknown_ids_and_unauthorized() {
    let mut eng = initialized_engine(&[1, 2, 3], 2);
    let id = eng
        .propose_transaction(1, true, 9, 7, 100, String::from("x"), 100, 0)
        .unwrap();
    assert_eq!(
        eng.approve_transaction(4, true, id, 1),
        Err(TreasuryError::NotSigner)
    );
    assert_eq!(
        eng.approve_transaction(1, true, 0, 1),
        Err(TreasuryError::NotFound)
    );
    assert_eq!(
        eng.approve_transaction(1, true, 99, 1),
        Err(TreasuryError::NotFound)
    );
    assert_eq!(
        eng.approve_transaction(1, false, id, 1),
        Err(TreasuryError::Unauthorized)
    );
    assert_eq!(eng.get_transaction(id).unwrap().approvals, 0);
}

#[test]
fn reject_rejects_outsiders_unknown_ids_and_unauthorized() {
    let mut eng = initialized_engine(&[1, 2, 3], 2);
    let id = eng
        .propose_transaction(1, true, 9, 7, 100, String::from("x"), 100, 0)
        .unwrap();
    assert_eq!(
        eng.reject_transaction(4, true, id),
        Err(TreasuryError::NotSigner)
    );
    assert_eq!(eng.reject_transaction(1, true, 0), Err(TreasuryError::NotFound));
    assert_eq!(
        eng.reject_transaction(1, true, 99),
        Err(TreasuryError::NotFound)
    );
    assert_eq!(
        eng.reject_transaction(1, false, id),
        Err(TreasuryError::Unauthorized)
    );
    assert_eq!(eng.get_transaction(id).unwrap().rejections, 0);
}

#[test]
fn execute_rejects_outsiders_unknown_ids_and_unauthorized() {
    let mut eng = initialized_engine(&[1, 2], 1);
    let id = eng
        .propose_transaction(1, true, 9, 7, 100, String::from("x"), 100, 0)
        .unwrap();
    assert_eq!(eng.approve_transaction(1, true, id, 1), Ok(()));
    assert_eq!(
        eng.execute_transaction(4, true, id),
        Err(TreasuryError::NotSigner)
    );
    assert_eq!(
        eng.execute_transaction(1, true, 99),
        Err(TreasuryError::NotFound)
    );
    assert_eq!(
        eng.execute_transaction(1, false, id),
        Err(TreasuryError::Unauthorized)
    );
    assert_eq!(
        eng.confirm_execution(99, 5),
        Err(TreasuryError::NotFound)
    );
    // The approved record was never touched by the refused calls.
    assert_eq!(eng.get_transaction(id).unwrap().status, TxStatus::Approved);
}

#[test]
fn failed_transfer_leaves_record_approved_for_retry() {
    // The host performs the transfer between the execution decision
    // and its confirmation; when the transfer fails it confirms
    // nothing, and the record stays Approved so execution can be
    // retried.
    let mut eng = initialized_engine(&[1, 2], 1);
    let id = eng
        .propose_transaction(1, true, 9, 7, 100, String::from("retry"), 100, 0)
        .unwrap();
    assert_eq!(eng.approve_transaction(1, true, id, 1), Ok(()));

    let first = eng.execute_transaction(2, true, id);
    assert!(first.is_ok());
    // Transfer failed: no confirmation. The record is unchanged.
    assert_eq!(eng.get_transaction(id).unwrap().status, TxStatus::Approved);

    let second = eng.execute_transaction(2, true, id);
    assert_eq!(second, first);
    assert_eq!(eng.confirm_execution(id, 9), Ok(()));
    assert_eq!(eng.get_transaction(id).unwrap().status, TxStatus::Executed);
}
