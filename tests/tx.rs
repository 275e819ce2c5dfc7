use rmod::error::DbError;
use rmod::tx::{CommitStep, TxControl, TxState};

fn committed() -> TxControl {
    let mut tx = TxControl::new();
    assert_eq!(tx.begin_commit(), CommitStep::RunDriver);
    assert_eq!(tx.finish_commit(Ok(())), Ok(()));
    tx
}

#[test]
fn commit_twice_runs_driver_once() {
    let mut tx = committed();
    assert_eq!(tx.state(), TxState::Committed);
    assert_eq!(tx.begin_commit(), CommitStep::AlreadyFinal);
    assert_eq!(tx.state(), TxState::Committed);
}

#[test]
fn rollback_after_commit_is_noop() {
    let mut tx = committed();
    assert!(!tx.rollback());
    assert_eq!(tx.state(), TxState::Committed);
}

#[test]
fn commit_after_rollback_is_noop() {
    let mut tx = TxControl::new();
    assert!(tx.rollback());
    assert_eq!(tx.state(), TxState::RolledBack);
    assert_eq!(tx.begin_commit(), CommitStep::AlreadyFinal);
    assert_eq!(tx.finish_commit(Err(DbError::QueryFailed("late".to_string()))), Ok(()));
    assert_eq!(tx.state(), TxState::RolledBack);
    assert!(!tx.rollback());
}

#[test]
fn rollback_during_commit_is_noop() {
    let mut tx = TxControl::new();
    assert_eq!(tx.begin_commit(), CommitStep::RunDriver);
    assert_eq!(tx.state(), TxState::Committing);
    assert!(!tx.rollback());
    assert_eq!(tx.begin_commit(), CommitStep::AlreadyFinal);
    assert_eq!(tx.finish_commit(Ok(())), Ok(()));
    assert_eq!(tx.state(), TxState::Committed);
}

#[test]
fn failed_commit_is_reported_even_after_rollback_request() {
    let mut tx = TxControl::new();
    tx.begin_commit();
    assert!(!tx.rollback());
    let err = DbError::QueryFailed("connection reset".to_string());
    assert_eq!(tx.finish_commit(Err(err)), Err(DbError::QueryFailed("connection reset".to_string())));
    assert_eq!(tx.state(), TxState::RolledBack);
    assert!(tx.is_finalized());
    assert_eq!(tx.ensure_active(), Err(DbError::TransactionFinalized));
}

#[test]
fn finish_without_begin_changes_nothing() {
    let mut tx = TxControl::new();
    assert_eq!(tx.finish_commit(Err(DbError::RowNotFound)), Ok(()));
    assert_eq!(tx.state(), TxState::Active);
}

#[test]
fn statements_need_active_handle() {
    let mut tx = TxControl::new();
    assert_eq!(tx.ensure_active(), Ok(()));
    assert!(!tx.is_finalized());
    tx.rollback();
    assert_eq!(tx.ensure_active(), Err(DbError::TransactionFinalized));
}
