//! The finalization state of a transaction handle.
//!
//! A handle starts `Active` and moves at most once to `Committed` or `RolledBack`.
//! A commit first moves it to `Committing` while the driver commit runs; a rollback
//! in that window is a no-op, so exactly one of the two reaches the connection.
//! Once it is final, commit and rollback are no-ops and statements are refused, so
//! the underlying connection is never finalized twice. The caller holds the
//! connection and performs the driver work that the handle asks for.
use vstd::prelude::*;
use crate::error::DbError;

verus! {

#[derive(PartialEq, Eq, Structural, Clone, Copy, Debug)]
pub enum TxState {
    Active,
    /// A driver commit is in flight.
    Committing,
    Committed,
    RolledBack,
}

/// What a call of commit must do.
#[derive(PartialEq, Eq, Structural, Clone, Copy, Debug)]
pub enum CommitStep {
    /// The handle was active and is now committing: run the driver commit, then
    /// report it with `finish_commit`.
    RunDriver,
    /// The handle is final or another commit is in flight: succeed without touching
    /// the driver.
    AlreadyFinal,
}

/// Whether a commit in state `s` runs the driver commit.
pub open spec fn commit_runs_driver(s: TxState) -> bool {
    s == TxState::Active
}

/// The state once a commit has started.
pub open spec fn state_after_begin_commit(s: TxState) -> TxState {
    if s == TxState::Active {
        TxState::Committing
    } else {
        s
    }
}

/// The state once the driver commit in flight has reported; other states are kept.
/// A failed commit consumes the connection: the transaction did not commit.
pub open spec fn state_after_finish_commit(s: TxState, driver_ok: bool) -> TxState {
    if s == TxState::Committing {
        if driver_ok {
            TxState::Committed
        } else {
            TxState::RolledBack
        }
    } else {
        s
    }
}

/// The state after a whole commit by one caller: an active handle starts and
/// finishes a driver commit; in any other state the call changes nothing.
pub open spec fn state_after_commit(s: TxState, driver_ok: bool) -> TxState {
    if s == TxState::Active {
        state_after_finish_commit(state_after_begin_commit(s), driver_ok)
    } else {
        s
    }
}

/// What finishing a commit reports: the driver's outcome when a driver commit was
/// in flight, else success.
pub open spec fn commit_result(s: TxState, driver: Result<(), DbError>) -> Result<(), DbError> {
    if s == TxState::Committing {
        driver
    } else {
        Ok(())
    }
}

/// Whether a rollback in state `s` hands the connection to a background rollback.
pub open spec fn rollback_runs_driver(s: TxState) -> bool {
    s == TxState::Active
}

pub open spec fn state_after_rollback(s: TxState) -> TxState {
    if s == TxState::Active {
        TxState::RolledBack
    } else {
        s
    }
}

pub open spec fn is_final(s: TxState) -> bool {
    s == TxState::Committed || s == TxState::RolledBack
}

/// The finalization state of one transaction.
pub struct TxControl {
    state: TxState,
}

impl TxControl {
    pub closed spec fn view_state(&self) -> TxState {
        self.state
    }

    pub fn new() -> (r: Self)
        ensures
            r.view_state() == TxState::Active,
    {
        TxControl { state: TxState::Active }
    }

    pub fn state(&self) -> (r: TxState)
        ensures
            r == self.view_state(),
    {
        self.state
    }

    pub fn is_finalized(&self) -> (r: bool)
        ensures
            r == is_final(self.view_state()),
    {
        self.state == TxState::Committed || self.state == TxState::RolledBack
    }

    /// The first half of commit: an active handle moves to `Committing` and the
    /// driver commit must run; otherwise nothing changes and nothing runs.
    pub fn begin_commit(&mut self) -> (r: CommitStep)
        ensures
            r == (if commit_runs_driver(old(self).view_state()) {
                CommitStep::RunDriver
            } else {
                CommitStep::AlreadyFinal
            }),
            final(self).view_state() == state_after_begin_commit(old(self).view_state()),
    {
        if self.state == TxState::Active {
            self.state = TxState::Committing;
            CommitStep::RunDriver
        } else {
            CommitStep::AlreadyFinal
        }
    }

    /// The second half of commit: records the driver's outcome and reports it. When
    /// no driver commit was in flight, nothing changes and the commit succeeds.
    pub fn finish_commit(&mut self, driver: Result<(), DbError>) -> (r: Result<(), DbError>)
        ensures
            final(self).view_state() == state_after_finish_commit(
                old(self).view_state(),
                driver is Ok,
            ),
            r == commit_result(old(self).view_state(), driver),
    {
        if self.state == TxState::Committing {
            self.state = if driver.is_ok() {
                TxState::Committed
            } else {
                TxState::RolledBack
            };
            driver
        } else {
            Ok(())
        }
    }

    /// Marks an active handle rolled back at once; true when the caller must now roll
    /// the connection back (in the background), false when the handle was already
    /// final or a commit is in flight.
    pub fn rollback(&mut self) -> (r: bool)
        ensures
            r == rollback_runs_driver(old(self).view_state()),
            final(self).view_state() == state_after_rollback(old(self).view_state()),
    {
        if self.state == TxState::Active {
            self.state = TxState::RolledBack;
            true
        } else {
            false
        }
    }

    /// Statements run only on an active handle.
    pub fn ensure_active(&self) -> (r: Result<(), DbError>)
        ensures
            r is Ok <==> self.view_state() == TxState::Active,
            r is Err ==> r == Err::<(), DbError>(DbError::TransactionFinalized),
    {
        if self.state == TxState::Active {
            Ok(())
        } else {
            Err(DbError::TransactionFinalized)
        }
    }
}

/// Finalization happens once. After a successful commit a second commit runs no
/// driver commit, succeeds and leaves the handle committed, and a rollback is a
/// no-op; after a rollback a commit runs no driver commit, succeeds and leaves the
/// handle rolled back.
pub proof fn finalized_at_most_once(driver_ok: bool, driver: Result<(), DbError>)
    ensures
        state_after_commit(TxState::Active, true) == TxState::Committed,
        !commit_runs_driver(state_after_commit(TxState::Active, true)),
        commit_result(state_after_begin_commit(state_after_commit(TxState::Active, true)), driver)
            is Ok,
        state_after_commit(state_after_commit(TxState::Active, true), driver_ok)
            == TxState::Committed,
        !rollback_runs_driver(state_after_commit(TxState::Active, true)),
        state_after_rollback(state_after_commit(TxState::Active, true)) == TxState::Committed,
        !commit_runs_driver(state_after_rollback(TxState::Active)),
        commit_result(state_after_begin_commit(state_after_rollback(TxState::Active)), driver)
            is Ok,
        state_after_commit(state_after_rollback(TxState::Active), driver_ok)
            == TxState::RolledBack,
{
}

/// Commit and rollback exclude each other. While a commit is in flight a rollback
/// does nothing and the driver's outcome decides the one terminal state, which is
/// reported as it came; a rollback that ran first keeps any later commit from
/// reaching the driver.
pub proof fn commit_and_rollback_exclusive(driver: Result<(), DbError>)
    ensures
        !rollback_runs_driver(TxState::Committing),
        state_after_rollback(TxState::Committing) == TxState::Committing,
        state_after_finish_commit(state_after_rollback(TxState::Committing), driver is Ok) == (
        if driver is Ok {
            TxState::Committed
        } else {
            TxState::RolledBack
        }),
        commit_result(state_after_rollback(TxState::Committing), driver) == driver,
        !commit_runs_driver(state_after_rollback(TxState::Active)),
        state_after_begin_commit(state_after_rollback(TxState::Active)) == TxState::RolledBack,
{
}

/// From any state, once a commit or rollback has completed no further commit or
/// rollback reaches the driver, and the terminal state stays.
pub proof fn final_states_absorb(s: TxState, driver_ok: bool, later_ok: bool)
    ensures
        s != TxState::Committing ==> is_final(state_after_commit(s, driver_ok)),
        s != TxState::Committing ==> is_final(state_after_rollback(s)),
        !commit_runs_driver(state_after_commit(s, driver_ok)),
        !rollback_runs_driver(state_after_commit(s, driver_ok)),
        !commit_runs_driver(state_after_rollback(s)),
        !rollback_runs_driver(state_after_rollback(s)),
        state_after_commit(state_after_commit(s, driver_ok), later_ok) == state_after_commit(
            s,
            driver_ok,
        ),
        state_after_rollback(state_after_commit(s, driver_ok)) == state_after_commit(s, driver_ok),
        state_after_commit(state_after_rollback(s), later_ok) == state_after_rollback(s),
{
}

} // verus!
