//! The read-replica consistency protocol, as a state machine.
//!
//! The caller performs each action the machine asks for (run a query against a
//! pool, evaluate the validator) and feeds back what happened. A read goes to the
//! read pool only when the backend has a distinct read pool and the caller did
//! not force the write pool. When the read pool's result is rejected by the
//! validator, the same statement is run once more against the write pool, and that
//! result is returned without further validation. A failed query ends the read
//! with its error: nothing is retried.
use vstd::prelude::*;
use crate::args::PgArgs;
use crate::error::DbError;
use crate::store::PoolEntry;

verus! {

#[derive(PartialEq, Eq, Structural, Clone, Copy, Debug)]
pub enum PoolTarget {
    Read,
    Write,
}

#[derive(PartialEq, Eq, Structural, Clone, Copy, Debug)]
pub enum ReadPhase {
    /// Nothing has run yet.
    Start,
    /// The first query is running.
    Primary,
    /// The validator is judging the first result.
    Validating,
    /// The re-read against the write pool is running.
    Fallback,
    /// The result in hand is final.
    Done,
}

#[derive(PartialEq, Eq, Structural, Clone, Copy, Debug)]
pub enum ReadEvent {
    /// The caller starts the read.
    Begin,
    /// The query asked for returned its result.
    Fetched,
    /// The validator judged the first result.
    Verdict(bool),
    /// The query asked for failed.
    Failed,
}

#[derive(PartialEq, Eq, Structural, Clone, Copy, Debug)]
pub enum ReadAction {
    /// Run the statement against this pool.
    Query(PoolTarget),
    /// Evaluate the validator on the result in hand.
    Validate,
    /// Hand the result in hand to the caller.
    Return,
    /// Hand the query's error to the caller.
    Fail,
    /// The event does not fit the phase; nothing to do.
    Ignore,
}

#[derive(PartialEq, Eq, Structural, Clone, Copy, Debug)]
pub struct ReadProtocol {
    pub use_read: bool,
    pub has_validator: bool,
    pub phase: ReadPhase,
}

/// Whether a read goes to the read pool first.
pub open spec fn use_read_for(force_rw: bool, has_real_read_replica: bool) -> bool {
    !force_rw && has_real_read_replica
}

pub open spec fn initial(force_rw: bool, has_real_read_replica: bool, has_validator: bool) -> ReadProtocol {
    ReadProtocol {
        use_read: use_read_for(force_rw, has_real_read_replica),
        has_validator,
        phase: ReadPhase::Start,
    }
}

/// One step of the protocol: the next state and the action asked of the caller.
pub open spec fn transition(p: ReadProtocol, e: ReadEvent) -> (ReadProtocol, ReadAction) {
    match (p.phase, e) {
        (ReadPhase::Start, ReadEvent::Begin) => (
            ReadProtocol { phase: ReadPhase::Primary, ..p },
            ReadAction::Query(if p.use_read { PoolTarget::Read } else { PoolTarget::Write }),
        ),
        (ReadPhase::Primary, ReadEvent::Fetched) => if p.use_read && p.has_validator {
            (ReadProtocol { phase: ReadPhase::Validating, ..p }, ReadAction::Validate)
        } else {
            (ReadProtocol { phase: ReadPhase::Done, ..p }, ReadAction::Return)
        },
        (ReadPhase::Validating, ReadEvent::Verdict(accepted)) => if accepted {
            (ReadProtocol { phase: ReadPhase::Done, ..p }, ReadAction::Return)
        } else {
            (
                ReadProtocol { phase: ReadPhase::Fallback, ..p },
                ReadAction::Query(PoolTarget::Write),
            )
        },
        (ReadPhase::Fallback, ReadEvent::Fetched) => (
            ReadProtocol { phase: ReadPhase::Done, ..p },
            ReadAction::Return,
        ),
        (ReadPhase::Primary, ReadEvent::Failed) => (
            ReadProtocol { phase: ReadPhase::Done, ..p },
            ReadAction::Fail,
        ),
        (ReadPhase::Fallback, ReadEvent::Failed) => (
            ReadProtocol { phase: ReadPhase::Done, ..p },
            ReadAction::Fail,
        ),
        _ => (p, ReadAction::Ignore),
    }
}

/// The actions asked for while `events` are fed, one by one, from state `p`.
pub open spec fn run(p: ReadProtocol, events: Seq<ReadEvent>) -> Seq<ReadAction>
    decreases events.len(),
{
    if events.len() == 0 {
        Seq::<ReadAction>::empty()
    } else {
        let (q, a) = transition(p, events[0]);
        seq![a] + run(q, events.drop_first())
    }
}

/// Which validator of the modifier set a read consults.
#[derive(PartialEq, Eq, Structural, Clone, Copy, Debug)]
pub enum ReadKind {
    /// At most one row: `validate`.
    Row,
    /// A list of rows: `validate_all`.
    Rows,
    /// A count: `validate_count`.
    Count,
}

/// The modifier set of `args` holds the validator that a read of `kind` consults.
pub open spec fn has_validator_for<T>(args: &PgArgs<T>, kind: ReadKind) -> bool {
    match args.modifiers() {
        Some(o) => match kind {
            ReadKind::Row => o.validate is Some,
            ReadKind::Rows => o.validate_all is Some,
            ReadKind::Count => o.validate_count is Some,
        },
        None => false,
    }
}

impl ReadProtocol {
    pub fn new(force_rw: bool, has_real_read_replica: bool, has_validator: bool) -> (r: Self)
        ensures
            r == initial(force_rw, has_real_read_replica, has_validator),
    {
        ReadProtocol {
            use_read: !force_rw && has_real_read_replica,
            has_validator,
            phase: ReadPhase::Start,
        }
    }

    /// The protocol for a read of `kind` with `args` against `entry`.
    pub fn for_read<T, P>(args: &PgArgs<T>, entry: &PoolEntry<P>, kind: ReadKind) -> (r: Self)
        ensures
            r == initial(
                args.modifiers() matches Some(o) && o.force_rw == Some(true),
                entry.read_pool is Some,
                has_validator_for(args, kind),
            ),
    {
        let has_validator = match args.opt() {
            Some(o) => match kind {
                ReadKind::Row => o.validate.is_some(),
                ReadKind::Rows => o.validate_all.is_some(),
                ReadKind::Count => o.validate_count.is_some(),
            },
            None => false,
        };
        ReadProtocol::new(args.is_force_rw(), entry.has_real_read_replica(), has_validator)
    }

    /// Feeds one event and returns the action asked of the caller.
    pub fn step(&mut self, e: ReadEvent) -> (a: ReadAction)
        ensures
            (*final(self), a) == transition(*old(self), e),
    {
        match (self.phase, e) {
            (ReadPhase::Start, ReadEvent::Begin) => {
                self.phase = ReadPhase::Primary;
                ReadAction::Query(
                    if self.use_read {
                        PoolTarget::Read
                    } else {
                        PoolTarget::Write
                    },
                )
            },
            (ReadPhase::Primary, ReadEvent::Fetched) => {
                if self.use_read && self.has_validator {
                    self.phase = ReadPhase::Validating;
                    ReadAction::Validate
                } else {
                    self.phase = ReadPhase::Done;
                    ReadAction::Return
                }
            },
            (ReadPhase::Validating, ReadEvent::Verdict(accepted)) => {
                if accepted {
                    self.phase = ReadPhase::Done;
                    ReadAction::Return
                } else {
                    self.phase = ReadPhase::Fallback;
                    ReadAction::Query(PoolTarget::Write)
                }
            },
            (ReadPhase::Fallback, ReadEvent::Fetched) => {
                self.phase = ReadPhase::Done;
                ReadAction::Return
            },
            (ReadPhase::Primary, ReadEvent::Failed) => {
                self.phase = ReadPhase::Done;
                ReadAction::Fail
            },
            (ReadPhase::Fallback, ReadEvent::Failed) => {
                self.phase = ReadPhase::Done;
                ReadAction::Fail
            },
            _ => ReadAction::Ignore,
        }
    }
}

impl<P> PoolEntry<P> {
    /// The pool that a query of the protocol runs against.
    pub fn pool_for(&self, target: PoolTarget) -> (r: &P)
        ensures
            *r == match target {
                PoolTarget::Write => self.write_pool,
                PoolTarget::Read => match self.read_pool {
                    Some(p) => p,
                    None => self.write_pool,
                },
            },
    {
        match target {
            PoolTarget::Write => &self.write_pool,
            PoolTarget::Read => self.read_pool_or_write(),
        }
    }
}

/// A state that reads only from the write pool from here on.
pub open spec fn write_only(p: ReadProtocol) -> bool {
    !p.use_read && p.phase != ReadPhase::Validating && p.phase != ReadPhase::Fallback
}

proof fn lemma_write_only_run(p: ReadProtocol, events: Seq<ReadEvent>)
    requires
        write_only(p),
    ensures
        forall|i: int|
            0 <= i < run(p, events).len() ==> #[trigger] run(p, events)[i] != ReadAction::Validate
                && run(p, events)[i] != ReadAction::Query(PoolTarget::Read),
    decreases events.len(),
{
    if events.len() > 0 {
        let (q, a) = transition(p, events[0]);
        let rest = events.drop_first();
        lemma_write_only_run(q, rest);
        let r = run(p, events);
        assert(r == seq![a] + run(q, rest));
        assert forall|i: int| 0 <= i < r.len() implies #[trigger] r[i] != ReadAction::Validate
            && r[i] != ReadAction::Query(PoolTarget::Read) by {
            if i > 0 {
                assert(r[i] == run(q, rest)[i - 1]);
            }
        }
    }
}

/// Without a distinct read pool, a read never consults its validator and runs its
/// statement against the write pool only, whatever events are fed.
pub proof fn no_replica_reads_write_pool_only(force_rw: bool, has_validator: bool, events: Seq<ReadEvent>)
    ensures
        forall|i: int|
            0 <= i < run(initial(force_rw, false, has_validator), events).len() ==> {
                let a = #[trigger] run(initial(force_rw, false, has_validator), events)[i];
                a != ReadAction::Validate && a != ReadAction::Query(PoolTarget::Read)
            },
{
    lemma_write_only_run(initial(force_rw, false, has_validator), events);
}

proof fn lemma_done_ignores(p: ReadProtocol, events: Seq<ReadEvent>)
    requires
        p.phase == ReadPhase::Done,
    ensures
        forall|i: int| 0 <= i < run(p, events).len() ==> #[trigger] run(p, events)[i] == ReadAction::Ignore,
    decreases events.len(),
{
    if events.len() > 0 {
        let rest = events.drop_first();
        lemma_done_ignores(p, rest);
        let r = run(p, events);
        assert forall|i: int| 0 <= i < r.len() implies #[trigger] r[i] == ReadAction::Ignore by {
            if i > 0 {
                assert(r[i] == run(p, rest)[i - 1]);
            }
        }
    }
}

proof fn lemma_fail_is_final(p: ReadProtocol, events: Seq<ReadEvent>)
    ensures
        forall|i: int, j: int|
            0 <= i < j < run(p, events).len() && #[trigger] run(p, events)[i] == ReadAction::Fail
                ==> !(#[trigger] run(p, events)[j] is Query),
    decreases events.len(),
{
    if events.len() > 0 {
        let (q, a) = transition(p, events[0]);
        let rest = events.drop_first();
        lemma_fail_is_final(q, rest);
        let r = run(p, events);
        assert(r == seq![a] + run(q, rest));
        if a == ReadAction::Fail {
            lemma_done_ignores(q, rest);
        }
        assert forall|i: int, j: int|
            0 <= i < j < r.len() && #[trigger] r[i] == ReadAction::Fail implies !(
        #[trigger] r[j] is Query) by {
            assert(r[j] == run(q, rest)[j - 1]);
            if i > 0 {
                assert(r[i] == run(q, rest)[i - 1]);
            }
        }
    }
}

/// A failed query ends the read: once the protocol reports a failure, it asks for
/// no further query, so driver errors are surfaced and never retried.
pub proof fn failure_is_never_retried(
    force_rw: bool,
    has_real_read_replica: bool,
    has_validator: bool,
    events: Seq<ReadEvent>,
)
    ensures
        forall|i: int, j: int|
            0 <= i < j < run(initial(force_rw, has_real_read_replica, has_validator), events).len()
                && #[trigger] run(initial(force_rw, has_real_read_replica, has_validator), events)[i]
                == ReadAction::Fail ==> !(#[trigger] run(
                initial(force_rw, has_real_read_replica, has_validator),
                events,
            )[j] is Query),
{
    lemma_fail_is_final(initial(force_rw, has_real_read_replica, has_validator), events);
}

/// The number of queries among `actions`.
pub open spec fn query_count(actions: Seq<ReadAction>) -> nat
    decreases actions.len(),
{
    if actions.len() == 0 {
        0
    } else {
        (if actions[0] is Query {
            1nat
        } else {
            0nat
        }) + query_count(actions.drop_first())
    }
}

/// The queries that a state may still ask for.
spec fn query_budget(p: ReadProtocol) -> nat {
    match p.phase {
        ReadPhase::Start => 2,
        ReadPhase::Primary => 1,
        ReadPhase::Validating => 1,
        _ => 0,
    }
}

proof fn lemma_query_budget(p: ReadProtocol, events: Seq<ReadEvent>)
    ensures
        query_count(run(p, events)) <= query_budget(p),
    decreases events.len(),
{
    if events.len() > 0 {
        let (q, a) = transition(p, events[0]);
        let rest = events.drop_first();
        lemma_query_budget(q, rest);
        let r = run(p, events);
        assert(r.drop_first() =~= run(q, rest));
    }
}

/// A read runs its statement at most twice: the first query, and at most one re-read.
pub proof fn read_runs_at_most_twice(
    force_rw: bool,
    has_real_read_replica: bool,
    has_validator: bool,
    events: Seq<ReadEvent>,
)
    ensures
        query_count(run(initial(force_rw, has_real_read_replica, has_validator), events)) <= 2,
{
    lemma_query_budget(initial(force_rw, has_real_read_replica, has_validator), events);
}

/// The result of a read that must find exactly one row.
pub fn require_row<R>(res: Option<R>) -> (r: Result<R, DbError>)
    ensures
        match res {
            Some(x) => r == Ok::<R, DbError>(x),
            None => r == Err::<R, DbError>(DbError::RowNotFound),
        },
{
    match res {
        Some(x) => Ok(x),
        None => Err(DbError::RowNotFound),
    }
}

} // verus!
