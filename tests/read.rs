use rmod::args::{Opt, PgArgs, RowValidator, Scalar};
use rmod::error::DbError;
use rmod::read::{require_row, PoolTarget, ReadAction, ReadEvent, ReadKind, ReadProtocol};
use rmod::store::Registry;

/// Drives a single-row read against two in-memory pools, as the executor does.
fn drive(
    reg: &Registry<&'static str>,
    name: &str,
    args: &PgArgs<i32>,
    read_pool_rows: Option<i32>,
    write_pool_rows: Option<i32>,
) -> (Option<i32>, Vec<ReadAction>) {
    let entry = reg.resolve(name).unwrap();
    let mut p = ReadProtocol::for_read(args, entry, ReadKind::Row);
    let mut actions = Vec::new();
    let mut held: Option<i32> = None;
    let mut action = p.step(ReadEvent::Begin);
    loop {
        actions.push(action);
        action = match action {
            ReadAction::Query(target) => {
                let pool = *entry.pool_for(target);
                held = if pool == "read" { read_pool_rows } else { write_pool_rows };
                p.step(ReadEvent::Fetched)
            }
            ReadAction::Validate => {
                let ok = args.opt().unwrap().validate.as_ref().unwrap().accept(&held);
                p.step(ReadEvent::Verdict(ok))
            }
            ReadAction::Return | ReadAction::Fail | ReadAction::Ignore => break,
        };
    }
    (held, actions)
}

#[test]
fn stale_replica_falls_back_to_write_pool() {
    let mut reg: Registry<&'static str> = Registry::new();
    reg.register("main", "write", Some("read"), 0, "", "").unwrap();
    let mut args: PgArgs<i32> = PgArgs::new();
    args.push(Scalar::I32(5));
    args.set_opt(Some(Opt::new().validate(|row: &Option<i32>| row.is_some())));

    let (res, actions) = drive(&reg, "main", &args, None, Some(42));
    assert_eq!(res, Some(42));
    assert_eq!(
        actions,
        vec![
            ReadAction::Query(PoolTarget::Read),
            ReadAction::Validate,
            ReadAction::Query(PoolTarget::Write),
            ReadAction::Return
        ]
    );
    let write_queries = actions.iter().filter(|a| **a == ReadAction::Query(PoolTarget::Write)).count();
    assert_eq!(write_queries, 1);
}

#[test]
fn accepted_replica_result_is_returned() {
    let mut reg: Registry<&'static str> = Registry::new();
    reg.register("main", "write", Some("read"), 0, "", "").unwrap();
    let mut args: PgArgs<i32> = PgArgs::new();
    args.set_opt(Some(Opt::new().validate(|row: &Option<i32>| row.is_some())));
    let (res, actions) = drive(&reg, "main", &args, Some(1), Some(2));
    assert_eq!(res, Some(1));
    assert_eq!(actions, vec![ReadAction::Query(PoolTarget::Read), ReadAction::Validate, ReadAction::Return]);
}

#[test]
fn no_replica_never_validates() {
    let mut reg: Registry<&'static str> = Registry::new();
    reg.register("main", "write", None, 0, "", "").unwrap();
    let mut args: PgArgs<i32> = PgArgs::new();
    args.set_opt(Some(Opt::new().validate(|_: &Option<i32>| panic!("validator consulted"))));
    let (res, actions) = drive(&reg, "main", &args, Some(1), Some(2));
    assert_eq!(res, Some(2));
    assert_eq!(actions, vec![ReadAction::Query(PoolTarget::Write), ReadAction::Return]);
}

#[test]
fn force_rw_reads_write_pool() {
    let mut reg: Registry<&'static str> = Registry::new();
    reg.register("main", "write", Some("read"), 0, "", "").unwrap();
    let mut args: PgArgs<i32> = PgArgs::new();
    args.set_opt(Some(Opt::new().force_rw().validate(|row: &Option<i32>| row.is_some())));
    let (res, actions) = drive(&reg, "main", &args, None, Some(7));
    assert_eq!(res, Some(7));
    assert_eq!(actions, vec![ReadAction::Query(PoolTarget::Write), ReadAction::Return]);
}

#[test]
fn replica_without_validator_is_accepted_as_is() {
    let mut reg: Registry<&'static str> = Registry::new();
    reg.register("main", "write", Some("read"), 0, "", "").unwrap();
    let args: PgArgs<i32> = PgArgs::new();
    let (res, actions) = drive(&reg, "main", &args, None, Some(7));
    assert_eq!(res, None);
    assert_eq!(actions, vec![ReadAction::Query(PoolTarget::Read), ReadAction::Return]);
}

#[test]
fn out_of_order_events_are_ignored() {
    let mut p = ReadProtocol::new(false, true, true);
    assert_eq!(p.step(ReadEvent::Fetched), ReadAction::Ignore);
    assert_eq!(p.step(ReadEvent::Begin), ReadAction::Query(PoolTarget::Read));
    assert_eq!(p.step(ReadEvent::Begin), ReadAction::Ignore);
    assert_eq!(p.step(ReadEvent::Fetched), ReadAction::Validate);
    assert_eq!(p.step(ReadEvent::Verdict(false)), ReadAction::Query(PoolTarget::Write));
    assert_eq!(p.step(ReadEvent::Verdict(false)), ReadAction::Ignore);
    assert_eq!(p.step(ReadEvent::Fetched), ReadAction::Return);
    assert_eq!(p.step(ReadEvent::Fetched), ReadAction::Ignore);
}

#[test]
fn exactly_one_row_required() {
    assert_eq!(require_row(Some(3)), Ok(3));
    assert_eq!(require_row::<i32>(None), Err(DbError::RowNotFound));
}

#[test]
fn failed_query_ends_the_read() {
    let mut p = ReadProtocol::new(false, true, true);
    assert_eq!(p.step(ReadEvent::Begin), ReadAction::Query(PoolTarget::Read));
    assert_eq!(p.step(ReadEvent::Failed), ReadAction::Fail);
    assert_eq!(p.step(ReadEvent::Fetched), ReadAction::Ignore);
    assert_eq!(p.step(ReadEvent::Verdict(false)), ReadAction::Ignore);

    let mut q = ReadProtocol::new(false, true, true);
    q.step(ReadEvent::Begin);
    q.step(ReadEvent::Fetched);
    assert_eq!(q.step(ReadEvent::Verdict(false)), ReadAction::Query(PoolTarget::Write));
    assert_eq!(q.step(ReadEvent::Failed), ReadAction::Fail);
    assert_eq!(q.step(ReadEvent::Begin), ReadAction::Ignore);
}
