use rmod::args::{args_opt, CountValidator, Opt, ParamType, PgArgs, RowValidator, RowsValidator, Scalar};

#[test]
fn test_db_args_with_opt() {
    let opt = args_opt::<()>().tail_query("ORDER BY id");
    let mut args: PgArgs<()> = PgArgs::new();
    args.push(Scalar::Text("val1".to_string()));
    args.set_opt(Some(opt));
    assert!(args.opt().is_some());
    assert_eq!(args.opt().unwrap().tail_query, Some("ORDER BY id".to_string()));
    assert!(!args.is_force_rw());
}

#[test]
fn test_db_args_with_opt_rw() {
    let opt = args_opt::<()>().tail_query("ORDER BY id").force_rw();
    let mut args: PgArgs<()> = PgArgs::new();
    args.push(Scalar::Text("val1".to_string()));
    args.set_opt(Some(opt));
    assert!(args.is_force_rw());
    assert_eq!(args.opt().unwrap().tail_query, Some("ORDER BY id".to_string()));
}

#[test]
fn test_opt_builder() {
    let opt = Opt::<i32>::new().tail_query("LIMIT 10").force_rw().validate(|res| res.is_some());

    assert_eq!(opt.tail_query, Some("LIMIT 10".to_string()));
    assert_eq!(opt.force_rw, Some(true));
    assert!(opt.validate.is_some());

    let validator = opt.validate.as_ref().unwrap();
    assert!(validator.accept(&Some(1)));
    assert!(!validator.accept(&None));
}

#[test]
fn test_opt_validate_all() {
    let opt = Opt::<i32>::new().validate_all(|res| !res.is_empty());

    assert!(opt.validate_all.is_some());
    let validator = opt.validate_all.as_ref().unwrap();
    assert!(validator.accept(&vec![1, 2, 3]));
    assert!(!validator.accept(&vec![]));
}

#[test]
fn test_pg_args_reproducibility() {
    let mut args: PgArgs<()> = PgArgs::new();
    args.push(Scalar::I32(1));
    args.push(Scalar::Text("two".to_string()));
    args.push(Scalar::I64(3));

    let first = args.render();
    let second = args.render();

    assert_eq!(first.len(), 3);
    assert_eq!(first, second);
    assert_eq!(args.render().len(), 3);
}

#[test]
fn render_keeps_push_order() {
    let mut args: PgArgs<()> = PgArgs::new();
    args.push(Scalar::Bool(true));
    args.push(Scalar::I16(-4));
    args.push(Scalar::Bytes(vec![1, 2]));
    assert_eq!(
        args.render(),
        vec![Scalar::Bool(true), Scalar::I16(-4), Scalar::Bytes(vec![1, 2])]
    );
}

#[test]
fn render_of_empty_set_is_empty() {
    let args: PgArgs<()> = PgArgs::new();
    assert!(args.render().is_empty());
}

#[test]
fn merge_appends_and_adopts_modifiers() {
    let mut base: PgArgs<()> = PgArgs::new();
    base.push(Scalar::I32(1));
    let mut extra: PgArgs<()> = PgArgs::new();
    extra.push(Scalar::I32(2));
    extra.set_opt(Some(Opt::new().table_name("other")));
    base.merge(extra);
    assert_eq!(base.render(), vec![Scalar::I32(1), Scalar::I32(2)]);
    assert_eq!(base.opt().unwrap().table_name, Some("other".to_string()));
}

#[test]
fn merge_keeps_own_modifiers() {
    let mut base: PgArgs<()> = PgArgs::new();
    base.set_opt(Some(Opt::new().table_name("mine")));
    let mut extra: PgArgs<()> = PgArgs::new();
    extra.set_opt(Some(Opt::new().table_name("theirs")));
    base.merge(extra);
    assert_eq!(base.opt().unwrap().table_name, Some("mine".to_string()));
}

#[test]
fn take_opt_leaves_none() {
    let mut args: PgArgs<()> = PgArgs::new();
    args.set_opt(Some(Opt::new().with_deleted_at(true)));
    let taken = args.take_opt();
    assert_eq!(taken.unwrap().with_deleted_at, Some(true));
    assert!(args.opt().is_none());
}

#[test]
fn count_validator_is_stored() {
    let opt = Opt::<()>::new().validate_count(|n| n > 0);
    let v = opt.validate_count.as_ref().unwrap();
    assert!(v.accept(3));
    assert!(!v.accept(0));
}

#[test]
fn null_parameters_are_typed() {
    let mut args: PgArgs<()> = PgArgs::new();
    args.push(Scalar::Null(ParamType::Text));
    args.push(Scalar::I32(1));
    assert_eq!(args.render(), vec![Scalar::Null(ParamType::Text), Scalar::I32(1)]);
}

#[test]
fn setters_keep_validators() {
    let opt = Opt::<i32>::new().validate(|r| r.is_none()).table_name("t").with_deleted_at(true);
    let v = opt.validate.as_ref().unwrap();
    assert!(v.accept(&None));
    assert!(!v.accept(&Some(3)));
}
