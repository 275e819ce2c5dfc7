use rmod::args::{Opt, PgArgs};
use rmod::repo::Repo;
use rmod::sql::{build_count_sql, build_insert_sql, build_select_sql, build_update_sql, column_arity};

#[test]
fn select_soft_delete_without_condition() {
    let sql = build_select_sql::<()>("t", "", Some(&Opt::new().with_deleted_at(true)), false);
    assert_eq!(sql, "SELECT * FROM t WHERE deleted_at IS NULL");
}

#[test]
fn select_soft_delete_with_condition_and_tail() {
    let opt = Opt::<()>::new().with_deleted_at(true).tail_query("ORDER BY id");
    let sql = build_select_sql("t", "id = $1", Some(&opt), false);
    assert_eq!(sql, "SELECT * FROM t WHERE (id = $1) AND deleted_at IS NULL ORDER BY id");
}

#[test]
fn select_plain() {
    assert_eq!(build_select_sql::<()>("t", "", None, false), "SELECT * FROM t");
    assert_eq!(build_select_sql::<()>("t", "a = 1", None, false), "SELECT * FROM t WHERE a = 1");
}

#[test]
fn select_blank_condition_counts_as_empty() {
    assert_eq!(build_select_sql::<()>("t", "  \t\n", None, true), "SELECT * FROM t WHERE deleted_at IS NULL");
}

#[test]
fn select_uses_default_unless_overridden() {
    assert_eq!(build_select_sql::<()>("t", "a = 1", None, true), "SELECT * FROM t WHERE (a = 1) AND deleted_at IS NULL");
    let opt = Opt::<()>::new().with_deleted_at(false);
    assert_eq!(build_select_sql("t", "a = 1", Some(&opt), true), "SELECT * FROM t WHERE a = 1");
}

#[test]
fn select_table_override() {
    let opt = Opt::<()>::new().table_name("archive");
    assert_eq!(build_select_sql("t", "", Some(&opt), false), "SELECT * FROM archive");
}

#[test]
fn count_has_same_shape() {
    let opt = Opt::<()>::new().tail_query("LIMIT 1");
    assert_eq!(build_count_sql("t", "x > $1", Some(&opt), true), "SELECT COUNT(*) FROM t WHERE (x > $1) AND deleted_at IS NULL LIMIT 1");
    assert_eq!(build_count_sql::<()>("t", "", None, false), "SELECT COUNT(*) FROM t");
}

#[test]
fn update_shapes() {
    assert_eq!(build_update_sql::<()>("t", "a = $1", "id = $2", None, false), "UPDATE t SET a = $1 WHERE id = $2");
    assert_eq!(build_update_sql::<()>("t", "a = $1", "id = $2", None, true), "UPDATE t SET a = $1 WHERE (id = $2) AND deleted_at IS NULL");
    assert_eq!(build_update_sql::<()>("t", "a = $1", "", None, true), "UPDATE t SET a = $1 WHERE deleted_at IS NULL");
    assert_eq!(build_update_sql::<()>("t", "a = $1", "", None, false), "UPDATE t SET a = $1");
}

#[test]
fn update_ignores_tail() {
    let opt = Opt::<()>::new().tail_query("RETURNING id");
    assert_eq!(build_update_sql("t", "a = 1", "", Some(&opt), false), "UPDATE t SET a = 1");
}

#[test]
fn insert_skips_nested_commas() {
    assert_eq!(column_arity("a, b, f(x,y), c"), 4);
    assert_eq!(
        build_insert_sql::<()>("t", "a, b, f(x,y), c", None),
        "INSERT INTO t (a, b, f(x,y), c) VALUES ($1, $2, $3, $4)"
    );
}

#[test]
fn insert_single_column() {
    assert_eq!(column_arity("a"), 1);
    assert_eq!(build_insert_sql::<()>("t", "a", None), "INSERT INTO t (a) VALUES ($1)");
}

#[test]
fn insert_many_columns_and_override() {
    let cols = "a,b,c,d,e,f,g,h,i,j,k,l";
    let opt = Opt::<()>::new().table_name("u");
    assert_eq!(
        build_insert_sql("t", cols, Some(&opt)),
        "INSERT INTO u (a,b,c,d,e,f,g,h,i,j,k,l) VALUES ($1, $2, $3, $4, $5, $6, $7, $8, $9, $10, $11, $12)"
    );
}

#[test]
fn insert_deep_nesting() {
    assert_eq!(column_arity("f(g(a, b), c), d"), 2);
    assert_eq!(column_arity(""), 1);
}

#[test]
fn repo_composes_builders() {
    let repo: Repo<()> = Repo::new("users", "id, name, coalesce(a, b)");
    let mut args: PgArgs<()> = PgArgs::new();
    assert_eq!(repo.select_sql("id = $1", &args, true), "SELECT * FROM users WHERE (id = $1) AND deleted_at IS NULL");
    assert_eq!(repo.count_sql("", &args, false), "SELECT COUNT(*) FROM users");
    assert_eq!(repo.insert_sql(&args), "INSERT INTO users (id, name, coalesce(a, b)) VALUES ($1, $2, $3)");
    args.set_opt(Some(Opt::new().table_name("users_old")));
    assert_eq!(repo.update_sql("name = $1", "id = $2", &args, false), "UPDATE users_old SET name = $1 WHERE id = $2");
}
