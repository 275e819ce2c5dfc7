//! Statement text for SELECT, COUNT, UPDATE and INSERT.
//!
//! The parts always come in one order: the base clause, then the soft-delete
//! predicate, then the caller's tail fragment.
use vstd::prelude::*;
use crate::args::Opt;
use crate::text::{decimal, is_blank, is_blank_str, push_decimal};

verus! {

/// The table a statement targets: the modifier's override, else the caller's table.
pub open spec fn table_for<T>(table: Seq<char>, opt: Option<&Opt<T>>) -> Seq<char> {
    match opt {
        Some(o) => match o.table_name {
            Some(t) => t@,
            None => table,
        },
        None => table,
    }
}

/// Whether soft-deleted rows are hidden: the modifier's override, else the default.
pub open spec fn soft_delete_for<T>(opt: Option<&Opt<T>>, default: bool) -> bool {
    match opt {
        Some(o) => match o.with_deleted_at {
            Some(b) => b,
            None => default,
        },
        None => default,
    }
}

/// The tail fragment of the modifier set, if any.
pub open spec fn tail_for<T>(opt: Option<&Opt<T>>) -> Option<Seq<char>> {
    match opt {
        Some(o) => match o.tail_query {
            Some(t) => Some(t@),
            None => None,
        },
        None => None,
    }
}

/// The WHERE part built from a condition and the soft-delete flag.
pub open spec fn where_part(condition: Seq<char>, soft_delete: bool) -> Seq<char> {
    if is_blank(condition) {
        if soft_delete {
            " WHERE deleted_at IS NULL"@
        } else {
            Seq::<char>::empty()
        }
    } else if soft_delete {
        " WHERE ("@ + condition + ") AND deleted_at IS NULL"@
    } else {
        " WHERE "@ + condition
    }
}

/// The tail fragment, after one space, or nothing.
pub open spec fn tail_part(tail: Option<Seq<char>>) -> Seq<char> {
    match tail {
        Some(t) => " "@ + t,
        None => Seq::<char>::empty(),
    }
}

pub open spec fn select_sql(
    table: Seq<char>,
    condition: Seq<char>,
    soft_delete: bool,
    tail: Option<Seq<char>>,
) -> Seq<char> {
    "SELECT * FROM "@ + table + where_part(condition, soft_delete) + tail_part(tail)
}

pub open spec fn count_sql(
    table: Seq<char>,
    condition: Seq<char>,
    soft_delete: bool,
    tail: Option<Seq<char>>,
) -> Seq<char> {
    "SELECT COUNT(*) FROM "@ + table + where_part(condition, soft_delete) + tail_part(tail)
}

pub open spec fn update_sql(
    table: Seq<char>,
    set: Seq<char>,
    condition: Seq<char>,
    soft_delete: bool,
) -> Seq<char> {
    "UPDATE "@ + table + " SET "@ + set + where_part(condition, soft_delete)
}

/// How much a character changes the parenthesis depth.
pub open spec fn depth_step(c: char) -> int {
    if c == '(' {
        1
    } else if c == ')' {
        -1
    } else {
        0
    }
}

/// The parenthesis depth after reading `s`: opening minus closing parentheses.
pub open spec fn depth(s: Seq<char>) -> int
    decreases s.len(),
{
    if s.len() == 0 {
        0
    } else {
        depth(s.drop_last()) + depth_step(s.last())
    }
}

/// The commas of `s` that stand at depth zero.
pub open spec fn top_level_commas(s: Seq<char>) -> nat
    decreases s.len(),
{
    if s.len() == 0 {
        0
    } else {
        top_level_commas(s.drop_last()) + if s.last() == ',' && depth(s.drop_last()) == 0 {
            1nat
        } else {
            0nat
        }
    }
}

/// The number of columns in a column list: one more than its top-level commas.
pub open spec fn arity(columns: Seq<char>) -> nat {
    top_level_commas(columns) + 1
}

/// `$i` for the `i`-th positional placeholder.
pub open spec fn placeholder(i: nat) -> Seq<char> {
    seq!['$'] + decimal(i)
}

/// `$1, $2, ..., $n`.
pub open spec fn placeholders(n: nat) -> Seq<char>
    decreases n,
{
    if n == 0 {
        Seq::<char>::empty()
    } else if n == 1 {
        placeholder(1)
    } else {
        placeholders((n - 1) as nat) + ", "@ + placeholder(n)
    }
}

pub open spec fn insert_sql(table: Seq<char>, columns: Seq<char>) -> Seq<char> {
    "INSERT INTO "@ + table + " ("@ + columns + ") VALUES ("@ + placeholders(arity(columns))
        + ")"@
}

/// The table override of `opt`, else `table`.
pub fn resolve_table<'a, T>(table: &'a str, opt: Option<&'a Opt<T>>) -> (r: &'a str)
    ensures
        r@ == table_for(table@, opt),
{
    match opt {
        Some(o) => match &o.table_name {
            Some(t) => t.as_str(),
            None => table,
        },
        None => table,
    }
}

/// The soft-delete override of `opt`, else `default`.
pub fn resolve_soft_delete<T>(opt: Option<&Opt<T>>, default: bool) -> (r: bool)
    ensures
        r == soft_delete_for(opt, default),
{
    match opt {
        Some(o) => match o.with_deleted_at {
            Some(b) => b,
            None => default,
        },
        None => default,
    }
}

/// Appends the WHERE part for `condition` to `sql`.
fn push_where(sql: &mut String, condition: &str, soft_delete: bool)
    ensures
        final(sql)@ == old(sql)@ + where_part(condition@, soft_delete),
{
    if is_blank_str(condition) {
        if soft_delete {
            sql.append(" WHERE deleted_at IS NULL");
        }
        assert(sql@ =~= old(sql)@ + where_part(condition@, soft_delete));
    } else if soft_delete {
        sql.append(" WHERE (");
        sql.append(condition);
        sql.append(") AND deleted_at IS NULL");
        assert(sql@ =~= old(sql)@ + where_part(condition@, soft_delete));
    } else {
        sql.append(" WHERE ");
        sql.append(condition);
        assert(sql@ =~= old(sql)@ + where_part(condition@, soft_delete));
    }
}

/// Appends the tail fragment of `opt`, after one space, to `sql`.
fn push_tail<T>(sql: &mut String, opt: Option<&Opt<T>>)
    ensures
        final(sql)@ == old(sql)@ + tail_part(tail_for(opt)),
{
    match opt {
        Some(o) => match &o.tail_query {
            Some(t) => {
                sql.append(" ");
                sql.append(t.as_str());
                assert(sql@ =~= old(sql)@ + tail_part(tail_for(opt)));
            },
            None => {
                assert(sql@ =~= old(sql)@ + tail_part(tail_for(opt)));
            },
        },
        None => {
            assert(sql@ =~= old(sql)@ + tail_part(tail_for(opt)));
        },
    }
}

/// `SELECT * FROM {table}` with the WHERE part and the tail fragment.
pub fn build_select_sql<T>(
    table_name: &str,
    where_clause: &str,
    opt: Option<&Opt<T>>,
    soft_delete_default: bool,
) -> (r: String)
    ensures
        r@ == select_sql(
            table_for(table_name@, opt),
            where_clause@,
            soft_delete_for(opt, soft_delete_default),
            tail_for(opt),
        ),
{
    let table = resolve_table(table_name, opt);
    let soft_delete = resolve_soft_delete(opt, soft_delete_default);
    let mut sql = String::from_str("SELECT * FROM ");
    sql.append(table);
    push_where(&mut sql, where_clause, soft_delete);
    push_tail(&mut sql, opt);
    sql
}

/// `SELECT COUNT(*) FROM {table}` with the WHERE part and the tail fragment.
pub fn build_count_sql<T>(
    table_name: &str,
    where_clause: &str,
    opt: Option<&Opt<T>>,
    soft_delete_default: bool,
) -> (r: String)
    ensures
        r@ == count_sql(
            table_for(table_name@, opt),
            where_clause@,
            soft_delete_for(opt, soft_delete_default),
            tail_for(opt),
        ),
{
    let table = resolve_table(table_name, opt);
    let soft_delete = resolve_soft_delete(opt, soft_delete_default);
    let mut sql = String::from_str("SELECT COUNT(*) FROM ");
    sql.append(table);
    push_where(&mut sql, where_clause, soft_delete);
    push_tail(&mut sql, opt);
    sql
}

/// `UPDATE {table} SET {set}` with the WHERE part; no tail fragment.
pub fn build_update_sql<T>(
    table_name: &str,
    set: &str,
    condition: &str,
    opt: Option<&Opt<T>>,
    soft_delete_default: bool,
) -> (r: String)
    ensures
        r@ == update_sql(
            table_for(table_name@, opt),
            set@,
            condition@,
            soft_delete_for(opt, soft_delete_default),
        ),
{
    let table = resolve_table(table_name, opt);
    let soft_delete = resolve_soft_delete(opt, soft_delete_default);
    let mut sql = String::from_str("UPDATE ");
    sql.append(table);
    sql.append(" SET ");
    sql.append(set);
    push_where(&mut sql, condition, soft_delete);
    sql
}

/// The number of columns in `columns`, counting commas only at parenthesis depth zero.
pub fn column_arity(columns: &str) -> (r: usize)
    requires
        columns@.len() < usize::MAX,
    ensures
        r == arity(columns@),
{
    let n = columns.unicode_len();
    let mut opens: usize = 0;
    let mut closes: usize = 0;
    let mut commas: usize = 0;
    let mut i: usize = 0;
    while i < n
        invariant
            n == columns@.len(),
            n < usize::MAX,
            i <= n,
            opens + closes <= i,
            commas <= i,
            opens - closes == depth(columns@.subrange(0, i as int)),
            commas == top_level_commas(columns@.subrange(0, i as int)),
        decreases n - i,
    {
        let c = columns.get_char(i);
        let ghost prefix = columns@.subrange(0, i as int);
        assert(columns@.subrange(0, i + 1).drop_last() =~= prefix);
        assert(columns@.subrange(0, i + 1).last() == c);
        if c == '(' {
            opens = opens + 1;
        } else if c == ')' {
            closes = closes + 1;
        } else if c == ',' && opens == closes {
            commas = commas + 1;
        }
        i = i + 1;
    }
    assert(columns@.subrange(0, n as int) =~= columns@);
    commas + 1
}

/// Appends `$1, $2, ..., $n` to `out`.
fn push_placeholders(out: &mut String, n: usize)
    ensures
        final(out)@ == old(out)@ + placeholders(n as nat),
{
    let mut i: usize = 1;
    assert(old(out)@ =~= old(out)@ + placeholders(0));
    while i <= n
        invariant
            1 <= i,
            i <= n + 1,
            out@ == old(out)@ + placeholders((i - 1) as nat),
        decreases n + 1 - i,
    {
        let ghost before = out@;
        if i > 1 {
            out.append(", ");
        }
        out.append("$");
        push_decimal(out, i);
        proof {
            reveal_strlit("$");
            if i > 1 {
                assert(out@ =~= before + ", "@ + placeholder(i as nat));
            } else {
                assert(out@ =~= before + placeholder(i as nat));
            }
            assert(out@ =~= old(out)@ + placeholders(i as nat));
        }
        if i == usize::MAX {
            return;
        }
        i = i + 1;
    }
}

/// `INSERT INTO {table} ({columns}) VALUES ($1, ..., $n)`, one placeholder per column.
pub fn build_insert_sql<T>(table_name: &str, columns: &str, opt: Option<&Opt<T>>) -> (r: String)
    requires
        columns@.len() < usize::MAX,
    ensures
        r@ == insert_sql(table_for(table_name@, opt), columns@),
{
    let table = resolve_table(table_name, opt);
    let count = column_arity(columns);
    let mut sql = String::from_str("INSERT INTO ");
    sql.append(table);
    sql.append(" (");
    sql.append(columns);
    sql.append(") VALUES (");
    push_placeholders(&mut sql, count);
    sql.append(")");
    assert(sql@ =~= insert_sql(table_for(table_name@, opt), columns@));
    sql
}

} // verus!
