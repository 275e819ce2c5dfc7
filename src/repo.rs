//! The table facade: one table and its column list, composed with the statement builders.
use vstd::prelude::*;
use core::marker::PhantomData;
use crate::args::PgArgs;
use crate::sql::{
    build_count_sql, build_insert_sql, build_select_sql, build_update_sql, count_sql, insert_sql,
    select_sql, soft_delete_for, table_for, tail_for, update_sql,
};

verus! {

/// A table of rows of type `T`.
pub struct Repo<T> {
    pub table_name: &'static str,
    pub columns: &'static str,
    pub row: PhantomData<T>,
}

/// The modifier set of `args`, as the builders take it.
pub open spec fn opt_of<T>(args: &PgArgs<T>) -> Option<&crate::args::Opt<T>> {
    match args.modifiers() {
        Some(o) => Some(&o),
        None => None,
    }
}

impl<T> Repo<T> {
    pub fn new(table_name: &'static str, columns: &'static str) -> (r: Self)
        ensures
            r.table_name == table_name,
            r.columns == columns,
    {
        Repo { table_name, columns, row: PhantomData }
    }

    /// The SELECT that `fetch`, `fetch_all` and `query` run.
    pub fn select_sql(&self, where_clause: &str, args: &PgArgs<T>, soft_delete_default: bool) -> (r:
        String)
        ensures
            r@ == select_sql(
                table_for(self.table_name@, opt_of(args)),
                where_clause@,
                soft_delete_for(opt_of(args), soft_delete_default),
                tail_for(opt_of(args)),
            ),
    {
        build_select_sql(self.table_name, where_clause, args.opt(), soft_delete_default)
    }

    /// The COUNT that `count` runs.
    pub fn count_sql(&self, where_clause: &str, args: &PgArgs<T>, soft_delete_default: bool) -> (r:
        String)
        ensures
            r@ == count_sql(
                table_for(self.table_name@, opt_of(args)),
                where_clause@,
                soft_delete_for(opt_of(args), soft_delete_default),
                tail_for(opt_of(args)),
            ),
    {
        build_count_sql(self.table_name, where_clause, args.opt(), soft_delete_default)
    }

    /// The UPDATE that `update` runs.
    pub fn update_sql(
        &self,
        set: &str,
        condition: &str,
        args: &PgArgs<T>,
        soft_delete_default: bool,
    ) -> (r: String)
        ensures
            r@ == update_sql(
                table_for(self.table_name@, opt_of(args)),
                set@,
                condition@,
                soft_delete_for(opt_of(args), soft_delete_default),
            ),
    {
        build_update_sql(self.table_name, set, condition, args.opt(), soft_delete_default)
    }

    /// The INSERT that `insert` runs: one placeholder per column of the table.
    pub fn insert_sql(&self, args: &PgArgs<T>) -> (r: String)
        requires
            self.columns@.len() < usize::MAX,
        ensures
            r@ == insert_sql(table_for(self.table_name@, opt_of(args)), self.columns@),
    {
        build_insert_sql(self.table_name, self.columns, args.opt())
    }
}

} // verus!
