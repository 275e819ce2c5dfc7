//! The argument builder: ordered positional parameters plus optional modifiers.
use vstd::prelude::*;
use crate::text::text_of;

verus! {

/// Judges a single-row read result; a rejected result is re-read from the write pool.
pub trait RowValidator<T>: Send + Sync {
    /// The inputs on which `accept` may be called.
    spec fn accepts_input(&self, row: &Option<T>) -> bool;

    /// `accept` may answer `r` on `row`.
    spec fn answers(&self, row: &Option<T>, r: bool) -> bool;

    fn accept(&self, row: &Option<T>) -> (r: bool)
        requires
            self.accepts_input(row),
        ensures
            self.answers(row, r),
    ;
}

/// Judges a multi-row read result.
pub trait RowsValidator<T>: Send + Sync {
    /// The inputs on which `accept` may be called.
    spec fn accepts_input(&self, rows: &Vec<T>) -> bool;

    /// `accept` may answer `r` on `rows`.
    spec fn answers(&self, rows: &Vec<T>, r: bool) -> bool;

    fn accept(&self, rows: &Vec<T>) -> (r: bool)
        requires
            self.accepts_input(rows),
        ensures
            self.answers(rows, r),
    ;
}

/// Judges a counted read result.
pub trait CountValidator: Send + Sync {
    /// The inputs on which `accept` may be called.
    spec fn accepts_input(&self, count: i64) -> bool;

    /// `accept` may answer `r` on `count`.
    spec fn answers(&self, count: i64, r: bool) -> bool;

    fn accept(&self, count: i64) -> (r: bool)
        requires
            self.accepts_input(count),
        ensures
            self.answers(count, r),
    ;
}

/// A closure used as a validator.
pub struct FnValidator<F> {
    pub f: F,
}

impl<T, F: Fn(&Option<T>) -> bool + Send + Sync> RowValidator<T> for FnValidator<F> {
    open spec fn accepts_input(&self, row: &Option<T>) -> bool {
        self.f.requires((row,))
    }

    open spec fn answers(&self, row: &Option<T>, r: bool) -> bool {
        self.f.ensures((row,), r)
    }

    fn accept(&self, row: &Option<T>) -> bool {
        (self.f)(row)
    }
}

/// A closure used as a validator of row lists.
pub struct FnRowsValidator<F> {
    pub f: F,
}

impl<T, F: Fn(&Vec<T>) -> bool + Send + Sync> RowsValidator<T> for FnRowsValidator<F> {
    open spec fn accepts_input(&self, rows: &Vec<T>) -> bool {
        self.f.requires((rows,))
    }

    open spec fn answers(&self, rows: &Vec<T>, r: bool) -> bool {
        self.f.ensures((rows,), r)
    }

    fn accept(&self, rows: &Vec<T>) -> bool {
        (self.f)(rows)
    }
}

/// A closure used as a validator of counts.
pub struct FnCountValidator<F> {
    pub f: F,
}

impl<F: Fn(i64) -> bool + Send + Sync> CountValidator for FnCountValidator<F> {
    open spec fn accepts_input(&self, count: i64) -> bool {
        self.f.requires((count,))
    }

    open spec fn answers(&self, count: i64, r: bool) -> bool {
        self.f.ensures((count,), r)
    }

    fn accept(&self, count: i64) -> bool {
        (self.f)(count)
    }
}

/// Per-call modifiers of a statement.
#[verifier::reject_recursive_types(T)]
pub struct Opt<T> {
    /// Replaces the table that the statement targets.
    pub table_name: Option<String>,
    /// Appended verbatim, after one space, at the end of a SELECT or COUNT.
    pub tail_query: Option<String>,
    /// Sends reads to the write pool.
    pub force_rw: Option<bool>,
    /// Overrides the registry's soft-delete default.
    pub with_deleted_at: Option<bool>,
    pub validate: Option<Box<dyn RowValidator<T>>>,
    pub validate_all: Option<Box<dyn RowsValidator<T>>>,
    pub validate_count: Option<Box<dyn CountValidator>>,
}

/// No modifier set.
pub open spec fn is_plain<T>(o: &Opt<T>) -> bool {
    &&& o.table_name is None
    &&& o.tail_query is None
    &&& o.force_rw is None
    &&& o.with_deleted_at is None
    &&& o.validate is None
    &&& o.validate_all is None
    &&& o.validate_count is None
}

/// The string fields and flags of `a` and `b` agree.
pub open spec fn same_settings<T>(a: &Opt<T>, b: &Opt<T>) -> bool {
    &&& text_of(a.table_name) == text_of(b.table_name)
    &&& text_of(a.tail_query) == text_of(b.tail_query)
    &&& a.force_rw == b.force_rw
    &&& a.with_deleted_at == b.with_deleted_at
}

/// `a` and `b` hold the same validators.
pub open spec fn same_validators<T>(a: &Opt<T>, b: &Opt<T>) -> bool {
    &&& a.validate == b.validate
    &&& a.validate_all == b.validate_all
    &&& a.validate_count == b.validate_count
}

/// A modifier set with nothing set.
pub fn args_opt<T>() -> (r: Opt<T>)
    ensures
        is_plain(&r),
{
    Opt {
        table_name: None,
        tail_query: None,
        force_rw: None,
        with_deleted_at: None,
        validate: None,
        validate_all: None,
        validate_count: None,
    }
}

impl<T> Opt<T> {
    pub fn new() -> (r: Self)
        ensures
            is_plain(&r),
    {
        args_opt()
    }

    pub fn table_name(self, table_name: &str) -> (r: Self)
        ensures
            r.table_name matches Some(t) && t@ == table_name@,
            text_of(r.tail_query) == text_of(self.tail_query),
            r.force_rw == self.force_rw,
            r.with_deleted_at == self.with_deleted_at,
            same_validators(&r, &self),
    {
        Opt { table_name: Some(table_name.to_owned()), ..self }
    }

    pub fn tail_query(self, query: &str) -> (r: Self)
        ensures
            r.tail_query matches Some(t) && t@ == query@,
            text_of(r.table_name) == text_of(self.table_name),
            r.force_rw == self.force_rw,
            r.with_deleted_at == self.with_deleted_at,
            same_validators(&r, &self),
    {
        Opt { tail_query: Some(query.to_owned()), ..self }
    }

    pub fn force_rw(self) -> (r: Self)
        ensures
            r.force_rw == Some(true),
            text_of(r.table_name) == text_of(self.table_name),
            text_of(r.tail_query) == text_of(self.tail_query),
            r.with_deleted_at == self.with_deleted_at,
            same_validators(&r, &self),
    {
        Opt { force_rw: Some(true), ..self }
    }

    pub fn with_deleted_at(self, val: bool) -> (r: Self)
        ensures
            r.with_deleted_at == Some(val),
            text_of(r.table_name) == text_of(self.table_name),
            text_of(r.tail_query) == text_of(self.tail_query),
            r.force_rw == self.force_rw,
            same_validators(&r, &self),
    {
        Opt { with_deleted_at: Some(val), ..self }
    }

    /// Stores `f` as the row validator, wrapped in `FnValidator`, which answers as `f`.
    pub fn validate<F: Fn(&Option<T>) -> bool + Send + Sync + 'static>(self, f: F) -> (r: Self)
        ensures
            same_settings(&r, &self),
            r.validate is Some,
            r.validate_all == self.validate_all,
            r.validate_count == self.validate_count,
    {
        let v: Box<dyn RowValidator<T>> = Box::new(FnValidator { f });
        Opt { validate: Some(v), ..self }
    }

    /// Stores `f` as the row-list validator, wrapped in `FnRowsValidator`, which answers as `f`.
    pub fn validate_all<F: Fn(&Vec<T>) -> bool + Send + Sync + 'static>(self, f: F) -> (r: Self)
        ensures
            same_settings(&r, &self),
            r.validate_all is Some,
            r.validate == self.validate,
            r.validate_count == self.validate_count,
    {
        let v: Box<dyn RowsValidator<T>> = Box::new(FnRowsValidator { f });
        Opt { validate_all: Some(v), ..self }
    }

    /// Stores `f` as the count validator, wrapped in `FnCountValidator`, which answers as `f`.
    pub fn validate_count<F: Fn(i64) -> bool + Send + Sync + 'static>(self, f: F) -> (r: Self)
        ensures
            same_settings(&r, &self),
            r.validate_count is Some,
            r.validate == self.validate,
            r.validate_all == self.validate_all,
    {
        let v: Box<dyn CountValidator> = Box::new(FnCountValidator { f });
        Opt { validate_count: Some(v), ..self }
    }
}

} // verus!

verus! {

/// The database type of a parameter.
#[derive(PartialEq, Eq, Structural, Clone, Copy, Debug)]
pub enum ParamType {
    Bool,
    I16,
    I32,
    I64,
    Text,
    Bytes,
}

/// One positional statement parameter.
#[derive(Debug, PartialEq, Eq)]
pub enum Scalar {
    /// SQL NULL, bound with the given type.
    Null(ParamType),
    Bool(bool),
    I16(i16),
    I32(i32),
    I64(i64),
    Text(String),
    Bytes(Vec<u8>),
}

/// What a parameter holds, as plain values.
pub enum ScalarValue {
    Null(ParamType),
    Bool(bool),
    I16(i16),
    I32(i32),
    I64(i64),
    Text(Seq<char>),
    Bytes(Seq<u8>),
}

impl View for Scalar {
    type V = ScalarValue;

    open spec fn view(&self) -> ScalarValue {
        match self {
            Scalar::Null(t) => ScalarValue::Null(*t),
            Scalar::Bool(b) => ScalarValue::Bool(*b),
            Scalar::I16(v) => ScalarValue::I16(*v),
            Scalar::I32(v) => ScalarValue::I32(*v),
            Scalar::I64(v) => ScalarValue::I64(*v),
            Scalar::Text(s) => ScalarValue::Text(s@),
            Scalar::Bytes(b) => ScalarValue::Bytes(b@),
        }
    }
}

/// The values of a parameter list, in order.
pub open spec fn values_of(s: Seq<Scalar>) -> Seq<ScalarValue> {
    s.map_values(|x: Scalar| x@)
}

impl Scalar {
    /// A fresh parameter holding the same value.
    pub fn duplicate(&self) -> (r: Scalar)
        ensures
            r@ == self@,
    {
        match self {
            Scalar::Null(t) => Scalar::Null(*t),
            Scalar::Bool(b) => Scalar::Bool(*b),
            Scalar::I16(v) => Scalar::I16(*v),
            Scalar::I32(v) => Scalar::I32(*v),
            Scalar::I64(v) => Scalar::I64(*v),
            Scalar::Text(s) => Scalar::Text(s.clone()),
            Scalar::Bytes(b) => {
                let c = b.clone();
                assert(c@ =~= b@);
                Scalar::Bytes(c)
            },
        }
    }
}

/// An argument set: ordered parameters and at most one modifier set.
#[verifier::reject_recursive_types(T)]
pub struct PgArgs<T> {
    pub(crate) values: Vec<Scalar>,
    pub(crate) opt: Option<Opt<T>>,
}

impl<T> PgArgs<T> {
    /// The parameters, in the order in which they were pushed.
    pub closed spec fn params(&self) -> Seq<ScalarValue> {
        values_of(self.values@)
    }

    /// The modifier set, if any.
    pub closed spec fn modifiers(&self) -> Option<Opt<T>> {
        self.opt
    }

    pub fn new() -> (r: Self)
        ensures
            r.params() == Seq::<ScalarValue>::empty(),
            r.modifiers() is None,
    {
        let r = PgArgs { values: Vec::new(), opt: None };
        assert(r.params() =~= Seq::<ScalarValue>::empty());
        r
    }

    /// Appends one parameter after those already there.
    pub fn push(&mut self, value: Scalar)
        ensures
            final(self).params() == old(self).params().push(value@),
            final(self).modifiers() == old(self).modifiers(),
    {
        self.values.push(value);
        assert(values_of(self.values@) =~= values_of(old(self).values@).push(value@));
    }

    /// Sets the modifier set; a later call replaces an earlier one.
    pub fn set_opt(&mut self, opt: Option<Opt<T>>)
        ensures
            final(self).params() == old(self).params(),
            final(self).modifiers() == opt,
    {
        self.opt = opt;
    }

    /// Takes the modifier set out, leaving none.
    pub fn take_opt(&mut self) -> (r: Option<Opt<T>>)
        ensures
            r == old(self).modifiers(),
            final(self).params() == old(self).params(),
            final(self).modifiers() is None,
    {
        let r = self.opt.take();
        r
    }

    /// The modifier set, if any.
    pub fn opt(&self) -> (r: Option<&Opt<T>>)
        ensures
            match r {
                Some(o) => self.modifiers() == Some(*o),
                None => self.modifiers() is None,
            },
    {
        match &self.opt {
            Some(o) => Some(o),
            None => None,
        }
    }

    /// Appends the parameters of `other` and adopts its modifiers when this set has none.
    pub fn merge(&mut self, other: PgArgs<T>)
        ensures
            final(self).params() == old(self).params() + other.params(),
            final(self).modifiers() == if old(self).modifiers() is Some {
                old(self).modifiers()
            } else {
                other.modifiers()
            },
    {
        let PgArgs { values: mut more, opt } = other;
        self.values.append(&mut more);
        assert(values_of(self.values@) =~= values_of(old(self).values@) + values_of(other.values@));
        if self.opt.is_none() {
            self.opt = opt;
        }
    }

    /// The driver parameter list: every parameter, once, in push order. The set is left as it was.
    pub fn render(&self) -> (r: Vec<Scalar>)
        ensures
            values_of(r@) == self.params(),
    {
        let mut out: Vec<Scalar> = Vec::new();
        let n = self.values.len();
        let mut i: usize = 0;
        while i < n
            invariant
                n == self.values@.len(),
                i <= n,
                values_of(out@) =~= values_of(self.values@.subrange(0, i as int)),
            decreases n - i,
        {
            let ghost prev = out@;
            out.push(self.values[i].duplicate());
            assert(self.values@.subrange(0, i + 1) =~= self.values@.subrange(0, i as int).push(
                self.values@[i as int],
            ));
            assert(values_of(out@) =~= values_of(prev).push(self.values@[i as int]@));
            assert(values_of(self.values@.subrange(0, i + 1)) =~= values_of(
                self.values@.subrange(0, i as int),
            ).push(self.values@[i as int]@));
            i = i + 1;
        }
        assert(self.values@.subrange(0, n as int) =~= self.values@);
        out
    }

    /// Whether reads must go to the write pool.
    pub fn is_force_rw(&self) -> (r: bool)
        ensures
            r == (self.modifiers() matches Some(o) && o.force_rw == Some(true)),
    {
        match &self.opt {
            Some(o) => match o.force_rw {
                Some(b) => b,
                None => false,
            },
            None => false,
        }
    }
}

/// Rendering is repeatable: two renders of one argument set give equal parameter
/// lists, each holding every pushed value once, in push order.
pub proof fn render_is_reproducible<T>(args: &PgArgs<T>, first: Seq<Scalar>, second: Seq<Scalar>)
    requires
        values_of(first) == args.params(),
        values_of(second) == args.params(),
    ensures
        values_of(first) == values_of(second),
        first.len() == args.params().len(),
        second.len() == args.params().len(),
{
    assert(values_of(first).len() == first.len());
    assert(values_of(second).len() == second.len());
}

} // verus!
