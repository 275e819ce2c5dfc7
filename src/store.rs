//! The pool registry: named backends, each a write pool and an optional read pool.
//!
//! A name can be registered once; a second registration of it is refused with
//! `DuplicateRegistration`. Entries are never removed, and the first registered
//! entry is the default backend.
use vstd::prelude::*;
use crate::error::DbError;
use crate::text::str_eq;

verus! {

/// One registered backend and its metadata.
pub struct PoolEntry<P> {
    pub name: String,
    pub write_pool: P,
    pub read_pool: Option<P>,
    pub updated_at: i64,
    pub state: String,
    pub descriptor: String,
}

impl<P> PoolEntry<P> {
    /// Whether a distinct read pool was registered.
    pub fn has_real_read_replica(&self) -> (r: bool)
        ensures
            r == self.read_pool is Some,
    {
        self.read_pool.is_some()
    }

    /// The read pool, or the write pool when no read pool was registered.
    pub fn read_pool_or_write(&self) -> (r: &P)
        ensures
            *r == match self.read_pool {
                Some(p) => p,
                None => self.write_pool,
            },
    {
        match &self.read_pool {
            Some(p) => p,
            None => &self.write_pool,
        }
    }
}

/// The names of a sequence of entries are pairwise distinct.
pub open spec fn names_unique<P>(s: Seq<PoolEntry<P>>) -> bool {
    forall|i: int, j: int|
        0 <= i < s.len() && 0 <= j < s.len() && i != j ==> (#[trigger] s[i]).name@ != (
        #[trigger] s[j]).name@
}

/// Some entry of `s` is named `name`.
pub open spec fn has_name<P>(s: Seq<PoolEntry<P>>, name: Seq<char>) -> bool {
    exists|i: int| 0 <= i < s.len() && (#[trigger] s[i]).name@ == name
}

/// `after` is `before` with one entry appended, named `name` and holding the given values.
pub open spec fn appended<P>(
    before: Seq<PoolEntry<P>>,
    after: Seq<PoolEntry<P>>,
    name: Seq<char>,
    write_pool: P,
    read_pool: Option<P>,
    updated_at: i64,
    state: Seq<char>,
    descriptor: Seq<char>,
) -> bool {
    &&& after.len() == before.len() + 1
    &&& after.subrange(0, before.len() as int) == before
    &&& after.last().name@ == name
    &&& after.last().write_pool == write_pool
    &&& after.last().read_pool == read_pool
    &&& after.last().updated_at == updated_at
    &&& after.last().state@ == state
    &&& after.last().descriptor@ == descriptor
}

/// What registering `name` does: a new name is appended, a known one leaves the entries alone.
pub open spec fn register_outcome<P>(
    before: Seq<PoolEntry<P>>,
    after: Seq<PoolEntry<P>>,
    name: Seq<char>,
) -> bool {
    if has_name(before, name) {
        after == before
    } else {
        &&& after.len() == before.len() + 1
        &&& after.subrange(0, before.len() as int) == before
        &&& after.last().name@ == name
    }
}

/// The default backend: the first registered one.
pub open spec fn default_entry<P>(s: Seq<PoolEntry<P>>) -> Option<PoolEntry<P>> {
    if s.len() == 0 {
        None
    } else {
        Some(s[0])
    }
}

/// Named backends in registration order, plus the soft-delete default.
pub struct Registry<P> {
    entries: Vec<PoolEntry<P>>,
    soft_delete_default: bool,
}

impl<P> Registry<P> {
    /// Well-formed: no two entries share a name.
    pub open spec fn wf(&self) -> bool {
        names_unique(self.entries_seq())
    }

    /// The entries in registration order.
    pub closed spec fn entries_seq(&self) -> Seq<PoolEntry<P>> {
        self.entries@
    }

    /// Whether statements hide soft-deleted rows when the caller does not say.
    pub closed spec fn soft_delete(&self) -> bool {
        self.soft_delete_default
    }

    pub fn new() -> (r: Self)
        ensures
            r.wf(),
            r.entries_seq().len() == 0,
            !r.soft_delete(),
    {
        Registry { entries: Vec::new(), soft_delete_default: false }
    }

    /// The number of registered backends.
    pub fn len(&self) -> (r: usize)
        ensures
            r == self.entries_seq().len(),
    {
        self.entries.len()
    }

    /// The position of the entry named `name`.
    pub fn find(&self, name: &str) -> (r: Option<usize>)
        ensures
            match r {
                Some(i) => i < self.entries_seq().len() && self.entries_seq()[i as int].name@
                    == name@,
                None => !has_name(self.entries_seq(), name@),
            },
    {
        let n = self.entries.len();
        let mut i: usize = 0;
        while i < n
            invariant
                n == self.entries@.len(),
                i <= n,
                forall|j: int| 0 <= j < i ==> (#[trigger] self.entries@[j]).name@ != name@,
            decreases n - i,
        {
            if str_eq(self.entries[i].name.as_str(), name) {
                return Some(i);
            }
            i = i + 1;
        }
        None
    }

    /// Adds a backend. A name that is already registered is refused and nothing changes.
    pub fn register(
        &mut self,
        name: &str,
        write_pool: P,
        read_pool: Option<P>,
        updated_at: i64,
        state: &str,
        descriptor: &str,
    ) -> (r: Result<(), DbError>)
        requires
            old(self).wf(),
        ensures
            final(self).wf(),
            r is Err <==> has_name(old(self).entries_seq(), name@),
            r is Err ==> r == Err::<(), DbError>(DbError::DuplicateRegistration),
            r is Err ==> final(self).entries_seq() == old(self).entries_seq(),
            r is Ok ==> appended(
                old(self).entries_seq(),
                final(self).entries_seq(),
                name@,
                write_pool,
                read_pool,
                updated_at,
                state@,
                descriptor@,
            ),
            register_outcome(old(self).entries_seq(), final(self).entries_seq(), name@),
            final(self).soft_delete() == old(self).soft_delete(),
    {
        if self.find(name).is_some() {
            return Err(DbError::DuplicateRegistration);
        }
        let entry = PoolEntry {
            name: name.to_owned(),
            write_pool,
            read_pool,
            updated_at,
            state: state.to_owned(),
            descriptor: descriptor.to_owned(),
        };
        self.entries.push(entry);
        assert(self.entries@.subrange(0, old(self).entries@.len() as int) =~= old(self).entries@);
        assert(names_unique(self.entries@)) by {
            assert forall|i: int, j: int|
                0 <= i < self.entries@.len() && 0 <= j < self.entries@.len() && i != j implies (
            #[trigger] self.entries@[i]).name@ != (#[trigger] self.entries@[j]).name@ by {
                if i < old(self).entries@.len() && j < old(self).entries@.len() {
                    assert(self.entries@[i] == old(self).entries@[i]);
                    assert(self.entries@[j] == old(self).entries@[j]);
                } else if i < old(self).entries@.len() {
                    assert(self.entries@[i] == old(self).entries@[i]);
                } else {
                    assert(self.entries@[j] == old(self).entries@[j]);
                }
            }
        }
        Ok(())
    }

    /// The entry named `name`.
    pub fn resolve(&self, name: &str) -> (r: Result<&PoolEntry<P>, DbError>)
        ensures
            r is Ok <==> has_name(self.entries_seq(), name@),
            r is Err ==> r == Err::<&PoolEntry<P>, DbError>(DbError::NotInitialized),
            r matches Ok(e) ==> e.name@ == name@ && self.entries_seq().contains(*e),
            r matches Ok(e) ==> self.wf() ==> forall|i: int|
                0 <= i < self.entries_seq().len() && (#[trigger] self.entries_seq()[i]).name@
                    == name@ ==> self.entries_seq()[i] == *e,
    {
        match self.find(name) {
            Some(i) => {
                assert(self.entries@.contains(self.entries@[i as int]));
                Ok(&self.entries[i])
            },
            None => Err(DbError::NotInitialized),
        }
    }

    /// The first registered entry.
    pub fn resolve_default(&self) -> (r: Result<&PoolEntry<P>, DbError>)
        ensures
            match default_entry(self.entries_seq()) {
                Some(e) => r == Ok::<&PoolEntry<P>, DbError>(&e),
                None => r == Err::<&PoolEntry<P>, DbError>(DbError::NoBackendsConfigured),
            },
    {
        if self.entries.len() == 0 {
            Err(DbError::NoBackendsConfigured)
        } else {
            Ok(&self.entries[0])
        }
    }

    /// The entry named `name`, or the default entry when no name is given.
    pub fn resolve_on(&self, name: Option<&str>) -> (r: Result<&PoolEntry<P>, DbError>)
        ensures
            match name {
                Some(n) => {
                    &&& r is Ok <==> has_name(self.entries_seq(), n@)
                    &&& r is Err ==> r == Err::<&PoolEntry<P>, DbError>(DbError::NotInitialized)
                    &&& r matches Ok(e) ==> e.name@ == n@ && self.entries_seq().contains(*e)
                },
                None => match default_entry(self.entries_seq()) {
                    Some(e) => r == Ok::<&PoolEntry<P>, DbError>(&e),
                    None => r == Err::<&PoolEntry<P>, DbError>(DbError::NoBackendsConfigured),
                },
            },
    {
        match name {
            Some(n) => self.resolve(n),
            None => self.resolve_default(),
        }
    }

    /// Replaces the metadata of the entry named `name`; pools and order are kept.
    pub fn update_payload(&mut self, name: &str, updated_at: i64, state: &str, descriptor: &str) -> (r:
        Result<(), DbError>)
        requires
            old(self).wf(),
        ensures
            final(self).wf(),
            r is Ok <==> has_name(old(self).entries_seq(), name@),
            r is Err ==> r == Err::<(), DbError>(DbError::NotInitialized),
            final(self).entries_seq().len() == old(self).entries_seq().len(),
            final(self).soft_delete() == old(self).soft_delete(),
            forall|i: int|
                0 <= i < old(self).entries_seq().len() ==> {
                    let a = #[trigger] old(self).entries_seq()[i];
                    let b = final(self).entries_seq()[i];
                    &&& b.name == a.name
                    &&& b.write_pool == a.write_pool
                    &&& b.read_pool == a.read_pool
                    &&& if a.name@ == name@ {
                        b.updated_at == updated_at && b.state@ == state@ && b.descriptor@
                            == descriptor@
                    } else {
                        b == a
                    }
                },
    {
        match self.find(name) {
            None => Err(DbError::NotInitialized),
            Some(i) => {
                let ghost old_entries = self.entries@;
                let mut e = self.entries.remove(i);
                e.updated_at = updated_at;
                e.state = state.to_owned();
                e.descriptor = descriptor.to_owned();
                self.entries.insert(i, e);
                assert(forall|k: int|
                    0 <= k < old_entries.len() && k != i ==> #[trigger] self.entries@[k]
                        == old_entries[k]);
                assert(forall|k: int|
                    0 <= k < old_entries.len() && k != i ==> (#[trigger] old_entries[k]).name@
                        != name@);
                Ok(())
            },
        }
    }

    /// Whether statements hide soft-deleted rows when the caller does not say.
    pub fn soft_delete_default(&self) -> (r: bool)
        ensures
            r == self.soft_delete(),
    {
        self.soft_delete_default
    }

    pub fn set_soft_delete_default(&mut self, val: bool)
        requires
            old(self).wf(),
        ensures
            final(self).wf(),
            final(self).soft_delete() == val,
            final(self).entries_seq() == old(self).entries_seq(),
    {
        self.soft_delete_default = val;
    }
}

/// Registering never moves the default: once a backend is registered, later
/// registrations leave the first entry in place.
pub proof fn register_keeps_default<P>(
    before: Seq<PoolEntry<P>>,
    after: Seq<PoolEntry<P>>,
    name: Seq<char>,
)
    requires
        before.len() > 0,
        register_outcome(before, after, name),
    ensures
        default_entry(after) == default_entry(before),
{
    if !has_name(before, name) {
        assert(after[0] == after.subrange(0, before.len() as int)[0]);
    }
}

/// After registering `a` and then `b` on an empty registry, the default backend
/// is the entry named `a`.
pub proof fn first_registered_is_default<P>(
    empty: Seq<PoolEntry<P>>,
    after_a: Seq<PoolEntry<P>>,
    after_b: Seq<PoolEntry<P>>,
    a: Seq<char>,
    b: Seq<char>,
)
    requires
        empty.len() == 0,
        register_outcome(empty, after_a, a),
        register_outcome(after_a, after_b, b),
    ensures
        default_entry(after_b) matches Some(e) && e.name@ == a,
        default_entry(after_b) == default_entry(after_a),
{
    assert(!has_name(empty, a));
    register_keeps_default(after_a, after_b, b);
}

/// Whether a backend named `key` is registered.
pub fn is_db_exists<P>(reg: &Registry<P>, key: &str) -> (r: bool)
    ensures
        r == has_name(reg.entries_seq(), key@),
{
    reg.find(key).is_some()
}

/// The `updated_at` of the backend named `key`, or 0 when there is none.
pub fn get_db_updated_at<P>(reg: &Registry<P>, key: &str) -> (r: i64)
    ensures
        has_name(reg.entries_seq(), key@) ==> exists|i: int|
            0 <= i < reg.entries_seq().len() && (#[trigger] reg.entries_seq()[i]).name@ == key@
                && r == reg.entries_seq()[i].updated_at,
        !has_name(reg.entries_seq(), key@) ==> r == 0,
{
    match reg.resolve(key) {
        Ok(e) => e.updated_at,
        Err(_) => 0,
    }
}

/// The lifecycle state tag of the backend named `key`, or empty when there is none.
pub fn get_db_state<P>(reg: &Registry<P>, key: &str) -> (r: String)
    ensures
        has_name(reg.entries_seq(), key@) ==> exists|i: int|
            0 <= i < reg.entries_seq().len() && (#[trigger] reg.entries_seq()[i]).name@ == key@
                && r@ == reg.entries_seq()[i].state@,
        !has_name(reg.entries_seq(), key@) ==> r@.len() == 0,
{
    match reg.resolve(key) {
        Ok(e) => e.state.clone(),
        Err(_) => String::new(),
    }
}

/// The connection descriptor of the backend named `key`, or empty when there is none.
pub fn get_db_conn_str<P>(reg: &Registry<P>, key: &str) -> (r: String)
    ensures
        has_name(reg.entries_seq(), key@) ==> exists|i: int|
            0 <= i < reg.entries_seq().len() && (#[trigger] reg.entries_seq()[i]).name@ == key@
                && r@ == reg.entries_seq()[i].descriptor@,
        !has_name(reg.entries_seq(), key@) ==> r@.len() == 0,
{
    match reg.resolve(key) {
        Ok(e) => e.descriptor.clone(),
        Err(_) => String::new(),
    }
}

/// Replaces the metadata of the backend named `key`.
pub fn set_db_payload<P>(
    reg: &mut Registry<P>,
    key: &str,
    updated_at: i64,
    state: &str,
    conn_str: &str,
) -> (r: Result<(), DbError>)
    requires
        old(reg).wf(),
    ensures
        final(reg).wf(),
        r is Ok <==> has_name(old(reg).entries_seq(), key@),
        r is Err ==> r == Err::<(), DbError>(DbError::NotInitialized),
        final(reg).entries_seq().len() == old(reg).entries_seq().len(),
        forall|i: int|
            0 <= i < old(reg).entries_seq().len() ==> {
                let a = #[trigger] old(reg).entries_seq()[i];
                let b = final(reg).entries_seq()[i];
                &&& b.name == a.name
                &&& b.write_pool == a.write_pool
                &&& b.read_pool == a.read_pool
                &&& if a.name@ == key@ {
                    b.updated_at == updated_at && b.state@ == state@ && b.descriptor@ == conn_str@
                } else {
                    b == a
                }
            },
{
    reg.update_payload(key, updated_at, state, conn_str)
}

/// Sets whether statements hide soft-deleted rows when the caller does not say.
pub fn set_db_with_deleted_at<P>(reg: &mut Registry<P>, val: bool)
    requires
        old(reg).wf(),
    ensures
        final(reg).wf(),
        final(reg).soft_delete() == val,
        final(reg).entries_seq() == old(reg).entries_seq(),
{
    reg.set_soft_delete_default(val)
}

/// Whether statements hide soft-deleted rows when the caller does not say.
pub fn get_db_with_deleted_at<P>(reg: &Registry<P>) -> (r: bool)
    ensures
        r == reg.soft_delete(),
{
    reg.soft_delete_default()
}

/// Whether the default backend has a distinct read pool.
pub fn db_is_read_real<P>(reg: &Registry<P>) -> (r: Result<bool, DbError>)
    ensures
        match default_entry(reg.entries_seq()) {
            Some(e) => r == Ok::<bool, DbError>(e.read_pool is Some),
            None => r == Err::<bool, DbError>(DbError::NoBackendsConfigured),
        },
{
    match reg.resolve_default() {
        Ok(e) => Ok(e.has_real_read_replica()),
        Err(e) => Err(e),
    }
}

/// Whether the backend named `key` has a distinct read pool.
pub fn db_is_read_real_on<P>(reg: &Registry<P>, key: &str) -> (r: Result<bool, DbError>)
    ensures
        r is Err <==> !has_name(reg.entries_seq(), key@),
        r is Err ==> r == Err::<bool, DbError>(DbError::NotInitialized),
        r matches Ok(b) ==> exists|i: int|
            0 <= i < reg.entries_seq().len() && (#[trigger] reg.entries_seq()[i]).name@ == key@
                && b == reg.entries_seq()[i].read_pool is Some,
{
    match reg.resolve(key) {
        Ok(e) => {
            let b = e.has_real_read_replica();
            proof {
                let i = choose|i: int|
                    0 <= i < reg.entries_seq().len() && reg.entries_seq()[i] == *e;
                assert(reg.entries_seq()[i].name@ == key@);
            }
            Ok(b)
        },
        Err(e) => Err(e),
    }
}

} // verus!
