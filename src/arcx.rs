//! A shared, lockable value: clones share one cell.
use vstd::prelude::*;
use std::sync::{Arc, Mutex, MutexGuard, PoisonError};

verus! {

#[verifier::external_type_specification]
#[verifier::external_body]
#[verifier::reject_recursive_types(T)]
pub struct ExMutex<T: ?Sized>(Mutex<T>);

#[verifier::external_type_specification]
#[verifier::external_body]
#[verifier::reject_recursive_types(T)]
pub struct ExMutexGuard<'a, T: ?Sized + 'a>(MutexGuard<'a, T>);

pub assume_specification<T>[ Mutex::<T>::new ](t: T) -> Mutex<T>;

/// Relies on `Mutex::lock`: waits for the lock and hands out its guard. A lock
/// poisoned by a panicking holder is taken over as it is (`PoisonError::into_inner`).
/// It does not return if the calling thread already holds the lock.
#[verifier::external_body]
fn lock_cell<T>(m: &Mutex<T>) -> MutexGuard<'_, T> {
    m.lock().unwrap_or_else(PoisonError::into_inner)
}

/// Relies on `Mutex::lock`: replaces the value under the lock (taking over a
/// poisoned lock). It does not return if the calling thread already holds the lock.
#[verifier::external_body]
fn store_cell<T>(m: &Mutex<T>, val: T) {
    *m.lock().unwrap_or_else(PoisonError::into_inner) = val;
}

/// Relies on `Mutex::lock`: a clone of the value under the lock (taking over a
/// poisoned lock). It does not return if the calling thread already holds the lock.
#[verifier::external_body]
fn load_cell<T: Clone>(m: &Mutex<T>) -> T {
    m.lock().unwrap_or_else(PoisonError::into_inner).clone()
}

/// Relies on `Mutex::lock` and `Debug`: the debug text of the value under the lock
/// (taking over a poisoned lock). It does not return if the calling thread already
/// holds the lock.
#[verifier::external_body]
fn debug_cell<T: core::fmt::Debug>(m: &Mutex<T>) -> String {
    format!("{:?}", *m.lock().unwrap_or_else(PoisonError::into_inner))
}

/// A value behind a shared lock. Cloning shares the cell; every clone sees every `set`.
///
/// Every method takes the lock. While a guard from `lock` is alive on a thread, a
/// call of `set`, `get`, `lock` or `debug_string` on the same cell from that thread
/// never returns: drop the guard first.
#[derive(Clone)]
#[verifier::reject_recursive_types(T)]
pub struct ArcX<T> {
    inner: Arc<Mutex<T>>,
}

impl<T> ArcX<T> {
    pub fn new(val: T) -> Self {
        ArcX { inner: Arc::new(Mutex::new(val)) }
    }

    pub fn set(&self, val: T) {
        store_cell(&*self.inner, val)
    }

    pub fn get(&self) -> T where T: Clone {
        load_cell(&*self.inner)
    }

    /// Holds the lock until the guard is dropped. Do not call another method of this
    /// cell (or a clone of it) on the same thread while the guard is alive: that call
    /// waits for the guard forever.
    pub fn lock(&self) -> MutexGuard<'_, T> {
        lock_cell(&*self.inner)
    }

    /// `ArcX(` followed by the value's debug text and `)`.
    pub fn debug_string(&self) -> (r: String) where T: core::fmt::Debug
        ensures
            r@.len() >= 6,
            r@.subrange(0, 5) == "ArcX("@,
            r@.last() == ')',
    {
        let mut out = String::from_str("ArcX(");
        let inner = debug_cell(&*self.inner);
        out.append(inner.as_str());
        out.append(")");
        proof {
            reveal_strlit("ArcX(");
            reveal_strlit(")");
            assert(out@.subrange(0, 5) =~= "ArcX("@);
        }
        out
    }
}

} // verus!
