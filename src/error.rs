//! The errors that the data-access layer hands back to its callers.
use vstd::prelude::*;

verus! {

#[derive(Debug, PartialEq, Eq)]
pub enum DbError {
    /// A named backend was asked for but never registered.
    NotInitialized,
    /// The default backend was asked for while no backend is registered.
    NoBackendsConfigured,
    /// A backend name was registered a second time.
    DuplicateRegistration,
    /// The driver failed; the text describes the cause.
    QueryFailed(String),
    /// A statement needed exactly one row and none came back.
    RowNotFound,
    /// A statement was attempted on a transaction that is already finalized.
    TransactionFinalized,
}

} // verus!
