//! The error taxonomy shared by every mutating operation of the ledger.
//!
//! Every operation validates all of its preconditions before any write; on a
//! failure the operation returns one of these kinds and leaves the ledger
//! unchanged.

use vstd::prelude::*;

verus! {

/// The kind of failure a ledger operation reports.
#[derive(Clone, Copy, Debug, PartialEq, Eq, Structural)]
pub enum LedgerError {
    /// The acting identity does not hold the role the operation demands.
    Authorization,
    /// A referenced record id is absent from its collection.
    NotFound,
    /// A caller-supplied record id collides with an existing record.
    DuplicateId,
    /// A purchase asks for more units than the medicine has in stock.
    InsufficientStock,
    /// An appointment is not in the state the transition expects.
    InvalidStateTransition,
    /// A malformed argument: a non-positive quantity, an out-of-range field,
    /// or an empty recipient.
    InvalidArgument,
}

impl LedgerError {
    /// A human-readable reason for the failure.
    pub fn message(&self) -> (r: String)
        ensures
            *self is Authorization ==> r@ == "the caller lacks the required role"@,
            *self is NotFound ==> r@ == "no record exists under the given id"@,
            *self is DuplicateId ==> r@ == "a record already exists under the given id"@,
            *self is InsufficientStock ==> r@ == "the purchase exceeds the available stock"@,
            *self is InvalidStateTransition ==> r@ == "the record is not in the expected state"@,
            *self is InvalidArgument ==> r@ == "an argument is malformed"@,
    {
        match self {
            LedgerError::Authorization => "the caller lacks the required role".to_owned(),
            LedgerError::NotFound => "no record exists under the given id".to_owned(),
            LedgerError::DuplicateId => "a record already exists under the given id".to_owned(),
            LedgerError::InsufficientStock => "the purchase exceeds the available stock".to_owned(),
            LedgerError::InvalidStateTransition => "the record is not in the expected state".to_owned(),
            LedgerError::InvalidArgument => "an argument is malformed".to_owned(),
        }
    }
}

} // verus!
