use vstd::prelude::*;

verus! {

/// The failures an operation can report.
///
/// Every failure aborts the operation: the stored record is unchanged on any
/// error path.
#[derive(Clone, Copy, Debug, PartialEq, Eq, Structural)]
pub enum ContractError {
    /// The acting caller is not currently one of the record's admins.
    Unauthorized,
    /// The supplied admin identity failed format validation.
    InvalidAddress,
    /// The record was asked for before instantiation ever saved one.
    NotFound,
    /// A payload could not be decoded or encoded at the call boundary.
    SerializationFailure,
}

} // verus!
