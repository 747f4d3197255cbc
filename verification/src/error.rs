use vstd::prelude::*;

verus! {

/// Why an operation of the registry was turned down.
#[derive(Clone, Copy, Debug, PartialEq, Eq, Structural)]
pub enum EscrowError {
    /// The target slot already holds a record.
    AllocationConflict,
    /// The caller could not prove the identity it acts under.
    InsufficientAuthorization,
    /// The handle does not resolve to an existing record.
    RecordNotFound,
}

} // verus!
