//! The ways in which an operation on the registry can fail.

use vstd::prelude::*;

verus! {

/// Why an operation was refused. Every failure is all-or-nothing: the
/// operation that reports it has left the slot exactly as it found it.
#[derive(Clone, Copy, Debug, PartialEq, Eq)]
pub enum ContractError {
    /// `init` met a storage slot that already holds something.
    StateAlreadyExists,
    /// The registry was used before `init` created its record.
    StateNotFound,
    /// The bytes in the storage slot do not decode to a registry record.
    SerializationError,
}

} // verus!
