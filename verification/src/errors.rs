//! The error taxonomy of the library.
//!
//! Read-path operations never surface these: a failed load degrades to the
//! default value. Write-path operations (`set`, `save`, `remove`) return them
//! so that callers can retry or report.

use vstd::prelude::*;

verus! {

/// Everything that can go wrong when a cell talks to its backing store or its
/// codec.
#[derive(Clone, Copy, Debug, PartialEq, Eq, Structural)]
pub enum StorageError {
    /// The backing store cannot be reached at all.
    StoreUnavailable,
    /// The value could not be turned into the store's string representation.
    EncodeFailure,
    /// The stored string could not be turned back into a value.
    DecodeFailure,
    /// The store rejected a write, for instance because its quota is spent.
    StoreWriteFailure,
    /// The store rejected a removal.
    StoreRemoveFailure,
}

impl StorageError {
    /// A short human-readable account of the error.
    pub fn describe(&self) -> (r: &'static str)
        ensures
            r@.len() > 0,
    {
        proof {
            reveal_strlit("the backing store cannot be reached");
            reveal_strlit("the value could not be encoded");
            reveal_strlit("the stored string could not be decoded");
            reveal_strlit("the store rejected the write");
            reveal_strlit("the store rejected the removal");
        }
        match self {
            StorageError::StoreUnavailable => "the backing store cannot be reached",
            StorageError::EncodeFailure => "the value could not be encoded",
            StorageError::DecodeFailure => "the stored string could not be decoded",
            StorageError::StoreWriteFailure => "the store rejected the write",
            StorageError::StoreRemoveFailure => "the store rejected the removal",
        }
    }
}

} // verus!
