//! The failures an operation on the store can report.

use vstd::prelude::*;

verus! {

/// Why an operation on the store failed.
#[derive(Clone, Copy, Debug, PartialEq, Eq, Structural)]
pub enum StoreError {
    /// The settings row that was asked for does not exist.
    NotFound,
    /// The store refused the statement, for instance because a primary key
    /// would occur twice.
    StorageError,
    /// A currency row carries a symbol that does not encode a currency pair.
    MalformedEncoding,
}

impl StoreError {
    /// A short description of the failure, for messages and logs.
    pub fn message(&self) -> (text: &'static str)
        ensures
            text@ == match *self {
                StoreError::NotFound => "settings row not found"@,
                StoreError::StorageError => "storage error"@,
                StoreError::MalformedEncoding => "malformed currency symbol"@,
            },
    {
        match self {
            StoreError::NotFound => "settings row not found",
            StoreError::StorageError => "storage error",
            StoreError::MalformedEncoding => "malformed currency symbol",
        }
    }
}

} // verus!
