//! The error taxonomy of the store.

use vstd::prelude::*;

verus! {

/// Every failure of the library, tagged by the layer it arose in.  Each
/// variant carries a single human-readable message, surfaced to the caller
/// verbatim; no structured error code is exposed.
#[derive(Debug)]
pub enum StoreError {
    /// The data directory could not be determined or created.
    Io(String),
    /// The table-creation statement could not be executed.
    Schema(String),
    /// The database file could not be opened.
    Connection(String),
    /// A read failed (malformed statement or column-type mismatch).
    Query(String),
    /// A write violated a constraint that the upsert's merge clause
    /// does not cover.
    Constraint(String),
}

impl StoreError {
    /// The message carried by the error, whichever variant it is.
    pub closed spec fn text(&self) -> Seq<char> {
        match *self {
            StoreError::Io(ref m) => m@,
            StoreError::Schema(ref m) => m@,
            StoreError::Connection(ref m) => m@,
            StoreError::Query(ref m) => m@,
            StoreError::Constraint(ref m) => m@,
        }
    }

    /// The human-readable message, to be shown to the user as-is.
    pub fn message(&self) -> (r: &str)
        ensures
            r@ == self.text(),
    {
        match self {
            StoreError::Io(m) => m.as_str(),
            StoreError::Schema(m) => m.as_str(),
            StoreError::Connection(m) => m.as_str(),
            StoreError::Query(m) => m.as_str(),
            StoreError::Constraint(m) => m.as_str(),
        }
    }
}

} // verus!
