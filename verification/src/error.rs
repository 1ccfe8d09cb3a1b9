//! The error taxonomy: storage-engine failures, directory-resolution
//! failures and input-validation failures, unified in one reportable type.

use vstd::prelude::*;

verus! {

/// What a store operation reports when it cannot return a value.
#[derive(Debug)]
pub enum Error {
    /// The backing relational engine failed: statement failures, constraint
    /// violations (duplicate tag name, missing referent), not-found reads and
    /// I/O failures all arrive here, with the engine's own error kept inside.
    Sql(rusqlite::Error),
    /// The platform data directory could not be resolved.
    Dir,
    /// Caller-supplied input failed a check made before storage was touched:
    /// an empty note title or an empty tag name.
    Validation,
}

/// Every store operation returns a value or an [`Error`].
pub type LaResult<T> = Result<T, Error>;

impl Error {
    /// A short human-readable description of the error kind, for the layer
    /// that reports failures to a user.
    pub fn message(&self) -> (r: &'static str)
        ensures
            (self is Sql) ==> r@ == "storage engine failure"@,
            (self is Dir) ==> r@ == "failed fetching an OS directory"@,
            (self is Validation) ==> r@ == "empty input was rejected"@,
    {
        match self {
            Error::Sql(_) => "storage engine failure",
            Error::Dir => "failed fetching an OS directory",
            Error::Validation => "empty input was rejected",
        }
    }
}

} // verus!
