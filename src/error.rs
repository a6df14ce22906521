use r2d2::Error as PoolError;
use rusqlite::Error as SqliteError;
use vstd::prelude::*;

verus! {

/// Declares the storage engine's error type, which the library carries along.
#[verifier::external_type_specification]
#[verifier::external_body]
pub struct ExStorageError(SqliteError);

/// Declares the pool's error type, which the library carries along.
#[verifier::external_type_specification]
#[verifier::external_body]
pub struct ExPoolError(PoolError);

/// Everything that can go wrong in the library.
#[derive(Debug)]
pub enum Error {
    /// A lookup that had to find a row found none: the kind of entity and the key.
    EntityNotFound(String, String),
    /// A directory or file could not be read.
    IOError(String),
    /// The pool could not be set up.
    ConfigurationError(String),
    /// No connection could be taken from the pool in time.
    ConnectionError(PoolError),
    /// The storage engine refused a statement.
    StorageEngineError(SqliteError),
    /// A patch carries a status that is none of the known ones.
    InvalidStatus(String),
}

} // verus!
