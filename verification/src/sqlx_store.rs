//! SQLx-backed session stores and their shared error type.

use vstd::prelude::*;

pub use self::sqlite_store::SqliteStore;
pub use self::sqlite_store::is_valid_table_name;

pub mod sqlite_store;

use crate::session::SessionError;

verus! {

/// Relies on `sqlx::Error`, the error type of SQLx query execution, carried
/// through opaquely.
#[verifier::external_type_specification]
#[verifier::external_body]
pub struct ExSqlxError(sqlx::Error);

/// An error type for SQLx stores.
#[derive(Debug)]
pub enum SqlxStoreError {
    /// A variant carrying a session data-model error, such as a stored
    /// identifier that no longer parses.
    SessionError(SessionError),
    /// A variant carrying an SQLx engine or connectivity error.
    SqlxError(sqlx::Error),
    /// A variant carrying a JSON encoding or decoding error for the session
    /// payload.
    SerdeJsonError(serde_json::Error),
}

impl SqlxStoreError {
    /// A human-readable description of the error.
    pub fn message(&self) -> (r: String)
        ensures
            self matches SqlxStoreError::SessionError(_) ==> r@
                == "session id must be a non-empty string"@,
            self matches SqlxStoreError::SqlxError(_) ==> r@ == "SQLx error"@,
            self matches SqlxStoreError::SerdeJsonError(_) ==> r@
                == "JSON serialization/deserialization error"@,
    {
        match self {
            SqlxStoreError::SessionError(e) => e.message(),
            SqlxStoreError::SqlxError(_) => "SQLx error".to_owned(),
            SqlxStoreError::SerdeJsonError(_) => {
                "JSON serialization/deserialization error".to_owned()
            },
        }
    }
}

} // verus!
