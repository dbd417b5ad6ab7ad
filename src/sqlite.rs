//! What this crate relies on from `rusqlite`.
use vstd::prelude::*;
use rusqlite::Error as SqliteError;

verus! {

/// `rusqlite::Connection`, carried through as an opaque value.
#[verifier::external_type_specification]
#[verifier::external_body]
pub struct ExConnection(rusqlite::Connection);

/// `rusqlite::Error`, carried through as an opaque value.
#[verifier::external_type_specification]
#[verifier::external_body]
pub struct ExSqliteError(SqliteError);

/// Relies on `rusqlite::Connection::close`: it either closes the connection,
/// or hands the same connection back together with SQLite's error.
#[verifier::external_body]
pub(crate) fn close_connection(c: rusqlite::Connection) -> (r: Result<(), (rusqlite::Connection, rusqlite::Error)>)
    ensures
        r matches Err((back, _)) ==> back == c,
{
    c.close()
}

/// The error value that `rusqlite` builds for an SQLite result code, with no
/// message attached.
pub uninterp spec fn failure_of_code(code: i32) -> SqliteError;

/// Relies on `rusqlite::ffi::Error::new`, which derives the error's category
/// from the code alone, and on `rusqlite::Error::SqliteFailure` to wrap it.
#[verifier::external_body]
pub(crate) fn failure_from_code(code: i32) -> (r: SqliteError)
    ensures
        r == failure_of_code(code),
{
    SqliteError::SqliteFailure(rusqlite::ffi::Error::new(code), None)
}

} // verus!
