//! The errors that closing and calling report.
use vstd::prelude::*;
use vstd::string::{to_string_from_display_ensures, StringExecFns};
use rusqlite::Error as SqliteError;
use crate::sqlite::{failure_from_code, failure_of_code};

verus! {

/// Reported when an operation reaches a connection that has already been
/// closed. Callers turn it into their own error type through `From`.
#[derive(Clone, Copy, PartialEq, Eq, Debug, Structural)]
pub struct AlreadyClosed;

/// The SQLite result code that stands for a closed connection when
/// `AlreadyClosed` has to be reported as a `rusqlite` error: SQLite has no
/// code for exactly this, and "cannot open" comes closest.
pub const CLOSED_RESULT_CODE: i32 = 14;

impl From<AlreadyClosed> for SqliteError {
    fn from(value: AlreadyClosed) -> (r: SqliteError)
        ensures
            r == failure_of_code(CLOSED_RESULT_CODE),
    {
        failure_from_code(CLOSED_RESULT_CODE)
    }
}

impl vstd::std_specs::convert::FromSpecImpl<AlreadyClosed> for SqliteError {
    open spec fn obeys_from_spec() -> bool {
        true
    }

    open spec fn from_spec(v: AlreadyClosed) -> SqliteError {
        failure_of_code(CLOSED_RESULT_CODE)
    }
}

/// An error from closing the connection.
#[derive(Debug, PartialEq)]
#[non_exhaustive]
pub enum Error {
    /// The connection has already been closed.
    AlreadyClosed,
    /// SQLite refused to close the connection; it stays open.
    Rusqlite(SqliteError),
}

/// The text shown for `Error::AlreadyClosed`.
pub open spec fn already_closed_text() -> Seq<char> {
    "The connection has already been closed"@
}

/// What `Error::message` starts with for an SQLite error.
pub open spec fn sqlite_prefix() -> Seq<char> {
    "Rusqlite error: "@
}

impl Error {
    /// A message for people: a fixed text for `AlreadyClosed`, and SQLite's
    /// own message after a short prefix for an SQLite error.
    pub fn message(&self) -> (r: String)
        ensures
            *self == Error::AlreadyClosed ==> r@ == already_closed_text(),
            self matches Error::Rusqlite(e) ==> exists|t: String|
                to_string_from_display_ensures::<SqliteError>(&e, t) && r@ == sqlite_prefix() + t@,
    {
        match self {
            Error::AlreadyClosed => {
                proof {
                    reveal_strlit("The connection has already been closed");
                }
                String::from_str("The connection has already been closed")
            },
            Error::Rusqlite(e) => {
                proof {
                    reveal_strlit("Rusqlite error: ");
                }
                let t = e.to_string();
                String::from_str("Rusqlite error: ").concat(t.as_str())
            },
        }
    }

    /// The SQLite error underneath, if there is one.
    pub fn source(&self) -> (r: Option<&SqliteError>)
        ensures
            *self == Error::AlreadyClosed ==> r is None,
            self matches Error::Rusqlite(e) ==> r == Some(e),
    {
        match self {
            Error::AlreadyClosed => None,
            Error::Rusqlite(e) => Some(e),
        }
    }
}

impl From<AlreadyClosed> for Error {
    fn from(value: AlreadyClosed) -> (r: Error)
        ensures
            r == Error::AlreadyClosed,
    {
        Error::AlreadyClosed
    }
}

impl vstd::std_specs::convert::FromSpecImpl<AlreadyClosed> for Error {
    open spec fn obeys_from_spec() -> bool {
        true
    }

    open spec fn from_spec(v: AlreadyClosed) -> Error {
        Error::AlreadyClosed
    }
}

impl From<SqliteError> for Error {
    fn from(value: SqliteError) -> (r: Error)
        ensures
            r == Error::Rusqlite(value),
    {
        Error::Rusqlite(value)
    }
}

impl vstd::std_specs::convert::FromSpecImpl<SqliteError> for Error {
    open spec fn obeys_from_spec() -> bool {
        true
    }

    open spec fn from_spec(v: SqliteError) -> Error {
        Error::Rusqlite(v)
    }
}

} // verus!
