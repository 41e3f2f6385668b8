//! The runtime error type that generated accessors return, and the
//! classification of a database driver's error message into it.  A
//! unique-constraint violation is detected specifically, carrying the
//! offending column names, since callers branch on it.

use vstd::prelude::*;
use crate::strings::lemma_split_char_len;
use crate::strings::spec_split_char;
use crate::strings::spec_starts_with;
use crate::strings::spec_trim;
use crate::strings::split_char;
use crate::strings::starts_with;
use crate::strings::trim;

verus! {

broadcast use crate::viewlib::group_deep_view;

/// A runtime failure of a generated accessor.  Every variant is returned as
/// a value; none is raised.
#[derive(Debug, PartialEq, Eq)]
pub enum Error {
    /// The shared connection was closed before the call.
    DatabaseConnectionClosed,
    /// The connection was already closed when closing it was asked.
    DatabaseClose,
    /// Any other driver error, with its message.
    Database(String),
    /// A UNIQUE constraint rejected the statement; the payload holds the
    /// offending column names as the driver reported them.
    UniqueConstraintFailed(String),
    /// An input or output failure outside the database itself.
    Io(String),
    /// Zero rows came back where the statement's shape promised one.
    NotFound,
    /// A failure with no better classification.
    InternalServer,
    /// A malformed multipart request body.
    Multipart(String),
}

/// The spec-level value of an [`Error`].
pub enum ErrorV {
    DatabaseConnectionClosed,
    DatabaseClose,
    Database(Seq<char>),
    UniqueConstraintFailed(Seq<char>),
    Io(Seq<char>),
    NotFound,
    InternalServer,
    Multipart(Seq<char>),
}

impl Clone for Error {
    fn clone(&self) -> (r: Self)
        ensures
            r.deep_view() == self.deep_view(),
    {
        match self {
            Error::DatabaseConnectionClosed => Error::DatabaseConnectionClosed,
            Error::DatabaseClose => Error::DatabaseClose,
            Error::Database(m) => Error::Database(m.clone()),
            Error::UniqueConstraintFailed(m) => Error::UniqueConstraintFailed(m.clone()),
            Error::Io(m) => Error::Io(m.clone()),
            Error::NotFound => Error::NotFound,
            Error::InternalServer => Error::InternalServer,
            Error::Multipart(m) => Error::Multipart(m.clone()),
        }
    }
}

impl DeepView for Error {
    type V = ErrorV;

    open spec fn deep_view(&self) -> ErrorV {
        match self {
            Error::DatabaseConnectionClosed => ErrorV::DatabaseConnectionClosed,
            Error::DatabaseClose => ErrorV::DatabaseClose,
            Error::Database(m) => ErrorV::Database(m@),
            Error::UniqueConstraintFailed(m) => ErrorV::UniqueConstraintFailed(m@),
            Error::Io(m) => ErrorV::Io(m@),
            Error::NotFound => ErrorV::NotFound,
            Error::InternalServer => ErrorV::InternalServer,
            Error::Multipart(m) => ErrorV::Multipart(m@),
        }
    }
}

/// The HTTP status an error is reported with: not-found is 404, a malformed
/// multipart body 422, everything else 500.
pub open spec fn spec_error_status(e: ErrorV) -> u16 {
    match e {
        ErrorV::NotFound => 404,
        ErrorV::Multipart(_) => 422,
        _ => 500,
    }
}

/// The response body an error is reported with.
pub open spec fn spec_error_body(e: ErrorV) -> Seq<char> {
    match e {
        ErrorV::DatabaseConnectionClosed => "db connection closed"@,
        ErrorV::DatabaseClose => "db closed"@,
        ErrorV::Database(m) => m,
        ErrorV::UniqueConstraintFailed(columns) => columns,
        ErrorV::Io(m) => m,
        ErrorV::NotFound => "not found"@,
        ErrorV::InternalServer => "internal server error"@,
        ErrorV::Multipart(_) => "Unprocessable entity from multipart form request"@,
    }
}

/// The descriptive message of an error, as a log line would carry it.
pub open spec fn spec_error_message(e: ErrorV) -> Seq<char> {
    match e {
        ErrorV::DatabaseConnectionClosed => "Error: Database connection closed"@,
        ErrorV::DatabaseClose => "Error: Database was already closed"@,
        ErrorV::Database(m) => "Error: Generic database error "@ + m,
        ErrorV::UniqueConstraintFailed(columns) => "Error: Unique constraint failed "@ + columns,
        ErrorV::Io(m) => "Error: Io error "@ + m,
        ErrorV::NotFound => "Error: Not found"@,
        ErrorV::InternalServer => "Error: Internal server error"@,
        ErrorV::Multipart(m) => "Error: "@ + m,
    }
}

impl Error {
    /// The HTTP status this error is reported with.
    pub fn status(&self) -> (r: u16)
        ensures
            r == spec_error_status(self.deep_view()),
    {
        match self {
            Error::NotFound => 404,
            Error::Multipart(_) => 422,
            _ => 500,
        }
    }

    /// The response body this error is reported with.
    pub fn body(&self) -> (r: String)
        ensures
            r@ == spec_error_body(self.deep_view()),
    {
        match self {
            Error::DatabaseConnectionClosed => "db connection closed".to_owned(),
            Error::DatabaseClose => "db closed".to_owned(),
            Error::Database(m) => m.clone(),
            Error::UniqueConstraintFailed(columns) => columns.clone(),
            Error::Io(m) => m.clone(),
            Error::NotFound => "not found".to_owned(),
            Error::InternalServer => "internal server error".to_owned(),
            Error::Multipart(_) => "Unprocessable entity from multipart form request".to_owned(),
        }
    }

    /// The descriptive message of this error.
    pub fn message(&self) -> (r: String)
        ensures
            r@ == spec_error_message(self.deep_view()),
    {
        match self {
            Error::DatabaseConnectionClosed => "Error: Database connection closed".to_owned(),
            Error::DatabaseClose => "Error: Database was already closed".to_owned(),
            Error::Database(m) => {
                let mut r = "Error: Generic database error ".to_owned();
                r.append(m.as_str());
                r
            },
            Error::UniqueConstraintFailed(columns) => {
                let mut r = "Error: Unique constraint failed ".to_owned();
                r.append(columns.as_str());
                r
            },
            Error::Io(m) => {
                let mut r = "Error: Io error ".to_owned();
                r.append(m.as_str());
                r
            },
            Error::NotFound => "Error: Not found".to_owned(),
            Error::InternalServer => "Error: Internal server error".to_owned(),
            Error::Multipart(m) => {
                let mut r = "Error: ".to_owned();
                r.append(m.as_str());
                r
            },
        }
    }
}

/// The classification of a database driver failure: a no-rows outcome is
/// `NotFound`; a message opening with the driver's unique-constraint prefix
/// becomes `UniqueConstraintFailed` carrying the text after the last colon,
/// trimmed — the offending column names; anything else stays a plain
/// `Database` error with its message.
pub open spec fn spec_classify_database_error(message: Seq<char>, no_rows: bool) -> ErrorV {
    if no_rows {
        ErrorV::NotFound
    } else if spec_starts_with(message, "UNIQUE constraint failed: "@) {
        let parts = spec_split_char(message, ':');
        ErrorV::UniqueConstraintFailed(spec_trim(parts[parts.len() - 1]))
    } else {
        ErrorV::Database(message)
    }
}

/// Classifies a database driver failure from its message text and whether
/// the driver reported a query that returned no rows.
pub fn classify_database_error(message: &str, no_rows: bool) -> (r: Error)
    ensures
        r.deep_view() == spec_classify_database_error(message@, no_rows),
{
    if no_rows {
        return Error::NotFound;
    }
    if starts_with(message, "UNIQUE constraint failed: ") {
        let parts = split_char(message, ':');
        proof {
            lemma_split_char_len(message@, ':');
        }
        let last = &parts[parts.len() - 1];
        Error::UniqueConstraintFailed(trim(last.as_str()))
    } else {
        Error::Database(message.to_owned())
    }
}

} // verus!
