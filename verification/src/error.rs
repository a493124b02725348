//! The failures an operation can report.

use vstd::prelude::*;

verus! {

/// Why an operation failed.
#[derive(Clone, Copy, Debug, PartialEq, Eq, Structural)]
pub enum ErrorKind {
    /// The input was malformed: a bad identifier, status, date or field name.
    Validation,
    /// The identifier is well formed but names no stored row.
    NotFound,
    /// The store could not carry out the request.
    Internal,
}

impl ErrorKind {
    /// The HTTP status that reports a failure of this kind.
    pub open spec fn status(self) -> u16 {
        match self {
            ErrorKind::Validation => 400,
            ErrorKind::NotFound => 404,
            ErrorKind::Internal => 500,
        }
    }

    /// The HTTP status that reports a failure of this kind: 400 for a
    /// malformed input, 404 for a row that is not stored, 500 for a fault of
    /// the store.
    pub fn status_code(&self) -> (code: u16)
        ensures
            code == self.status(),
    {
        match self {
            ErrorKind::Validation => 400,
            ErrorKind::NotFound => 404,
            ErrorKind::Internal => 500,
        }
    }
}

/// A failure, with a message meant for a human reader.
#[derive(Debug, PartialEq, Eq)]
pub struct Error {
    pub kind: ErrorKind,
    pub message: String,
}

/// What an [`Error`] holds, as mathematical values.
pub struct ErrorView {
    pub kind: ErrorKind,
    pub message: Seq<char>,
}

impl View for Error {
    type V = ErrorView;

    open spec fn view(&self) -> ErrorView {
        ErrorView { kind: self.kind, message: self.message@ }
    }
}

impl Clone for Error {
    fn clone(&self) -> (e: Self)
        ensures
            e@ == self@,
    {
        Error { kind: self.kind, message: self.message.clone() }
    }
}

impl Error {
    /// A validation failure with the given message.
    pub fn validation(message: String) -> (e: Error)
        ensures
            e@ == (ErrorView { kind: ErrorKind::Validation, message: message@ }),
    {
        Error { kind: ErrorKind::Validation, message }
    }

    /// A not-found failure with the given message.
    pub fn not_found(message: String) -> (e: Error)
        ensures
            e@ == (ErrorView { kind: ErrorKind::NotFound, message: message@ }),
    {
        Error { kind: ErrorKind::NotFound, message }
    }

    /// The message, as an owned string.
    pub fn to_string(&self) -> (s: String)
        ensures
            s@ == self@.message,
    {
        self.message.clone()
    }
}

/// A generic failure that carries `msg` as its details.
pub fn error_response(msg: String) -> (e: Error)
    ensures
        e@ == (ErrorView { kind: ErrorKind::Internal, message: msg@ }),
{
    Error { kind: ErrorKind::Internal, message: msg }
}

} // verus!
