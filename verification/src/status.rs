//! The status of a task and its text form.

use crate::error::{Error, ErrorKind, ErrorView};
use crate::text::{joined, same_text};
use vstd::prelude::*;

verus! {

/// How far a task has come.
#[derive(Clone, Copy, Debug, PartialEq, Eq, Structural)]
pub enum Status {
    Todo,
    InProgress,
    Complete,
}

/// The failure reported for a text that names no status.
pub open spec fn invalid_status(s: Seq<char>) -> ErrorView {
    ErrorView { kind: ErrorKind::Validation, message: "Invalid task status "@ + s }
}

impl Status {
    /// The text form of a status.
    pub open spec fn text(self) -> Seq<char> {
        match self {
            Status::Todo => "todo"@,
            Status::InProgress => "in_progress"@,
            Status::Complete => "complete"@,
        }
    }

    /// The status that a text names, if any: the inverse of [`Status::text`].
    pub open spec fn named_by(s: Seq<char>) -> Option<Status> {
        if s == "todo"@ {
            Some(Status::Todo)
        } else if s == "in_progress"@ {
            Some(Status::InProgress)
        } else if s == "complete"@ {
            Some(Status::Complete)
        } else {
            None
        }
    }

    /// The text form: `todo`, `in_progress` or `complete`.
    pub fn to_string(&self) -> (s: String)
        ensures
            s@ == self.text(),
    {
        match self {
            Status::Todo => String::from_str("todo"),
            Status::InProgress => String::from_str("in_progress"),
            Status::Complete => String::from_str("complete"),
        }
    }

    /// Reads a status from its text form. Any other text is a validation
    /// failure that quotes the text.
    pub fn parse(s: &str) -> (r: Result<Status, Error>)
        ensures
            match Status::named_by(s@) {
                Some(status) => r == Ok::<Status, Error>(status),
                None => r is Err && r->Err_0@ == invalid_status(s@),
            },
    {
        if same_text(s, "todo") {
            Ok(Status::Todo)
        } else if same_text(s, "in_progress") {
            Ok(Status::InProgress)
        } else if same_text(s, "complete") {
            Ok(Status::Complete)
        } else {
            Err(Error::validation(joined("Invalid task status ", s)))
        }
    }
}

/// The three text forms differ, so reading back what was written gives the
/// status that was written.
pub proof fn law_status_text_round_trips(status: Status)
    ensures
        Status::named_by(status.text()) == Some(status),
{
    reveal_strlit("todo");
    reveal_strlit("in_progress");
    reveal_strlit("complete");
    assert("todo"@.len() == 4);
    assert("in_progress"@.len() == 11);
    assert("complete"@.len() == 8);
}

/// A text names at most the status whose text form it is.
pub proof fn law_status_named_by_its_text(s: Seq<char>, status: Status)
    requires
        Status::named_by(s) == Some(status),
    ensures
        s == status.text(),
{
}

} // verus!
