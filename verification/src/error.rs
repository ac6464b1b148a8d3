//! The error kinds of an export run and the text each is reported with.

use vstd::prelude::*;
use vstd::string::*;

verus! {

/// Why an export run stopped.
///
/// Each variant carries the detail text of its cause: the description of a
/// database failure, the description of a file failure, or the complaint about
/// an argument.
#[derive(Clone, Debug, PartialEq, Eq)]
pub enum AppError {
    /// The database could not be opened or queried.
    Table(String),
    /// The output file could not be created or written.
    Io(String),
    /// A command-line argument was malformed.
    Args(String),
}

impl AppError {
    /// The detail text that the error carries.
    pub open spec fn detail(self) -> Seq<char> {
        match self {
            AppError::Table(e) => e@,
            AppError::Io(e) => e@,
            AppError::Args(e) => e@,
        }
    }

    /// The heading under which each kind of error is reported.
    pub open spec fn heading(self) -> Seq<char> {
        match self {
            AppError::Table(_) => "Database error: "@,
            AppError::Io(_) => "IO error: "@,
            AppError::Args(_) => "Argument error: "@,
        }
    }

    /// The full report line: the heading of the kind, then the detail.
    pub open spec fn spec_message(self) -> Seq<char> {
        self.heading() + self.detail()
    }

    /// Renders the error as the line shown to the user.
    pub fn message(&self) -> (text: String)
        ensures
            text@ == self.spec_message(),
    {
        match self {
            AppError::Table(e) => String::from_str("Database error: ").concat(e.as_str()),
            AppError::Io(e) => String::from_str("IO error: ").concat(e.as_str()),
            AppError::Args(e) => String::from_str("Argument error: ").concat(e.as_str()),
        }
    }
}

} // verus!
