//! The failures that the core itself reports.

use vstd::prelude::*;
use vstd::string::*;

verus! {

/// What went wrong.
#[derive(Debug, Clone, Copy, PartialEq, Eq, Structural)]
pub enum ErrorKind {
    /// The stored table state is malformed or inconsistent.
    IcebergDataInvalid,
    /// The storage backend, or something else outside the table's data,
    /// did not behave as the protocol needs.
    Unexpected,
}

/// A failure, with its kind and a message for people.
#[derive(Debug, Clone)]
pub struct TableError {
    pub kind: ErrorKind,
    pub message: String,
}

impl TableError {
    /// A failure of the given kind.
    pub fn new(kind: ErrorKind, message: &str) -> (e: TableError)
        ensures
            e.kind == kind,
            e.message@ == message@,
    {
        TableError { kind, message: String::from_str(message) }
    }

    /// A failure whose message is `message`, a colon and a space, and `cause`.
    pub fn with_cause(kind: ErrorKind, message: &str, cause: &str) -> (e: TableError)
        ensures
            e.kind == kind,
            e.message@ == message@ + ": "@ + cause@,
    {
        let mut text = String::from_str(message);
        text.append(": ");
        text.append(cause);
        TableError { kind, message: text }
    }

    /// The kind of this failure.
    pub fn kind(&self) -> (k: ErrorKind)
        ensures
            k == self.kind,
    {
        self.kind
    }

    /// The message of this failure.
    pub fn message(&self) -> (m: &str)
        ensures
            m@ == self.message@,
    {
        self.message.as_str()
    }

    /// The failure in one line: the name of its kind, a colon and a space,
    /// and its message.
    pub fn describe(&self) -> (text: String)
        ensures
            text@ == self.kind.spec_name() + ": "@ + self.message@,
    {
        let mut text = String::from_str(self.kind.name());
        text.append(": ");
        text.append(self.message.as_str());
        text
    }
}

impl ErrorKind {
    /// The name of the kind.
    pub open spec fn spec_name(self) -> Seq<char> {
        match self {
            ErrorKind::IcebergDataInvalid => "IcebergDataInvalid"@,
            ErrorKind::Unexpected => "Unexpected"@,
        }
    }

    /// The name of the kind.
    pub fn name(&self) -> (name: &'static str)
        ensures
            name@ == self.spec_name(),
    {
        match self {
            ErrorKind::IcebergDataInvalid => "IcebergDataInvalid",
            ErrorKind::Unexpected => "Unexpected",
        }
    }
}

/// `r` is a failure of the given kind with the given message.
pub open spec fn fails_with<T>(
    r: Result<T, TableError>,
    kind: ErrorKind,
    message: Seq<char>,
) -> bool {
    r matches Err(e) && e.kind == kind && e.message@ == message
}

/// `r` is a failure of the given kind.
pub open spec fn fails_as<T>(r: Result<T, TableError>, kind: ErrorKind) -> bool {
    r matches Err(e) && e.kind == kind
}

} // verus!
