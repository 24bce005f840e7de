//! The failures of the library, by kind.
//!
//! A caller answers each kind in its own way: a parse error and a validation
//! error are the client's to mend, a missing row is reported as missing, and
//! a failure of the database is reported without its detail.

use vstd::prelude::*;

verus! {

/// The kinds of failure.
#[derive(Debug, Clone, Copy, PartialEq, Eq)]
pub enum ErrorKind {
    /// A filter that cannot be read; the message quotes what is wrong.
    Parse,
    /// A request that is read and refused: a protected or unknown field of an
    /// update, a snapshot that lacks what it must hold, a parent that is
    /// stored already.
    Validation,
    /// A row that was looked up and is not there.
    NotFound,
    /// A failure of the database or of the connection to it.
    Persistence,
}

/// A failure: its kind and its message.
#[derive(Debug, Clone, PartialEq, Eq)]
pub struct Failure {
    pub kind: ErrorKind,
    pub message: String,
}

/// What a `Failure` stands for.
pub struct Fault {
    pub kind: ErrorKind,
    pub message: Seq<char>,
}

impl View for Failure {
    type V = Fault;

    open spec fn view(&self) -> Fault {
        Fault { kind: self.kind, message: self.message@ }
    }
}

/// The parse error with this message.
pub open spec fn parse_error(message: Seq<char>) -> Fault {
    Fault { kind: ErrorKind::Parse, message }
}

/// The validation error with this message.
pub open spec fn validation_error(message: Seq<char>) -> Fault {
    Fault { kind: ErrorKind::Validation, message }
}

/// The report of a missing row with this message.
pub open spec fn not_found(message: Seq<char>) -> Fault {
    Fault { kind: ErrorKind::NotFound, message }
}

/// The failure of the database with this message.
pub open spec fn persistence_error(message: Seq<char>) -> Fault {
    Fault { kind: ErrorKind::Persistence, message }
}

impl Failure {
    /// The parse error with this message.
    pub fn parse(message: String) -> (failure: Failure)
        ensures
            failure@ == parse_error(message@),
    {
        Failure { kind: ErrorKind::Parse, message }
    }

    /// The validation error with this message.
    pub fn validation(message: String) -> (failure: Failure)
        ensures
            failure@ == validation_error(message@),
    {
        Failure { kind: ErrorKind::Validation, message }
    }

    /// The report of a missing row with this message.
    pub fn missing(message: String) -> (failure: Failure)
        ensures
            failure@ == not_found(message@),
    {
        Failure { kind: ErrorKind::NotFound, message }
    }

    /// The failure of the database with this message.
    pub fn persistence(message: String) -> (failure: Failure)
        ensures
            failure@ == persistence_error(message@),
    {
        Failure { kind: ErrorKind::Persistence, message }
    }

    /// Whether the failure is the client's to mend: a parse error or a
    /// validation error.
    pub fn is_client_error(&self) -> (client: bool)
        ensures
            client == (self.kind == ErrorKind::Parse || self.kind == ErrorKind::Validation),
    {
        match self.kind {
            ErrorKind::Parse => true,
            ErrorKind::Validation => true,
            ErrorKind::NotFound => false,
            ErrorKind::Persistence => false,
        }
    }
}

} // verus!
