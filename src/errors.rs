use vstd::prelude::*;

verus! {

/// The kinds of failure that analysis can report.
#[derive(Debug, PartialEq, Eq, Structural, Clone, Copy)]
pub enum ErrorKind {
    /// A construct (type, statement, rvalue, operator, constant) is outside
    /// the analysis' coverage.
    NotImplementedError,
    /// An inconsistency found while interpreting, such as reading a local
    /// that holds no value.
    InterpreterError,
    /// The caller supplied a malformed argument list.
    InvalidArgumentError,
}

/// An analysis failure: its kind and an optional explanation.
#[derive(Debug, PartialEq)]
pub struct Error {
    pub kind: ErrorKind,
    pub message: Option<String>,
}

impl Error {
    pub fn new(kind: ErrorKind) -> (r: Self)
        ensures
            r.kind == kind,
            r.message is None,
    {
        Error { kind, message: None }
    }

    pub fn with_message(kind: ErrorKind, message: String) -> (r: Self)
        ensures
            r.kind == kind,
            r.message == Some(message),
    {
        Error { kind, message: Some(message) }
    }
}

} // verus!
