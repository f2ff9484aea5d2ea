use vstd::prelude::*;

verus! {

/// Kinds of controller errors.
#[derive(Debug, Clone, Copy, PartialEq, Eq, Structural)]
pub enum ErrorKind {
    /// An error while building or sending a request.
    Sender,
    /// The parameters given to a request do not match its inputs.
    WrongParameter,
}

/// A controller error.
#[derive(Debug)]
pub struct Error {
    /// Error kind.
    pub kind: ErrorKind,
    /// Information about the error.
    pub info: String,
}

impl Error {
    /// Creates an [`Error`] of the given kind with a description.
    pub fn new(kind: ErrorKind, info: String) -> (r: Self)
        ensures
            r.kind == kind,
            r.info == info,
    {
        Error { kind, info }
    }
}

}
