//! The one error type of the store.
use vstd::prelude::*;

verus! {

/// What went wrong.
#[derive(Clone, Copy, Debug, PartialEq, Eq, Structural)]
pub enum ErrorKind {
    /// The location holds no store and creating one was not asked for.
    NotFound,
    /// The location holds a store and that was asked to be an error.
    AlreadyExists,
    /// The store was created under a comparator of another name.
    ComparatorMismatch,
    /// Reading or writing the store failed.
    IOFailure,
    /// The arguments do not make sense together.
    InvalidArgument,
}

/// An error with a human-readable message.
#[derive(Clone, Debug)]
pub struct Error {
    pub kind: ErrorKind,
    pub message: String,
}

impl Error {
    pub fn new(kind: ErrorKind, message: String) -> (r: Error)
        ensures
            r.kind == kind,
            r.message@ == message@,
    {
        Error { kind, message }
    }

    /// The message carried by the error.
    pub fn message(&self) -> (r: String)
        ensures
            r@ == self.message@,
    {
        self.message.clone()
    }
}

} // verus!
