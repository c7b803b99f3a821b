//! Error kinds of the service and of the permission gate.
use vstd::prelude::*;

verus! {

/// What went wrong, as a kind.
#[derive(Clone, Copy, Debug, PartialEq, Eq, Structural)]
pub enum ErrorKind {
    /// Malformed or unrecognized request syntax (search text, field names).
    Url,
    /// A request body was missing or could not be read.
    Body,
    /// A lookup by primary key found nothing.
    NotFound,
    /// A constraint was violated or the store failed.
    Database,
    /// A request body could not be decoded.
    Json,
    /// The requesting user is not known.
    Unauthenticated,
    /// The requesting user lacks the capability.
    Forbidden,
    /// The capability name was never registered.
    UnknownCapability,
    /// The user holds the capability, below the level it requires.
    InsufficientLevel,
}

/// An error, carrying its kind.
#[derive(Clone, Copy, Debug, PartialEq, Eq, Structural)]
pub struct Error {
    pub kind: ErrorKind,
}

impl Error {
    pub fn new(kind: ErrorKind) -> (r: Error)
        ensures
            r.kind == kind,
    {
        Error { kind }
    }
}

} // verus!
