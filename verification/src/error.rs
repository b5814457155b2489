//! Error types.
use vstd::prelude::*;

verus! {

/// Possible error kinds.
#[derive(Debug, Clone, Copy, PartialEq, Eq, Hash, Structural)]
pub enum ErrorKind {
    /// Input is invalid.
    InvalidInput,
    /// Inconsistent state.
    ///
    /// There are probably bugs in the program.
    InconsistentState,
    /// Other errors.
    Other,
}

/// The ways in which the transport reports that a cast could not be made.
#[derive(Debug, Clone, Copy, PartialEq, Eq, Hash, Structural)]
pub enum RpcErrorKind {
    /// Input is invalid.
    InvalidInput,
    /// The peer is temporarily unavailable (for example, its queue is full).
    Unavailable,
    /// The request timed out.
    Timeout,
    /// Other errors.
    Other,
}

/// This crate specific error type.
#[derive(Debug, Clone, Copy, PartialEq, Eq, Hash, Structural)]
pub struct Error {
    /// What went wrong.
    pub kind: ErrorKind,
}

impl ErrorKind {
    /// The kind under which a transport failure surfaces:
    /// invalid input stays invalid input, everything else is `Other`.
    pub open spec fn of_rpc(kind: RpcErrorKind) -> ErrorKind {
        match kind {
            RpcErrorKind::InvalidInput => ErrorKind::InvalidInput,
            RpcErrorKind::Unavailable => ErrorKind::Other,
            RpcErrorKind::Timeout => ErrorKind::Other,
            RpcErrorKind::Other => ErrorKind::Other,
        }
    }
}

impl Error {
    /// Makes an error of the given kind.
    pub fn new(kind: ErrorKind) -> (e: Self)
        ensures
            e.kind == kind,
    {
        Error { kind }
    }

    /// Returns the kind of this error.
    pub fn kind(&self) -> (k: ErrorKind)
        ensures
            k == self.kind,
    {
        self.kind
    }

    /// Converts a transport failure into an error of this crate.
    pub fn from_rpc(kind: RpcErrorKind) -> (e: Self)
        ensures
            e.kind == ErrorKind::of_rpc(kind),
    {
        let kind = match kind {
            RpcErrorKind::InvalidInput => ErrorKind::InvalidInput,
            RpcErrorKind::Timeout | RpcErrorKind::Unavailable | RpcErrorKind::Other => {
                ErrorKind::Other
            },
        };
        Error { kind }
    }
}

} // verus!
