use vstd::prelude::*;

verus! {

/// The category of a protocol or session failure.
#[derive(Debug, Clone, Copy, PartialEq, Eq, Structural)]
pub enum ErrorKind {
    /// A frame or header is malformed: unknown type tag, bad UTF-8, bad length.
    InvalidData,
    /// A value handed to an encoder cannot be represented on the wire.
    InvalidInput,
    /// The input ended before a complete frame could be read.
    UnexpectedEof,
    /// The presented secret does not match the configured one.
    PermissionDenied,
    /// There is no peer to deliver to.
    ConnectionAborted,
}

/// An error of the library: its kind is what callers act on.
#[derive(Debug, Clone, Copy, PartialEq, Eq, Structural)]
pub struct Error {
    pub kind: ErrorKind,
}

impl Error {
    pub fn new(kind: ErrorKind) -> (r: Error)
        ensures
            r.kind == kind,
    {
        Error { kind }
    }

    pub fn kind(&self) -> (r: ErrorKind)
        ensures
            r == self.kind,
    {
        self.kind
    }
}

} // verus!
