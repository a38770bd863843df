//! Plain-value description of I/O failures, as they flow through the
//! transport and session logic.
use vstd::prelude::*;

verus! {

/// Kind of an I/O failure; mirrors the kinds of `std::io::ErrorKind` that the
/// networking logic distinguishes, with everything else under `Other`.
#[derive(Copy, Clone, Debug, PartialEq, Eq, Structural, Hash)]
pub enum IoErrorKind {
    WouldBlock,
    WriteZero,
    OutOfMemory,
    Interrupted,
    ConnectionReset,
    ConnectionAborted,
    NotConnected,
    InvalidInput,
    UnexpectedEof,
    TimedOut,
    BrokenPipe,
    AlreadyExists,
    AddrNotAvailable,
    Other,
}

impl IoErrorKind {
    /// Whether an operation failing with this kind may succeed once retried
    /// (the resource was temporarily unable to proceed).
    pub open spec fn spec_is_transient(self) -> bool {
        self == IoErrorKind::WouldBlock || self == IoErrorKind::WriteZero
            || self == IoErrorKind::OutOfMemory || self == IoErrorKind::Interrupted
    }

    /// Executable form of [`IoErrorKind::spec_is_transient`].
    pub fn is_transient(self) -> (r: bool)
        ensures
            r == self.spec_is_transient(),
    {
        match self {
            IoErrorKind::WouldBlock | IoErrorKind::WriteZero | IoErrorKind::OutOfMemory
            | IoErrorKind::Interrupted => true,
            _ => false,
        }
    }
}

/// An I/O failure: its kind and a human-readable description (empty when the
/// failure carries no more than its kind).
#[derive(Clone, Debug)]
pub struct IoError {
    pub kind: IoErrorKind,
    pub message: String,
}

impl IoError {
    /// Failure of the given kind without further description.
    pub fn from_kind(kind: IoErrorKind) -> (e: IoError)
        ensures
            e.kind == kind,
            e.message@ == Seq::<char>::empty(),
    {
        IoError { kind, message: String::new() }
    }

    /// Failure of the given kind with a description.
    pub fn with_message(kind: IoErrorKind, message: String) -> (e: IoError)
        ensures
            e.kind == kind,
            e.message@ == message@,
    {
        IoError { kind, message }
    }

    /// Kind of the failure.
    pub fn kind(&self) -> (k: IoErrorKind)
        ensures
            k == self.kind,
    {
        self.kind
    }
}

} // verus!
