//! Splitting a session into independently owned read and write halves, and
//! joining the halves back.
use vstd::prelude::*;

use crate::netio::IoError;

verus! {

/// A split was refused: carries the object which could not be split
/// together with the reason.
pub struct SplitIoError<T: SplitIo> {
    pub original: T,
    pub error: IoError,
}

/// The read half of a split session.
pub trait ReadHalf: Sized {
    /// Reads up to `max_len` bytes.
    fn read(&mut self, max_len: usize) -> (r: Result<Vec<u8>, IoError>)
        ensures
            r matches Ok(v) ==> v@.len() <= max_len,
    ;
}

/// The write half of a split session.
pub trait WriteHalf: Sized {
    /// Writes a prefix of `buf`, returning its length.
    fn write(&mut self, buf: &[u8]) -> (r: Result<usize, IoError>)
        ensures
            r matches Ok(n) ==> n <= buf@.len(),
    ;

    /// Flushes buffered data.
    fn flush(&mut self) -> Result<(), IoError>;
}

/// Objects which can be split into a read half and a write half, and joined
/// back from the two halves of one split.
///
/// `parts_match` says which pairs of halves may be joined, and `halves_of`
/// which halves make up which whole; each implementation defines them, the
/// default bodies leave them unspecified.
pub trait SplitIo: Sized {
    type Read: ReadHalf;
    type Write: WriteHalf;

    /// Whether `read` and `write` come from the same split.
    open spec fn parts_match(read: &Self::Read, write: &Self::Write) -> bool {
        arbitrary()
    }

    /// Whether `read` and `write` are the halves of `whole`: what splitting
    /// it gives, and what joining gives it.
    open spec fn halves_of(whole: Self, read: Self::Read, write: Self::Write) -> bool {
        arbitrary()
    }

    /// Splits the object; on failure the object is handed back.
    fn split_io(self) -> (r: Result<(Self::Read, Self::Write), SplitIoError<Self>>)
        ensures
            r matches Ok(halves) ==> Self::parts_match(&halves.0, &halves.1) && Self::halves_of(
                self,
                halves.0,
                halves.1,
            ),
    ;

    /// Joins the two halves of one split.
    fn from_split_io(read: Self::Read, write: Self::Write) -> (whole: Self)
        requires
            Self::parts_match(&read, &write),
        ensures
            Self::halves_of(whole, read, write),
    ;
}

} // verus!
