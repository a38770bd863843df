//! Byte streams: connections and the sessions built on them.
use vstd::prelude::*;

use crate::netio::{IoError, IoErrorKind};

verus! {

/// Addresses of network peers.
pub trait Address: Clone + Eq + core::hash::Hash + core::fmt::Debug {}

impl<T: Clone + Eq + core::hash::Hash + core::fmt::Debug> Address for T {}

/// A bidirectional byte stream.
///
/// The spec functions `sent` and `received` are given their meaning by each
/// implementation; the default bodies leave them unspecified.
pub trait NetStream: Sized {
    /// Bytes that the stream has accepted for sending.
    open spec fn sent(&self) -> Seq<u8> {
        arbitrary()
    }

    /// Bytes that reads of the stream have delivered, in order.
    open spec fn received(&self) -> Seq<u8> {
        arbitrary()
    }

    /// Reads up to `max_len` bytes.
    fn read(&mut self, max_len: usize) -> (r: Result<Vec<u8>, IoError>)
        ensures
            r matches Ok(v) ==> v@.len() <= max_len && final(self).received() == old(
                self,
            ).received() + v@,
            r is Err ==> final(self).received() == old(self).received(),
            final(self).sent() == old(self).sent(),
    ;

    /// Whether writing `buf` may take the stream from `before` to `after`
    /// with the answer `r`; the meaning is given by each implementation.
    open spec fn writes(before: Self, buf: Seq<u8>, after: Self, r: Result<usize, IoError>) -> bool {
        arbitrary()
    }

    /// Whether flushing may take the stream from `before` to `after` with
    /// the answer `r`; the meaning is given by each implementation.
    open spec fn flushes(before: Self, after: Self, r: Result<(), IoError>) -> bool {
        arbitrary()
    }

    /// Writes a prefix of `buf`, returning its length.
    fn write(&mut self, buf: &[u8]) -> (r: Result<usize, IoError>)
        ensures
            Self::writes(*old(self), buf@, *final(self), r),
            match r {
                Ok(n) => n <= buf@.len() && final(self).sent() == old(self).sent() + buf@.take(
                    n as int,
                ),
                Err(_) => final(self).sent() == old(self).sent(),
            },
            final(self).received() == old(self).received(),
    ;

    /// Reads exactly `len` bytes, failing when they cannot all be had.
    fn read_exact(&mut self, len: usize) -> (r: Result<Vec<u8>, IoError>)
        ensures
            r matches Ok(v) ==> v@.len() == len && final(self).received() == old(
                self,
            ).received() + v@,
            r is Err ==> final(self).received() == old(self).received(),
            final(self).sent() == old(self).sent(),
    ;

    /// Writes the whole of `buf`; on failure some prefix of it may have been
    /// accepted.
    fn write_all(&mut self, buf: &[u8]) -> (r: Result<(), IoError>)
        ensures
            r is Ok ==> final(self).sent() == old(self).sent() + buf@,
            r is Err ==> exists|n: int|
                0 <= n <= buf@.len() && #[trigger] final(self).sent() == old(self).sent()
                    + buf@.take(n),
            final(self).received() == old(self).received(),
    ;

    /// Flushes data buffered by the stream.
    fn flush(&mut self) -> (r: Result<(), IoError>)
        ensures
            Self::flushes(*old(self), *final(self), r),
            final(self).sent() == old(self).sent(),
            final(self).received() == old(self).received(),
    ;
}

} // verus!

verus! {

/// A raw network connection, such as a TCP stream.
pub trait NetConnection: NetStream {
    /// Address of a connection end.
    type Addr;

    /// Address of the remote end, when it can be told.
    open spec fn spec_remote_addr(&self) -> Option<Self::Addr> {
        arbitrary()
    }

    /// Operating system descriptor of the connection.
    open spec fn spec_raw_fd(&self) -> i32 {
        arbitrary()
    }

    /// Address of the remote end.
    fn remote_addr(&self) -> (r: Result<Self::Addr, IoError>)
        ensures
            r is Ok <==> self.spec_remote_addr() is Some,
            r matches Ok(a) ==> self.spec_remote_addr() == Some(a),
    ;

    /// Address of the local end.
    fn local_addr(&self) -> Self::Addr;

    /// Operating system descriptor of the connection.
    fn raw_fd(&self) -> (fd: i32)
        ensures
            fd == self.spec_raw_fd(),
    ;

    /// Sets the read timeout, in milliseconds; `None` blocks forever.
    fn set_read_timeout(&mut self, millis: Option<u64>) -> (r: Result<(), IoError>)
        ensures
            final(self).sent() == old(self).sent(),
            final(self).spec_nonblocking() == old(self).spec_nonblocking(),
    ;

    /// Sets the write timeout, in milliseconds; `None` blocks forever.
    fn set_write_timeout(&mut self, millis: Option<u64>) -> (r: Result<(), IoError>)
        ensures
            final(self).sent() == old(self).sent(),
            final(self).spec_nonblocking() == old(self).spec_nonblocking(),
    ;

    /// Whether the connection is in non-blocking mode.
    open spec fn spec_nonblocking(&self) -> bool {
        arbitrary()
    }

    /// Switches between blocking and non-blocking mode.
    fn set_nonblocking(&mut self, nonblocking: bool) -> (r: Result<(), IoError>)
        ensures
            final(self).sent() == old(self).sent(),
            r is Ok ==> final(self).spec_nonblocking() == nonblocking,
    ;

    /// Shuts both directions of the connection down.
    fn shutdown(&mut self) -> Result<(), IoError>;
}

/// A listener accepting raw network connections.
pub trait NetListener: Sized {
    /// Connections it accepts.
    type Stream: NetConnection;
    /// Address it listens on.
    type Addr;

    /// Whether `r` is what binding to the address `addr` may give: a
    /// listener on that address, or the failure; the meaning is given by
    /// each implementation.
    open spec fn binds(addr: Self::Addr, r: Result<Self, IoError>) -> bool {
        arbitrary()
    }

    /// Listens on the address.
    fn bind(addr: &Self::Addr) -> (r: Result<Self, IoError>)
        ensures
            Self::binds(*addr, r),
    ;

    /// Accepts the next connection.
    fn accept(&self) -> Result<Self::Stream, IoError>;

    /// Address it listens on.
    open spec fn spec_local_addr(&self) -> Self::Addr {
        arbitrary()
    }

    /// Operating system descriptor of the listener.
    open spec fn spec_raw_fd(&self) -> i32 {
        arbitrary()
    }

    /// Address it listens on.
    fn local_addr(&self) -> (a: Self::Addr)
        ensures
            a == self.spec_local_addr(),
    ;

    /// Operating system descriptor of the listener.
    fn raw_fd(&self) -> (fd: i32)
        ensures
            fd == self.spec_raw_fd(),
    ;

    /// Switches between blocking and non-blocking mode.
    fn set_nonblocking(&self, nonblocking: bool) -> Result<(), IoError>;

    /// Time-to-live of the packets it sends.
    fn ttl(&self) -> Result<u32, IoError>;

    /// Sets the time-to-live of the packets it sends.
    fn set_ttl(&self, ttl: u32) -> Result<(), IoError>;

    /// A second handle on the same listener.
    fn try_clone(&self) -> Result<Self, IoError>;

    /// The pending error of the listener, if any.
    fn take_error(&self) -> Result<Option<IoError>, IoError>;
}

} // verus!

verus! {

/// Reading of the error with which a non-blocking connect returned, given
/// the operating system's codes for a connect in progress and for one
/// already under way: a connect in progress is no failure, nor is one that
/// would block; a connect already under way is reported as `AlreadyExists`;
/// any other error stands.
pub fn nonblocking_connect_result(
    os_code: Option<i32>,
    err: IoError,
    in_progress_code: i32,
    already_code: i32,
) -> (r: Result<(), IoError>)
    ensures
        os_code == Some(in_progress_code) ==> r is Ok,
        os_code != Some(in_progress_code) && os_code == Some(already_code) ==> (r matches Err(e)
            && e.kind == IoErrorKind::AlreadyExists),
        os_code != Some(in_progress_code) && os_code != Some(already_code) && err.kind
            == IoErrorKind::WouldBlock ==> r is Ok,
        os_code != Some(in_progress_code) && os_code != Some(already_code) && err.kind
            != IoErrorKind::WouldBlock ==> r == Err::<(), IoError>(err),
{
    let in_progress = match os_code {
        Some(code) => code == in_progress_code,
        None => false,
    };
    let already = match os_code {
        Some(code) => code == already_code,
        None => false,
    };
    if in_progress {
        Ok(())
    } else if already {
        Err(IoError::from_kind(IoErrorKind::AlreadyExists))
    } else if err.kind == IoErrorKind::WouldBlock {
        Ok(())
    } else {
        Err(err)
    }
}

} // verus!
