//! SOCKS5 proxy errors.
use vstd::prelude::*;

use crate::netio::IoError;

verus! {

/// Failure of a connection through a SOCKS5 proxy.
#[derive(Debug)]
pub enum Socks5Error {
    /// The proxy connection failed.
    Io(IoError),
}

impl Socks5Error {
    /// The failure of the proxy connection.
    pub fn from_io(err: IoError) -> (e: Socks5Error)
        ensures
            e == Socks5Error::Io(err),
    {
        Socks5Error::Io(err)
    }
}

} // verus!
