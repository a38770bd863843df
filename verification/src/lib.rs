//! Building blocks for peer-to-peer network services: framing, RPC message
//! codecs, transport and client state machines, with their contracts.
use vstd::prelude::*;

pub mod auth;
pub mod bytes;
pub mod channel;
pub mod client;
pub mod connection;
pub mod frame;
pub mod netio;
pub mod node;
pub mod noise;
pub mod resource;
pub mod server;
pub mod session;
pub mod socks5;
pub mod split;
pub mod streampipes;
pub mod transcode;
pub mod transcoders;
pub mod tunnel;

pub use frame::{Frame, Marshaller};

verus! {

/// Maximal size of a single read from a network transport.
pub const READ_BUFFER_SIZE: usize = 65535;

/// Direction of a network link with respect to the local node.
#[derive(Copy, Clone, Debug, PartialEq, Eq, Structural, Hash, PartialOrd, Ord)]
pub enum Direction {
    Inbound,
    Outbound,
}

impl Direction {
    /// Whether the link was initiated by the remote peer.
    pub fn is_inbound(self) -> (r: bool)
        ensures
            r == (self == Direction::Inbound),
    {
        match self {
            Direction::Inbound => true,
            Direction::Outbound => false,
        }
    }

    /// Whether the link was initiated by the local node.
    pub fn is_outbound(self) -> (r: bool)
        ensures
            r == (self == Direction::Outbound),
    {
        match self {
            Direction::Inbound => false,
            Direction::Outbound => true,
        }
    }
}

} // verus!
