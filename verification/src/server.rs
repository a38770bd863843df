//! Server side of client-server protocols.
use vstd::prelude::*;

use crate::client::ConnectionDelegate;
use crate::session::NetSession;

verus! {

/// Callbacks of a server, provided by its user.
pub trait ServerDelegate<A, S: NetSession>: ConnectionDelegate<A, S> {
    /// Requests of the clients.
    type Request;
    /// Why a message of a client is not a request.
    type RequestError;
    /// Replies to the clients.
    type Reply;

    /// Parses a message of a client.
    fn parse_request(data: Vec<u8>) -> Result<Self::Request, Self::RequestError>;

    /// The bytes of a reply.
    fn reply_bytes(reply: Self::Reply) -> Vec<u8>;

    /// A request of a client; replies go through `sender`.
    fn on_request<F: Fn(Self::Reply)>(&mut self, req: Self::Request, sender: F);

    /// A message of a client which is not a request; replies go through
    /// `sender`.
    fn on_request_unparsable<F: Fn(Self::Reply)>(&mut self, err: Self::RequestError, sender: F);
}

} // verus!
