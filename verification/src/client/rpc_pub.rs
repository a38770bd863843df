//! RPC combined with server-published messages: the message codec telling
//! the two kinds apart and the dispatch of received messages.
use vstd::prelude::*;

use super::rpc::{handled_reply, RpcDelegate, RpcDispatch, RpcReply, RpcReplyOutcome, RpcService};
use crate::session::NetSession;
use crate::bytes::{
    copy_from, extend_bytes, lemma_u16_from_le_roundtrip, lemma_u16_le_roundtrip,
    lemma_u64_from_le_roundtrip, lemma_u64_le_roundtrip, push_u16_le, push_u64_le, read_u16_le,
    read_u64_le, u16_from_le, u16_le_bytes, u64_from_le, u64_le_bytes,
};

verus! {

/// Tag of RPC messages.
pub const CLIENT_MSG_ID_RPC: u8 = 0x01u8;

/// Tag of Pub messages.
pub const CLIENT_MSG_ID_PUB: u8 = 0x10u8;

/// Identifier of an RPC or Pub message.
#[derive(Copy, Clone, Debug, PartialEq, Eq, Structural, Hash)]
pub enum RpcPubId {
    /// RPC message id.
    Rpc(u64),
    /// Pub message id.
    Pub(u16),
}

/// A message of the RPC+Pub protocol.
#[derive(Clone, Debug)]
pub struct RpcPubMsg {
    /// Message id, representing its type and indicating related RPC request or Pub topic
    /// subscription.
    pub id: RpcPubId,
    /// Unparsed message data.
    pub payload: Vec<u8>,
}

/// Why a server message can't be read as an [`RpcPubMsg`].
#[derive(Copy, Clone, Debug, PartialEq, Eq, Structural, Hash)]
pub enum ParseRpcPubError {
    /// the received message is empty and lacks RPCPub identifier.
    Empty,
    /// the received message is too short and doesn't provide RPCPub identifier.
    NoId,
    /// the received message contains invalid id tag ({_0:#04x}).
    InvalidTag(u8),
}

/// Errors in processing RPC+Pub messages.
#[derive(Clone, Debug)]
pub enum RpcPubError {
    /// server message can't be parsed due to {0}
    UnparsableMsg(ParseRpcPubError),
    /// server Pub message with topic {0} can't be parsed due to {1}
    UnparsablePub(u16, String),
}

/// Wire form of an RPC+Pub message: the tag, the id in little-endian bytes
/// (eight for RPC, two for Pub), then the payload.
pub open spec fn rpc_pub_bytes(id: RpcPubId, payload: Seq<u8>) -> Seq<u8> {
    match id {
        RpcPubId::Rpc(i) => seq![CLIENT_MSG_ID_RPC] + u64_le_bytes(i) + payload,
        RpcPubId::Pub(i) => seq![CLIENT_MSG_ID_PUB] + u16_le_bytes(i) + payload,
    }
}

/// Reading an RPC+Pub message.
pub open spec fn spec_parse_rpc_pub(data: Seq<u8>) -> Result<(RpcPubId, Seq<u8>), ParseRpcPubError> {
    if data.len() == 0 {
        Err(ParseRpcPubError::Empty)
    } else {
        let tag = data[0];
        let rest = data.skip(1);
        if tag == CLIENT_MSG_ID_RPC {
            if rest.len() < 8 {
                Err(ParseRpcPubError::NoId)
            } else {
                Ok((RpcPubId::Rpc(u64_from_le(rest)), rest.skip(8)))
            }
        } else if tag == CLIENT_MSG_ID_PUB {
            if rest.len() < 2 {
                Err(ParseRpcPubError::NoId)
            } else {
                Ok((RpcPubId::Pub(u16_from_le(rest)), rest.skip(2)))
            }
        } else {
            Err(ParseRpcPubError::InvalidTag(tag))
        }
    }
}

impl RpcPubMsg {
    /// Reads an RPC+Pub message.
    pub fn try_from(data: Vec<u8>) -> (r: Result<RpcPubMsg, ParseRpcPubError>)
        ensures
            match spec_parse_rpc_pub(data@) {
                Ok((id, payload)) => r matches Ok(msg) && msg.id == id && msg.payload@ == payload,
                Err(e) => r == Err::<RpcPubMsg, ParseRpcPubError>(e),
            },
    {
        if data.len() == 0 {
            return Err(ParseRpcPubError::Empty);
        }
        let tag = data[0];
        let rest_len = data.len() - 1;
        let ghost rest = data@.skip(1);
        if tag == CLIENT_MSG_ID_RPC {
            if rest_len < 8 {
                return Err(ParseRpcPubError::NoId);
            }
            let id = read_u64_le(data.as_slice(), 1);
            let payload = copy_from(data.as_slice(), 9);
            assert(rest.skip(8) =~= data@.skip(9));
            Ok(RpcPubMsg { id: RpcPubId::Rpc(id), payload })
        } else if tag == CLIENT_MSG_ID_PUB {
            if rest_len < 2 {
                return Err(ParseRpcPubError::NoId);
            }
            let id = read_u16_le(data.as_slice(), 1);
            let payload = copy_from(data.as_slice(), 3);
            assert(rest.skip(2) =~= data@.skip(3));
            Ok(RpcPubMsg { id: RpcPubId::Pub(id), payload })
        } else {
            Err(ParseRpcPubError::InvalidTag(tag))
        }
    }

    /// Writes the message.
    pub fn into_vec(self) -> (data: Vec<u8>)
        ensures
            data@ == rpc_pub_bytes(self.id, self.payload@),
    {
        let mut data: Vec<u8> = Vec::new();
        match self.id {
            RpcPubId::Rpc(id) => {
                data.push(CLIENT_MSG_ID_RPC);
                push_u64_le(&mut data, id);
            },
            RpcPubId::Pub(id) => {
                data.push(CLIENT_MSG_ID_PUB);
                push_u16_le(&mut data, id);
            },
        }
        extend_bytes(&mut data, self.payload.as_slice());
        proof {
            match self.id {
                RpcPubId::Rpc(i) => {
                    assert(data@ =~= seq![CLIENT_MSG_ID_RPC] + u64_le_bytes(i) + self.payload@);
                },
                RpcPubId::Pub(i) => {
                    assert(data@ =~= seq![CLIENT_MSG_ID_PUB] + u16_le_bytes(i) + self.payload@);
                },
            }
        }
        data
    }
}

/// Reading a written RPC+Pub message gives the message back.
pub proof fn lemma_rpc_pub_roundtrip(id: RpcPubId, payload: Seq<u8>)
    ensures
        spec_parse_rpc_pub(rpc_pub_bytes(id, payload)) == Ok::<(RpcPubId, Seq<u8>), ParseRpcPubError>(
            (id, payload),
        ),
{
    let data = rpc_pub_bytes(id, payload);
    let rest = data.skip(1);
    match id {
        RpcPubId::Rpc(i) => {
            lemma_u64_le_roundtrip(i);
            assert(rest =~= u64_le_bytes(i) + payload);
            assert(rest.take(8) =~= u64_le_bytes(i));
            lemma_u64_from_le_roundtrip(rest);
            assert(rest.skip(8) =~= payload);
        },
        RpcPubId::Pub(i) => {
            lemma_u16_le_roundtrip(i);
            assert(rest =~= u16_le_bytes(i) + payload);
            assert(rest.take(2) =~= u16_le_bytes(i));
            lemma_u16_from_le_roundtrip(rest);
            assert(rest.skip(2) =~= payload);
        },
    }
}

/// A message which reads as an RPC+Pub message is exactly the written form
/// of what it reads as.
pub proof fn lemma_rpc_pub_bytes_canonical(data: Seq<u8>)
    requires
        spec_parse_rpc_pub(data) is Ok,
    ensures
        ({
            let (id, payload) = spec_parse_rpc_pub(data)->Ok_0;
            rpc_pub_bytes(id, payload) == data
        }),
{
    let rest = data.skip(1);
    if data[0] == CLIENT_MSG_ID_RPC {
        lemma_u64_from_le_roundtrip(rest);
        assert(seq![data[0]] + rest.take(8) + rest.skip(8) =~= data);
    } else {
        lemma_u16_from_le_roundtrip(rest);
        assert(seq![data[0]] + rest.take(2) + rest.skip(2) =~= data);
    }
}

/// What the service decided about a message received from the server.
pub enum RpcPubDispatch<C> {
    /// An RPC reply, matched (or not) against the pending requests.
    Rpc(RpcDispatch<C>),
    /// A Pub message of the given topic with its payload.
    Pub(u16, Vec<u8>),
}

/// What a message received from the server leads to.
pub enum RpcPubOutcome<C, R, E, P, F> {
    /// An RPC reply, handled as [`RpcService::handle_reply`] does.
    Rpc(RpcReplyOutcome<C, R, E>),
    /// A message published under the topic, to be handed to the delegate.
    Pub(u16, P),
    /// A message published under the topic whose payload can't be parsed:
    /// the error is reported.
    UnparsablePub(u16, F),
}

/// RPC registry which also routes Pub messages.
pub struct RpcPubService<C> {
    inner: RpcService<C>,
}

impl<C> RpcPubService<C> {
    /// The underlying RPC registry.
    pub closed spec fn rpc(&self) -> RpcService<C> {
        self.inner
    }

    /// Service with no pending requests.
    pub fn new() -> (s: Self)
        ensures
            s.rpc().wf(),
            s.rpc().pending() == Map::<u64, C>::empty(),
            s.rpc().next_id() == 0,
    {
        RpcPubService { inner: RpcService::new() }
    }

    /// The id the next RPC request gets.
    pub fn last_id(&self) -> (id: u64)
        ensures
            id == self.rpc().next_id(),
    {
        self.inner.last_id()
    }

    /// Registers an RPC request; see [`RpcService::before_send`].
    pub fn before_send(&mut self, data: Vec<u8>, cb: C) -> (req: Vec<u8>)
        requires
            old(self).rpc().wf(),
            old(self).rpc().next_id() < u64::MAX,
        ensures
            final(self).rpc().wf(),
            req@ == super::rpc::rpc_reply_bytes(old(self).rpc().next_id(), data@),
            final(self).rpc().pending() == old(self).rpc().pending().insert(
                old(self).rpc().next_id(),
                cb,
            ),
            final(self).rpc().next_id() == old(self).rpc().next_id() + 1,
    {
        self.inner.before_send(data, cb)
    }

    /// Routes an RPC+Pub message: RPC replies are matched against the pending
    /// requests, Pub messages are handed on with their topic.
    pub fn on_reply(&mut self, msg: RpcPubMsg) -> (d: RpcPubDispatch<C>)
        requires
            old(self).rpc().wf(),
        ensures
            final(self).rpc().wf(),
            final(self).rpc().next_id() == old(self).rpc().next_id(),
            match msg.id {
                RpcPubId::Rpc(id) => d matches RpcPubDispatch::Rpc(inner) && (old(
                    self,
                ).rpc().pending().contains_key(id) ==> (inner matches RpcDispatch::Matched(
                    i,
                    cb,
                    payload,
                ) && i == id && cb == old(self).rpc().pending()[id] && payload@ == msg.payload@
                    && final(self).rpc().pending() == old(self).rpc().pending().remove(id))) && (
                !old(self).rpc().pending().contains_key(id) ==> (inner matches RpcDispatch::Mismatching(
                    super::rpc::RpcReplyError::MismatchingReply(i, payload),
                ) && i == id && payload@ == msg.payload@ && final(self).rpc().pending() == old(
                    self,
                ).rpc().pending())),
                RpcPubId::Pub(topic) => d matches RpcPubDispatch::Pub(t, payload) && t == topic
                    && payload@ == msg.payload@ && final(self).rpc().pending() == old(
                    self,
                ).rpc().pending(),
            },
    {
        match msg.id {
            RpcPubId::Rpc(id) => RpcPubDispatch::Rpc(
                self.inner.on_reply(RpcReply { id, payload: msg.payload }),
            ),
            RpcPubId::Pub(id) => RpcPubDispatch::Pub(id, msg.payload),
        }
    }

    /// Handles a message of the server for the delegate `D`: an RPC reply as
    /// [`RpcService::handle_reply`] does; a published message has its payload
    /// parsed, to be handed to the delegate with its topic, or, when it
    /// can't be parsed, to report the error. A published message leaves the
    /// pending requests as they are.
    pub fn handle_msg<A, S: NetSession, D: RpcPubDelegate<A, S>>(&mut self, msg: RpcPubMsg) -> (o:
        RpcPubOutcome<C, D::Reply, D::ReplyError, D::PubMsg, D::PubMsgError>)
        requires
            old(self).rpc().wf(),
        ensures
            final(self).rpc().wf(),
            final(self).rpc().next_id() == old(self).rpc().next_id(),
            match msg.id {
                RpcPubId::Rpc(id) => o matches RpcPubOutcome::Rpc(inner) && handled_reply::<A, S, D, C>(
                    old(self).rpc().pending(),
                    final(self).rpc().pending(),
                    (RpcReply { id, payload: msg.payload }),
                    inner,
                ),
                RpcPubId::Pub(topic) => final(self).rpc().pending() == old(self).rpc().pending()
                    && match o {
                    RpcPubOutcome::Pub(t, m) => t == topic && D::parses_pub(msg.payload@, Ok(m)),
                    RpcPubOutcome::UnparsablePub(t, err) => t == topic && D::parses_pub(
                        msg.payload@,
                        Err(err),
                    ),
                    RpcPubOutcome::Rpc(_) => false,
                },
            },
    {
        match msg.id {
            RpcPubId::Rpc(id) => RpcPubOutcome::Rpc(
                self.inner.handle_reply::<A, S, D>(RpcReply { id, payload: msg.payload }),
            ),
            RpcPubId::Pub(topic) => match D::parse_pub(msg.payload) {
                Ok(m) => RpcPubOutcome::Pub(topic, m),
                Err(err) => RpcPubOutcome::UnparsablePub(topic, err),
            },
        }
    }

    /// The error reported for a server message which is not an RPC+Pub message.
    pub fn on_reply_unparsable(&self, err: ParseRpcPubError) -> (e: RpcPubError)
        ensures
            e == RpcPubError::UnparsableMsg(err),
    {
        RpcPubError::UnparsableMsg(err)
    }

    /// The error reported for a Pub message whose payload can't be read.
    pub fn on_pub_unparsable(&self, topic: u16, reason: String) -> (e: RpcPubError)
        ensures
            e matches RpcPubError::UnparsablePub(t, s) && t == topic && s@ == reason@,
    {
        RpcPubError::UnparsablePub(topic, reason)
    }
}

/// Callbacks of an RPC client which also receives messages published by the
/// server, provided by its user.
pub trait RpcPubDelegate<A, S: NetSession>: RpcDelegate<A, S> {
    /// Messages published by the server.
    type PubMsg;
    /// Why a published payload is not a published message.
    type PubMsgError;

    /// Whether `r` is what parsing the published payload gives; the meaning
    /// is given by each implementation.
    open spec fn parses_pub(payload: Seq<u8>, r: Result<Self::PubMsg, Self::PubMsgError>) -> bool {
        arbitrary()
    }

    /// Parses the payload of a published message.
    fn parse_pub(payload: Vec<u8>) -> (r: Result<Self::PubMsg, Self::PubMsgError>)
        ensures
            Self::parses_pub(payload@, r),
    ;

    /// A message published by the server under the given topic.
    fn on_msg_pub(&self, id: u16, msg: Self::PubMsg);
}

} // verus!
