//! Remote procedure calls over a client-server connection: the RPC reply
//! message codec and the registry matching replies to pending requests.
use std::collections::HashMap;
use vstd::prelude::*;

use super::client::ConnectionDelegate;
use crate::session::NetSession;

use crate::bytes::{
    copy_from, extend_bytes, lemma_u64_from_le_roundtrip, lemma_u64_le_roundtrip, push_u64_le,
    read_u64_le, u64_from_le, u64_le_bytes,
};

verus! {

broadcast use vstd::std_specs::hash::group_hash_axioms;

/// A message received from the server: an identifier followed by the payload.
#[derive(Clone, Debug)]
pub struct RpcReply {
    /// Message id, representing its type and indicating related RPC request or Pub topic
    /// subscription.
    pub id: u64,
    /// Unparsed message data.
    pub payload: Vec<u8>,
}

/// Why a server message can't be read as an [`RpcReply`].
#[derive(Copy, Clone, Debug, PartialEq, Eq, Structural, Hash)]
pub enum ParseReplyError {
    /// the received message is empty and lacks RPC identifier.
    Empty,
    /// the received message is too short and doesn't provide RPC identifier.
    NoId,
}

/// Errors in processing RPC replies.
#[derive(Clone, Debug)]
pub enum RpcReplyError {
    /// server message can't be parsed as an RPC reply due to {0}
    UnparsableMsg(ParseReplyError),
    /// server RPC reply message with id {0} can't be parsed due to {1}
    UnparsableReply(u64, String),
    /// server RPC reply with id {0} doesn't match any previous RPC request.
    MismatchingReply(u64, Vec<u8>),
}

/// Wire form of an RPC reply: the id in eight little-endian bytes, then the payload.
pub open spec fn rpc_reply_bytes(id: u64, payload: Seq<u8>) -> Seq<u8> {
    u64_le_bytes(id) + payload
}

/// Reading an RPC reply from a message.
pub open spec fn spec_parse_rpc_reply(data: Seq<u8>) -> Result<(u64, Seq<u8>), ParseReplyError> {
    if data.len() == 0 {
        Err(ParseReplyError::Empty)
    } else if data.len() < 8 {
        Err(ParseReplyError::NoId)
    } else {
        Ok((u64_from_le(data), data.skip(8)))
    }
}

impl RpcReply {
    /// Reads an RPC reply from a server message.
    pub fn try_from(data: Vec<u8>) -> (r: Result<RpcReply, ParseReplyError>)
        ensures
            match spec_parse_rpc_reply(data@) {
                Ok((id, payload)) => r matches Ok(reply) && reply.id == id && reply.payload@
                    == payload,
                Err(e) => r == Err::<RpcReply, ParseReplyError>(e),
            },
    {
        if data.len() == 0 {
            return Err(ParseReplyError::Empty);
        }
        if data.len() < 8 {
            return Err(ParseReplyError::NoId);
        }
        let id = read_u64_le(data.as_slice(), 0);
        assert(data@.skip(0) =~= data@);
        let payload = copy_from(data.as_slice(), 8);
        Ok(RpcReply { id, payload })
    }

    /// Writes the RPC reply as a message.
    pub fn into_vec(self) -> (data: Vec<u8>)
        ensures
            data@ == rpc_reply_bytes(self.id, self.payload@),
    {
        let mut data: Vec<u8> = Vec::new();
        push_u64_le(&mut data, self.id);
        extend_bytes(&mut data, self.payload.as_slice());
        data
    }
}

/// Reading the message which an RPC reply was written into gives the reply back.
pub proof fn lemma_rpc_reply_roundtrip(id: u64, payload: Seq<u8>)
    ensures
        spec_parse_rpc_reply(rpc_reply_bytes(id, payload)) == Ok::<(u64, Seq<u8>), ParseReplyError>(
            (id, payload),
        ),
{
    lemma_u64_le_roundtrip(id);
    let data = rpc_reply_bytes(id, payload);
    assert(data.take(8) =~= u64_le_bytes(id));
    lemma_u64_from_le_roundtrip(data);
    assert(data.skip(8) =~= payload);
}

/// A message which reads as an RPC reply is exactly the wire form of that reply.
pub proof fn lemma_rpc_reply_bytes_canonical(data: Seq<u8>)
    requires
        spec_parse_rpc_reply(data) is Ok,
    ensures
        ({
            let (id, payload) = spec_parse_rpc_reply(data)->Ok_0;
            rpc_reply_bytes(id, payload) == data
        }),
{
    lemma_u64_from_le_roundtrip(data);
    assert(data.take(8) + data.skip(8) =~= data);
}

/// What the registry decided about a reply received from the server.
pub enum RpcDispatch<C> {
    /// The reply answers a pending request: its callback and the reply payload.
    Matched(u64, C, Vec<u8>),
    /// The reply matches no pending request.
    Mismatching(RpcReplyError),
}

/// What a reply received from the server leads to.
pub enum RpcReplyOutcome<C, R, E> {
    /// The reply answers a pending request: its callback is to be called
    /// with the reply parsed from the payload.
    Answer(C, R),
    /// The reply answers the pending request with the id, but its payload
    /// can't be parsed: the callback is dropped and the error reported.
    UnparsableReply(u64, E),
    /// The reply matches no pending request: the error is reported.
    Mismatching(RpcReplyError),
}

/// Whether the outcome `o` and the pending requests `after` are what
/// handling the reply `msg` with the pending requests `before` gives: a
/// reply to a pending request removes it and answers its callback with the
/// parsed payload, or reports the parse error; any other reply is reported
/// as mismatching, leaving the pending requests as they were.
pub open spec fn handled_reply<A, S: NetSession, D: RpcDelegate<A, S>, C>(
    before: Map<u64, C>,
    after: Map<u64, C>,
    msg: RpcReply,
    o: RpcReplyOutcome<C, D::Reply, D::ReplyError>,
) -> bool {
    if before.contains_key(msg.id) {
        &&& after == before.remove(msg.id)
        &&& match o {
            RpcReplyOutcome::Answer(cb, rep) => cb == before[msg.id] && D::parses_payload(
                msg.payload@,
                Ok(rep),
            ),
            RpcReplyOutcome::UnparsableReply(id, err) => id == msg.id && D::parses_payload(
                msg.payload@,
                Err(err),
            ),
            RpcReplyOutcome::Mismatching(_) => false,
        }
    } else {
        &&& after == before
        &&& o matches RpcReplyOutcome::Mismatching(RpcReplyError::MismatchingReply(id, payload))
        &&& id == msg.id
        &&& payload@ == msg.payload@
    }
}

/// Registry of pending RPC requests: assigns each request a fresh id and
/// keeps its reply callback until the matching reply arrives.
pub struct RpcService<C> {
    /// The first unused id for RPC request-reply pairs.
    last_id: u64,
    /// RPC reply callbacks, mapped from the RPC id used in the request message.
    callbacks: HashMap<u64, C>,
}

impl<C> RpcService<C> {
    /// Ids of requests which await a reply, with their callbacks.
    pub closed spec fn pending(&self) -> Map<u64, C> {
        self.callbacks@
    }

    /// The id that the next request gets.
    pub closed spec fn next_id(&self) -> u64 {
        self.last_id
    }

    /// Every pending id was assigned before: ids are never reused.
    pub closed spec fn wf(&self) -> bool {
        forall|id: u64| #[trigger] self.callbacks@.contains_key(id) ==> id < self.last_id
    }

    /// Registry with no pending requests; the first request gets id 0.
    pub fn new() -> (s: Self)
        ensures
            s.wf(),
            s.pending() == Map::<u64, C>::empty(),
            s.next_id() == 0,
    {
        RpcService { last_id: 0, callbacks: HashMap::new() }
    }

    /// The id the next request gets.
    pub fn last_id(&self) -> (id: u64)
        ensures
            id == self.next_id(),
    {
        self.last_id
    }

    /// Registers the reply callback under a fresh id and returns the request
    /// message: the id in eight little-endian bytes followed by the data.
    pub fn before_send(&mut self, data: Vec<u8>, cb: C) -> (req: Vec<u8>)
        requires
            old(self).wf(),
            old(self).next_id() < u64::MAX,
        ensures
            final(self).wf(),
            req@ == rpc_reply_bytes(old(self).next_id(), data@),
            !old(self).pending().contains_key(old(self).next_id()),
            final(self).pending() == old(self).pending().insert(old(self).next_id(), cb),
            final(self).next_id() == old(self).next_id() + 1,
            request_step(*old(self), *final(self)),
    {
        let id = self.last_id;
        let mut req: Vec<u8> = Vec::new();
        let _ = self.callbacks.insert(id, cb);
        push_u64_le(&mut req, id);
        extend_bytes(&mut req, data.as_slice());
        self.last_id = self.last_id + 1;
        req
    }

    /// Matches a reply with the pending request of the same id, which stops
    /// being pending.
    pub fn on_reply(&mut self, msg: RpcReply) -> (d: RpcDispatch<C>)
        requires
            old(self).wf(),
        ensures
            final(self).wf(),
            reply_step(*old(self), *final(self)),
            final(self).next_id() == old(self).next_id(),
            old(self).pending().contains_key(msg.id) ==> (d matches RpcDispatch::Matched(
                id,
                cb,
                payload,
            ) && id == msg.id && cb == old(self).pending()[msg.id] && payload@ == msg.payload@
                && final(self).pending() == old(self).pending().remove(msg.id)),
            !old(self).pending().contains_key(msg.id) ==> (d matches RpcDispatch::Mismatching(
                RpcReplyError::MismatchingReply(id, payload),
            ) && id == msg.id && payload@ == msg.payload@ && final(self).pending() == old(
                self,
            ).pending()),
    {
        let id = msg.id;
        match self.callbacks.remove(&id) {
            Some(cb) => RpcDispatch::Matched(id, cb, msg.payload),
            None => RpcDispatch::Mismatching(RpcReplyError::MismatchingReply(id, msg.payload)),
        }
    }

    /// Handles a reply of the server for the delegate `D`: a reply to a
    /// pending request has its payload parsed, to answer the request's
    /// callback, or, when the payload can't be parsed, to report the error;
    /// any other reply is reported as mismatching.
    pub fn handle_reply<A, S: NetSession, D: RpcDelegate<A, S>>(&mut self, msg: RpcReply) -> (o:
        RpcReplyOutcome<C, D::Reply, D::ReplyError>)
        requires
            old(self).wf(),
        ensures
            final(self).wf(),
            final(self).next_id() == old(self).next_id(),
            handled_reply::<A, S, D, C>(old(self).pending(), final(self).pending(), msg, o),
            reply_step(*old(self), *final(self)),
    {
        let ghost m = msg;
        match self.on_reply(msg) {
            RpcDispatch::Matched(id, cb, payload) => match D::parse_reply(payload) {
                Ok(rep) => RpcReplyOutcome::Answer(cb, rep),
                Err(err) => RpcReplyOutcome::UnparsableReply(id, err),
            },
            RpcDispatch::Mismatching(err) => RpcReplyOutcome::Mismatching(err),
        }
    }

    /// The error reported for a server message which is not an RPC reply.
    pub fn on_reply_unparsable(&self, err: ParseReplyError) -> (e: RpcReplyError)
        ensures
            e == RpcReplyError::UnparsableMsg(err),
    {
        RpcReplyError::UnparsableMsg(err)
    }

    /// The error reported for a reply whose payload can't be read.
    pub fn on_reply_payload_unparsable(&self, id: u64, reason: String) -> (e: RpcReplyError)
        ensures
            e matches RpcReplyError::UnparsableReply(i, s) && i == id && s@ == reason@,
    {
        RpcReplyError::UnparsableReply(id, reason)
    }
}

/// A request's callback is handed out by exactly one reply: right after a
/// request is registered its id is pending with its callback; once that
/// reply is matched, the id is no longer pending (a repeated reply finds
/// nothing) and the pending requests are those from before the request.
pub proof fn lemma_rpc_reply_matched_once<C>(s: RpcService<C>, cb: C)
    requires
        s.wf(),
    ensures
        ({
            let k = s.next_id();
            let registered = s.pending().insert(k, cb);
            &&& registered.contains_key(k)
            &&& registered[k] == cb
            &&& !registered.remove(k).contains_key(k)
            &&& registered.remove(k) == s.pending()
        }),
{
    let k = s.next_id();
    assert(!s.pending().contains_key(k));
    assert(s.pending().insert(k, cb).remove(k) =~= s.pending());
}

/// The pending requests and the next id after registering the callbacks
/// `cbs` one after another, as [`RpcService::before_send`] does, starting
/// from the pending requests `pending` and the next id `next`.
pub open spec fn after_requests<C>(pending: Map<u64, C>, next: u64, cbs: Seq<C>) -> (Map<u64, C>, u64)
    decreases cbs.len(),
{
    if cbs.len() == 0 {
        (pending, next)
    } else {
        after_requests(pending.insert(next, cbs[0]), (next + 1) as u64, cbs.drop_first())
    }
}

proof fn lemma_after_requests<C>(pending: Map<u64, C>, next: u64, cbs: Seq<C>)
    requires
        next + cbs.len() <= u64::MAX,
    ensures
        ({
            let (p, n) = after_requests(pending, next, cbs);
            &&& n == next + cbs.len()
            &&& forall|k: u64| #[trigger]
                p.contains_key(k) <==> (pending.contains_key(k) || (next <= k && k < next + cbs.len()))
            &&& forall|j: int| 0 <= j < cbs.len() ==> #[trigger] p[(next + j) as u64] == cbs[j]
            &&& forall|k: u64|
                pending.contains_key(k) && !(next <= k && k < next + cbs.len()) ==> #[trigger] p[k]
                    == pending[k]
        }),
    decreases cbs.len(),
{
    if cbs.len() > 0 {
        let rest = cbs.drop_first();
        let p1 = pending.insert(next, cbs[0]);
        lemma_after_requests(p1, (next + 1) as u64, rest);
        let (p, n) = after_requests(pending, next, cbs);
        assert(after_requests(pending, next, cbs) == after_requests(p1, (next + 1) as u64, rest));
        assert forall|j: int| 0 <= j < cbs.len() implies #[trigger] p[(next + j) as u64] == cbs[j] by {
            if j == 0 {
                assert(p1.contains_key(next));
                assert(!(next + 1 <= next && next < next + 1 + rest.len()));
            } else {
                assert(rest[j - 1] == cbs[j]);
                assert(((next + 1) + (j - 1)) as u64 == (next + j) as u64);
            }
        }
    }
}

/// Successive requests on a registry that `new` made get the ids 0, 1,
/// 2, ...: after registering callbacks one after another, the k-th of them
/// is pending under the id k, no other id is pending, and the next request
/// gets the number of callbacks registered as its id.
pub proof fn lemma_rpc_ids_successive<C>(cbs: Seq<C>)
    requires
        cbs.len() < u64::MAX,
    ensures
        ({
            let (pending, next) = after_requests(Map::<u64, C>::empty(), 0, cbs);
            &&& next == cbs.len()
            &&& forall|k: u64| #[trigger] pending.contains_key(k) <==> k < cbs.len()
            &&& forall|j: int| 0 <= j < cbs.len() ==> #[trigger] pending[j as u64] == cbs[j]
        }),
{
    lemma_after_requests(Map::<u64, C>::empty(), 0, cbs);
    let (pending, next) = after_requests(Map::<u64, C>::empty(), 0, cbs);
    assert forall|j: int| 0 <= j < cbs.len() implies #[trigger] pending[j as u64] == cbs[j] by {
        assert((0 + j) as u64 == j as u64);
    }
}

/// Whether `after` follows `before` by one request registered with
/// [`RpcService::before_send`], which got the id `before.next_id()`.
pub open spec fn request_step<C>(before: RpcService<C>, after: RpcService<C>) -> bool {
    &&& exists|cb: C| after.pending() == #[trigger] before.pending().insert(before.next_id(), cb)
    &&& after.next_id() == before.next_id() + 1
}

/// Whether `after` follows `before` by one reply handled with
/// [`RpcService::on_reply`] or [`RpcService::handle_reply`]: the next id
/// stays, and no id becomes pending.
pub open spec fn reply_step<C>(before: RpcService<C>, after: RpcService<C>) -> bool {
    &&& after.next_id() == before.next_id()
    &&& forall|id: u64| #[trigger] after.pending().contains_key(id) ==> before.pending().contains_key(id)
}

/// Number of requests registered in the first `n` steps of a run.
pub open spec fn requests_in<C>(run: Seq<RpcService<C>>, n: int) -> nat
    decreases n,
{
    if n <= 0 {
        0
    } else {
        requests_in(run, n - 1) + if request_step(run[n - 1], run[n]) {
            1nat
        } else {
            0nat
        }
    }
}

/// Over any run of a registry that `new` made, requests and replies
/// interleaved in any order, the requests get the ids 0, 1, 2, ... in the
/// order they are made: before each step the next id is the number of
/// requests made so far, so two requests never share an id.
pub proof fn lemma_rpc_ids_over_a_run<C>(run: Seq<RpcService<C>>)
    requires
        run.len() > 0,
        run[0].next_id() == 0,
        forall|i: int|
            0 <= i < run.len() - 1 ==> request_step(#[trigger] run[i], run[i + 1]) || reply_step(
                run[i],
                run[i + 1],
            ),
    ensures
        forall|i: int| 0 <= i < run.len() ==> #[trigger] run[i].next_id() == requests_in(run, i),
        forall|i: int, j: int|
            0 <= i < j < run.len() - 1 && request_step(run[i], run[i + 1]) && request_step(
                run[j],
                run[j + 1],
            ) ==> #[trigger] run[i].next_id() < #[trigger] run[j].next_id(),
{
    assert forall|i: int| 0 <= i < run.len() implies #[trigger] run[i].next_id() == requests_in(run, i) by {
        lemma_requests_in(run, i);
    }
    assert forall|i: int, j: int|
        0 <= i < j < run.len() - 1 && request_step(run[i], run[i + 1]) && request_step(
            run[j],
            run[j + 1],
        ) implies #[trigger] run[i].next_id() < #[trigger] run[j].next_id() by {
        lemma_requests_in(run, i);
        lemma_requests_in(run, i + 1);
        lemma_requests_in(run, j);
        lemma_requests_in_monotonic(run, i + 1, j);
    }
}

proof fn lemma_requests_in<C>(run: Seq<RpcService<C>>, i: int)
    requires
        0 <= i < run.len(),
        run[0].next_id() == 0,
        forall|k: int|
            0 <= k < run.len() - 1 ==> request_step(#[trigger] run[k], run[k + 1]) || reply_step(
                run[k],
                run[k + 1],
            ),
    ensures
        run[i].next_id() == requests_in(run, i),
    decreases i,
{
    if i > 0 {
        lemma_requests_in(run, i - 1);
        assert(request_step(run[i - 1], run[i]) || reply_step(run[i - 1], run[i]));
    }
}

proof fn lemma_requests_in_monotonic<C>(run: Seq<RpcService<C>>, i: int, j: int)
    requires
        0 <= i <= j,
    ensures
        requests_in(run, i) <= requests_in(run, j),
    decreases j - i,
{
    if i < j {
        lemma_requests_in_monotonic(run, i, j - 1);
    }
}

/// A reply is handled once: once a reply with some id was handled, another
/// reply with the same id matches no pending request and changes nothing.
pub proof fn lemma_rpc_reply_handled_once<A, S: NetSession, D: RpcDelegate<A, S>, C>(
    p0: Map<u64, C>,
    p1: Map<u64, C>,
    p2: Map<u64, C>,
    first: RpcReply,
    second: RpcReply,
    o1: RpcReplyOutcome<C, D::Reply, D::ReplyError>,
    o2: RpcReplyOutcome<C, D::Reply, D::ReplyError>,
)
    requires
        handled_reply::<A, S, D, C>(p0, p1, first, o1),
        handled_reply::<A, S, D, C>(p1, p2, second, o2),
        second.id == first.id,
    ensures
        o2 matches RpcReplyOutcome::Mismatching(RpcReplyError::MismatchingReply(id, _)) && id == second.id,
        p2 == p1,
{
}

/// Callbacks of an RPC client, provided by its user.
pub trait RpcDelegate<A, S: NetSession>: ConnectionDelegate<A, S> {
    /// Replies to the requests of the user.
    type Reply;
    /// Why a reply payload is not a reply.
    type ReplyError;

    /// Whether `r` is what parsing the reply payload gives; the meaning is
    /// given by each implementation.
    open spec fn parses_payload(payload: Seq<u8>, r: Result<Self::Reply, Self::ReplyError>) -> bool {
        arbitrary()
    }

    /// Parses the payload of an RPC reply.
    fn parse_reply(payload: Vec<u8>) -> (r: Result<Self::Reply, Self::ReplyError>)
        ensures
            Self::parses_payload(payload@, r),
    ;

    /// A message of the server which could not be processed, by the text of
    /// its error.
    fn on_msg_error(&self, err: String);

    /// A reply of the server.
    fn on_reply(&mut self, reply: Self::Reply);
}

} // verus!
