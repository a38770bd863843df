//! Reactor handler state of a peer-to-peer node: pending inbound and
//! outbound connections, known remotes and the actions for the reactor.
use std::collections::HashMap;
use std::collections::VecDeque;
use vstd::prelude::*;
use vstd::pervasive::cloned;
use vstd::std_specs::hash::spec_hash_map_iter;
use vstd::std_specs::iter::IteratorSpec;

use super::remotes::{DisconnectReason, Inbound, Outbound, Remote, Remotes, ResId};
use crate::connection::{NetConnection, NetListener};
use crate::netio::IoError;
use crate::resource::{ListenerEvent, NetAccept, NetTransport};
use crate::session::NetSession;
use crate::Direction;

verus! {

broadcast use vstd::std_specs::hash::group_hash_axioms;

/// Commands to a node from outside of its reactor.
#[derive(Copy, Clone, Debug, PartialEq, Eq, Structural, Hash)]
pub enum NodeCtl {
    /// Stop the node.
    Terminate,
}

/// Traffic counters of a peer.
#[derive(Copy, Clone, Debug, PartialEq, Eq, Hash, Default)]
pub struct Metrics {
    pub bytes_sent: usize,
    pub bytes_received: usize,
    pub messages_sent: usize,
    pub messages_received: usize,
    pub inbound_connection_attempts: usize,
    pub outbound_connection_attempts: usize,
    pub disconnects: usize,
}

impl Metrics {
    /// All counters zero.
    pub fn new() -> (m: Metrics)
        ensures
            m.bytes_sent == 0 && m.bytes_received == 0 && m.messages_sent == 0
                && m.messages_received == 0 && m.inbound_connection_attempts == 0
                && m.outbound_connection_attempts == 0 && m.disconnects == 0,
    {
        Metrics {
            bytes_sent: 0,
            bytes_received: 0,
            messages_sent: 0,
            messages_received: 0,
            inbound_connection_attempts: 0,
            outbound_connection_attempts: 0,
            disconnects: 0,
        }
    }
}

/// Instructions of the node to the reactor.
pub enum NodeAction<S: NetSession, L: NetListener<Stream = S::Connection>> {
    /// Register a listener.
    RegisterListener(NetAccept<S, L>),
    /// Register the transport of a new connection.
    RegisterTransport(NetTransport<S, ResId>),
    /// Unregister the listener with the given resource id and hand it over.
    UnregisterListener(ResId),
    /// Unregister the transport with the given resource id and hand it over.
    UnregisterTransport(ResId),
    /// Write the data to the transport with the given resource id.
    Send(ResId, Vec<u8>),
    /// Call back the node after the given number of milliseconds.
    SetTimer(u64),
    /// Stop the reactor.
    Terminate,
}

/// Business logic of a node, provided by its user: which connections to
/// accept, how to make their sessions, and what to do with requests.
pub trait NodeController<A, I, S: NetSession, L: NetListener<Stream = S::Connection>>: Sized {
    /// Requests of the peers.
    type Request;
    /// Why a message of a peer is not a request.
    type RequestError;
    /// Replies to the peers.
    type Reply;

    /// Whether handing out the actions `actions`, in this order, takes the
    /// controller from `self` to `after`; the meaning is given by each
    /// implementation.
    open spec fn hands_out(&self, after: Self, actions: Seq<NodeAction<S, L>>) -> bool {
        arbitrary()
    }

    /// Actions the controller has for the reactor, in the order they are to
    /// be taken.
    fn extract_actions(&mut self) -> (r: Vec<NodeAction<S, L>>)
        ensures
            old(self).hands_out(*final(self), r@),
    ;

    /// Whether the controller, in its state, accepts a connection from the
    /// remote address; the meaning is given by each implementation.
    open spec fn accepts(&self, remote: A) -> bool {
        arbitrary()
    }

    /// Whether deciding on a connection from the remote address takes the
    /// controller from `before` to `after`; the meaning is given by each
    /// implementation.
    open spec fn decides(before: Self, remote: A, after: Self) -> bool {
        arbitrary()
    }

    /// Whether making the session of the connection from the remote address
    /// gives `r` and takes the controller from `before` to `after`; the
    /// meaning is given by each implementation.
    open spec fn makes_session(
        before: Self,
        remote: A,
        connection: S::Connection,
        after: Self,
        r: Result<S, IoError>,
    ) -> bool {
        arbitrary()
    }

    /// Whether to accept a connection from the remote address.
    fn should_accept(&mut self, remote: &A) -> (r: bool)
        ensures
            r == old(self).accepts(*remote),
            Self::decides(*old(self), *remote, *final(self)),
    ;

    /// Makes the session of an accepted connection.
    fn accept(&mut self, remote: A, connection: S::Connection) -> (r: Result<S, IoError>)
        ensures
            Self::makes_session(*old(self), remote, connection, *final(self), r),
    ;

    /// The reactor ticked at the given time, in milliseconds.
    fn on_tick(&mut self, time: u64, metrics: &HashMap<I, Metrics>);

    /// The timer of the node fired.
    fn on_timer(&mut self);

    /// Parses a message of a peer.
    fn parse_request(data: Vec<u8>) -> Result<Self::Request, Self::RequestError>;

    /// A request of a peer; replies go through `sender`.
    fn on_request<F: Fn(Self::Reply)>(&mut self, req: Self::Request, sender: F);

    /// A message of a peer which is not a request; replies go through
    /// `sender`.
    fn on_request_unparsable<F: Fn(Self::Reply)>(&mut self, err: Self::RequestError, sender: F);
}

/// What became of an event of a listener.
pub enum InboundOutcome {
    /// The connection with the given descriptor was accepted and its
    /// transport is to be registered.
    Accepted(i32),
    /// The connection has no remote address; it was dropped.
    NoRemoteAddr(IoError),
    /// The controller refused the connection; it was dropped.
    Rejected,
    /// The controller failed to make a session for the connection.
    SessionFailed(IoError),
    /// No transport could be made for the session.
    TransportFailed(IoError),
    /// The listener failed to accept a connection.
    ListenerFailed(IoError),
}

/// Reactor handler state of a node.
pub struct NodeService<A, I, S: NetSession, L: NetListener<Stream = S::Connection>, C> {
    controller: C,
    listening: HashMap<i32, L::Addr>,
    inbound: HashMap<i32, Inbound<A>>,
    outbound: HashMap<i32, Outbound<A, I>>,
    remotes: Remotes<A, I>,
    metrics: HashMap<I, Metrics>,
    actions: VecDeque<NodeAction<S, L>>,
}

impl<
    A: Clone,
    I: Copy + PartialEq,
    S: NetSession,
    L: NetListener<Stream = S::Connection>,
    C: NodeController<A, I, S, L>,
> NodeService<A, I, S, L, C> where S::Connection: NetConnection<Addr = A> {
    /// Accepted inbound connections by descriptor.
    pub closed spec fn spec_inbound(&self) -> Map<i32, Inbound<A>> {
        self.inbound@
    }

    /// Outbound connection attempts by descriptor.
    pub closed spec fn spec_outbound(&self) -> Map<i32, Outbound<A, I>> {
        self.outbound@
    }

    /// Remotes by resource id.
    pub closed spec fn spec_remotes(&self) -> Map<ResId, Remote<A, I>> {
        self.remotes.map()
    }

    /// Actions not yet taken by the reactor.
    pub closed spec fn actions(&self) -> Seq<NodeAction<S, L>> {
        self.actions@
    }

    /// The controller.
    pub closed spec fn spec_controller(&self) -> C {
        self.controller
    }

    /// Addresses of the listeners by descriptor.
    pub closed spec fn spec_listening(&self) -> Map<i32, L::Addr> {
        self.listening@
    }

    /// Node with no listeners, connections or actions, run by the controller.
    pub fn new(controller: C) -> (n: Self)
        ensures
            n.spec_controller() == controller,
            n.spec_listening() == Map::<i32, L::Addr>::empty(),
            n.spec_inbound() == Map::<i32, Inbound<A>>::empty(),
            n.spec_outbound() == Map::<i32, Outbound<A, I>>::empty(),
            n.spec_remotes() == Map::<ResId, Remote<A, I>>::empty(),
            n.actions() == Seq::<NodeAction<S, L>>::empty(),
    {
        NodeService {
            controller,
            listening: HashMap::new(),
            inbound: HashMap::new(),
            outbound: HashMap::new(),
            remotes: Remotes::new(),
            metrics: HashMap::new(),
            actions: VecDeque::new(),
        }
    }

    /// Records the address of a listener and schedules its registration.
    pub fn listen(&mut self, socket: NetAccept<S, L>)
        ensures
            final(self).actions() == old(self).actions().push(NodeAction::RegisterListener(socket)),
            exists|fd: i32|
                final(self).spec_listening().dom() == #[trigger] old(self).spec_listening().dom().insert(fd),
            final(self).spec_inbound() == old(self).spec_inbound(),
            final(self).spec_outbound() == old(self).spec_outbound(),
            final(self).spec_remotes() == old(self).spec_remotes(),
    {
        let fd = socket.raw_fd();
        let _ = self.listening.insert(fd, socket.local_addr());
        self.actions.push_back(NodeAction::RegisterListener(socket));
        proof {
            assert(self.listening@.dom() =~= old(self).listening@.dom().insert(fd));
            assert(self.spec_listening().dom() == old(self).spec_listening().dom().insert(fd));
        }
    }

    /// Records an outbound connection attempt.
    pub fn add_outbound(&mut self, fd: i32, attempt: Outbound<A, I>)
        ensures
            final(self).spec_outbound() == old(self).spec_outbound().insert(fd, attempt),
            final(self).spec_inbound() == old(self).spec_inbound(),
            final(self).spec_remotes() == old(self).spec_remotes(),
            final(self).actions() == old(self).actions(),
    {
        let _ = self.outbound.insert(fd, attempt);
    }

    /// Adds a remote with an established session.
    pub fn add_remote(&mut self, res_id: ResId, remote: Remote<A, I>)
        ensures
            final(self).spec_remotes() == old(self).spec_remotes().insert(res_id, remote),
            final(self).spec_inbound() == old(self).spec_inbound(),
            final(self).spec_outbound() == old(self).spec_outbound(),
            final(self).actions() == old(self).actions(),
    {
        self.remotes.insert(res_id, remote);
    }

    /// Accepts an inbound connection whose session the controller made:
    /// wraps it into a transport and schedules its registration, recording
    /// the connection by descriptor with the remote address.
    ///
    /// # Errors
    ///
    /// The failure to make the transport; nothing is recorded then.
    fn accept_inbound(&mut self, fd: i32, remote: A, session: S) -> (r: Result<(), IoError>)
        ensures
            final(self).spec_outbound() == old(self).spec_outbound(),
            final(self).spec_remotes() == old(self).spec_remotes(),
            final(self).spec_listening() == old(self).spec_listening(),
            final(self).spec_controller() == old(self).spec_controller(),
            r is Err ==> final(self).spec_inbound() == old(self).spec_inbound() && final(
                self).actions() == old(self).actions(),
            r is Ok ==> final(self).spec_inbound() == old(self).spec_inbound().insert(
                fd,
                Inbound { res_id: None, addr: remote },
            ) && final(self).actions().len() == old(self).actions().len() + 1
                && final(self).actions().drop_last() == old(self).actions() && (final(
                self).actions().last() matches NodeAction::RegisterTransport(t)
                && t.spec_direction() == Direction::Inbound && t.spec_id() is None
                && t.spec_session().sent() == session.sent() && t.spec_session().spec_established()
                == session.spec_established()),
    {
        match NetTransport::with_session(session, Direction::Inbound) {
            Err(err) => Err(err),
            Ok(transport) => {
                let _ = self.inbound.insert(fd, Inbound { res_id: None, addr: remote });
                self.actions.push_back(NodeAction::RegisterTransport(transport));
                proof {
                    assert(self.actions@.drop_last() =~= old(self).actions@);
                }
                Ok(())
            },
        }
    }

    /// Handles an event of a listener: an accepted connection is dropped when
    /// it has no remote address or the controller refuses it; otherwise the
    /// controller makes its session, whose transport is scheduled for
    /// registration, and the connection is recorded by descriptor.
    pub fn handle_listener_event(&mut self, event: ListenerEvent<S::Connection>) -> (o: InboundOutcome)
        ensures
            final(self).spec_outbound() == old(self).spec_outbound(),
            final(self).spec_remotes() == old(self).spec_remotes(),
            final(self).spec_listening() == old(self).spec_listening(),
            event is Failure ==> o is ListenerFailed && final(self).spec_controller() == old(
                self).spec_controller(),
            event is Accepted ==> !(o is ListenerFailed),
            match event {
                ListenerEvent::Accepted(conn) => match conn.spec_remote_addr() {
                    None => o is NoRemoteAddr && final(self).spec_controller() == old(
                        self,
                    ).spec_controller(),
                    Some(a) => {
                        &&& (o is Rejected) == !old(self).spec_controller().accepts(a)
                        &&& o is Rejected ==> C::decides(
                            old(self).spec_controller(),
                            a,
                            final(self).spec_controller(),
                        )
                        &&& old(self).spec_controller().accepts(a) ==> exists|
                            c: C,
                            a2: A,
                            res: Result<S, IoError>,
                        |
                            C::decides(old(self).spec_controller(), a, c) && cloned(a, a2)
                                && #[trigger] C::makes_session(
                                c,
                                a2,
                                conn,
                                final(self).spec_controller(),
                                res,
                            ) && match res {
                                Err(e) => o == InboundOutcome::SessionFailed(e),
                                Ok(session) => (o is Accepted || o is TransportFailed) && (o is Accepted
                                    ==> (final(self).actions().last() matches NodeAction::RegisterTransport(t)
                                    && t.spec_session().sent() == session.sent()
                                    && t.spec_session().spec_established() == session.spec_established())),
                            }
                        &&& o matches InboundOutcome::Accepted(fd) ==> fd == conn.spec_raw_fd()
                            && final(self).spec_inbound()[fd] == (Inbound { res_id: None, addr: a })
                    },
                },
                ListenerEvent::Failure(_) => true,
            },
            match o {
                InboundOutcome::Accepted(fd) => {
                    &&& final(self).spec_inbound().dom() == old(self).spec_inbound().dom().insert(fd)
                    &&& final(self).spec_inbound()[fd].res_id is None
                    &&& forall|k: i32| k != fd && #[trigger] old(self).spec_inbound().contains_key(k)
                        ==> final(self).spec_inbound()[k] == old(self).spec_inbound()[k]
                    &&& final(self).actions().len() == old(self).actions().len() + 1
                    &&& final(self).actions().drop_last() == old(self).actions()
                    &&& final(self).actions().last() matches NodeAction::RegisterTransport(t)
                    &&& t.spec_direction() == Direction::Inbound
                    &&& t.spec_id() is None
                },
                _ => final(self).spec_inbound() == old(self).spec_inbound() && final(self).actions()
                    == old(self).actions(),
            },
    {
        match event {
            ListenerEvent::Failure(err) => InboundOutcome::ListenerFailed(err),
            ListenerEvent::Accepted(connection) => {
                let remote = match connection.remote_addr() {
                    Ok(remote) => remote,
                    Err(err) => return InboundOutcome::NoRemoteAddr(err),
                };
                let fd = connection.raw_fd();
                if !self.controller.should_accept(&remote) {
                    return InboundOutcome::Rejected;
                }
                let ghost decided = self.controller;
                let ghost conn = connection;
                let cloned_remote = remote.clone();
                let ghost a2 = cloned_remote;
                let accepted = self.controller.accept(cloned_remote, connection);
                let ghost res = accepted;
                assert(C::makes_session(decided, a2, conn, self.controller, res));
                let session = match accepted {
                    Ok(session) => session,
                    Err(err) => {
                        proof {
                            assert(res == Err::<S, IoError>(err));
                            assert(C::decides(old(self).spec_controller(), remote, decided));
                            assert(C::makes_session(decided, a2, conn, self.spec_controller(), res));
                        }
                        return InboundOutcome::SessionFailed(err);
                    },
                };
                match self.accept_inbound(fd, remote, session) {
                    Ok(()) => {
                        proof {
                            assert(self.spec_inbound().dom() =~= old(self).spec_inbound().dom().insert(fd));
                        }
                        InboundOutcome::Accepted(fd)
                    },
                    Err(err) => InboundOutcome::TransportFailed(err),
                }
            },
        }
    }

    /// Tells the controller the reactor ticked, with the traffic counters.
    pub fn tick(&mut self, time: u64)
        ensures
            final(self).spec_listening() == old(self).spec_listening(),
            final(self).spec_inbound() == old(self).spec_inbound(),
            final(self).spec_outbound() == old(self).spec_outbound(),
            final(self).spec_remotes() == old(self).spec_remotes(),
            final(self).actions() == old(self).actions(),
    {
        self.controller.on_tick(time, &self.metrics);
    }

    /// Tells the controller its timer fired.
    pub fn handle_timer(&mut self)
        ensures
            final(self).spec_listening() == old(self).spec_listening(),
            final(self).spec_inbound() == old(self).spec_inbound(),
            final(self).spec_outbound() == old(self).spec_outbound(),
            final(self).spec_remotes() == old(self).spec_remotes(),
            final(self).actions() == old(self).actions(),
    {
        self.controller.on_timer();
    }

    /// Finds the identity of the outbound connection attempt registered
    /// under the resource id.
    fn outbound_by_res_id(&self, res_id: ResId) -> (r: Option<I>)
        ensures
            match r {
                Some(i) => exists|fd: i32|
                    #[trigger] self.spec_outbound().contains_key(fd) && self.spec_outbound()[fd].res_id
                        == Some(res_id) && self.spec_outbound()[fd].id == i,
                None => forall|fd: i32| #[trigger]
                    self.spec_outbound().contains_key(fd) ==> self.spec_outbound()[fd].res_id
                        != Some(res_id),
            },
    {
        let ghost m = self.outbound@;
        let ghost all = spec_hash_map_iter(&self.outbound).remaining();
        for entry in it: self.outbound.iter()
            invariant
                m == self.outbound@,
                it.seq() == all,
                forall|j: int|
                    0 <= j < it.index() ==> (#[trigger] all[j]).1.res_id != Some(res_id),
        {
            let (_, o) = entry;
            match o.res_id {
                Some(r) => {
                    if r == res_id {
                        proof {
                            let fd = *all[it.index() as int].0;
                            assert(m.contains_key(fd) && m[fd] == *all[it.index() as int].1);
                        }
                        return Some(o.id);
                    }
                },
                None => {},
            }
        }
        proof {
            assert forall|fd: i32| #[trigger] m.contains_key(fd) implies m[fd].res_id != Some(
                res_id,
            ) by {
                assert(all.contains((&fd, &m[fd])));
                let j = choose|j: int| 0 <= j < all.len() && all[j] == (&fd, &m[fd]);
                assert(all[j].1.res_id != Some(res_id));
            }
        }
        None
    }

    /// Disconnects the remote of a resource: a remote with an established
    /// session becomes disconnecting for the given reason and its transport
    /// is scheduled for unregistering; a remote already disconnecting is left
    /// as it is; a connection with no session yet is scheduled for
    /// unregistering. Returns the identity and link direction of the remote,
    /// if known.
    pub fn disconnect(&mut self, res_id: ResId, reason: DisconnectReason) -> (r: Option<(I, Direction)>)
        ensures
            final(self).spec_inbound() == old(self).spec_inbound(),
            final(self).spec_outbound() == old(self).spec_outbound(),
            match old(self).spec_remotes().get(res_id) {
                None => final(self).spec_remotes() == old(self).spec_remotes() && final(
                    self).actions() == old(self).actions().push(
                    NodeAction::UnregisterTransport(res_id),
                ) && match r {
                    Some((i, d)) => d == Direction::Outbound && exists|fd: i32|
                        #[trigger] old(self).spec_outbound().contains_key(fd) && old(
                            self).spec_outbound()[fd].res_id == Some(res_id) && old(
                            self).spec_outbound()[fd].id == i,
                    None => forall|fd: i32| #[trigger]
                        old(self).spec_outbound().contains_key(fd) ==> old(
                            self).spec_outbound()[fd].res_id != Some(res_id),
                },
                Some(Remote::Disconnecting { id, direction, .. }) => final(self).spec_remotes()
                    == old(self).spec_remotes() && final(self).actions() == old(self).actions()
                    && match id {
                    Some(i) => r == Some((i, direction)),
                    None => r is None,
                },
                Some(Remote::Connected { id, direction, .. }) => final(self).spec_remotes()
                    == old(self).spec_remotes().insert(
                    res_id,
                    Remote::Disconnecting { id: Some(id), reason, direction },
                ) && final(self).actions() == old(self).actions().push(
                    NodeAction::UnregisterTransport(res_id),
                ) && r == Some((id, direction)),
            },
    {
        match self.remotes.get(&res_id) {
            None => {
                self.actions.push_back(NodeAction::UnregisterTransport(res_id));
                match self.outbound_by_res_id(res_id) {
                    Some(id) => Some((id, Direction::Outbound)),
                    None => None,
                }
            },
            Some(Remote::Disconnecting { id, direction, .. }) => match id {
                Some(n) => Some((*n, *direction)),
                None => None,
            },
            Some(Remote::Connected { id, direction, .. }) => {
                let direction = *direction;
                let id = *id;
                self.remotes.insert(
                    res_id,
                    Remote::Disconnecting { id: Some(id), direction, reason },
                );
                self.actions.push_back(NodeAction::UnregisterTransport(res_id));
                Some((id, direction))
            },
        }
    }

    /// Takes the next action for the reactor: the actions the controller has
    /// are queued after those already scheduled, and the first of all is
    /// taken.
    pub fn next_action(&mut self) -> (a: Option<NodeAction<S, L>>)
        ensures
            old(self).actions().len() > 0 ==> a == Some(old(self).actions()[0]) && final(
                self).actions().take(old(self).actions().len() - 1) == old(self).actions().drop_first(),
            a is None ==> final(self).actions() == Seq::<NodeAction<S, L>>::empty(),
            exists|more: Seq<NodeAction<S, L>>|
                #[trigger] (old(self).actions() + more) == match a {
                    Some(first) => seq![first] + final(self).actions(),
                    None => Seq::<NodeAction<S, L>>::empty(),
                },
            exists|more: Seq<NodeAction<S, L>>| #[trigger] Self::takes_next(*old(self), more, *final(self), a),
            final(self).spec_listening() == old(self).spec_listening(),
            final(self).spec_inbound() == old(self).spec_inbound(),
            final(self).spec_outbound() == old(self).spec_outbound(),
            final(self).spec_remotes() == old(self).spec_remotes(),
    {
        let ghost controller_before = self.controller;
        let mut more = self.controller.extract_actions();
        let ghost queued = self.actions@;
        let ghost all_more = more@;
        let ghost mut taken = Seq::<NodeAction<S, L>>::empty();
        while more.len() > 0
            invariant
                self.actions@ == queued + taken,
                taken + more@ == all_more,
                controller_before == old(self).controller,
                controller_before.hands_out(self.controller, all_more),
                self.listening == old(self).listening,
                self.inbound == old(self).inbound,
                self.outbound == old(self).outbound,
                self.remotes == old(self).remotes,
            decreases more@.len(),
        {
            let ghost before = more@;
            let action = more.remove(0);
            proof {
                taken = taken.push(action);
                assert(taken + more@ =~= all_more) by {
                    assert(before =~= seq![action] + more@);
                }
            }
            self.actions.push_back(action);
            proof {
                assert(self.actions@ =~= queued + taken);
            }
        }
        proof {
            assert(taken =~= all_more);
        }
        let ghost full = self.actions@;
        let a = self.actions.pop_front();
        proof {
            if queued.len() > 0 {
                assert(self.actions@.take(queued.len() - 1) =~= queued.drop_first());
            }
            if let Some(first) = &a {
                assert(seq![*first] + self.actions@ =~= full);
            }
            assert(old(self).actions@ + all_more == match a {
                Some(first) => seq![first] + self.actions@,
                None => Seq::<NodeAction<S, L>>::empty(),
            });
            assert(Self::takes_next(*old(self), all_more, *self, a));
        }
        a
    }

    /// Whether `after` and the action `a` are what taking the next action
    /// gives from `before`, the controller having handed out `more`: the
    /// controller went from its state in `before` to that in `after` handing
    /// out `more`, which is queued after the scheduled actions; `a` is the
    /// first of all, and the others stay queued.
    pub open spec fn takes_next(before: Self, more: Seq<NodeAction<S, L>>, after: Self, a: Option<NodeAction<S, L>>) -> bool {
        &&& before.spec_controller().hands_out(after.spec_controller(), more)
        &&& before.actions() + more == match a {
            Some(first) => seq![first] + after.actions(),
            None => Seq::<NodeAction<S, L>>::empty(),
        }
    }

    /// Actions are taken in order: the scheduled ones first, then exactly
    /// those the controller handed out, in the order it handed them out.
    /// The `k`-th of them is the action taken when `k` is 0, and otherwise
    /// the one at position `k - 1` of the queue left.
    pub proof fn lemma_next_action_in_order(
        before: Self,
        more: Seq<NodeAction<S, L>>,
        after: Self,
        a: Option<NodeAction<S, L>>,
        k: int,
    )
        requires
            Self::takes_next(before, more, after, a),
            0 <= k < before.actions().len() + more.len(),
        ensures
            before.spec_controller().hands_out(after.spec_controller(), more),
            a is Some,
            after.actions().len() == before.actions().len() + more.len() - 1,
            k < before.actions().len() ==> (if k == 0 {
                a == Some(before.actions()[k])
            } else {
                after.actions()[k - 1] == before.actions()[k]
            }),
            k >= before.actions().len() ==> (if k == 0 {
                a == Some(more[k - before.actions().len()])
            } else {
                after.actions()[k - 1] == more[k - before.actions().len()]
            }),
    {
        let all = before.actions() + more;
        assert(all.len() > 0);
        if let Some(first) = a {
            assert(all[k] == (seq![first] + after.actions())[k]);
        }
    }
}

} // verus!
