//! Reactor-managed network transport: the state machine driving a session
//! through connection, handshake and data exchange, buffering outgoing data
//! the connection can't take at once.
use std::collections::VecDeque;
use std::marker::PhantomData;
use vstd::prelude::*;

use crate::bytes::{queue_drop_front, queue_extend, queue_to_vec};
use crate::netio::{IoError, IoErrorKind};
use crate::connection::{NetConnection, NetListener};
use crate::session::NetSession;
use crate::split::{ReadHalf, SplitIo, SplitIoError, WriteHalf};
use crate::{Direction, READ_BUFFER_SIZE};

verus! {

/// Read timeout set on connections of new transports, in milliseconds.
pub const READ_TIMEOUT_MS: u64 = 6000;

/// Write timeout set on connections of new transports, in milliseconds.
pub const WRITE_TIMEOUT_MS: u64 = 3000;

/// Kind of I/O event delivered to a resource.
#[derive(Copy, Clone, Debug, PartialEq, Eq, Structural, Hash)]
pub enum Io {
    /// Input event
    Read,
    /// Output event
    Write,
}

/// I/O events a resource is subscribed for.
#[derive(Copy, Clone, Debug, PartialEq, Eq, Structural, Hash)]
pub struct Interest {
    pub read: bool,
    pub write: bool,
}

impl Interest {
    /// No events.
    pub fn none() -> (i: Interest)
        ensures
            !i.read && !i.write,
    {
        Interest { read: false, write: false }
    }

    /// Only read events.
    pub fn read_only() -> (i: Interest)
        ensures
            i.read && !i.write,
    {
        Interest { read: true, write: false }
    }

    /// Only write events.
    pub fn write_only() -> (i: Interest)
        ensures
            !i.read && i.write,
    {
        Interest { read: false, write: true }
    }

    /// Both read and write events.
    pub fn read_write() -> (i: Interest)
        ensures
            i.read && i.write,
    {
        Interest { read: true, write: true }
    }
}

/// Events a listener produces for the reactor handler.
pub enum ListenerEvent<C> {
    /// A new incoming connection was accepted.
    Accepted(C),
    /// Listener `accept` call has resulted in a I/O error from the OS.
    Failure(IoError),
}

/// Events a transport produces for the reactor handler.
pub enum SessionEvent<S: NetSession> {
    /// The session handshake completed: the connection descriptor and the
    /// session artifact.
    Established(i32, S::Artifact),
    /// Data received from the remote.
    Data(Vec<u8>),
    /// The session ended.
    Terminated(IoError),
}

/// Stage of a transport's life.
#[derive(Copy, Clone, Debug, PartialEq, Eq, Structural, Hash)]
pub enum TransportState {
    /// The transport is initiated, but the connection has not established yet.
    /// This happens only for outgoing connections due to the use of
    /// non-blocking version of a `connect` sys-call. The state is switched once
    /// we receive first notification on a `write` event on this resource from
    /// the reactor `poll`.
    Init,
    /// The connection is established, but the session handshake is still in
    /// progress. This happens while encryption handshake, authentication and
    /// other protocols injected into the session haven't completed yet.
    Handshake,
    /// The session is active; all handshakes had completed.
    Active,
    /// Session was terminated by any reason: local shutdown, remote orderly
    /// shutdown, connectivity issue, dropped connections, encryption or
    /// authentication problem etc. Reading and writing from the resource in
    /// this state will result in an error.
    Terminated,
}

/// Direction of the link of a transport with respect to the local node.
#[derive(Copy, Clone, Debug, PartialEq, Eq, Structural, Hash)]
pub enum LinkDirection {
    Inbound,
    Outbound,
}

/// Position of a state in the life of a transport; states only move forward.
pub open spec fn state_rank(s: TransportState) -> int {
    match s {
        TransportState::Init => 0,
        TransportState::Handshake => 1,
        TransportState::Active => 2,
        TransportState::Terminated => 3,
    }
}

/// Events a transport in a given state subscribes for.
pub open spec fn spec_interests(state: TransportState, write_intent: bool) -> Interest {
    match state {
        TransportState::Init => Interest { read: false, write: true },
        TransportState::Terminated => Interest { read: false, write: false },
        _ => Interest { read: true, write: write_intent },
    }
}

/// Whether `event` is what a transport reports for the answer `res` of its
/// session to a read, given whether the session is established: no data
/// before establishment is no event, and after it the end of the session
/// (`ConnectionReset`); data is passed on as it came; `WouldBlock` is no
/// event; any other failure ends the session with that failure.
pub open spec fn read_event_is<S: NetSession>(
    res: Result<Vec<u8>, IoError>,
    established: bool,
    event: Option<SessionEvent<S>>,
) -> bool {
    match res {
        Ok(d) => if d@.len() == 0 {
            if established {
                event matches Some(SessionEvent::Terminated(e)) && e.kind == IoErrorKind::ConnectionReset
            } else {
                event is None
            }
        } else {
            event == Some(SessionEvent::<S>::Data(d))
        },
        Err(e) => if e.kind == IoErrorKind::WouldBlock {
            event is None
        } else {
            event == Some(SessionEvent::<S>::Terminated(e))
        },
    }
}

/// The answer to a flush of a transport, given the answer `w` of its
/// session to the write of the buffer and its answer `f` to the flush of
/// the session: a failed flush of the session takes precedence; a transient
/// failure of the write counts as the session taking nothing; any other
/// failure of the write is the answer.
pub open spec fn flush_answer(w: Result<usize, IoError>, f: Result<(), IoError>) -> Result<(), IoError> {
    match f {
        Err(e) => Err(e),
        Ok(()) => match w {
            Err(e) => if e.kind.spec_is_transient() {
                Ok(())
            } else {
                Err(e)
            },
            Ok(_) => Ok(()),
        },
    }
}

/// Whether flushing a transport whose session was `before`, with the bytes
/// `buf` buffered, may leave the session `after` with the answer `r`: the
/// whole buffer is handed to the session in one write, then the session is
/// flushed (see [`flush_answer`]).
pub open spec fn flushes_buffer<S: NetSession>(before: S, buf: Seq<u8>, after: S, r: Result<(), IoError>) -> bool {
    exists|w: Result<usize, IoError>, mid: S, f: Result<(), IoError>|
        #[trigger] S::writes(before, buf, mid, w) && #[trigger] S::flushes(mid, after, f) && r
            == flush_answer(w, f)
}

/// Reactor-managed listener: accepts connections for sessions of type `S`.
pub struct NetAccept<S: NetSession, L: NetListener<Stream = S::Connection>> {
    listener: L,
    _phantom: PhantomData<S>,
}

impl<S: NetSession, L: NetListener<Stream = S::Connection>> NetAccept<S, L> {
    /// The listener.
    pub closed spec fn spec_listener(&self) -> L {
        self.listener
    }

    /// Listens on the address, in non-blocking mode: a failure to bind is
    /// returned as it came; so is a failure to switch the listener to
    /// non-blocking mode.
    pub fn bind(addr: &L::Addr) -> (r: Result<Self, IoError>)
        ensures
            exists|bound: Result<L, IoError>| #[trigger] L::binds(*addr, bound) && match bound {
                Err(e) => r matches Err(f) && f == e,
                Ok(listener) => r matches Ok(a) ==> a.spec_listener() == listener,
            },
    {
        let bound = L::bind(addr);
        let ghost bound_g = bound;
        let listener = match bound {
            Ok(listener) => listener,
            Err(e) => return Err(e),
        };
        let r = match listener.set_nonblocking(true) {
            Ok(()) => Ok(NetAccept { listener, _phantom: PhantomData }),
            Err(e) => Err(e),
        };
        proof {
            assert(L::binds(*addr, bound_g));
        }
        r
    }

    /// Address the listener listens on.
    pub fn local_addr(&self) -> (a: L::Addr)
        ensures
            a == self.spec_listener().spec_local_addr(),
    {
        self.listener.local_addr()
    }

    /// Operating system descriptor of the listener.
    pub fn raw_fd(&self) -> (fd: i32)
        ensures
            fd == self.spec_listener().spec_raw_fd(),
    {
        self.listener.raw_fd()
    }

    /// Accepts a connection, giving it the transport timeouts and
    /// non-blocking mode.
    fn handle_accept(&mut self) -> (r: Result<S::Connection, IoError>)
        ensures
            r matches Ok(connection) ==> connection.spec_nonblocking(),
            final(self).spec_listener() == old(self).spec_listener(),
    {
        let mut connection = match self.listener.accept() {
            Ok(connection) => connection,
            Err(e) => return Err(e),
        };
        match connection.set_read_timeout(Some(READ_TIMEOUT_MS)) {
            Ok(()) => {},
            Err(e) => return Err(e),
        }
        match connection.set_write_timeout(Some(WRITE_TIMEOUT_MS)) {
            Ok(()) => {},
            Err(e) => return Err(e),
        }
        match connection.set_nonblocking(true) {
            Ok(()) => Ok(connection),
            Err(e) => Err(e),
        }
    }

    /// A listener only waits for incoming connections.
    pub fn interests(&self) -> (i: Interest)
        ensures
            i == (Interest { read: true, write: false }),
    {
        Interest::read_only()
    }

    /// On a read event accepts a connection, or reports the failure to;
    /// write events are ignored.
    pub fn handle_io(&mut self, io: Io) -> (r: Option<ListenerEvent<S::Connection>>)
        ensures
            (r is Some) <==> (io == Io::Read),
            r matches Some(ListenerEvent::Accepted(connection)) ==> connection.spec_nonblocking(),
            final(self).spec_listener() == old(self).spec_listener(),
    {
        match io {
            Io::Read => Some(
                match self.handle_accept() {
                    Err(err) => ListenerEvent::Failure(err),
                    Ok(connection) => ListenerEvent::Accepted(connection),
                },
            ),
            Io::Write => None,
        }
    }

    /// Nothing can be written to a listener.
    pub fn write(&mut self, buf: &[u8]) -> (r: Result<usize, IoError>)
        ensures
            r matches Err(e) && e.kind == IoErrorKind::InvalidInput,
    {
        Err(IoError::from_kind(IoErrorKind::InvalidInput))
    }

    /// Nothing can be flushed on a listener.
    pub fn flush(&mut self) -> (r: Result<(), IoError>)
        ensures
            r matches Err(e) && e.kind == IoErrorKind::InvalidInput,
    {
        Err(IoError::from_kind(IoErrorKind::InvalidInput))
    }

    /// A listener is never ready to write.
    pub fn is_ready_to_write(&self) -> (r: bool)
        ensures
            !r,
    {
        false
    }

    /// A listener has no write buffer to empty.
    pub fn empty_write_buf(&mut self) -> (r: Result<bool, IoError>)
        ensures
            r == Ok::<bool, IoError>(true),
    {
        Ok(true)
    }

    /// Nothing can be written to a listener.
    pub fn write_or_buf(&mut self, buf: &[u8]) -> (r: Result<(), IoError>)
        ensures
            r matches Err(e) && e.kind == IoErrorKind::InvalidInput,
    {
        Err(IoError::from_kind(IoErrorKind::InvalidInput))
    }
}

/// An attempt to re-assign the resource id of a transport which already has one.
#[derive(Copy, Clone, Debug, PartialEq, Eq)]
pub struct ResIdReassigned<Id> {
    pub current: Id,
    pub new: Id,
}

/// Reactor-managed transport around a network session.
pub struct NetTransport<S: NetSession, Id> {
    state: TransportState,
    session: S,
    link_direction: Direction,
    write_intent: bool,
    write_buffer: VecDeque<u8>,
    /// Resource id assigned by the reactor
    id: Option<Id>,
}

impl<S: NetSession, Id: Copy> NetTransport<S, Id> {
    /// Stage of the transport.
    pub closed spec fn spec_state(&self) -> TransportState {
        self.state
    }

    /// The session the transport drives.
    pub closed spec fn spec_session(&self) -> S {
        self.session
    }

    /// Direction of the link.
    pub closed spec fn spec_direction(&self) -> Direction {
        self.link_direction
    }

    /// Whether the transport wants to be notified when it can write.
    pub closed spec fn spec_write_intent(&self) -> bool {
        self.write_intent
    }

    /// Bytes written to the transport and not yet accepted by the session.
    pub closed spec fn buffered(&self) -> Seq<u8> {
        self.write_buffer@
    }

    /// Resource id assigned by the reactor.
    pub closed spec fn spec_id(&self) -> Option<Id> {
        self.id
    }

    /// All bytes ever written to the transport: those the session accepted,
    /// followed by those still buffered.
    pub open spec fn outgoing(&self) -> Seq<u8> {
        self.spec_session().sent() + self.buffered()
    }

    /// Constructs a transport for a session accepted from a listener; the
    /// session handshake is still to run.
    pub fn accept(session: S) -> (r: Result<Self, IoError>)
        ensures
            r matches Ok(t) ==> {
                &&& t.spec_state() == TransportState::Handshake
                &&& t.spec_direction() == Direction::Inbound
                &&& !t.spec_write_intent()
                &&& t.buffered() == Seq::<u8>::empty()
                &&& t.spec_id() is None
                &&& t.spec_session().sent() == session.sent()
            },
    {
        Self::with_state(session, TransportState::Handshake, Direction::Inbound)
    }

    /// What making a transport of `session` gives, for the answer `res` of
    /// the session to being put into non-blocking mode, given whether the
    /// session is established: the failure, or a transport, active if the
    /// session is established and in handshake otherwise, with the intent
    /// to write.
    pub fn on_nonblocking_set(
        session: S,
        established: bool,
        link_direction: Direction,
        res: Result<(), IoError>,
    ) -> (r: Result<Self, IoError>)
        ensures
            match res {
                Err(e) => r == Err::<Self, IoError>(e),
                Ok(()) => r matches Ok(t) && {
                    &&& t.spec_session() == session
                    &&& t.spec_state() == if established {
                        TransportState::Active
                    } else {
                        TransportState::Handshake
                    }
                    &&& t.spec_direction() == link_direction
                    &&& t.spec_write_intent()
                    &&& t.buffered() == Seq::<u8>::empty()
                    &&& t.spec_id() is None
                },
            },
    {
        match res {
            Err(e) => Err(e),
            Ok(()) => Ok(Self {
                state: if established {
                    TransportState::Active
                } else {
                    TransportState::Handshake
                },
                session,
                link_direction,
                write_intent: true,
                write_buffer: VecDeque::new(),
                id: None,
            }),
        }
    }

    /// Constructs reactor-managed resource around an existing session,
    /// putting its connection into non-blocking mode, and takes the answer
    /// of the session as [`NetTransport::on_nonblocking_set`] does: active if
    /// the session is established, in handshake otherwise.
    ///
    /// NB: Must not be called for connections created in a non-blocking mode!
    pub fn with_session(session: S, link_direction: Direction) -> (r: Result<Self, IoError>)
        ensures
            r matches Ok(t) ==> {
                &&& t.spec_state() == if session.spec_established() {
                    TransportState::Active
                } else {
                    TransportState::Handshake
                }
                &&& t.spec_direction() == link_direction
                &&& t.spec_write_intent()
                &&& t.buffered() == Seq::<u8>::empty()
                &&& t.spec_id() is None
                &&& t.spec_session().sent() == session.sent()
                &&& t.spec_session().spec_established() == session.spec_established()
                &&& t.spec_session().spec_nonblocking()
            },
    {
        let mut session = session;
        let established = session.is_established();
        let res = session.set_nonblocking(true);
        Self::on_nonblocking_set(session, established, link_direction, res)
    }

    fn with_state(session: S, state: TransportState, link_direction: Direction) -> (r: Result<
        Self,
        IoError,
    >)
        ensures
            r matches Ok(t) ==> {
                &&& t.spec_state() == state
                &&& t.spec_direction() == link_direction
                &&& !t.spec_write_intent()
                &&& t.buffered() == Seq::<u8>::empty()
                &&& t.spec_id() is None
                &&& t.spec_session().sent() == session.sent()
            },
    {
        let mut session = session;
        match session.set_read_timeout(Some(READ_TIMEOUT_MS)) {
            Err(e) => { return Err(e); },
            Ok(()) => {},
        }
        match session.set_write_timeout(Some(WRITE_TIMEOUT_MS)) {
            Err(e) => { return Err(e); },
            Ok(()) => {},
        }
        Ok(Self {
            state,
            session,
            link_direction,
            write_intent: false,
            write_buffer: VecDeque::new(),
            id: None,
        })
    }

    /// Tries to unwrap the underlying session, first handing the buffered
    /// data to it in a non-blocking way.
    ///
    /// # Errors
    ///
    /// Returns the transport back if the buffer can't be emptied: with a
    /// `WouldBlock` failure if the session took only a part of it, or with
    /// the session's own failure. With nothing buffered the session is
    /// handed back at once.
    pub fn into_session(self) -> (r: Result<S, (Self, IoError)>)
        ensures
            self.buffered().len() == 0 ==> r == Ok::<S, (Self, IoError)>(self.spec_session()),
            r matches Ok(s) ==> s.sent() == self.outgoing() && s.received()
                == self.spec_session().received(),
            r matches Err((t, e)) ==> {
                &&& t.outgoing() == self.outgoing()
                &&& t.spec_state() == self.spec_state()
                &&& t.spec_direction() == self.spec_direction()
                &&& t.spec_id() == self.spec_id()
                &&& 0 < t.buffered().len() <= self.buffered().len()
                &&& t.buffered() == self.buffered().skip(self.buffered().len() - t.buffered().len())
                &&& t.buffered().len() < self.buffered().len() ==> e.kind == IoErrorKind::WouldBlock
            },
    {
        if self.write_buffer.len() == 0 {
            return Ok(self.session);
        }
        let mut this = self;
        match this.empty_write_buf() {
            Err(err) => Err((this, err)),
            Ok(_) => Ok(this.session),
        }
    }

    /// Resource id assigned by the reactor, if any.
    pub fn resource_id(&self) -> (r: Option<Id>)
        ensures
            r == self.spec_id(),
    {
        self.id
    }

    /// Records the resource id assigned by the reactor; an id can be assigned once.
    pub fn set_resource_id(&mut self, id: Id) -> (r: Result<(), ResIdReassigned<Id>>)
        ensures
            match old(self).spec_id() {
                Some(current) => r == Err::<(), ResIdReassigned<Id>>(
                    ResIdReassigned { current, new: id },
                ) && final(self).spec_id() == old(self).spec_id(),
                None => r is Ok && final(self).spec_id() == Some(id),
            },
            final(self).spec_state() == old(self).spec_state(),
            final(self).spec_session() == old(self).spec_session(),
            final(self).buffered() == old(self).buffered(),
            final(self).spec_write_intent() == old(self).spec_write_intent(),
            final(self).spec_direction() == old(self).spec_direction(),
    {
        match self.id {
            Some(current) => Err(ResIdReassigned { current, new: id }),
            None => {
                self.id = Some(id);
                Ok(())
            },
        }
    }

    /// Stage of the transport.
    pub fn state(&self) -> (s: TransportState)
        ensures
            s == self.spec_state(),
    {
        self.state
    }

    /// Whether all handshakes completed and the session carries data.
    pub fn is_active(&self) -> (r: bool)
        ensures
            r == (self.spec_state() == TransportState::Active),
    {
        self.state == TransportState::Active
    }

    /// Whether the link was initiated by the remote.
    pub fn is_inbound(&self) -> (r: bool)
        ensures
            r == (self.spec_direction() == Direction::Inbound),
    {
        self.link_direction.is_inbound()
    }

    /// Whether the link was initiated locally.
    pub fn is_outbound(&self) -> (r: bool)
        ensures
            r == (self.spec_direction() == Direction::Outbound),
    {
        self.link_direction.is_outbound()
    }

    /// Direction of the link.
    pub fn link_direction(&self) -> (d: Direction)
        ensures
            d == self.spec_direction(),
    {
        self.link_direction
    }

    /// Local address of the connection.
    pub fn local_addr(&self) -> (a: S::Addr)
        ensures
            a == self.spec_session().spec_local_addr(),
    {
        self.session.local_addr()
    }

    /// The session artifact, once the session is established.
    pub fn artifact(&self) -> (r: Option<S::Artifact>)
        ensures
            r is Some <==> self.spec_session().spec_established(),
            r == self.spec_session().spec_artifact(),
    {
        self.session.artifact()
    }

    /// The session artifact of an established session.
    pub fn expect_peer_id(&self) -> (a: S::Artifact)
        requires
            self.spec_session().spec_established(),
        ensures
            self.spec_session().spec_artifact() == Some(a),
    {
        self.session.artifact().unwrap()
    }

    /// Number of buffered bytes.
    pub fn write_buf_len(&self) -> (n: usize)
        ensures
            n == self.buffered().len(),
    {
        self.write_buffer.len()
    }

    /// Human-readable identification of the session.
    pub fn display_session(&self) -> String {
        self.session.display()
    }

    /// Operating system descriptor of the connection.
    pub fn raw_fd(&self) -> (fd: i32)
        ensures
            fd == self.spec_session().spec_raw_fd(),
    {
        self.session.raw_fd()
    }

    /// Events the transport subscribes for: writes only while connecting,
    /// nothing once terminated, and otherwise reads, plus writes while it
    /// has something to write.
    pub fn interests(&self) -> (i: Interest)
        ensures
            i == spec_interests(self.spec_state(), self.spec_write_intent()),
    {
        match self.state {
            TransportState::Init => Interest::write_only(),
            TransportState::Terminated => Interest::none(),
            TransportState::Active | TransportState::Handshake => if self.write_intent {
                Interest::read_write()
            } else {
                Interest::read_only()
            },
        }
    }

    /// Whether data can be written to the transport.
    pub fn is_ready_to_write(&self) -> (r: bool)
        ensures
            r == (self.spec_state() == TransportState::Active),
    {
        self.state == TransportState::Active
    }

    fn terminate(&mut self, reason: IoError) -> (e: SessionEvent<S>)
        ensures
            e == SessionEvent::<S>::Terminated(reason),
            final(self).spec_state() == TransportState::Terminated,
            final(self).spec_session() == old(self).spec_session(),
            final(self).buffered() == old(self).buffered(),
            final(self).spec_write_intent() == old(self).spec_write_intent(),
            final(self).spec_direction() == old(self).spec_direction(),
            final(self).spec_id() == old(self).spec_id(),
    {
        self.state = TransportState::Terminated;
        SessionEvent::Terminated(reason)
    }

    /// What the transport does with the answer `res` of the session to the
    /// write of the whole buffer: the bytes written leave the buffer, and
    /// the intent to write stays while bytes remain; a transient failure
    /// counts as the session taking nothing; any other failure is returned,
    /// with the buffer kept.
    pub fn on_buffer_written(&mut self, res: Result<usize, IoError>) -> (r: Result<(), IoError>)
        requires
            res matches Ok(n) ==> n <= old(self).buffered().len(),
        ensures
            final(self).spec_session() == old(self).spec_session(),
            final(self).spec_state() == old(self).spec_state(),
            final(self).spec_direction() == old(self).spec_direction(),
            final(self).spec_id() == old(self).spec_id(),
            match res {
                Ok(n) => r == Ok::<(), IoError>(()) && final(self).buffered() == old(self).buffered().skip(n as int)
                    && final(self).spec_write_intent() == (n < old(self).buffered().len()),
                Err(e) => if e.kind.spec_is_transient() {
                    r == Ok::<(), IoError>(()) && final(self).buffered() == old(self).buffered()
                        && final(self).spec_write_intent() == (old(self).buffered().len() > 0)
                } else {
                    r == Err::<(), IoError>(e) && final(self).buffered() == old(self).buffered()
                        && final(self).spec_write_intent() == old(self).spec_write_intent()
                },
            },
    {
        let orig_len = self.write_buffer.len();
        let len = match res {
            Ok(n) => n,
            Err(err) => {
                if err.kind.is_transient() {
                    0
                } else {
                    return Err(err);
                }
            },
        };
        self.write_intent = orig_len > len;
        queue_drop_front(&mut self.write_buffer, len);
        proof {
            assert(old(self).write_buffer@.skip(0) =~= old(self).write_buffer@);
        }
        Ok(())
    }

    /// Hands the buffered bytes to the session in a single write, and takes
    /// its answer as [`NetTransport::on_buffer_written`] does: what the
    /// session took is the front of the buffer.
    fn flush_buffer(&mut self) -> (r: Result<(), IoError>)
        ensures
            final(self).outgoing() == old(self).outgoing(),
            final(self).spec_state() == old(self).spec_state(),
            final(self).spec_direction() == old(self).spec_direction(),
            final(self).spec_id() == old(self).spec_id(),
            final(self).buffered().len() <= old(self).buffered().len(),
            final(self).buffered() == old(self).buffered().skip(
                old(self).buffered().len() - final(self).buffered().len(),
            ),
            final(self).spec_session().sent() == old(self).spec_session().sent() + old(
                self,
            ).buffered().take(old(self).buffered().len() - final(self).buffered().len()),
            final(self).spec_session().received() == old(self).spec_session().received(),
            r is Ok ==> final(self).spec_write_intent() == (final(self).buffered().len() > 0),
            r is Err ==> final(self).buffered() == old(self).buffered(),
            r is Err ==> final(self).spec_write_intent() == old(self).spec_write_intent(),
            r matches Err(e) ==> !e.kind.spec_is_transient(),
            exists|w: Result<usize, IoError>|
                #[trigger] S::writes(old(self).spec_session(), old(self).buffered(), final(self).spec_session(), w)
                    && r == flush_answer(w, Ok(())),
    {
        let contents = queue_to_vec(&self.write_buffer);
        let res = self.session.write(contents.as_slice());
        let ghost res_g = res;
        proof {
            assert(S::writes(old(self).spec_session(), old(self).buffered(), self.spec_session(), res_g));
        }
        proof {
            assert(contents@.take(0) =~= Seq::<u8>::empty());
            assert(contents@.skip(0) =~= contents@);
            if let Ok(n) = res {
                assert(contents@.take(n as int) + contents@.skip(n as int) =~= contents@);
            }
        }
        let r = self.on_buffer_written(res);
        proof {
            assert(S::writes(old(self).spec_session(), old(self).buffered(), self.spec_session(), res_g));
            assert(r == flush_answer(res_g, Ok(())));
        }
        r
    }

    /// Hands buffered bytes to the session and flushes the session; a
    /// failure of the session flush takes precedence.
    pub fn flush(&mut self) -> (r: Result<(), IoError>)
        ensures
            final(self).outgoing() == old(self).outgoing(),
            final(self).spec_state() == old(self).spec_state(),
            final(self).spec_direction() == old(self).spec_direction(),
            final(self).spec_id() == old(self).spec_id(),
            final(self).buffered().len() <= old(self).buffered().len(),
            final(self).buffered() == old(self).buffered().skip(
                old(self).buffered().len() - final(self).buffered().len(),
            ),
            final(self).spec_session().sent() == old(self).spec_session().sent() + old(
                self,
            ).buffered().take(old(self).buffered().len() - final(self).buffered().len()),
            final(self).spec_session().received() == old(self).spec_session().received(),
            r is Ok ==> final(self).spec_write_intent() == (final(self).buffered().len() > 0),
            flushes_buffer(old(self).spec_session(), old(self).buffered(), final(self).spec_session(), r),
    {
        let res = self.flush_buffer();
        let ghost mid = self.session;
        let ghost w = choose|w: Result<usize, IoError>|
            #[trigger] S::writes(old(self).spec_session(), old(self).buffered(), mid, w) && res
                == flush_answer(w, Ok(()));
        let f = self.session.flush();
        let ghost f_g = f;
        let r = match f {
            Err(e) => Err(e),
            Ok(()) => res,
        };
        proof {
            assert(S::writes(old(self).spec_session(), old(self).buffered(), mid, w));
            assert(S::flushes(mid, self.spec_session(), f_g));
            assert(r == flush_answer(w, f_g));
        }
        r
    }

    fn handle_writable(&mut self) -> (r: Option<SessionEvent<S>>)
        ensures
            final(self).outgoing() == old(self).outgoing(),
            final(self).spec_direction() == old(self).spec_direction(),
            final(self).spec_id() == old(self).spec_id(),
            match r {
                None => final(self).spec_state() == old(self).spec_state(),
                Some(SessionEvent::Terminated(_)) => final(self).spec_state()
                    == TransportState::Terminated,
                Some(_) => false,
            },
            !old(self).spec_session().spec_established() ==> final(self).spec_write_intent(),
            final(self).buffered().len() <= old(self).buffered().len(),
            final(self).buffered() == old(self).buffered().skip(
                old(self).buffered().len() - final(self).buffered().len(),
            ),
            final(self).spec_session().sent() == old(self).spec_session().sent() + old(
                self,
            ).buffered().take(old(self).buffered().len() - final(self).buffered().len()),
            final(self).spec_session().received() == old(self).spec_session().received(),
            old(self).spec_session().spec_established() ==> exists|res: Result<(), IoError>|
                #[trigger] flushes_buffer(old(self).spec_session(), old(self).buffered(), final(self).spec_session(), res)
                    && match res {
                    Err(e) => if e.kind.spec_is_transient() {
                        r is None
                    } else {
                        r == Some(SessionEvent::<S>::Terminated(e))
                    },
                    Ok(()) => r is None,
                },
    {
        if !self.session.is_established() {
            let empty: Vec<u8> = Vec::new();
            let _ = self.session.write(empty.as_slice());
            proof {
                assert(empty@.take(0) =~= Seq::<u8>::empty());
                assert(forall|n: int| 0 <= n <= 0 ==> empty@.take(n) =~= Seq::<u8>::empty());
            }
            self.write_intent = true;
            return None;
        }
        let flushed = self.flush();
        let ghost flushed_g = flushed;
        let ghost session_after = self.session;
        let r = match flushed {
            Ok(()) => None,
            Err(err) => {
                if err.kind.is_transient() {
                    self.write_intent = true;
                    None
                } else {
                    Some(self.terminate(err))
                }
            },
        };
        proof {
            assert(flushes_buffer(old(self).spec_session(), old(self).buffered(), session_after, flushed_g));
        }
        r
    }

    /// What the transport does with the answer `res` of the session to a
    /// read, given whether the session is established:
    /// [`read_event_is`] gives the event; only a failure other than
    /// `WouldBlock` terminates the transport.
    pub fn on_read(&mut self, res: Result<Vec<u8>, IoError>, established: bool) -> (r: Option<
        SessionEvent<S>,
    >)
        ensures
            read_event_is(res, established, r),
            final(self).spec_session() == old(self).spec_session(),
            final(self).buffered() == old(self).buffered(),
            final(self).spec_write_intent() == old(self).spec_write_intent(),
            final(self).spec_direction() == old(self).spec_direction(),
            final(self).spec_id() == old(self).spec_id(),
            final(self).spec_state() == if res matches Err(e) && e.kind != IoErrorKind::WouldBlock {
                TransportState::Terminated
            } else {
                old(self).spec_state()
            },
    {
        match res {
            Ok(data) => {
                if data.len() == 0 {
                    if !established {
                        None
                    } else {
                        Some(SessionEvent::Terminated(IoError::from_kind(IoErrorKind::ConnectionReset)))
                    }
                } else {
                    Some(SessionEvent::Data(data))
                }
            },
            Err(err) => {
                if err.kind == IoErrorKind::WouldBlock {
                    None
                } else {
                    Some(self.terminate(err))
                }
            },
        }
    }

    /// Reads from the session once, and takes its answer as
    /// [`NetTransport::on_read`] does.
    fn handle_readable(&mut self) -> (r: Option<SessionEvent<S>>)
        ensures
            final(self).outgoing() == old(self).outgoing(),
            final(self).buffered() == old(self).buffered(),
            final(self).spec_write_intent() == old(self).spec_write_intent(),
            final(self).spec_direction() == old(self).spec_direction(),
            final(self).spec_id() == old(self).spec_id(),
            exists|res: Result<Vec<u8>, IoError>|
                #[trigger] read_event_is(res, final(self).spec_session().spec_established(), r)
                    && match res {
                    Ok(d) => d@.len() <= READ_BUFFER_SIZE && final(self).spec_session().received()
                        == old(self).spec_session().received() + d@,
                    Err(_) => final(self).spec_session().received() == old(
                        self,
                    ).spec_session().received(),
                },
            match r {
                None => final(self).spec_state() == old(self).spec_state(),
                Some(SessionEvent::Data(d)) => final(self).spec_state() == old(self).spec_state()
                    && 0 < d@.len() <= READ_BUFFER_SIZE && final(self).spec_session().received()
                    == old(self).spec_session().received() + d@,
                Some(SessionEvent::Terminated(e)) => final(self).spec_state()
                    == TransportState::Terminated || (final(self).spec_state() == old(self).spec_state() && e.kind == IoErrorKind::ConnectionReset
                    && final(self).spec_session().spec_established()),
                Some(SessionEvent::Established(..)) => false,
            },
    {
        let res = self.session.read(READ_BUFFER_SIZE);
        let established = self.session.is_established();
        let ghost res_ghost = res;
        let r = self.on_read(res, established);
        assert(read_event_is(res_ghost, self.spec_session().spec_established(), r));
        r
    }

    /// Whether handling one I/O event may take a transport from `before` to
    /// `after`, reporting `r`: its state does not move back, and
    /// establishment is reported exactly when the transport becomes active.
    pub open spec fn io_step(before: Self, after: Self, r: Option<SessionEvent<S>>) -> bool {
        &&& state_rank(before.spec_state()) <= state_rank(after.spec_state())
        &&& (r matches Some(SessionEvent::Established(..))) == (before.spec_state()
            != TransportState::Active && after.spec_state() == TransportState::Active)
    }

    /// Whether `after` and `r` are what a write event may give from
    /// `before`, as far as the flush of the buffer goes: once the session is
    /// established, the buffer is flushed (see [`flushes_buffer`]); a flush
    /// failing other than transiently ends the session with that failure,
    /// and otherwise the session does not end.
    pub open spec fn write_event_handled(before: Self, after: Self, r: Option<SessionEvent<S>>) -> bool {
        before.spec_session().spec_established() ==> exists|res: Result<(), IoError>|
            #[trigger] flushes_buffer(before.spec_session(), before.buffered(), after.spec_session(), res)
                && match res {
                Err(e) => if e.kind.spec_is_transient() {
                    !(r matches Some(SessionEvent::Terminated(_)))
                } else {
                    r == Some(SessionEvent::<S>::Terminated(e)) && after.spec_state() == TransportState::Terminated
                },
                Ok(()) => !(r matches Some(SessionEvent::Terminated(_))),
            }
    }

    /// A write event on an established session reports the end of the
    /// session exactly when flushing the buffer failed other than
    /// transiently, and then with that failure, the transport being
    /// terminated: the buffer was handed to the session in one write and
    /// the session flushed, and either the flush failed with it, or the flush
    /// succeeded and the write failed with it. Otherwise neither failed, or
    /// only transiently.
    pub proof fn lemma_write_event_ends_on_failed_flush(before: Self, after: Self, r: Option<SessionEvent<S>>)
        requires
            Self::write_event_handled(before, after, r),
            before.spec_session().spec_established(),
        ensures
            r matches Some(SessionEvent::Terminated(e)) ==> after.spec_state() == TransportState::Terminated
                && !e.kind.spec_is_transient() && exists|w: Result<usize, IoError>, mid: S, f: Result<(), IoError>|
                #[trigger] S::writes(before.spec_session(), before.buffered(), mid, w) && #[trigger] S::flushes(
                    mid,
                    after.spec_session(),
                    f,
                ) && (f == Err::<(), IoError>(e) || (f is Ok && w == Err::<usize, IoError>(e))),
            !(r matches Some(SessionEvent::Terminated(_))) ==> exists|
                w: Result<usize, IoError>,
                mid: S,
                f: Result<(), IoError>,
            |
                #[trigger] S::writes(before.spec_session(), before.buffered(), mid, w) && #[trigger] S::flushes(
                    mid,
                    after.spec_session(),
                    f,
                ) && (f matches Err(e) ==> e.kind.spec_is_transient()) && (f is Ok ==> (w matches Err(e)
                    ==> e.kind.spec_is_transient())),
    {
        let res = choose|res: Result<(), IoError>|
            #[trigger] flushes_buffer(before.spec_session(), before.buffered(), after.spec_session(), res)
                && match res {
                Err(e) => if e.kind.spec_is_transient() {
                    !(r matches Some(SessionEvent::Terminated(_)))
                } else {
                    r == Some(SessionEvent::<S>::Terminated(e)) && after.spec_state() == TransportState::Terminated
                },
                Ok(()) => !(r matches Some(SessionEvent::Terminated(_))),
            };
        let (w, mid, f) = choose|w: Result<usize, IoError>, mid: S, f: Result<(), IoError>|
            #[trigger] S::writes(before.spec_session(), before.buffered(), mid, w) && #[trigger] S::flushes(
                mid,
                after.spec_session(),
                f,
            ) && res == flush_answer(w, f);
        assert(S::writes(before.spec_session(), before.buffered(), mid, w) && S::flushes(mid, after.spec_session(), f));
    }

    /// Handles an I/O event from the reactor: completes the connection of an
    /// outbound transport, reads or writes through the session, reports the
    /// completion of the handshake and the termination of the session.
    pub fn handle_io(&mut self, io: Io) -> (r: Option<SessionEvent<S>>)
        requires
            old(self).spec_state() != TransportState::Terminated,
        ensures
            final(self).outgoing() == old(self).outgoing(),
            final(self).spec_direction() == old(self).spec_direction(),
            final(self).spec_id() == old(self).spec_id(),
            Self::io_step(*old(self), *final(self), r),
            io == Io::Write ==> Self::write_event_handled(*old(self), *final(self), r),
            final(self).spec_state() != TransportState::Init,
            (r matches Some(SessionEvent::Terminated(_))) == (final(self).spec_state()
                == TransportState::Terminated),
            r matches Some(SessionEvent::Established(..)) ==> final(self).spec_write_intent()
                && final(self).spec_session().spec_established(),
            r matches Some(SessionEvent::Established(fd, a)) ==> fd == final(self).spec_session().spec_raw_fd()
                && final(self).spec_session().spec_artifact() == Some(a),
            r matches Some(SessionEvent::Data(d)) ==> io == Io::Read && 0 < d@.len()
                <= READ_BUFFER_SIZE && final(self).spec_session().received() == old(
                self,
            ).spec_session().received() + d@,
            old(self).spec_state() == TransportState::Init ==> final(self).spec_write_intent(),
            old(self).spec_state() == TransportState::Handshake && final(self).spec_state()
                == TransportState::Handshake ==> final(self).spec_write_intent() == (io == Io::Read),
            io == Io::Read ==> final(self).buffered() == old(self).buffered(),
            io == Io::Read && !(r matches Some(SessionEvent::Established(..))) ==> exists|
                res: Result<Vec<u8>, IoError>,
            |
                #[trigger] read_event_is(res, final(self).spec_session().spec_established(), r)
                    && match res {
                    Ok(d) => d@.len() <= READ_BUFFER_SIZE && final(self).spec_session().received()
                        == old(self).spec_session().received() + d@,
                    Err(_) => final(self).spec_session().received() == old(
                        self,
                    ).spec_session().received(),
                },
            io == Io::Write ==> {
                &&& final(self).buffered().len() <= old(self).buffered().len()
                &&& final(self).buffered() == old(self).buffered().skip(
                    old(self).buffered().len() - final(self).buffered().len(),
                )
                &&& final(self).spec_session().sent() == old(self).spec_session().sent() + old(
                    self,
                ).buffered().take(old(self).buffered().len() - final(self).buffered().len())
                &&& final(self).spec_session().received() == old(self).spec_session().received()
            },
    {
        let mut force_write_intent = false;
        if self.state == TransportState::Init {
            force_write_intent = true;
            self.state = TransportState::Handshake;
        }
        let ghost mid = *self;
        let resp = match io {
            Io::Read => self.handle_readable(),
            Io::Write => self.handle_writable(),
        };
        let ghost after_io = *self;
        let ghost resp_g = resp;
        if force_write_intent {
            self.write_intent = true;
        } else if self.state == TransportState::Handshake {
            // During handshake, after each read we need to write and then wait
            self.write_intent = io == Io::Read;
        }
        let reset = match &resp {
            Some(SessionEvent::Terminated(e)) => e.kind == IoErrorKind::ConnectionReset,
            _ => false,
        };
        let r = if reset && self.state != TransportState::Handshake {
            self.state = TransportState::Terminated;
            resp
        } else if self.state == TransportState::Handshake && self.session.is_established() {
            // We just got connected; may need to send output
            self.write_intent = true;
            self.state = TransportState::Active;
            let fd = self.session.raw_fd();
            let artifact = self.expect_peer_id();
            Some(SessionEvent::Established(fd, artifact))
        } else {
            resp
        };
        proof {
            if io == Io::Read && !(r matches Some(SessionEvent::Established(..))) {
                let res = choose|res: Result<Vec<u8>, IoError>|
                    #[trigger] read_event_is(res, after_io.spec_session().spec_established(), resp_g)
                        && match res {
                        Ok(d) => d@.len() <= READ_BUFFER_SIZE && after_io.spec_session().received()
                            == mid.spec_session().received() + d@,
                        Err(_) => after_io.spec_session().received() == mid.spec_session().received(),
                    };
                assert(read_event_is(res, self.spec_session().spec_established(), r));
            }
            if io == Io::Write && old(self).spec_session().spec_established() {
                let res = choose|res: Result<(), IoError>|
                    #[trigger] flushes_buffer(mid.spec_session(), mid.buffered(), after_io.spec_session(), res)
                        && match res {
                        Err(e) => if e.kind.spec_is_transient() {
                            resp_g is None
                        } else {
                            resp_g == Some(SessionEvent::<S>::Terminated(e))
                        },
                        Ok(()) => resp_g is None,
                    };
                assert(flushes_buffer(old(self).spec_session(), old(self).buffered(), self.spec_session(), res));
            }
        }
        r
    }

    /// Writes the whole buffer to an active transport, buffering what the
    /// session can't take at once; returns the length of the buffer.
    ///
    /// # Errors
    ///
    /// `NotConnected` if the transport is not active (nothing is buffered
    /// then); otherwise the failure of the session, with the data buffered.
    pub fn write(&mut self, buf: &[u8]) -> (r: Result<usize, IoError>)
        ensures
            old(self).spec_state() != TransportState::Active ==> (r matches Err(e) && e.kind
                == IoErrorKind::NotConnected && final(self).buffered() == old(self).buffered()
                && final(self).spec_session() == old(self).spec_session()
                && final(self).spec_write_intent() == old(self).spec_write_intent()),
            old(self).spec_state() == TransportState::Active ==> final(self).outgoing() == old(self).outgoing() + buf@,
            r matches Ok(n) ==> n == buf@.len(),
            final(self).spec_state() == old(self).spec_state(),
            final(self).spec_direction() == old(self).spec_direction(),
            final(self).spec_id() == old(self).spec_id(),
    {
        if !self.is_ready_to_write() {
            return Err(IoError::from_kind(IoErrorKind::NotConnected));
        }
        match self.write_or_buf(buf) {
            Err(e) => Err(e),
            Ok(()) => Ok(buf.len()),
        }
    }

    /// What the transport does with the answer `res` of the session to the
    /// write of the whole buffer when the buffer has to get empty: a failure
    /// is returned with the buffer kept; otherwise the bytes written leave
    /// the buffer, and if some remain the result is `WouldBlock`, else
    /// whether the session took any bytes.
    pub fn on_buffer_drained(&mut self, res: Result<usize, IoError>) -> (r: Result<bool, IoError>)
        requires
            res matches Ok(n) ==> n <= old(self).buffered().len(),
        ensures
            final(self).spec_session() == old(self).spec_session(),
            final(self).spec_state() == old(self).spec_state(),
            final(self).spec_direction() == old(self).spec_direction(),
            final(self).spec_id() == old(self).spec_id(),
            final(self).spec_write_intent() == old(self).spec_write_intent(),
            match res {
                Ok(n) => final(self).buffered() == old(self).buffered().skip(n as int) && if n
                    < old(self).buffered().len() {
                    r matches Err(e) && e.kind == IoErrorKind::WouldBlock
                } else {
                    r == Ok::<bool, IoError>(n > 0)
                },
                Err(e) => r == Err::<bool, IoError>(e) && final(self).buffered() == old(
                    self,
                ).buffered(),
            },
    {
        let len = match res {
            Err(e) => { return Err(e); },
            Ok(n) => n,
        };
        queue_drop_front(&mut self.write_buffer, len);
        if self.write_buffer.len() > 0 {
            return Err(IoError::from_kind(IoErrorKind::WouldBlock));
        }
        Ok(len > 0)
    }

    /// Hands the buffered bytes to the session in a single write, and takes
    /// its answer as [`NetTransport::on_buffer_drained`] does: succeeds only
    /// if the buffer got empty, telling whether the session took any bytes.
    /// What the session took is the front of the buffer.
    pub fn empty_write_buf(&mut self) -> (r: Result<bool, IoError>)
        ensures
            final(self).outgoing() == old(self).outgoing(),
            final(self).spec_state() == old(self).spec_state(),
            final(self).spec_direction() == old(self).spec_direction(),
            final(self).spec_id() == old(self).spec_id(),
            final(self).spec_write_intent() == old(self).spec_write_intent(),
            final(self).spec_session().received() == old(self).spec_session().received(),
            final(self).buffered().len() <= old(self).buffered().len(),
            final(self).buffered() == old(self).buffered().skip(
                old(self).buffered().len() - final(self).buffered().len(),
            ),
            final(self).spec_session().sent() == old(self).spec_session().sent() + old(
                self,
            ).buffered().take(old(self).buffered().len() - final(self).buffered().len()),
            r is Ok ==> final(self).buffered() == Seq::<u8>::empty(),
            r is Err ==> (old(self).buffered().len() > 0 ==> final(self).buffered().len() > 0),
            r matches Ok(b) ==> b == (old(self).buffered().len() > 0),
            r matches Err(e) ==> (final(self).buffered().len() < old(self).buffered().len() ==> e.kind
                == IoErrorKind::WouldBlock),
    {
        let contents = queue_to_vec(&self.write_buffer);
        let res = self.session.write(contents.as_slice());
        proof {
            assert(contents@.take(0) =~= Seq::<u8>::empty());
            assert(contents@.skip(0) =~= contents@);
            if let Ok(n) = res {
                assert(contents@.take(n as int) + contents@.skip(n as int) =~= contents@);
            }
        }
        self.on_buffer_drained(res)
    }

    /// Appends the data to the write buffer and hands the buffer to the
    /// session; writing nothing does nothing.
    pub fn write_or_buf(&mut self, buf: &[u8]) -> (r: Result<(), IoError>)
        ensures
            final(self).outgoing() == old(self).outgoing() + buf@,
            final(self).spec_state() == old(self).spec_state(),
            final(self).spec_direction() == old(self).spec_direction(),
            final(self).spec_id() == old(self).spec_id(),
            buf@.len() == 0 ==> r is Ok && final(self).buffered() == old(self).buffered()
                && final(self).spec_session() == old(self).spec_session(),
            final(self).spec_session().sent() == old(self).spec_session().sent() + (old(
                self,
            ).buffered() + buf@).take(
                old(self).buffered().len() + buf@.len() - final(self).buffered().len(),
            ),
            final(self).buffered().len() <= old(self).buffered().len() + buf@.len(),
    {
        if buf.len() == 0 {
            assert(old(self).outgoing() + buf@ =~= old(self).outgoing());
            return Ok(());
        }
        queue_extend(&mut self.write_buffer, buf);
        proof {
            assert(self.outgoing() =~= old(self).outgoing() + buf@);
        }
        self.flush_buffer()
    }
}

/// The read half of a split transport.
pub struct TransportReader<S: NetSession> {
    state: TransportState,
    session: S::Read,
    link_direction: Direction,
}

impl<S: NetSession> TransportReader<S> {
    /// Stage of the transport when it was split.
    pub closed spec fn spec_state(&self) -> TransportState {
        self.state
    }

    /// Direction of the link.
    pub closed spec fn spec_direction(&self) -> Direction {
        self.link_direction
    }

    /// The read half of the session.
    pub closed spec fn spec_half(&self) -> S::Read {
        self.session
    }
}

impl<S: NetSession> ReadHalf for TransportReader<S> {
    fn read(&mut self, max_len: usize) -> (r: Result<Vec<u8>, IoError>) {
        self.session.read(max_len)
    }
}

/// The write half of a split transport.
pub struct TransportWriter<S: NetSession> {
    state: TransportState,
    session: S::Write,
    link_direction: Direction,
    write_intent: bool,
    sent_at_split: Ghost<Seq<u8>>,
}

impl<S: NetSession> TransportWriter<S> {
    /// Stage of the transport when it was split.
    pub closed spec fn spec_state(&self) -> TransportState {
        self.state
    }

    /// Direction of the link.
    pub closed spec fn spec_direction(&self) -> Direction {
        self.link_direction
    }

    /// Whether something was written since the last flush.
    pub closed spec fn spec_write_intent(&self) -> bool {
        self.write_intent
    }

    /// The write half of the session.
    pub closed spec fn spec_half(&self) -> S::Write {
        self.session
    }

    /// What the session had accepted for sending when it was split.
    pub closed spec fn spec_sent_at_split(&self) -> Seq<u8> {
        self.sent_at_split@
    }
}

impl<S: NetSession> WriteHalf for TransportWriter<S> {
    /// Writes through the session half; a flush is then due.
    fn write(&mut self, buf: &[u8]) -> (r: Result<usize, IoError>)
        ensures
            final(self).spec_write_intent(),
            final(self).spec_state() == old(self).spec_state(),
            final(self).spec_direction() == old(self).spec_direction(),
    {
        self.write_intent = true;
        self.session.write(buf)
    }

    /// Flushes the session half; no flush is due any more.
    fn flush(&mut self) -> (r: Result<(), IoError>)
        ensures
            !final(self).spec_write_intent(),
            final(self).spec_state() == old(self).spec_state(),
            final(self).spec_direction() == old(self).spec_direction(),
    {
        self.write_intent = false;
        self.session.flush()
    }
}

impl<S: NetSession, Id: Copy> SplitIo for NetTransport<S, Id> {
    type Read = TransportReader<S>;
    type Write = TransportWriter<S>;

    /// Halves match when they come from a transport in the same stage and
    /// direction and the session halves match.
    closed spec fn parts_match(read: &TransportReader<S>, write: &TransportWriter<S>) -> bool {
        &&& read.state == write.state
        &&& read.link_direction == write.link_direction
        &&& S::parts_match(&read.session, &write.session)
    }

    /// The halves carry the stage and the direction of the transport.
    closed spec fn halves_of(whole: Self, read: TransportReader<S>, write: TransportWriter<S>) -> bool {
        &&& read.state == whole.state
        &&& write.state == whole.state
        &&& read.link_direction == whole.link_direction
        &&& write.link_direction == whole.link_direction
    }

    /// Hands all buffered data to the session and flushes it, then splits
    /// the session. The transport is handed back when data remain buffered
    /// (`WouldBlock`), or the flush or the split of the session fails.
    fn split_io(self) -> (r: Result<(TransportReader<S>, TransportWriter<S>), SplitIoError<Self>>)
        ensures
            r matches Ok(halves) ==> {
                &&& halves.0.spec_state() == self.spec_state()
                &&& halves.1.spec_state() == self.spec_state()
                &&& halves.0.spec_direction() == self.spec_direction()
                &&& halves.1.spec_direction() == self.spec_direction()
                &&& !halves.1.spec_write_intent()
                &&& halves.1.spec_sent_at_split() == self.outgoing()
            },
            r matches Err(e) ==> {
                &&& e.original.spec_state() == self.spec_state()
                &&& e.original.spec_direction() == self.spec_direction()
                &&& e.original.spec_id() == self.spec_id()
                &&& e.original.buffered().len() <= self.buffered().len()
                &&& e.original.buffered() == self.buffered().skip(
                    self.buffered().len() - e.original.buffered().len(),
                )
                &&& e.original.buffered().len() > 0 ==> e.original.outgoing() == self.outgoing()
                &&& 0 < e.original.buffered().len() < self.buffered().len() ==> e.error.kind
                    == IoErrorKind::WouldBlock
            },
    {
        let mut this = self;
        match this.empty_write_buf() {
            Ok(_) => {},
            Err(error) => return Err(SplitIoError { original: this, error }),
        }
        match this.session.flush() {
            Ok(()) => {},
            Err(error) => return Err(SplitIoError { original: this, error }),
        }
        let ghost sent = this.session.sent();
        let NetTransport { state, session, link_direction, write_intent, write_buffer, id } = this;
        match session.split_io() {
            Err(err) => Err(
                SplitIoError {
                    original: NetTransport {
                        state,
                        session: err.original,
                        link_direction,
                        write_intent,
                        write_buffer,
                        id,
                    },
                    error: err.error,
                },
            ),
            Ok((reader, writer)) => Ok(
                (
                    TransportReader { state, session: reader, link_direction },
                    TransportWriter {
                        state,
                        session: writer,
                        link_direction,
                        write_intent: false,
                        sent_at_split: Ghost(sent),
                    },
                ),
            ),
        }
    }

    /// Joins the halves of one split into a transport with an empty write
    /// buffer and no resource id.
    fn from_split_io(read: TransportReader<S>, write: TransportWriter<S>) -> (t: Self)
        ensures
            t.spec_state() == read.spec_state(),
            t.spec_direction() == read.spec_direction(),
            t.spec_write_intent() == write.spec_write_intent(),
            t.buffered() == Seq::<u8>::empty(),
            t.spec_id() is None,
            S::halves_of(t.spec_session(), read.spec_half(), write.spec_half()),
    {
        NetTransport {
            state: read.state,
            session: S::from_split_io(read.session, write.session),
            link_direction: read.link_direction,
            write_intent: write.write_intent,
            write_buffer: VecDeque::new(),
            id: None,
        }
    }
}

/// The state of a transport never moves back along a run of I/O events:
/// from the step `i` on, it is at least what step `i` reached.
proof fn lemma_io_run_rank<S: NetSession, Id: Copy>(
    states: Seq<NetTransport<S, Id>>,
    events: Seq<Option<SessionEvent<S>>>,
    i: int,
    j: int,
)
    requires
        states.len() == events.len() + 1,
        forall|k: int|
            0 <= k < events.len() ==> #[trigger] NetTransport::io_step(states[k], states[k + 1], events[k]),
        0 <= i <= j < states.len(),
    ensures
        state_rank(states[i].spec_state()) <= state_rank(states[j].spec_state()),
    decreases j - i,
{
    if i < j {
        let k = j - 1;
        lemma_io_run_rank(states, events, i, k);
        assert(NetTransport::io_step(states[k], states[k + 1], events[k]));
    }
}

/// Establishment is reported once: along any run of I/O events handled by a
/// transport, no event after one reporting `Established` reports it again.
pub proof fn lemma_established_once<S: NetSession, Id: Copy>(
    states: Seq<NetTransport<S, Id>>,
    events: Seq<Option<SessionEvent<S>>>,
    i: int,
    j: int,
)
    requires
        states.len() == events.len() + 1,
        forall|k: int|
            0 <= k < events.len() ==> #[trigger] NetTransport::io_step(states[k], states[k + 1], events[k]),
        0 <= i < j < events.len(),
        events[i] matches Some(SessionEvent::Established(..)),
    ensures
        !(events[j] matches Some(SessionEvent::Established(..))),
{
    assert(NetTransport::io_step(states[i], states[i + 1], events[i]));
    lemma_io_run_rank(states, events, i + 1, j);
    assert(NetTransport::io_step(states[j], states[j + 1], events[j]));
    lemma_io_run_rank(states, events, j, j + 1);
}

} // verus!
