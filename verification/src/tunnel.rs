//! Relaying bytes between a local client connection and a remote session:
//! the buffers, the counts of relayed bytes and the decisions taken on each
//! I/O event of the tunnel.
use std::collections::VecDeque;
use vstd::prelude::*;

use crate::bytes::{queue_drop_front, queue_extend, queue_to_vec};
use crate::connection::{NetConnection, NetListener};
use crate::netio::{IoError, IoErrorKind};
use crate::resource::Interest;
use crate::session::NetSession;

verus! {

/// One of the two ends of a tunnel.
#[derive(Copy, Clone, Debug, PartialEq, Eq, Structural, Hash)]
pub enum TunnelSide {
    /// The local client connection accepted by the tunnel.
    Local,
    /// The remote session.
    Remote,
}

/// What the tunnel does after an I/O operation on one of its ends.
pub enum TunnelStep {
    /// Goes on, changing the events one end is polled for, if given.
    Continue(Option<(TunnelSide, Interest)>),
    /// Stops: an end was closed. Carries the numbers of bytes relayed from
    /// the remote to the local end and from the local to the remote end.
    Done(usize, usize),
    /// Stops with the failure of an I/O operation.
    Failed(IoError),
}

/// State of a tunnel: bytes received from each end and not yet written to
/// the other, and the numbers of bytes relayed in each direction.
pub struct TunnelRelay {
    in_buf: VecDeque<u8>,
    out_buf: VecDeque<u8>,
    in_count: usize,
    out_count: usize,
    from_remote: Ghost<Seq<u8>>,
    to_local: Ghost<Seq<u8>>,
    from_local: Ghost<Seq<u8>>,
    to_remote: Ghost<Seq<u8>>,
}

impl TunnelRelay {
    /// All bytes received from the remote end.
    pub closed spec fn received_from_remote(&self) -> Seq<u8> {
        self.from_remote@
    }

    /// All bytes written to the local end.
    pub closed spec fn sent_to_local(&self) -> Seq<u8> {
        self.to_local@
    }

    /// All bytes received from the local end.
    pub closed spec fn received_from_local(&self) -> Seq<u8> {
        self.from_local@
    }

    /// All bytes written to the remote end.
    pub closed spec fn sent_to_remote(&self) -> Seq<u8> {
        self.to_remote@
    }

    /// Bytes from the remote waiting to be written to the local end.
    pub closed spec fn inbound(&self) -> Seq<u8> {
        self.in_buf@
    }

    /// Bytes from the local end waiting to be written to the remote.
    pub closed spec fn outbound(&self) -> Seq<u8> {
        self.out_buf@
    }

    /// Number of bytes relayed from the remote to the local end.
    pub closed spec fn spec_in_count(&self) -> usize {
        self.in_count
    }

    /// Number of bytes relayed from the local to the remote end.
    pub closed spec fn spec_out_count(&self) -> usize {
        self.out_count
    }

    /// Each direction passes bytes through in order, losing and duplicating
    /// none: what was written to an end followed by what waits for it is
    /// what was received from the other end, and the count of a direction is
    /// the number of bytes written in it.
    pub closed spec fn wf(&self) -> bool {
        &&& self.to_local@ + self.in_buf@ == self.from_remote@
        &&& self.to_remote@ + self.out_buf@ == self.from_local@
        &&& self.to_local@.len() == self.in_count
        &&& self.to_remote@.len() == self.out_count
    }

    /// Tunnel which has relayed nothing yet.
    pub fn new() -> (t: Self)
        ensures
            t.wf(),
            t.received_from_remote() == Seq::<u8>::empty(),
            t.received_from_local() == Seq::<u8>::empty(),
            t.inbound() == Seq::<u8>::empty(),
            t.outbound() == Seq::<u8>::empty(),
    {
        let t = TunnelRelay {
            in_buf: VecDeque::new(),
            out_buf: VecDeque::new(),
            in_count: 0,
            out_count: 0,
            from_remote: Ghost(Seq::empty()),
            to_local: Ghost(Seq::empty()),
            from_local: Ghost(Seq::empty()),
            to_remote: Ghost(Seq::empty()),
        };
        proof {
            assert(t.to_local@ + t.in_buf@ =~= t.from_remote@);
            assert(t.to_remote@ + t.out_buf@ =~= t.from_local@);
        }
        t
    }

    /// Bytes to write to the local end.
    pub fn pending_local(&self) -> (v: Vec<u8>)
        ensures
            v@ == self.inbound(),
    {
        queue_to_vec(&self.in_buf)
    }

    /// Bytes to write to the remote end.
    pub fn pending_remote(&self) -> (v: Vec<u8>)
        ensures
            v@ == self.outbound(),
    {
        queue_to_vec(&self.out_buf)
    }

    /// Numbers of bytes relayed from the remote to the local end and from
    /// the local to the remote end.
    pub fn counts(&self) -> (c: (usize, usize))
        ensures
            c == (self.spec_in_count(), self.spec_out_count()),
    {
        (self.in_count, self.out_count)
    }

    /// Outcome of writing the waiting inbound bytes to the local end: a
    /// closed end stops the tunnel with the counts, a failure stops it with
    /// the failure; otherwise the written bytes leave the buffer and are
    /// counted, and once the buffer is empty the local end is polled for
    /// reads only.
    pub fn on_local_written(&mut self, res: Result<usize, IoError>) -> (step: TunnelStep)
        requires
            old(self).wf(),
            res matches Ok(n) ==> n <= old(self).inbound().len() && old(self).spec_in_count() + n
                <= usize::MAX,
        ensures
            final(self).wf(),
            final(self).received_from_remote() == old(self).received_from_remote(),
            final(self).received_from_local() == old(self).received_from_local(),
            final(self).outbound() == old(self).outbound(),
            final(self).spec_out_count() == old(self).spec_out_count(),
            match res {
                Ok(0) => step == TunnelStep::Done(old(self).spec_in_count(), old(self).spec_out_count())
                    && final(self).inbound() == old(self).inbound(),
                Ok(n) => final(self).sent_to_local() == old(self).sent_to_local() + old(
                    self).inbound().take(n as int) && final(self).inbound() == old(self).inbound().skip(
                    n as int) && final(self).spec_in_count() == old(self).spec_in_count() + n
                    && step == TunnelStep::Continue(
                    if final(self).inbound().len() == 0 {
                        Some((TunnelSide::Local, Interest { read: true, write: false }))
                    } else {
                        None
                    },
                ),
                Err(e) => step == TunnelStep::Failed(e) && final(self).inbound() == old(
                    self).inbound(),
            },
    {
        match res {
            Err(e) => TunnelStep::Failed(e),
            Ok(0) => TunnelStep::Done(self.in_count, self.out_count),
            Ok(n) => {
                let ghost taken = self.in_buf@.take(n as int);
                proof {
                    self.to_local@ = self.to_local@ + taken;
                }
                queue_drop_front(&mut self.in_buf, n);
                self.in_count = self.in_count + n;
                proof {
                    assert(self.to_local@ + self.in_buf@ =~= self.from_remote@) by {
                        assert(old(self).in_buf@ =~= taken + self.in_buf@);
                    }
                }
                if self.in_buf.len() == 0 {
                    TunnelStep::Continue(Some((TunnelSide::Local, Interest::read_only())))
                } else {
                    TunnelStep::Continue(None)
                }
            },
        }
    }

    /// Outcome of writing the waiting outbound bytes to the remote end; the
    /// same as [`TunnelRelay::on_local_written`] in the other direction.
    pub fn on_remote_written(&mut self, res: Result<usize, IoError>) -> (step: TunnelStep)
        requires
            old(self).wf(),
            res matches Ok(n) ==> n <= old(self).outbound().len() && old(self).spec_out_count()
                + n <= usize::MAX,
        ensures
            final(self).wf(),
            final(self).received_from_remote() == old(self).received_from_remote(),
            final(self).received_from_local() == old(self).received_from_local(),
            final(self).inbound() == old(self).inbound(),
            final(self).spec_in_count() == old(self).spec_in_count(),
            match res {
                Ok(0) => step == TunnelStep::Done(old(self).spec_in_count(), old(self).spec_out_count())
                    && final(self).outbound() == old(self).outbound(),
                Ok(n) => final(self).sent_to_remote() == old(self).sent_to_remote() + old(
                    self).outbound().take(n as int) && final(self).outbound() == old(self).outbound().skip(
                    n as int) && final(self).spec_out_count() == old(self).spec_out_count() + n
                    && step == TunnelStep::Continue(
                    if final(self).outbound().len() == 0 {
                        Some((TunnelSide::Remote, Interest { read: true, write: false }))
                    } else {
                        None
                    },
                ),
                Err(e) => step == TunnelStep::Failed(e) && final(self).outbound() == old(
                    self).outbound(),
            },
    {
        match res {
            Err(e) => TunnelStep::Failed(e),
            Ok(0) => TunnelStep::Done(self.in_count, self.out_count),
            Ok(n) => {
                let ghost taken = self.out_buf@.take(n as int);
                proof {
                    self.to_remote@ = self.to_remote@ + taken;
                }
                queue_drop_front(&mut self.out_buf, n);
                self.out_count = self.out_count + n;
                proof {
                    assert(self.to_remote@ + self.out_buf@ =~= self.from_local@) by {
                        assert(old(self).out_buf@ =~= taken + self.out_buf@);
                    }
                }
                if self.out_buf.len() == 0 {
                    TunnelStep::Continue(Some((TunnelSide::Remote, Interest::read_only())))
                } else {
                    TunnelStep::Continue(None)
                }
            },
        }
    }

    /// The poll reported a failure on an end: a hung-up end completes the
    /// tunnel with the counts, any other failure stops it with `BrokenPipe`.
    pub fn on_poll_failure(&self, hung_up: bool) -> (step: TunnelStep)
        ensures
            hung_up ==> step == TunnelStep::Done(self.spec_in_count(), self.spec_out_count()),
            !hung_up ==> (step matches TunnelStep::Failed(e) && e.kind == IoErrorKind::BrokenPipe),
    {
        if hung_up {
            TunnelStep::Done(self.in_count, self.out_count)
        } else {
            TunnelStep::Failed(IoError::from_kind(IoErrorKind::BrokenPipe))
        }
    }

    /// The poll timed out with no event: the tunnel stops with `TimedOut`.
    pub fn on_poll_timeout(&self) -> (step: TunnelStep)
        ensures
            step matches TunnelStep::Failed(e) && e.kind == IoErrorKind::TimedOut,
    {
        TunnelStep::Failed(IoError::from_kind(IoErrorKind::TimedOut))
    }

    /// Outcome of reading from the local end: a closed end stops the tunnel
    /// with the counts, a failure stops it with the failure; otherwise the
    /// bytes wait to be written to the remote, which is polled for writes.
    pub fn on_local_read(&mut self, res: Result<Vec<u8>, IoError>) -> (step: TunnelStep)
        requires
            old(self).wf(),
        ensures
            final(self).wf(),
            final(self).received_from_remote() == old(self).received_from_remote(),
            final(self).inbound() == old(self).inbound(),
            final(self).sent_to_remote() == old(self).sent_to_remote(),
            final(self).sent_to_local() == old(self).sent_to_local(),
            final(self).spec_in_count() == old(self).spec_in_count(),
            final(self).spec_out_count() == old(self).spec_out_count(),
            match res {
                Ok(d) => if d@.len() == 0 {
                    step == TunnelStep::Done(old(self).spec_in_count(), old(self).spec_out_count())
                        && final(self).received_from_local() == old(self).received_from_local()
                        && final(self).outbound() == old(self).outbound()
                } else {
                    step == TunnelStep::Continue(
                        Some((TunnelSide::Remote, Interest { read: true, write: true })),
                    ) && final(self).received_from_local() == old(self).received_from_local()
                        + d@ && final(self).outbound() == old(self).outbound() + d@
                },
                Err(e) => step == TunnelStep::Failed(e) && final(self).received_from_local()
                    == old(self).received_from_local() && final(self).outbound() == old(
                    self).outbound(),
            },
    {
        match res {
            Err(e) => TunnelStep::Failed(e),
            Ok(data) => {
                if data.len() == 0 {
                    return TunnelStep::Done(self.in_count, self.out_count);
                }
                proof {
                    self.from_local@ = self.from_local@ + data@;
                }
                queue_extend(&mut self.out_buf, data.as_slice());
                proof {
                    assert(self.to_remote@ + self.out_buf@ =~= self.from_local@);
                }
                TunnelStep::Continue(Some((TunnelSide::Remote, Interest::read_write())))
            },
        }
    }

    /// Outcome of reading from the remote end; the same as
    /// [`TunnelRelay::on_local_read`] in the other direction.
    pub fn on_remote_read(&mut self, res: Result<Vec<u8>, IoError>) -> (step: TunnelStep)
        requires
            old(self).wf(),
        ensures
            final(self).wf(),
            final(self).received_from_local() == old(self).received_from_local(),
            final(self).outbound() == old(self).outbound(),
            final(self).sent_to_remote() == old(self).sent_to_remote(),
            final(self).sent_to_local() == old(self).sent_to_local(),
            final(self).spec_in_count() == old(self).spec_in_count(),
            final(self).spec_out_count() == old(self).spec_out_count(),
            match res {
                Ok(d) => if d@.len() == 0 {
                    step == TunnelStep::Done(old(self).spec_in_count(), old(self).spec_out_count())
                        && final(self).received_from_remote() == old(self).received_from_remote()
                        && final(self).inbound() == old(self).inbound()
                } else {
                    step == TunnelStep::Continue(
                        Some((TunnelSide::Local, Interest { read: true, write: true })),
                    ) && final(self).received_from_remote() == old(self).received_from_remote()
                        + d@ && final(self).inbound() == old(self).inbound() + d@
                },
                Err(e) => step == TunnelStep::Failed(e) && final(self).received_from_remote()
                    == old(self).received_from_remote() && final(self).inbound() == old(
                    self).inbound(),
            },
    {
        match res {
            Err(e) => TunnelStep::Failed(e),
            Ok(data) => {
                if data.len() == 0 {
                    return TunnelStep::Done(self.in_count, self.out_count);
                }
                proof {
                    self.from_remote@ = self.from_remote@ + data@;
                }
                queue_extend(&mut self.in_buf, data.as_slice());
                proof {
                    assert(self.to_local@ + self.in_buf@ =~= self.from_remote@);
                }
                TunnelStep::Continue(Some((TunnelSide::Local, Interest::read_write())))
            },
        }
    }
}

/// A tunnel: a listener accepting a single local client whose traffic is
/// relayed through a session with a remote.
pub struct Tunnel<S: NetSession, L: NetListener> {
    listener: L,
    session: S,
}

impl<S: NetSession, L: NetListener> Tunnel<S, L> {
    /// The session the tunnel relays through.
    pub closed spec fn spec_session(&self) -> S {
        self.session
    }

    /// Listens on the address for the client of the session; when binding
    /// fails, hands the session back with the failure of binding.
    pub fn with(session: S, addr: &L::Addr) -> (r: Result<Self, (S, IoError)>)
        ensures
            exists|bound: Result<L, IoError>| #[trigger] L::binds(*addr, bound) && match bound {
                Err(e) => r matches Err((s, f)) && s == session && f == e,
                Ok(listener) => r matches Ok(t) && t.spec_session() == session && t.spec_listener()
                    == listener,
            },
    {
        let bound = L::bind(addr);
        let ghost bound_g = bound;
        let r = match bound {
            Err(err) => Err((session, err)),
            Ok(listener) => Ok(Tunnel { listener, session }),
        };
        proof {
            assert(L::binds(*addr, bound_g));
        }
        r
    }

    /// The listener accepting the client.
    pub closed spec fn spec_listener(&self) -> L {
        self.listener
    }

    /// Address the tunnel listens on.
    pub fn local_addr(&self) -> (a: L::Addr)
        ensures
            a == self.spec_listener().spec_local_addr(),
    {
        self.listener.local_addr()
    }

    /// Prepares both ends for relaying, given what accepting the client
    /// gave: a failed accept is returned as it came, with nothing touched;
    /// otherwise the client connection and the connection of the session
    /// are made non-blocking, with the given timeout for reads and writes,
    /// and the first failure of these is returned.
    pub fn prepare_client(&mut self, accepted: Result<L::Stream, IoError>, timeout_ms: u64) -> (r:
        Result<L::Stream, IoError>)
        ensures
            final(self).spec_session().sent() == old(self).spec_session().sent(),
            final(self).spec_listener() == old(self).spec_listener(),
            accepted matches Err(e) ==> r == Err::<L::Stream, IoError>(e) && final(self).spec_session()
                == old(self).spec_session(),
            r matches Ok(stream) ==> stream.spec_nonblocking() && final(self).spec_session().spec_nonblocking(),
    {
        let mut stream = match accepted {
            Ok(stream) => stream,
            Err(e) => return Err(e),
        };
        match stream.set_nonblocking(true) {
            Ok(()) => {},
            Err(e) => return Err(e),
        }
        match stream.set_read_timeout(Some(timeout_ms)) {
            Ok(()) => {},
            Err(e) => return Err(e),
        }
        match stream.set_write_timeout(Some(timeout_ms)) {
            Ok(()) => {},
            Err(e) => return Err(e),
        }
        match self.session.set_nonblocking(true) {
            Ok(()) => {},
            Err(e) => return Err(e),
        }
        match self.session.set_read_timeout(Some(timeout_ms)) {
            Ok(()) => {},
            Err(e) => return Err(e),
        }
        match self.session.set_write_timeout(Some(timeout_ms)) {
            Ok(()) => Ok(stream),
            Err(e) => Err(e),
        }
    }

    /// Accepts the client and prepares both ends for relaying as
    /// [`Tunnel::prepare_client`] does.
    pub fn accept_client(&mut self, timeout_ms: u64) -> (r: Result<L::Stream, IoError>)
        ensures
            final(self).spec_session().sent() == old(self).spec_session().sent(),
            r matches Ok(stream) ==> stream.spec_nonblocking() && final(self).spec_session().spec_nonblocking(),
    {
        let accepted = self.listener.accept();
        self.prepare_client(accepted, timeout_ms)
    }

    /// The session, for relaying through it.
    pub fn session_mut(&mut self) -> (s: &mut S)
        ensures
            *s == old(self).spec_session(),
            final(self).spec_session() == *final(s),
    {
        &mut self.session
    }

    /// Ends the tunnel, giving the session back.
    pub fn into_session(self) -> (s: S)
        ensures
            s == self.spec_session(),
    {
        self.session
    }
}

/// Whatever the order of events, a well-formed tunnel has relayed to each
/// end a prefix of what it received from the other, and its counts are the
/// lengths of these prefixes.
pub proof fn lemma_tunnel_relays_prefixes(t: TunnelRelay)
    requires
        t.wf(),
    ensures
        t.sent_to_local() == t.received_from_remote().take(t.spec_in_count() as int),
        t.sent_to_remote() == t.received_from_local().take(t.spec_out_count() as int),
        t.spec_in_count() + t.inbound().len() == t.received_from_remote().len(),
        t.spec_out_count() + t.outbound().len() == t.received_from_local().len(),
{
    assert(t.sent_to_local() =~= t.received_from_remote().take(t.spec_in_count() as int));
    assert(t.sent_to_remote() =~= t.received_from_local().take(t.spec_out_count() as int));
}

} // verus!
