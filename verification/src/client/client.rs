//! Client side of a client-server connection: the reactor handler state
//! machine which connects to the server, reconnects on request, and buffers
//! messages until the connection is registered with the reactor.
use std::collections::VecDeque;
use vstd::prelude::*;

use crate::netio::IoError;
use crate::resource::{NetTransport, SessionEvent};
use crate::session::NetSession;
use crate::Direction;

verus! {

/// Commands sent to the client service from outside of the reactor.
pub enum ClientCommand<E> {
    /// Send raw data to the remote server. Second argument is an extension block which allows
    /// downstream implementations of specific client-server  to provide callbacks for RPC
    /// request-reply pairs.
    Send(Vec<u8>, E),
    /// Close connection with the remote server, stop the reactor loop and complete the reactor
    /// thread.
    Terminate,
}

/// What the client does once the server connection failed.
#[derive(Copy, Clone, Debug, PartialEq, Eq, Structural, Hash)]
pub enum OnDisconnect {
    /// Terminates the client, stopping the reactor, completing its thread and making client object
    /// unusable.
    Terminate,
    /// Tries to reconnect to the server, informing the delegate about the current connection
    /// attempt number.
    Reconnect,
}

/// Instructions of the client service to the reactor.
pub enum ClientAction<Id, S: NetSession> {
    /// Register the transport of a new server connection.
    RegisterTransport(NetTransport<S, Id>),
    /// Write the data to the server connection.
    Send(Id, Vec<u8>),
    /// Call back the service after the given number of milliseconds.
    SetTimer(u64),
    /// Stop the reactor.
    Terminate,
}

/// What the client service has to tell its delegate after a transport event.
pub enum ClientNotice<A> {
    /// The session with the server is established: its artifact and the
    /// number of the connection attempt which has succeeded.
    Established(A, usize),
    /// A message from the server, to be parsed by the delegate.
    Reply(Vec<u8>),
    /// The connection failed: the failure and the number of failed attempts
    /// so far; the delegate decides whether to reconnect.
    Disconnected(IoError, usize),
}

/// Callbacks managing the server connection, provided by the user of a
/// client.
pub trait ConnectionDelegate<A, S: NetSession> {
    /// Whether `session` is a session that the delegate makes with the
    /// remote server; the meaning is given by each implementation.
    open spec fn makes_session(&self, remote: A, session: S) -> bool {
        arbitrary()
    }

    /// What the delegate answers when told that a connection attempt
    /// failed; the meaning is given by each implementation.
    open spec fn answer(&self, err: IoError, attempt: usize) -> OnDisconnect {
        arbitrary()
    }

    /// Makes a new session with the remote server.
    fn connect(&self, remote: &A) -> (s: S)
        ensures
            self.makes_session(*remote, s),
    ;

    /// The session with the server is established; `attempt` is the number
    /// of the connection attempt which has succeeded.
    fn on_established(&self, artifact: S::Artifact, attempt: usize);

    /// The connection to the server failed, for the given number of times
    /// so far; the answer says whether to reconnect.
    fn on_disconnect(&self, err: IoError, attempt: usize) -> (r: OnDisconnect)
        ensures
            r == self.answer(err, attempt),
    ;

    /// The reactor reported a failure.
    fn on_io_error(&self, err: IoError);
}

/// Callbacks processing the messages of the server, provided by the user of
/// a client.
pub trait ClientDelegate<A, S: NetSession, E = ()>: ConnectionDelegate<A, S> + Sized {
    /// Replies of the server.
    type Reply;
    /// Why a message of the server is not a reply.
    type ReplyError;

    /// Whether `r` is what parsing the message `data` gives; the meaning is
    /// given by each implementation.
    open spec fn parses_reply(data: Seq<u8>, r: Result<Self::Reply, Self::ReplyError>) -> bool {
        arbitrary()
    }

    /// Parses a message of the server.
    fn parse_reply(data: Vec<u8>) -> (r: Result<Self::Reply, Self::ReplyError>)
        ensures
            Self::parses_reply(data@, r),
    ;

    /// Whether preparing the message `data` with the extension data `extra`
    /// takes the delegate from `self` to `after` and gives the bytes `r` to
    /// send; the meaning is given by each implementation.
    open spec fn prepares(&self, data: Seq<u8>, extra: E, after: Self, r: Seq<u8>) -> bool {
        arbitrary()
    }

    /// Prepares the data of a message before it is sent, using the extension
    /// data of the command (a delegate with nothing to add returns the data
    /// unchanged).
    fn before_send(&mut self, data: Vec<u8>, extra: E) -> (r: Vec<u8>)
        ensures
            old(self).prepares(data@, extra, *final(self), r@),
    ;

    /// A reply of the server.
    fn on_reply(&mut self, reply: Self::Reply);

    /// A message of the server which is not a reply.
    fn on_reply_unparsable(&self, err: Self::ReplyError);
}

/// Prepares a command for the client service: the data of a `Send` command
/// pass through the delegate's `before_send`, and what it returns is sent;
/// `Terminate` goes unchanged.
pub fn prepare_command<A, S: NetSession, D: ClientDelegate<A, S, E>, E>(
    delegate: &mut D,
    cmd: ClientCommand<E>,
) -> (r: ClientCommand<()>)
    ensures
        match cmd {
            ClientCommand::Send(data, extra) => r matches ClientCommand::Send(bytes, _) && old(
                delegate,
            ).prepares(data@, extra, *final(delegate), bytes@),
            ClientCommand::Terminate => r is Terminate && *final(delegate) == *old(delegate),
        },
{
    match cmd {
        ClientCommand::Send(data, extra) => ClientCommand::Send(delegate.before_send(data, extra), ()),
        ClientCommand::Terminate => ClientCommand::Terminate,
    }
}

/// The callback of the delegate that a notice of the client service led to.
#[derive(Copy, Clone, Debug, PartialEq, Eq, Structural, Hash)]
pub enum DelegateCall {
    /// `on_established`, with the number of the attempt which has succeeded.
    Established(usize),
    /// `on_reply`, with the reply parsed from the message.
    Reply,
    /// `on_reply_unparsable`, with the error of parsing the message.
    ReplyUnparsable,
    /// `on_disconnect`, which gave the answer carried.
    Disconnected(OnDisconnect),
}

/// Hands a notice of the client service to the delegate, making exactly one
/// call: an established session goes to `on_established`; a message, once
/// parsed, to `on_reply`, or, when it can't be parsed, to
/// `on_reply_unparsable`; a failed connection to `on_disconnect`, whose
/// answer is returned for the service to reconnect or terminate.
pub fn notify_delegate<A, S: NetSession, D: ClientDelegate<A, S, E>, E>(
    delegate: &mut D,
    notice: ClientNotice<S::Artifact>,
) -> (r: DelegateCall)
    ensures
        match notice {
            ClientNotice::Established(_, attempt) => r == DelegateCall::Established(attempt),
            ClientNotice::Reply(data) => (r == DelegateCall::Reply && exists|rep: D::Reply|
                #[trigger] D::parses_reply(data@, Ok(rep))) || (r == DelegateCall::ReplyUnparsable
                && exists|err: D::ReplyError| #[trigger] D::parses_reply(data@, Err(err))),
            ClientNotice::Disconnected(err, attempt) => r == DelegateCall::Disconnected(
                old(delegate).answer(err, attempt),
            ),
        },
{
    match notice {
        ClientNotice::Established(artifact, attempt) => {
            delegate.on_established(artifact, attempt);
            DelegateCall::Established(attempt)
        },
        ClientNotice::Reply(data) => {
            let ghost bytes = data@;
            match D::parse_reply(data) {
                Ok(reply) => {
                    assert(D::parses_reply(bytes, Ok(reply)));
                    delegate.on_reply(reply);
                    DelegateCall::Reply
                },
                Err(err) => {
                    assert(D::parses_reply(bytes, Err(err)));
                    delegate.on_reply_unparsable(err);
                    DelegateCall::ReplyUnparsable
                },
            }
        },
        ClientNotice::Disconnected(err, attempt) => DelegateCall::Disconnected(
            delegate.on_disconnect(err, attempt),
        ),
    }
}

/// Whether the delegate answered a failure of the attempt with the number
/// `attempt` by asking to reconnect.
pub open spec fn retried<A, S: NetSession, D: ConnectionDelegate<A, S>>(delegate: D, attempt: usize) -> bool {
    exists|err: IoError| #[trigger] delegate.answer(err, attempt) == OnDisconnect::Reconnect
}

/// Whether the delegate answered a failure of the attempt with the number
/// `attempt` by asking to terminate.
pub open spec fn stopped<A, S: NetSession, D: ConnectionDelegate<A, S>>(delegate: D, attempt: usize) -> bool {
    exists|err: IoError| #[trigger] delegate.answer(err, attempt) == OnDisconnect::Terminate
}

/// Reactor handler state of a client: the server connection, the count of
/// failed connection attempts, messages waiting for the connection and the
/// actions for the reactor.
pub struct ClientService<Id, S: NetSession> {
    /// Holds reactor resource id assigned to the server connection.
    connection_id: Option<Id>,
    /// Holds file descriptor of the server connection.
    connection_fd: Option<i32>,
    /// Whether the service is connecting or connected to the server.
    active: bool,
    /// Counts the number of failed connection attempts.
    attempts: usize,
    /// Stores the messages sent to the remote server before the actual connection is getting
    /// established.
    data_stack: VecDeque<Vec<u8>>,
    /// Actions to be delivered to the reactor.
    action_queue: VecDeque<ClientAction<Id, S>>,
}

impl<Id: Copy, S: NetSession> ClientService<Id, S> {
    /// Reactor resource id of the registered server connection.
    pub closed spec fn spec_connection_id(&self) -> Option<Id> {
        self.connection_id
    }

    /// Descriptor of the established server connection.
    pub closed spec fn spec_connection_fd(&self) -> Option<i32> {
        self.connection_fd
    }

    /// Whether the service is connecting or connected.
    pub closed spec fn spec_active(&self) -> bool {
        self.active
    }

    /// Number of failed connection attempts.
    pub closed spec fn spec_attempts(&self) -> usize {
        self.attempts
    }

    /// Messages waiting for the server connection to be registered.
    pub closed spec fn waiting(&self) -> Seq<Vec<u8>> {
        self.data_stack@
    }

    /// Actions not yet taken by the reactor.
    pub closed spec fn actions(&self) -> Seq<ClientAction<Id, S>> {
        self.action_queue@
    }

    /// Service which connects to the server as soon as the reactor starts:
    /// its only action is a timer expiring at once.
    pub fn new() -> (s: Self)
        ensures
            s.spec_connection_id() is None,
            s.spec_connection_fd() is None,
            !s.spec_active(),
            s.spec_attempts() == 0,
            s.waiting() == Seq::<Vec<u8>>::empty(),
            s.actions() == seq![ClientAction::<Id, S>::SetTimer(0)],
    {
        let mut action_queue: VecDeque<ClientAction<Id, S>> = VecDeque::new();
        action_queue.push_back(ClientAction::SetTimer(0));
        ClientService {
            connection_id: None,
            connection_fd: None,
            active: false,
            attempts: 0,
            data_stack: VecDeque::new(),
            action_queue,
        }
    }

    /// Number of failed connection attempts so far.
    pub fn attempts(&self) -> (n: usize)
        ensures
            n == self.spec_attempts(),
    {
        self.attempts
    }

    /// Starts connecting unless the service is connecting or connected
    /// already; returns whether connection attempts have to be made.
    pub fn begin_connect(&mut self) -> (start: bool)
        ensures
            Self::starts_connecting(*old(self), *final(self), start),
    {
        if self.active {
            return false;
        }
        self.active = true;
        true
    }

    /// Makes a transport of a fresh session with the server. On success the
    /// transport is scheduled for registration; on failure the attempt is
    /// counted and the failure returned with the count, for the delegate to
    /// decide whether to try again.
    pub fn connect_attempt(&mut self, session: S) -> (r: Result<(), (IoError, usize)>)
        requires
            old(self).spec_attempts() < usize::MAX,
        ensures
            final(self).spec_connection_id() == old(self).spec_connection_id(),
            final(self).spec_connection_fd() == old(self).spec_connection_fd(),
            final(self).spec_active() == old(self).spec_active(),
            final(self).waiting() == old(self).waiting(),
            r is Ok ==> final(self).spec_attempts() == old(self).spec_attempts()
                && final(self).actions().len() == old(self).actions().len() + 1
                && final(self).actions().drop_last() == old(self).actions()
                && (final(self).actions().last() matches ClientAction::RegisterTransport(t)
                && t.spec_direction() == Direction::Outbound && t.spec_id() is None
                && t.buffered() == Seq::<u8>::empty() && t.spec_session().sent() == session.sent()
                && t.spec_session().spec_established() == session.spec_established()),
            r matches Err((_, n)) ==> final(self).spec_attempts() == old(self).spec_attempts() + 1
                && n == final(self).spec_attempts() && final(self).actions() == old(self).actions(),
    {
        match NetTransport::with_session(session, Direction::Outbound) {
            Ok(transport) => {
                self.action_queue.push_back(ClientAction::RegisterTransport(transport));
                proof {
                    assert(self.action_queue@.drop_last() =~= old(self).action_queue@);
                }
                Ok(())
            },
            Err(err) => {
                self.attempts = self.attempts + 1;
                Err((err, self.attempts))
            },
        }
    }

    /// Connects to the server unless the service is connecting or connected
    /// already: asks the delegate for a session with `remote` until a
    /// transport can be made of one, which is scheduled for registration, or
    /// until the delegate, told of a failed attempt, answers to terminate,
    /// which is scheduled. Should the count of failed attempts reach
    /// `usize::MAX`, the service terminates.
    pub fn connect<A, D: ConnectionDelegate<A, S>>(&mut self, delegate: &D, remote: &A)
        requires
            old(self).spec_attempts() < usize::MAX,
        ensures
            Self::connected(*old(self), *final(self), *delegate, *remote),
    {
        if !self.begin_connect() {
            return;
        }
        loop
            invariant
                !old(self).spec_active(),
                old(self).attempts < usize::MAX,
                self.active,
                self.connection_id == old(self).connection_id,
                self.connection_fd == old(self).connection_fd,
                self.data_stack@ == old(self).data_stack@,
                self.action_queue@ == old(self).action_queue@,
                self.attempts >= old(self).attempts,
                forall|k: usize|
                    old(self).attempts < k <= self.attempts ==> #[trigger] retried::<A, S, D>(*delegate, k),
            decreases usize::MAX - self.attempts,
        {
            if self.attempts == usize::MAX {
                self.terminate();
                proof {
                    assert(self.action_queue@.drop_last() =~= old(self).action_queue@);
                    assert(retried::<A, S, D>(*delegate, self.attempts));
                }
                return;
            }
            let session = delegate.connect(remote);
            let ghost made = session;
            match self.connect_attempt(session) {
                Ok(()) => {
                    proof {
                        assert(delegate.makes_session(*remote, made));
                        if self.attempts > old(self).attempts {
                            assert(retried::<A, S, D>(*delegate, self.attempts));
                        }
                    }
                    return;
                },
                Err((err, attempts)) => {
                    let ghost e = err;
                    let answer = delegate.on_disconnect(err, attempts);
                    if answer == OnDisconnect::Terminate {
                        self.terminate();
                        proof {
                            assert(self.action_queue@.drop_last() =~= old(self).action_queue@);
                            assert(delegate.answer(e, attempts) == OnDisconnect::Terminate);
                            assert(stopped::<A, S, D>(*delegate, self.attempts));
                        }
                        return;
                    }
                    proof {
                        assert(delegate.answer(e, attempts) == OnDisconnect::Reconnect);
                        assert(retried::<A, S, D>(*delegate, self.attempts));
                    }
                },
            }
        }
    }

    /// Whether `after` is what connecting from `before` gives, with the
    /// delegate and the remote: nothing when connecting or connected
    /// already; otherwise exactly one action, the registration of a
    /// transport of a session that the delegate made, or `Terminate`. Each
    /// failed attempt was answered by the delegate, each but a last one
    /// with a request to reconnect; `Terminate` follows the delegate's
    /// answer to terminate, or the count of failures reaching `usize::MAX`.
    pub open spec fn connected<A, D: ConnectionDelegate<A, S>>(
        before: Self,
        after: Self,
        delegate: D,
        remote: A,
    ) -> bool {
        &&& after.spec_connection_id() == before.spec_connection_id()
        &&& after.spec_connection_fd() == before.spec_connection_fd()
        &&& after.waiting() == before.waiting()
        &&& after.spec_active()
        &&& before.spec_active() ==> after == before
        &&& !before.spec_active() ==> {
            &&& after.actions().len() == before.actions().len() + 1
            &&& after.actions().drop_last() == before.actions()
            &&& after.spec_attempts() >= before.spec_attempts()
            &&& forall|k: usize|
                before.spec_attempts() < k < after.spec_attempts() ==> #[trigger] retried::<A, S, D>(
                    delegate,
                    k,
                )
            &&& match after.actions().last() {
                ClientAction::RegisterTransport(t) => {
                    &&& t.spec_direction() == Direction::Outbound
                    &&& t.spec_id() is None
                    &&& t.buffered() == Seq::<u8>::empty()
                    &&& after.spec_attempts() > before.spec_attempts() ==> retried::<A, S, D>(
                        delegate,
                        after.spec_attempts(),
                    )
                    &&& exists|s: S|
                        #[trigger] delegate.makes_session(remote, s) && t.spec_session().sent()
                            == s.sent() && t.spec_session().spec_established() == s.spec_established()
                },
                ClientAction::Terminate => after.spec_attempts() > before.spec_attempts() && (
                stopped::<A, S, D>(delegate, after.spec_attempts()) || (after.spec_attempts()
                    == usize::MAX && retried::<A, S, D>(delegate, after.spec_attempts()))),
                _ => false,
            }
        }
    }

    /// What the service does with the delegate's answer to a notice: it
    /// connects again when the delegate asks to reconnect after a failure,
    /// as [`ClientService::connect`] does, and terminates when it asks to
    /// terminate; after any other notice it does nothing.
    pub fn after_notice<A, D: ConnectionDelegate<A, S>>(
        &mut self,
        call: DelegateCall,
        delegate: &D,
        remote: &A,
    )
        requires
            call == DelegateCall::Disconnected(OnDisconnect::Reconnect) ==> old(self).spec_attempts()
                < usize::MAX,
        ensures
            match call {
                DelegateCall::Disconnected(OnDisconnect::Reconnect) => Self::connected(
                    *old(self),
                    *final(self),
                    *delegate,
                    *remote,
                ),
                DelegateCall::Disconnected(OnDisconnect::Terminate) => {
                    &&& final(self).actions() == old(self).actions().push(
                        ClientAction::<Id, S>::Terminate,
                    )
                    &&& final(self).spec_connection_id() == old(self).spec_connection_id()
                    &&& final(self).spec_connection_fd() == old(self).spec_connection_fd()
                    &&& final(self).spec_active() == old(self).spec_active()
                    &&& final(self).spec_attempts() == old(self).spec_attempts()
                    &&& final(self).waiting() == old(self).waiting()
                },
                _ => *final(self) == *old(self),
            },
    {
        match call {
            DelegateCall::Disconnected(OnDisconnect::Reconnect) => self.connect(delegate, remote),
            DelegateCall::Disconnected(OnDisconnect::Terminate) => self.terminate(),
            _ => {},
        }
    }

    /// Schedules stopping the reactor.
    pub fn terminate(&mut self)
        ensures
            final(self).actions() == old(self).actions().push(ClientAction::<Id, S>::Terminate),
            final(self).spec_connection_id() == old(self).spec_connection_id(),
            final(self).spec_connection_fd() == old(self).spec_connection_fd(),
            final(self).spec_active() == old(self).spec_active(),
            final(self).spec_attempts() == old(self).spec_attempts(),
            final(self).waiting() == old(self).waiting(),
    {
        self.action_queue.push_back(ClientAction::Terminate);
    }

    /// Whether `after` and `start` are what starting to connect from
    /// `before` gives: nothing changes when the service is connecting or
    /// connected already; otherwise it becomes active, and connection
    /// attempts have to be made.
    pub open spec fn starts_connecting(before: Self, after: Self, start: bool) -> bool {
        &&& start == !before.spec_active()
        &&& before.spec_active() ==> after == before
        &&& after.spec_active()
        &&& after.spec_connection_id() == before.spec_connection_id()
        &&& after.spec_connection_fd() == before.spec_connection_fd()
        &&& after.spec_attempts() == before.spec_attempts()
        &&& after.waiting() == before.waiting()
        &&& after.actions() == before.actions()
    }

    /// Connecting is idempotent: once the service has connected, or started
    /// connecting, connecting again changes nothing, and neither does a
    /// timer event, which asks for no connection attempt.
    pub proof fn lemma_connect_idempotent<A, D: ConnectionDelegate<A, S>>(
        s0: Self,
        s1: Self,
        s2: Self,
        delegate: D,
        remote: A,
        t2: Self,
        start: bool,
    )
        requires
            Self::connected(s0, s1, delegate, remote),
        ensures
            s1.spec_active(),
            Self::connected(s1, s2, delegate, remote) ==> s2 == s1,
            Self::starts_connecting(s1, t2, start) ==> !start && t2 == s1,
    {
    }

    /// Timer event: connection attempts start unless the service is
    /// connecting or connected already.
    pub fn handle_timer(&mut self) -> (start: bool)
        ensures
            Self::starts_connecting(*old(self), *final(self), start),
    {
        self.begin_connect()
    }

    /// Event of the server transport: records the established connection,
    /// hands replies on, and forgets a failed connection, counting the failure.
    pub fn handle_transport_event(&mut self, event: SessionEvent<S>) -> (n: ClientNotice<
        S::Artifact,
    >)
        requires
            !(event is Data) ==> old(self).spec_attempts() < usize::MAX,
        ensures
            final(self).waiting() == old(self).waiting(),
            final(self).actions() == old(self).actions(),
            match event {
                SessionEvent::Established(fd, artifact) => n == ClientNotice::Established(
                    artifact,
                    (old(self).spec_attempts() + 1) as usize,
                ) && final(self).spec_connection_fd() == Some(fd) && final(self).spec_connection_id()
                    == old(self).spec_connection_id() && final(self).spec_active() == old(
                    self).spec_active() && final(self).spec_attempts() == old(self).spec_attempts(),
                SessionEvent::Data(data) => n == ClientNotice::<S::Artifact>::Reply(data) && final(
                    self).spec_connection_fd() == old(self).spec_connection_fd() && final(
                    self).spec_connection_id() == old(self).spec_connection_id() && final(
                    self).spec_active() == old(self).spec_active() && final(self).spec_attempts()
                    == old(self).spec_attempts(),
                SessionEvent::Terminated(err) => n == ClientNotice::<S::Artifact>::Disconnected(
                    err,
                    (old(self).spec_attempts() + 1) as usize,
                ) && final(self).spec_connection_fd() is None && final(self).spec_connection_id() is None
                    && !final(self).spec_active() && final(self).spec_attempts() == old(
                    self).spec_attempts() + 1,
            },
    {
        match event {
            SessionEvent::Established(fd, artifact) => {
                self.connection_fd = Some(fd);
                ClientNotice::Established(artifact, self.attempts + 1)
            },
            SessionEvent::Data(data) => ClientNotice::Reply(data),
            SessionEvent::Terminated(err) => {
                self.active = false;
                self.connection_id = None;
                self.connection_fd = None;
                self.attempts = self.attempts + 1;
                ClientNotice::Disconnected(err, self.attempts)
            },
        }
    }

    /// The server transport got registered with the given resource id: the
    /// messages waiting for the connection are scheduled for sending, in the
    /// order they were sent.
    pub fn handle_registered(&mut self, id: Id)
        ensures
            final(self).spec_connection_id() == Some(id),
            final(self).spec_connection_fd() == old(self).spec_connection_fd(),
            final(self).spec_active() == old(self).spec_active(),
            final(self).spec_attempts() == old(self).spec_attempts(),
            final(self).waiting() == Seq::<Vec<u8>>::empty(),
            final(self).actions().len() == old(self).actions().len() + old(self).waiting().len(),
            final(self).actions().take(old(self).actions().len() as int) == old(self).actions(),
            forall|k: int|
                0 <= k < old(self).waiting().len() ==> #[trigger] final(self).actions()[old(
                    self).actions().len() + k] == ClientAction::<Id, S>::Send(
                    id,
                    old(self).waiting()[k],
                ),
    {
        self.connection_id = Some(id);
        let ghost queued = self.action_queue@;
        let ghost waiting = self.data_stack@;
        while self.data_stack.len() > 0
            invariant
                self.connection_id == Some(id),
                self.connection_fd == old(self).connection_fd,
                self.active == old(self).active,
                self.attempts == old(self).attempts,
                queued == old(self).action_queue@,
                waiting == old(self).data_stack@,
                self.action_queue@.len() + self.data_stack@.len() == queued.len() + waiting.len(),
                self.action_queue@.len() >= queued.len(),
                self.action_queue@.take(queued.len() as int) == queued,
                self.data_stack@ == waiting.skip(self.action_queue@.len() - queued.len()),
                forall|k: int|
                    0 <= k < self.action_queue@.len() - queued.len() ==> #[trigger] self.action_queue@[queued.len()
                        + k] == ClientAction::<Id, S>::Send(id, waiting[k]),
            decreases self.data_stack@.len(),
        {
            let ghost done = self.action_queue@.len() - queued.len();
            match self.data_stack.pop_front() {
                Some(data) => {
                    self.action_queue.push_back(ClientAction::Send(id, data));
                    proof {
                        assert(self.action_queue@.take(queued.len() as int) =~= queued);
                        assert(self.data_stack@ =~= waiting.skip(done + 1));
                        assert forall|k: int|
                            0 <= k < self.action_queue@.len() - queued.len() implies #[trigger] self.action_queue@[queued.len()
                                + k] == ClientAction::<Id, S>::Send(id, waiting[k]) by {
                            if k < done {
                            } else {
                                assert(k == done);
                                assert(waiting.skip(done)[0] == waiting[done]);
                            }
                        }
                    }
                },
                None => {},
            }
        }
    }

    /// Sends data to the server: scheduled at once when the connection is
    /// registered, kept waiting for the connection otherwise.
    pub fn send(&mut self, data: Vec<u8>)
        ensures
            final(self).spec_connection_id() == old(self).spec_connection_id(),
            final(self).spec_connection_fd() == old(self).spec_connection_fd(),
            final(self).spec_active() == old(self).spec_active(),
            final(self).spec_attempts() == old(self).spec_attempts(),
            match old(self).spec_connection_id() {
                Some(id) => final(self).actions() == old(self).actions().push(
                    ClientAction::<Id, S>::Send(id, data),
                ) && final(self).waiting() == old(self).waiting(),
                None => final(self).waiting() == old(self).waiting().push(data) && final(
                    self).actions() == old(self).actions(),
            },
    {
        match self.connection_id {
            Some(id) => self.action_queue.push_back(ClientAction::Send(id, data)),
            None => self.data_stack.push_back(data),
        }
    }

    /// Command from outside of the reactor; the data of a `Send` command are
    /// sent as they are.
    pub fn handle_command(&mut self, cmd: ClientCommand<()>)
        ensures
            final(self).spec_connection_id() == old(self).spec_connection_id(),
            final(self).spec_connection_fd() == old(self).spec_connection_fd(),
            final(self).spec_active() == old(self).spec_active(),
            final(self).spec_attempts() == old(self).spec_attempts(),
            match cmd {
                ClientCommand::Send(data, _) => match old(self).spec_connection_id() {
                    Some(id) => final(self).actions() == old(self).actions().push(
                        ClientAction::<Id, S>::Send(id, data),
                    ) && final(self).waiting() == old(self).waiting(),
                    None => final(self).waiting() == old(self).waiting().push(data) && final(
                        self).actions() == old(self).actions(),
                },
                ClientCommand::Terminate => final(self).actions() == old(self).actions().push(
                    ClientAction::<Id, S>::Terminate,
                ) && final(self).waiting() == old(self).waiting(),
            },
    {
        match cmd {
            ClientCommand::Send(data, _) => self.send(data),
            ClientCommand::Terminate => self.terminate(),
        }
    }

    /// The server transport was unregistered and handed over by the reactor.
    pub fn handover_transport(&mut self)
        ensures
            final(self).spec_connection_id() is None,
            final(self).spec_connection_fd() is None,
            final(self).spec_active() == old(self).spec_active(),
            final(self).spec_attempts() == old(self).spec_attempts(),
            final(self).waiting() == old(self).waiting(),
            final(self).actions() == old(self).actions(),
    {
        self.connection_id = None;
        self.connection_fd = None;
    }

    /// Takes the next action for the reactor, in the order scheduled.
    pub fn next_action(&mut self) -> (a: Option<ClientAction<Id, S>>)
        ensures
            old(self).actions().len() == 0 ==> a is None && final(self).actions() == old(
                self).actions(),
            old(self).actions().len() > 0 ==> a == Some(old(self).actions()[0]) && final(
                self).actions() == old(self).actions().drop_first(),
            final(self).spec_connection_id() == old(self).spec_connection_id(),
            final(self).spec_connection_fd() == old(self).spec_connection_fd(),
            final(self).spec_active() == old(self).spec_active(),
            final(self).spec_attempts() == old(self).spec_attempts(),
            final(self).waiting() == old(self).waiting(),
    {
        let a = self.action_queue.pop_front();
        proof {
            if old(self).action_queue@.len() > 0 {
                assert(self.action_queue@ =~= old(self).action_queue@.drop_first());
            }
        }
        a
    }
}

} // verus!
