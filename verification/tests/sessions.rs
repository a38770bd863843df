use std::cell::RefCell;
use std::collections::{HashMap, VecDeque};

use netservices::client::{
    notify_delegate, prepare_command, ClientAction, DelegateCall, ClientCommand, ClientDelegate, ClientNotice,
    ClientService, ConnectionDelegate, OnDisconnect, RpcDelegate, RpcPubDelegate, RpcPubId, RpcPubMsg,
    RpcPubOutcome, RpcPubService, RpcReply, RpcReplyOutcome, RpcService,
};
use netservices::client::rpc::RpcReplyError;
use netservices::connection::{NetConnection, NetListener, NetStream};
use netservices::netio::{IoError, IoErrorKind};
use netservices::node::node::{InboundOutcome, Metrics, NodeAction, NodeController, NodeService};
use netservices::node::remotes::{DisconnectReason, Outbound, Remote};
use netservices::resource::{
    Interest, Io, ListenerEvent, NetAccept, NetTransport, SessionEvent, TransportState,
};
use netservices::noise::{NoiseSession, NoiseTranscoder};
use netservices::session::{
    handshake_round, run_blocking_handshake, HandshakeError, NetProtocol, NetSession, NetStateMachine, ZeroInit,
};
use netservices::tunnel::{Tunnel, TunnelRelay, TunnelStep};
use netservices::split::{ReadHalf, SplitIo, SplitIoError, WriteHalf};
use netservices::Direction;

/// In-memory session: reads come from `inbox`, accepted writes go to `sent`.
#[derive(Debug, Default)]
struct Mock {
    established: bool,
    establish_on_read: bool,
    closed: bool,
    inbox: VecDeque<u8>,
    sent: Vec<u8>,
    max_write: Option<usize>,
    fail_read: Option<IoErrorKind>,
    fail_setup: bool,
    nonblocking: bool,
}

impl Mock {
    fn established() -> Self {
        Mock { established: true, ..Mock::default() }
    }
}

struct MockRead(Vec<u8>);
struct MockWrite(Vec<u8>);

impl ReadHalf for MockRead {
    fn read(&mut self, max_len: usize) -> Result<Vec<u8>, IoError> {
        let n = max_len.min(self.0.len());
        Ok(self.0.drain(..n).collect())
    }
}

impl WriteHalf for MockWrite {
    fn write(&mut self, buf: &[u8]) -> Result<usize, IoError> {
        self.0.extend_from_slice(buf);
        Ok(buf.len())
    }

    fn flush(&mut self) -> Result<(), IoError> {
        Ok(())
    }
}

impl NetStream for Mock {
    fn read(&mut self, max_len: usize) -> Result<Vec<u8>, IoError> {
        if let Some(kind) = self.fail_read {
            return Err(IoError::from_kind(kind));
        }
        if self.establish_on_read && !self.established {
            self.established = true;
            return Ok(vec![]);
        }
        if self.inbox.is_empty() {
            return if self.closed { Ok(vec![]) } else { Err(IoError::from_kind(IoErrorKind::WouldBlock)) };
        }
        let n = max_len.min(self.inbox.len());
        Ok(self.inbox.drain(..n).collect())
    }

    fn write(&mut self, buf: &[u8]) -> Result<usize, IoError> {
        let n = match self.max_write {
            Some(max) => max.min(buf.len()),
            None => buf.len(),
        };
        self.sent.extend_from_slice(&buf[..n]);
        Ok(n)
    }

    fn read_exact(&mut self, len: usize) -> Result<Vec<u8>, IoError> {
        if self.inbox.len() < len {
            return Err(IoError::from_kind(IoErrorKind::UnexpectedEof));
        }
        Ok(self.inbox.drain(..len).collect())
    }

    fn write_all(&mut self, buf: &[u8]) -> Result<(), IoError> {
        self.sent.extend_from_slice(buf);
        Ok(())
    }

    fn flush(&mut self) -> Result<(), IoError> {
        Ok(())
    }
}

impl SplitIo for Mock {
    type Read = MockRead;
    type Write = MockWrite;

    fn split_io(self) -> Result<(MockRead, MockWrite), SplitIoError<Self>> {
        if self.fail_setup {
            return Err(SplitIoError { original: self, error: IoError::from_kind(IoErrorKind::Other) });
        }
        Ok((MockRead(self.inbox.into_iter().collect()), MockWrite(self.sent)))
    }

    fn from_split_io(read: MockRead, write: MockWrite) -> Self {
        Mock { established: true, inbox: read.0.into_iter().collect(), sent: write.0, ..Mock::default() }
    }
}

impl NetConnection for Mock {
    type Addr = String;

    fn remote_addr(&self) -> Result<String, IoError> {
        if self.fail_setup { Err(IoError::from_kind(IoErrorKind::NotConnected)) } else { Ok("remote".to_string()) }
    }

    fn local_addr(&self) -> String {
        "local".to_string()
    }

    fn raw_fd(&self) -> i32 {
        7
    }

    fn set_read_timeout(&mut self, _millis: Option<u64>) -> Result<(), IoError> {
        Ok(())
    }

    fn set_write_timeout(&mut self, _millis: Option<u64>) -> Result<(), IoError> {
        Ok(())
    }

    fn set_nonblocking(&mut self, nonblocking: bool) -> Result<(), IoError> {
        self.nonblocking = nonblocking;
        Ok(())
    }

    fn shutdown(&mut self) -> Result<(), IoError> {
        Ok(())
    }
}

impl NetSession for Mock {
    type Artifact = u32;
    type Addr = String;
    type Connection = Mock;

    fn is_established(&self) -> bool {
        self.established
    }

    fn artifact(&self) -> Option<u32> {
        if self.established { Some(42) } else { None }
    }

    fn run_handshake(&mut self) -> Result<(), IoError> {
        self.established = true;
        Ok(())
    }

    fn display(&self) -> String {
        "mock".to_string()
    }

    fn as_connection_mut(&mut self) -> &mut Mock {
        self
    }

    fn raw_fd(&self) -> i32 {
        7
    }

    fn local_addr(&self) -> String {
        "local".to_string()
    }

    fn set_nonblocking(&mut self, nonblocking: bool) -> Result<(), IoError> {
        if self.fail_setup {
            return Err(IoError::from_kind(IoErrorKind::Other));
        }
        self.nonblocking = nonblocking;
        Ok(())
    }

    fn set_read_timeout(&mut self, _millis: Option<u64>) -> Result<(), IoError> {
        if self.fail_setup { Err(IoError::from_kind(IoErrorKind::Other)) } else { Ok(()) }
    }

    fn set_write_timeout(&mut self, _millis: Option<u64>) -> Result<(), IoError> {
        Ok(())
    }

    fn disconnect(self) -> Result<(), IoError> {
        Ok(())
    }
}

#[test]
fn transport_buffers_what_the_session_does_not_take() {
    let mut session = Mock::established();
    session.max_write = Some(2);
    let mut transport: NetTransport<Mock, u64> =
        NetTransport::with_session(session, Direction::Outbound).unwrap();
    assert_eq!(transport.state(), TransportState::Active);
    assert!(transport.is_active());
    assert!(transport.is_outbound());
    assert_eq!(transport.interests(), Interest::read_write());
    assert_eq!(transport.write(b"abcde").unwrap(), 5);
    assert_eq!(transport.write_buf_len(), 3);
    assert!(transport.handle_io(Io::Write).is_none());
    assert_eq!(transport.write_buf_len(), 1);
    assert!(transport.handle_io(Io::Write).is_none());
    assert_eq!(transport.write_buf_len(), 0);
    assert_eq!(transport.interests(), Interest::read_only());
    let session = transport.into_session().map_err(|_| ()).unwrap();
    assert_eq!(session.sent, b"abcde".to_vec());
    assert!(session.nonblocking);
}

#[test]
fn transport_into_session_keeps_unsent_data() {
    let mut session = Mock::established();
    session.max_write = Some(1);
    let mut transport: NetTransport<Mock, u64> =
        NetTransport::with_session(session, Direction::Outbound).unwrap();
    transport.write(b"xyz").unwrap();
    match transport.into_session() {
        Err((transport, err)) => {
            assert_eq!(err.kind(), IoErrorKind::WouldBlock);
            assert_eq!(transport.write_buf_len(), 1);
        }
        Ok(_) => panic!("the buffer could not be emptied"),
    }
}

#[test]
fn transport_refuses_writes_before_handshake() {
    let mut transport: NetTransport<Mock, u64> = NetTransport::accept(Mock::default()).unwrap();
    assert_eq!(transport.state(), TransportState::Handshake);
    assert!(transport.is_inbound());
    assert_eq!(transport.interests(), Interest::read_only());
    assert_eq!(transport.write(b"a").unwrap_err().kind(), IoErrorKind::NotConnected);
    assert_eq!(transport.write_buf_len(), 0);
}

#[test]
fn transport_reports_established_session() {
    let mut session = Mock::default();
    session.establish_on_read = true;
    let mut transport: NetTransport<Mock, u64> = NetTransport::accept(session).unwrap();
    match transport.handle_io(Io::Read) {
        Some(SessionEvent::Established(fd, artifact)) => {
            assert_eq!(fd, 7);
            assert_eq!(artifact, 42);
        }
        _ => panic!("the handshake completed"),
    }
    assert_eq!(transport.state(), TransportState::Active);
    assert_eq!(transport.expect_peer_id(), 42);
    assert_eq!(transport.artifact(), Some(42));
}

#[test]
fn transport_delivers_data_and_termination() {
    let mut session = Mock::established();
    session.inbox.extend([1u8, 2, 3]);
    let mut transport: NetTransport<Mock, u64> =
        NetTransport::with_session(session, Direction::Inbound).unwrap();
    match transport.handle_io(Io::Read) {
        Some(SessionEvent::Data(data)) => assert_eq!(data, vec![1, 2, 3]),
        _ => panic!("data was received"),
    }
    assert!(transport.handle_io(Io::Read).is_none());
    let mut session = Mock::established();
    session.closed = true;
    let mut transport: NetTransport<Mock, u64> =
        NetTransport::with_session(session, Direction::Inbound).unwrap();
    match transport.handle_io(Io::Read) {
        Some(SessionEvent::Terminated(err)) => assert_eq!(err.kind(), IoErrorKind::ConnectionReset),
        _ => panic!("the remote closed the connection"),
    }
    assert_eq!(transport.state(), TransportState::Terminated);
    assert_eq!(transport.interests(), Interest::none());
}

#[test]
fn transport_terminates_on_read_failure() {
    let mut session = Mock::established();
    session.fail_read = Some(IoErrorKind::BrokenPipe);
    let mut transport: NetTransport<Mock, u64> =
        NetTransport::with_session(session, Direction::Outbound).unwrap();
    match transport.handle_io(Io::Read) {
        Some(SessionEvent::Terminated(err)) => assert_eq!(err.kind(), IoErrorKind::BrokenPipe),
        _ => panic!("the read failed"),
    }
    assert_eq!(transport.state(), TransportState::Terminated);
}

#[test]
fn transport_resource_id_is_set_once() {
    let mut transport: NetTransport<Mock, u64> =
        NetTransport::with_session(Mock::established(), Direction::Outbound).unwrap();
    assert_eq!(transport.resource_id(), None);
    assert!(transport.set_resource_id(3).is_ok());
    let err = transport.set_resource_id(4).unwrap_err();
    assert_eq!((err.current, err.new), (3, 4));
    assert_eq!(transport.resource_id(), Some(3));
}

#[test]
fn transport_setup_failure() {
    let mut session = Mock::established();
    session.fail_setup = true;
    assert!(NetTransport::<Mock, u64>::with_session(session, Direction::Outbound).is_err());
}

#[test]
fn client_flushes_waiting_messages_in_order() {
    let mut client: ClientService<u64, Mock> = ClientService::new();
    assert!(matches!(client.next_action(), Some(ClientAction::SetTimer(0))));
    assert!(client.next_action().is_none());
    assert!(client.handle_timer());
    assert!(!client.handle_timer());
    client.send(vec![1]);
    client.handle_command(ClientCommand::Send(vec![2], ()));
    assert!(client.connect_attempt(Mock::established()).is_ok());
    match client.next_action() {
        Some(ClientAction::RegisterTransport(t)) => assert!(t.is_outbound()),
        _ => panic!("the transport is registered"),
    }
    client.handle_registered(9);
    match (client.next_action(), client.next_action(), client.next_action()) {
        (Some(ClientAction::Send(9, a)), Some(ClientAction::Send(9, b)), None) => {
            assert_eq!(a, vec![1]);
            assert_eq!(b, vec![2]);
        }
        _ => panic!("waiting messages are sent in order"),
    }
    client.send(vec![3]);
    assert!(matches!(client.next_action(), Some(ClientAction::Send(9, _))));
}

#[test]
fn client_counts_failed_attempts() {
    let mut client: ClientService<u64, Mock> = ClientService::new();
    let mut session = Mock::established();
    session.fail_setup = true;
    match client.connect_attempt(session) {
        Err((err, attempts)) => {
            assert_eq!(err.kind(), IoErrorKind::Other);
            assert_eq!(attempts, 1);
        }
        Ok(()) => panic!("the session could not be set up"),
    }
    match client.handle_transport_event(SessionEvent::Terminated(IoError::from_kind(
        IoErrorKind::ConnectionReset,
    ))) {
        ClientNotice::Disconnected(err, attempts) => {
            assert_eq!(err.kind(), IoErrorKind::ConnectionReset);
            assert_eq!(attempts, 2);
        }
        _ => panic!("the connection failed"),
    }
    match client.handle_transport_event(SessionEvent::Established(7, 42)) {
        ClientNotice::Established(artifact, attempt) => assert_eq!((artifact, attempt), (42, 3)),
        _ => panic!("the session is established"),
    }
    match client.handle_transport_event(SessionEvent::Data(vec![5])) {
        ClientNotice::Reply(data) => assert_eq!(data, vec![5]),
        _ => panic!("data is a reply"),
    }
    client.handle_command(ClientCommand::Terminate);
    let _ = client.next_action();
    assert!(matches!(client.next_action(), Some(ClientAction::Terminate)));
}

#[derive(Default)]
struct Recorder {
    replies: Vec<u8>,
    unparsable: std::cell::Cell<usize>,
    established: std::cell::Cell<Option<(u32, usize)>>,
}

impl ConnectionDelegate<String, Mock> for Recorder {
    fn connect(&self, _remote: &String) -> Mock {
        Mock::established()
    }

    fn on_established(&self, artifact: u32, attempt: usize) {
        self.established.set(Some((artifact, attempt)));
    }

    fn on_disconnect(&self, _err: IoError, attempt: usize) -> OnDisconnect {
        if attempt < 3 { OnDisconnect::Reconnect } else { OnDisconnect::Terminate }
    }

    fn on_io_error(&self, _err: IoError) {}
}

impl ClientDelegate<String, Mock, u8> for Recorder {
    type Reply = u8;
    type ReplyError = ();

    fn parse_reply(data: Vec<u8>) -> Result<u8, ()> {
        if data.len() == 1 { Ok(data[0]) } else { Err(()) }
    }

    fn before_send(&mut self, mut data: Vec<u8>, extra: u8) -> Vec<u8> {
        data.insert(0, extra);
        data
    }

    fn on_reply(&mut self, reply: u8) {
        self.replies.push(reply);
    }

    fn on_reply_unparsable(&self, _err: ()) {
        self.unparsable.set(self.unparsable.get() + 1);
    }
}

#[test]
fn delegate_receives_notices() {
    let mut delegate = Recorder::default();
    assert_eq!(
        notify_delegate::<String, Mock, _, u8>(&mut delegate, ClientNotice::Established(42, 1)),
        DelegateCall::Established(1)
    );
    assert_eq!(delegate.established.get(), Some((42, 1)));
    assert_eq!(notify_delegate::<String, Mock, _, u8>(&mut delegate, ClientNotice::Reply(vec![6])), DelegateCall::Reply);
    assert_eq!(
        notify_delegate::<String, Mock, _, u8>(&mut delegate, ClientNotice::Reply(vec![6, 7])),
        DelegateCall::ReplyUnparsable
    );
    assert_eq!(delegate.replies, vec![6]);
    assert_eq!(delegate.unparsable.get(), 1);
    let err = IoError::from_kind(IoErrorKind::TimedOut);
    assert_eq!(
        notify_delegate::<String, Mock, _, u8>(&mut delegate, ClientNotice::Disconnected(err, 1)),
        DelegateCall::Disconnected(OnDisconnect::Reconnect)
    );
    let err = IoError::from_kind(IoErrorKind::TimedOut);
    assert_eq!(
        notify_delegate::<String, Mock, _, u8>(&mut delegate, ClientNotice::Disconnected(err, 3)),
        DelegateCall::Disconnected(OnDisconnect::Terminate)
    );
}

/// A delegate whose sessions can't be set up.
struct Unreachable;

impl ConnectionDelegate<String, Mock> for Unreachable {
    fn connect(&self, _remote: &String) -> Mock {
        let mut session = Mock::established();
        session.fail_setup = true;
        session
    }

    fn on_established(&self, _artifact: u32, _attempt: usize) {}

    fn on_disconnect(&self, _err: IoError, attempt: usize) -> OnDisconnect {
        if attempt < 3 { OnDisconnect::Reconnect } else { OnDisconnect::Terminate }
    }

    fn on_io_error(&self, _err: IoError) {}
}

#[test]
fn client_connect_registers_a_transport_once() {
    let mut client: ClientService<u64, Mock> = ClientService::new();
    let _ = client.next_action();
    client.connect(&Recorder::default(), &"server".to_string());
    match client.next_action() {
        Some(ClientAction::RegisterTransport(t)) => assert!(t.is_outbound()),
        _ => panic!("the transport is registered"),
    }
    client.connect(&Recorder::default(), &"server".to_string());
    assert!(client.next_action().is_none());
    assert_eq!(client.attempts(), 0);
}

#[test]
fn client_connect_terminates_when_the_delegate_gives_up() {
    let mut client: ClientService<u64, Mock> = ClientService::new();
    let _ = client.next_action();
    client.connect(&Unreachable, &"server".to_string());
    assert_eq!(client.attempts(), 3);
    assert!(matches!(client.next_action(), Some(ClientAction::Terminate)));
    assert!(client.next_action().is_none());
}

#[test]
fn delegate_prepares_commands() {
    let mut delegate = Recorder::default();
    match prepare_command::<String, Mock, _, u8>(&mut delegate, ClientCommand::Send(vec![1, 2], 9)) {
        ClientCommand::Send(data, ()) => assert_eq!(data, vec![9, 1, 2]),
        ClientCommand::Terminate => panic!("a send stays a send"),
    }
    assert!(matches!(
        prepare_command::<String, Mock, _, u8>(&mut delegate, ClientCommand::Terminate),
        ClientCommand::Terminate
    ));
}

/// Listener handing out the connections queued in it.
struct MockListener {
    pending: RefCell<VecDeque<Mock>>,
    nonblocking: RefCell<bool>,
}

impl NetListener for MockListener {
    type Stream = Mock;
    type Addr = String;

    fn bind(addr: &String) -> Result<Self, IoError> {
        if addr == "unavailable" {
            return Err(IoError::with_message(IoErrorKind::AddrNotAvailable, "no such address".to_string()));
        }
        let mut pending = VecDeque::new();
        if addr == "with-pending" {
            pending.push_back(Mock::default());
        }
        Ok(MockListener { pending: RefCell::new(pending), nonblocking: RefCell::new(false) })
    }

    fn accept(&self) -> Result<Mock, IoError> {
        self.pending.borrow_mut().pop_front().ok_or(IoError::from_kind(IoErrorKind::WouldBlock))
    }

    fn local_addr(&self) -> String {
        "listening".to_string()
    }

    fn raw_fd(&self) -> i32 {
        3
    }

    fn set_nonblocking(&self, nonblocking: bool) -> Result<(), IoError> {
        *self.nonblocking.borrow_mut() = nonblocking;
        Ok(())
    }

    fn ttl(&self) -> Result<u32, IoError> {
        Ok(64)
    }

    fn set_ttl(&self, _ttl: u32) -> Result<(), IoError> {
        Ok(())
    }

    fn try_clone(&self) -> Result<Self, IoError> {
        Err(IoError::from_kind(IoErrorKind::Other))
    }

    fn take_error(&self) -> Result<Option<IoError>, IoError> {
        Ok(None)
    }
}

/// Controller accepting everybody but the remote "banned".
#[derive(Default)]
struct Controller {
    queued: Vec<NodeAction<Mock, MockListener>>,
    ticks: usize,
    timers: usize,
}

impl NodeController<String, u32, Mock, MockListener> for Controller {
    type Request = Vec<u8>;
    type RequestError = ();
    type Reply = Vec<u8>;

    fn extract_actions(&mut self) -> Vec<NodeAction<Mock, MockListener>> {
        std::mem::take(&mut self.queued)
    }

    fn should_accept(&mut self, remote: &String) -> bool {
        remote != "banned"
    }

    fn accept(&mut self, _remote: String, connection: Mock) -> Result<Mock, IoError> {
        Ok(connection)
    }

    fn on_tick(&mut self, _time: u64, _metrics: &HashMap<u32, Metrics>) {
        self.ticks += 1;
    }

    fn on_timer(&mut self) {
        self.timers += 1;
    }

    fn parse_request(data: Vec<u8>) -> Result<Vec<u8>, ()> {
        Ok(data)
    }

    fn on_request<F: Fn(Vec<u8>)>(&mut self, req: Vec<u8>, sender: F) {
        sender(req)
    }

    fn on_request_unparsable<F: Fn(Vec<u8>)>(&mut self, _err: (), _sender: F) {}
}

type Node = NodeService<String, u32, Mock, MockListener, Controller>;

#[test]
fn node_disconnects_each_remote_once() {
    let mut node: Node = NodeService::new(Controller::default());
    node.add_remote(1, Remote::connected(77, "peer".to_string(), Direction::Inbound));
    assert_eq!(node.disconnect(1, DisconnectReason::Command), Some((77, Direction::Inbound)));
    assert!(matches!(node.next_action(), Some(NodeAction::UnregisterTransport(1))));
    assert_eq!(node.disconnect(1, DisconnectReason::Conflict), Some((77, Direction::Inbound)));
    assert!(node.next_action().is_none());
}

#[test]
fn node_disconnects_outbound_attempts() {
    let mut node: Node = NodeService::new(Controller::default());
    node.add_outbound(5, Outbound { res_id: Some(8), addr: "peer".to_string(), id: 55 });
    assert_eq!(node.disconnect(8, DisconnectReason::Dial("refused".to_string())), Some((55, Direction::Outbound)));
    assert!(matches!(node.next_action(), Some(NodeAction::UnregisterTransport(8))));
    assert_eq!(node.disconnect(9, DisconnectReason::Command), None);
    assert!(matches!(node.next_action(), Some(NodeAction::UnregisterTransport(9))));
}

#[test]
fn node_accepts_inbound_connections() {
    let mut node: Node = NodeService::new(Controller::default());
    let listener = NetAccept::<Mock, MockListener>::bind(&"addr".to_string()).unwrap();
    assert_eq!(listener.local_addr(), "listening");
    node.listen(listener);
    match node.handle_listener_event(ListenerEvent::Accepted(Mock::established())) {
        InboundOutcome::Accepted(fd) => assert_eq!(fd, 7),
        _ => panic!("the connection is accepted"),
    }
    assert!(matches!(node.next_action(), Some(NodeAction::RegisterListener(_))));
    match node.next_action() {
        Some(NodeAction::RegisterTransport(t)) => assert!(t.is_inbound()),
        _ => panic!("the inbound transport is registered"),
    }
    assert!(node.next_action().is_none());
}

#[test]
fn node_drops_refused_connections() {
    let mut node: Node = NodeService::new(Controller::default());
    let mut no_addr = Mock::established();
    no_addr.fail_setup = true;
    assert!(matches!(
        node.handle_listener_event(ListenerEvent::Accepted(no_addr)),
        InboundOutcome::NoRemoteAddr(_)
    ));
    assert!(matches!(
        node.handle_listener_event(ListenerEvent::Failure(IoError::from_kind(IoErrorKind::Other))),
        InboundOutcome::ListenerFailed(_)
    ));
    assert!(node.next_action().is_none());
}

#[test]
fn node_takes_controller_actions_after_its_own() {
    let mut controller = Controller::default();
    controller.queued.push(NodeAction::SetTimer(5));
    let mut node: Node = NodeService::new(controller);
    node.add_remote(2, Remote::connected(1, "peer".to_string(), Direction::Outbound));
    let _ = node.disconnect(2, DisconnectReason::Command);
    assert!(matches!(node.next_action(), Some(NodeAction::UnregisterTransport(2))));
    assert!(matches!(node.next_action(), Some(NodeAction::SetTimer(5))));
    assert!(node.next_action().is_none());
    node.tick(10);
    node.handle_timer();
}

#[test]
fn listener_accepts_on_read_events() {
    let mut accept = NetAccept::<Mock, MockListener>::bind(&"addr".to_string()).unwrap();
    assert_eq!(accept.interests(), Interest::read_only());
    assert!(accept.handle_io(Io::Write).is_none());
    match accept.handle_io(Io::Read) {
        Some(ListenerEvent::Failure(err)) => assert_eq!(err.kind(), IoErrorKind::WouldBlock),
        _ => panic!("no connection is pending"),
    }
    assert_eq!(accept.write(b"x").unwrap_err().kind(), IoErrorKind::InvalidInput);
    assert_eq!(accept.flush().unwrap_err().kind(), IoErrorKind::InvalidInput);
    assert_eq!(accept.write_or_buf(b"x").unwrap_err().kind(), IoErrorKind::InvalidInput);
    assert!(!accept.is_ready_to_write());
    assert!(accept.empty_write_buf().unwrap());
    assert_eq!(accept.raw_fd(), 3);
    let mut accept = NetAccept::<Mock, MockListener>::bind(&"with-pending".to_string()).unwrap();
    match accept.handle_io(Io::Read) {
        Some(ListenerEvent::Accepted(connection)) => assert!(connection.nonblocking),
        _ => panic!("the pending connection is accepted"),
    }
}

/// Handshake: send one hello byte, then read the peer's one-byte identity;
/// the identity 0xFF is refused.
#[derive(Default)]
struct Hello {
    inited: bool,
    said_hello: bool,
    peer: Option<u8>,
}

impl NetStateMachine for Hello {
    type Init = ZeroInit;
    type Artifact = u8;
    type Error = String;

    fn init(&mut self, _init: ZeroInit) {
        self.inited = true;
    }

    fn next_read_len(&self) -> usize {
        if self.said_hello && self.peer.is_none() { 1 } else { 0 }
    }

    fn advance(&mut self, input: &[u8]) -> Result<Vec<u8>, String> {
        if !self.said_hello {
            self.said_hello = true;
            return Ok(vec![0xAB]);
        }
        match input {
            [0xFF] => Err("refused identity".to_string()),
            [id] => {
                self.peer = Some(*id);
                Ok(vec![])
            }
            _ => Ok(vec![]),
        }
    }

    fn artifact(&self) -> Option<u8> {
        self.peer
    }

    fn is_init(&self) -> bool {
        self.inited
    }

    fn error_message(error: &String) -> String {
        error.clone()
    }

    fn run_handshake<C: NetStream>(&mut self, stream: &mut C) -> Result<(), IoError> {
        run_blocking_handshake(self, stream)
    }
}

#[test]
fn protocol_handshake_through_reads_and_writes() {
    let mut session = Mock::established();
    session.inbox.push_back(0x07);
    let mut proto: NetProtocol<Hello, Mock> = NetProtocol::new(session);
    assert!(!proto.is_established());
    assert_eq!(proto.display(), "<no-id>");
    assert_eq!(NetStream::write(&mut proto, b"hi").unwrap_err().kind(), IoErrorKind::Interrupted);
    assert_eq!(proto.as_connection_mut().sent, vec![0xAB]);
    assert_eq!(NetStream::read(&mut proto, 10).unwrap(), Vec::<u8>::new());
    assert!(proto.is_established());
    let artifact = proto.artifact().unwrap();
    assert_eq!((artifact.session, artifact.state), (42, 7));
    assert_eq!(NetStream::write(&mut proto, b"hi").unwrap(), 2);
    assert_eq!(proto.as_connection_mut().sent, vec![0xAB, b'h', b'i']);
    proto.as_connection_mut().inbox.extend([1u8, 2]);
    assert_eq!(NetStream::read(&mut proto, 10).unwrap(), vec![1, 2]);
    assert_eq!(proto.display(), "mock");
}

#[test]
fn protocol_refused_handshake() {
    let mut session = Mock::established();
    session.inbox.push_back(0xFF);
    let mut proto: NetProtocol<Hello, Mock> = NetProtocol::new(session);
    assert!(NetStream::write(&mut proto, b"x").is_err());
    let err = NetStream::read(&mut proto, 1).unwrap_err();
    assert_eq!(err.kind(), IoErrorKind::ConnectionAborted);
    assert!(!proto.is_established());
}

#[test]
fn protocol_read_exact_during_handshake() {
    let mut session = Mock::established();
    session.inbox.push_back(0x05);
    let mut proto = NetProtocol::with(session, Hello { inited: true, said_hello: true, peer: None });
    assert_eq!(proto.read_exact(0).unwrap(), Vec::<u8>::new());
    assert_eq!(proto.read_exact(3).unwrap_err().kind(), IoErrorKind::UnexpectedEof);
    assert!(proto.is_established());
    assert!(proto.write_all(b"ok").is_ok());
    assert_eq!(proto.as_connection_mut().sent, b"ok".to_vec());
}

#[test]
fn protocol_blocking_handshake() {
    let mut session = Mock::default();
    session.inbox.push_back(0x09);
    let mut proto: NetProtocol<Hello, Mock> = NetProtocol::new(session);
    assert!(proto.run_handshake().is_ok());
    assert!(proto.is_established());
    assert_eq!(proto.artifact().unwrap().state, 9);
    assert_eq!(proto.as_connection_mut().sent, vec![0xAB]);
}

#[test]
fn protocol_split_and_join() {
    let mut session = Mock::established();
    session.inbox.push_back(0x04);
    let hello = Hello { inited: true, said_hello: true, peer: Some(1) };
    let proto: NetProtocol<Hello, Mock> = NetProtocol::with(session, hello);
    let (mut reader, mut writer) = match proto.split_io() {
        Ok(halves) => halves,
        Err(_) => panic!("the mock session splits"),
    };
    assert_eq!(reader.read(8).unwrap(), vec![0x04]);
    assert_eq!(writer.write(b"zz").unwrap(), 2);
    let mut joined = NetProtocol::from_split_io(reader, writer);
    assert!(joined.is_established());
    assert_eq!(joined.as_connection_mut().sent, b"zz".to_vec());

    let mut failing = Mock::established();
    failing.fail_setup = true;
    let proto: NetProtocol<Hello, Mock> = NetProtocol::with(failing, Hello::default());
    match proto.split_io() {
        Err(err) => {
            assert_eq!(err.error.kind(), IoErrorKind::Other);
            let mut original = err.original;
            assert!(original.as_connection_mut().fail_setup);
        }
        Ok(_) => panic!("the split of the session below fails"),
    }
}

#[test]
fn protocol_answers_handshake_input() {
    let mut proto: NetProtocol<Hello, Mock> = NetProtocol::with(Mock::established(), Hello::default());
    let failed = proto.on_handshake_input(Err(IoError::from_kind(IoErrorKind::TimedOut)));
    assert_eq!(failed.unwrap_err().kind(), IoErrorKind::TimedOut);
    assert_eq!(proto.on_handshake_input(Ok(vec![])).unwrap(), Vec::<u8>::new());
    // The first message of the peer makes the machine say hello; the answer
    // is returned, not sent.
    assert_eq!(proto.on_handshake_input(Ok(vec![0x01])).unwrap(), vec![0xAB]);
    assert!(proto.as_connection_mut().sent.is_empty());
    let refused = proto.on_handshake_input(Ok(vec![0xFF])).unwrap_err();
    assert_eq!(refused.kind(), IoErrorKind::ConnectionAborted);
    assert_eq!(refused.message, "handshake has failed due to refused identity");
    assert_eq!(proto.on_handshake_input(Ok(vec![0x09])).unwrap(), Vec::<u8>::new());
    assert!(proto.is_established());
}

#[test]
fn protocol_read_reports_refusal_text() {
    let mut session = Mock::established();
    session.inbox.push_back(0xFF);
    let hello = Hello { inited: true, said_hello: true, peer: None };
    let mut proto: NetProtocol<Hello, Mock> = NetProtocol::with(session, hello);
    let err = NetStream::read(&mut proto, 4).unwrap_err();
    assert_eq!(err.kind(), IoErrorKind::ConnectionAborted);
    assert_eq!(err.message, "handshake has failed due to refused identity");
    // Expecting no message of the peer, the read takes none and changes nothing.
    let mut session = Mock::established();
    session.inbox.push_back(0x03);
    let mut proto: NetProtocol<Hello, Mock> = NetProtocol::with(session, Hello::default());
    assert_eq!(NetStream::read(&mut proto, 4).unwrap(), Vec::<u8>::new());
    assert!(proto.as_connection_mut().sent.is_empty());
    assert_eq!(proto.as_connection_mut().inbox.len(), 1);
    // Without a message of the peer the read fails as the session does.
    let hello = Hello { inited: true, said_hello: true, peer: None };
    let mut proto: NetProtocol<Hello, Mock> = NetProtocol::with(Mock::established(), hello);
    assert_eq!(NetStream::read(&mut proto, 4).unwrap_err().kind(), IoErrorKind::UnexpectedEof);
}

#[test]
fn handshake_error_text() {
    let err = HandshakeError::with("bad key".to_string());
    assert_eq!(err.message(), "handshake has failed due to bad key");
}

#[test]
fn tunnel_prepares_both_ends() {
    let mut tunnel = match Tunnel::<Mock, MockListener>::with(Mock::established(), &"with-pending".to_string()) {
        Ok(tunnel) => tunnel,
        Err(_) => panic!("binding succeeds"),
    };
    assert_eq!(tunnel.local_addr(), "listening");
    let client = tunnel.accept_client(100).unwrap();
    assert!(client.nonblocking);
    assert!(tunnel.session_mut().nonblocking);
    assert_eq!(tunnel.accept_client(100).unwrap_err().kind(), IoErrorKind::WouldBlock);
    let failed = tunnel.prepare_client(Err(IoError::from_kind(IoErrorKind::Other)), 100);
    assert_eq!(failed.unwrap_err().kind(), IoErrorKind::Other);
    let mut broken = Mock::established();
    broken.fail_setup = true;
    let mut tunnel = match Tunnel::<Mock, MockListener>::with(broken, &"addr".to_string()) {
        Ok(tunnel) => tunnel,
        Err(_) => panic!("binding succeeds"),
    };
    assert_eq!(tunnel.prepare_client(Ok(Mock::default()), 100).unwrap_err().kind(), IoErrorKind::Other);
    assert!(tunnel.into_session().fail_setup);
}

#[test]
fn tunnel_poll_failures() {
    let tunnel = TunnelRelay::new();
    match tunnel.on_poll_failure(true) {
        TunnelStep::Done(inbound, outbound) => assert_eq!((inbound, outbound), (0, 0)),
        _ => panic!("a hung-up end completes the tunnel"),
    }
    match tunnel.on_poll_failure(false) {
        TunnelStep::Failed(err) => assert_eq!(err.kind(), IoErrorKind::BrokenPipe),
        _ => panic!("an OS failure stops the tunnel"),
    }
    match tunnel.on_poll_timeout() {
        TunnelStep::Failed(err) => assert_eq!(err.kind(), IoErrorKind::TimedOut),
        _ => panic!("a timeout stops the tunnel"),
    }
}

/// Noise handshake stand-in: sends 0x01, then takes one byte from the peer;
/// 0xFF is refused.
#[derive(Default)]
struct HandshakeOnce {
    said: bool,
    done: bool,
}

impl NoiseTranscoder for HandshakeOnce {
    type Encryptor = ();
    type Decryptor = ();
    type Error = String;

    fn is_handshake_complete(&self) -> bool {
        self.done
    }

    fn next_handshake_len(&self) -> usize {
        1
    }

    fn advance_handshake(&mut self, input: &[u8]) -> Result<Option<Vec<u8>>, String> {
        match input {
            [] if !self.said => {
                self.said = true;
                Ok(Some(vec![0x01]))
            }
            [] => Ok(None),
            [0xFF] => Err("refused".to_string()),
            _ => {
                self.done = true;
                Ok(None)
            }
        }
    }

    fn error_message(error: &String) -> String {
        error.clone()
    }

    fn try_into_split(self) -> Result<((), ()), (Self, String)> {
        if self.done { Ok(((), ())) } else { Err((self, "incomplete".to_string())) }
    }

    fn with_split(_encryptor: (), _decryptor: ()) -> Self {
        HandshakeOnce { said: true, done: true }
    }
}

#[test]
fn noise_session_handshake_then_data() {
    let mut session = Mock::established();
    session.inbox.push_back(0x02);
    let mut noise = NoiseSession::with(session, HandshakeOnce::default());
    assert_eq!(NetStream::write(&mut noise, b"a").unwrap_err().kind(), IoErrorKind::Interrupted);
    let noise = match noise.split_io() {
        Err(err) => {
            assert_eq!(err.error.kind(), IoErrorKind::NotConnected);
            err.original
        }
        Ok(_) => panic!("no split before the handshake"),
    };
    let mut noise = noise;
    assert_eq!(NetStream::read(&mut noise, 5).unwrap(), Vec::<u8>::new());
    assert_eq!(NetStream::write(&mut noise, b"hi").unwrap(), 2);
    let (mut reader, mut writer) = noise.split_io().map_err(|_| ()).unwrap();
    assert_eq!(writer.write(b"!").unwrap(), 1);
    assert_eq!(reader.read(1).unwrap(), Vec::<u8>::new());
    let mut joined = NoiseSession::from_split_io(reader, writer);
    assert!(joined.write_all(b"?").is_ok());
}

#[test]
fn noise_session_refused_handshake() {
    let mut session = Mock::established();
    session.inbox.push_back(0xFF);
    let mut noise = NoiseSession::with(session, HandshakeOnce { said: true, done: false });
    assert_eq!(NetStream::read(&mut noise, 1).unwrap_err().kind(), IoErrorKind::ConnectionAborted);
}

struct RpcRecorder;

impl ConnectionDelegate<String, Mock> for RpcRecorder {
    fn connect(&self, _remote: &String) -> Mock {
        Mock::established()
    }

    fn on_established(&self, _artifact: u32, _attempt: usize) {}

    fn on_disconnect(&self, _err: IoError, _attempt: usize) -> OnDisconnect {
        OnDisconnect::Terminate
    }

    fn on_io_error(&self, _err: IoError) {}
}

impl RpcDelegate<String, Mock> for RpcRecorder {
    type Reply = u8;
    type ReplyError = usize;

    fn parse_reply(payload: Vec<u8>) -> Result<u8, usize> {
        if payload.len() == 1 { Ok(payload[0]) } else { Err(payload.len()) }
    }

    fn on_msg_error(&self, _err: String) {}

    fn on_reply(&mut self, _reply: u8) {}
}

impl RpcPubDelegate<String, Mock> for RpcRecorder {
    type PubMsg = String;
    type PubMsgError = ();

    fn parse_pub(payload: Vec<u8>) -> Result<String, ()> {
        String::from_utf8(payload).map_err(|_| ())
    }

    fn on_msg_pub(&self, _id: u16, _msg: String) {}
}

#[test]
fn rpc_service_handles_replies() {
    let mut service: RpcService<&str> = RpcService::new();
    let req = service.before_send(vec![9], "first");
    assert_eq!(req[8], 9);
    let req = service.before_send(vec![9], "second");
    assert_eq!(req[..8], 1u64.to_le_bytes());
    match service.handle_reply::<String, Mock, RpcRecorder>(RpcReply { id: 0, payload: vec![7] }) {
        RpcReplyOutcome::Answer(cb, reply) => assert_eq!((cb, reply), ("first", 7)),
        _ => panic!("the reply answers the first request"),
    }
    match service.handle_reply::<String, Mock, RpcRecorder>(RpcReply { id: 1, payload: vec![7, 8] }) {
        RpcReplyOutcome::UnparsableReply(id, err) => assert_eq!((id, err), (1, 2)),
        _ => panic!("the payload of the second reply can't be parsed"),
    }
    match service.handle_reply::<String, Mock, RpcRecorder>(RpcReply { id: 0, payload: vec![7] }) {
        RpcReplyOutcome::Mismatching(RpcReplyError::MismatchingReply(id, payload)) => {
            assert_eq!((id, payload), (0, vec![7]))
        }
        _ => panic!("a request is answered once"),
    }
}

#[test]
fn rpc_pub_service_handles_messages() {
    let mut service: RpcPubService<&str> = RpcPubService::new();
    let _ = service.before_send(vec![], "cb");
    let msg = RpcPubMsg { id: RpcPubId::Pub(3), payload: b"news".to_vec() };
    match service.handle_msg::<String, Mock, RpcRecorder>(msg) {
        RpcPubOutcome::Pub(topic, text) => assert_eq!((topic, text.as_str()), (3, "news")),
        _ => panic!("a published message goes to the delegate"),
    }
    let msg = RpcPubMsg { id: RpcPubId::Pub(4), payload: vec![0xFF] };
    assert!(matches!(
        service.handle_msg::<String, Mock, RpcRecorder>(msg),
        RpcPubOutcome::UnparsablePub(4, ())
    ));
    let msg = RpcPubMsg { id: RpcPubId::Rpc(0), payload: vec![5] };
    match service.handle_msg::<String, Mock, RpcRecorder>(msg) {
        RpcPubOutcome::Rpc(RpcReplyOutcome::Answer(cb, reply)) => assert_eq!((cb, reply), ("cb", 5)),
        _ => panic!("the reply answers the request"),
    }
}

#[test]
fn protocol_write_all_retries_after_handshake_step() {
    let mut proto: NetProtocol<Hello, Mock> = NetProtocol::new(Mock::established());
    assert!(NetStream::write_all(&mut proto, b"hi").is_ok());
    assert_eq!(proto.as_connection_mut().sent, vec![0xAB, b'h', b'i']);
    let mut session = Mock::established();
    session.max_write = Some(0);
    let mut proto: NetProtocol<Hello, Mock> = NetProtocol::with(session, Hello { inited: true, said_hello: true, peer: Some(1) });
    assert_eq!(NetStream::write_all(&mut proto, b"x").unwrap_err().kind(), IoErrorKind::WriteZero);
}

#[test]
fn blocking_handshake_writes_answers_and_reads_messages() {
    let mut stream = Mock::established();
    stream.inbox.push_back(0x07);
    let mut hello = Hello::default();
    assert!(run_blocking_handshake(&mut hello, &mut stream).is_ok());
    assert_eq!(hello.peer, Some(7));
    assert_eq!(stream.sent, vec![0xAB]);
    assert!(stream.inbox.is_empty());
    // Completed already: nothing is exchanged.
    assert!(run_blocking_handshake(&mut hello, &mut stream).is_ok());
    assert_eq!(stream.sent, vec![0xAB]);

    let mut stream = Mock::established();
    stream.inbox.push_back(0xFF);
    let mut hello = Hello::default();
    let err = run_blocking_handshake(&mut hello, &mut stream).unwrap_err();
    assert_eq!(err.kind(), IoErrorKind::ConnectionAborted);
    assert_eq!(err.message, "handshake has failed due to refused identity");
    assert_eq!(stream.sent, vec![0xAB]);

    let mut stream = Mock::established();
    let mut hello = Hello::default();
    let err = run_blocking_handshake(&mut hello, &mut stream).unwrap_err();
    assert_eq!(err.kind(), IoErrorKind::UnexpectedEof);
    assert_eq!(stream.sent, vec![0xAB]);
}

#[test]
fn handshake_round_steps_once() {
    let mut stream = Mock::established();
    stream.inbox.push_back(0x05);
    let mut hello = Hello::default();
    assert_eq!(handshake_round(&mut hello, &mut stream, &[]).unwrap(), Some(vec![0x05]));
    assert_eq!(stream.sent, vec![0xAB]);
    assert_eq!(handshake_round(&mut hello, &mut stream, &[0x05]).unwrap(), None);
    assert_eq!(hello.peer, Some(5));
}

#[test]
fn noise_session_answers_handshake_input() {
    let mut noise = NoiseSession::with(Mock::established(), HandshakeOnce::default());
    assert_eq!(noise.on_handshake_input(Ok(vec![])).unwrap(), Some(vec![0x01]));
    let failed = noise.on_handshake_input(Err(IoError::from_kind(IoErrorKind::BrokenPipe)));
    assert_eq!(failed.unwrap_err().kind(), IoErrorKind::BrokenPipe);
    let refused = noise.on_handshake_input(Ok(vec![0xFF])).unwrap_err();
    assert_eq!(refused.kind(), IoErrorKind::ConnectionAborted);
    assert_eq!(refused.message, "refused");
    assert_eq!(noise.on_handshake_input(Ok(vec![0x02])).unwrap(), None);
}

#[test]
fn noise_session_write_sends_handshake_message() {
    let mut noise = NoiseSession::with(Mock::established(), HandshakeOnce::default());
    assert_eq!(NetStream::write(&mut noise, b"a").unwrap_err().kind(), IoErrorKind::Interrupted);
    let mut inner = Mock::established();
    inner.inbox.push_back(0xFF);
    let mut noise = NoiseSession::with(inner, HandshakeOnce { said: true, done: false });
    let err = NetStream::read(&mut noise, 1).unwrap_err();
    assert_eq!(err.message, "refused");
}

#[test]
fn tunnel_hands_back_the_session_when_binding_fails() {
    let mut session = Mock::established();
    session.sent = vec![5];
    match Tunnel::<Mock, MockListener>::with(session, &"unavailable".to_string()) {
        Err((session, err)) => {
            assert_eq!(session.sent, vec![5]);
            assert_eq!(err.kind(), IoErrorKind::AddrNotAvailable);
            assert_eq!(err.message, "no such address");
        }
        Ok(_) => panic!("binding fails"),
    }
    match NetAccept::<Mock, MockListener>::bind(&"unavailable".to_string()) {
        Err(err) => assert_eq!(err.kind(), IoErrorKind::AddrNotAvailable),
        Ok(_) => panic!("binding fails"),
    }
}

#[test]
fn client_connect_again_changes_nothing() {
    let mut client: ClientService<u64, Mock> = ClientService::new();
    let _ = client.next_action();
    let delegate = Recorder::default();
    client.connect(&delegate, &"server".to_string());
    client.connect(&delegate, &"server".to_string());
    assert!(!client.handle_timer());
    assert!(matches!(client.next_action(), Some(ClientAction::RegisterTransport(_))));
    assert!(client.next_action().is_none());
    assert_eq!(client.attempts(), 0);
}
