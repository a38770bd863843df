//! Network sessions: connections which may run handshake protocols before
//! carrying application data.
use vstd::prelude::*;
use vstd::string::StringExecFns;

use crate::netio::{IoError, IoErrorKind};
use crate::connection::{NetConnection, NetStream};
use crate::split::{ReadHalf, SplitIo, SplitIoError, WriteHalf};

verus! {

/// A network session: a connection, possibly wrapped into handshake
/// protocols (encryption, authentication, proxying), carrying application
/// data once established.
///
/// The spec functions are given their meaning by each implementation; the
/// default bodies leave them unspecified.
pub trait NetSession: NetStream + SplitIo {
    /// What an established session produced: peer address, identity, keys.
    type Artifact;
    /// Address type of the underlying connection.
    type Addr;
    /// The raw connection at the bottom of the session stack.
    type Connection: NetConnection;

    /// Whether all handshakes of the session have completed.
    open spec fn spec_established(&self) -> bool {
        arbitrary()
    }

    /// Whether all handshakes of the session have completed.
    fn is_established(&self) -> (r: bool)
        ensures
            r == self.spec_established(),
    ;

    /// The artifact of the session, once established.
    open spec fn spec_artifact(&self) -> Option<Self::Artifact> {
        arbitrary()
    }

    /// The artifact of an established session.
    fn artifact(&self) -> (r: Option<Self::Artifact>)
        ensures
            r is Some <==> self.spec_established(),
            r == self.spec_artifact(),
    ;

    /// Runs the session handshakes in a blocking way; on success the session
    /// is established.
    fn run_handshake(&mut self) -> (r: Result<(), IoError>)
        ensures
            final(self).sent() == old(self).sent(),
            r is Ok ==> final(self).spec_established(),
    ;

    /// Human-readable identification of the session.
    fn display(&self) -> String;

    /// The raw connection under all protocol layers of the session. Bytes
    /// exchanged over it directly are no application data of the session,
    /// and do not change whether the session is established.
    fn as_connection_mut(&mut self) -> (c: &mut Self::Connection)
        ensures
            final(self).sent() == old(self).sent(),
            final(self).spec_established() == old(self).spec_established(),
    ;

    /// Operating system descriptor of the underlying connection.
    open spec fn spec_raw_fd(&self) -> i32 {
        arbitrary()
    }

    /// Local address of the underlying connection.
    open spec fn spec_local_addr(&self) -> Self::Addr {
        arbitrary()
    }

    /// Operating system descriptor of the underlying connection.
    fn raw_fd(&self) -> (fd: i32)
        ensures
            fd == self.spec_raw_fd(),
    ;

    /// Local address of the underlying connection.
    fn local_addr(&self) -> (a: Self::Addr)
        ensures
            a == self.spec_local_addr(),
    ;

    /// Whether the underlying connection is in non-blocking mode.
    open spec fn spec_nonblocking(&self) -> bool {
        arbitrary()
    }

    /// Switches the underlying connection between blocking and non-blocking mode.
    fn set_nonblocking(&mut self, nonblocking: bool) -> (r: Result<(), IoError>)
        ensures
            final(self).sent() == old(self).sent(),
            final(self).spec_established() == old(self).spec_established(),
            r is Ok ==> final(self).spec_nonblocking() == nonblocking,
    ;

    /// Sets the read timeout of the underlying connection, in milliseconds.
    fn set_read_timeout(&mut self, millis: Option<u64>) -> (r: Result<(), IoError>)
        ensures
            final(self).sent() == old(self).sent(),
            final(self).spec_established() == old(self).spec_established(),
            final(self).spec_nonblocking() == old(self).spec_nonblocking(),
    ;

    /// Sets the write timeout of the underlying connection, in milliseconds.
    fn set_write_timeout(&mut self, millis: Option<u64>) -> (r: Result<(), IoError>)
        ensures
            final(self).sent() == old(self).sent(),
            final(self).spec_established() == old(self).spec_established(),
            final(self).spec_nonblocking() == old(self).spec_nonblocking(),
    ;

    /// Closes the connection.
    fn disconnect(self) -> Result<(), IoError>;
}

/// A handshake protocol failed; carries the protocol's description of the failure.
#[derive(Clone, Debug)]
pub struct HandshakeError(pub String);

impl HandshakeError {
    /// Handshake failure described by the error message of the protocol.
    pub fn with(err: String) -> (e: HandshakeError)
        ensures
            e.0@ == err@,
    {
        HandshakeError(err)
    }

    /// Text of the failure: `handshake has failed due to ` followed by the
    /// protocol's description.
    pub fn message(&self) -> (s: String)
        ensures
            s@ == "handshake has failed due to "@ + self.0@,
    {
        "handshake has failed due to ".to_owned().concat(self.0.as_str())
    }
}

/// Whether `e` is the failure reported for a handshake protocol failure
/// described by `text`: `ConnectionAborted`, with the text
/// `handshake has failed due to ` followed by `text`.
pub open spec fn is_handshake_failure(e: IoError, text: Seq<char>) -> bool {
    &&& e.kind == IoErrorKind::ConnectionAborted
    &&& e.message@ == "handshake has failed due to "@ + text
}

/// Conversion of a session artifact into the data initializing the next
/// protocol in a session stack.
pub trait IntoInit<I: Sized>: Sized {
    /// Whether `init` is the initialization data made of `self`; the
    /// meaning is given by each implementation.
    open spec fn makes_init(self, init: I) -> bool {
        arbitrary()
    }

    /// The initialization data made of `self`.
    fn into_init(self) -> (init: I)
        ensures
            self.makes_init(init),
    ;
}

/// Initialization data for protocols which need none.
#[derive(Copy, Clone, Debug, PartialEq, Eq, Structural)]
pub struct ZeroInit;

impl<T> IntoInit<ZeroInit> for T {
    /// Any value makes the empty initialization data.
    open spec fn makes_init(self, init: ZeroInit) -> bool {
        true
    }

    fn into_init(self) -> ZeroInit {
        ZeroInit
    }
}

/// A handshake protocol run on top of a session: a state machine which
/// consumes the peer's handshake messages and produces its own, until it
/// completes with an artifact.
///
/// The spec functions are given their meaning by each implementation; the
/// default bodies leave them unspecified.
pub trait NetStateMachine: Sized {
    /// Data initializing the protocol, derived from the artifact of the
    /// session below it.
    type Init;
    /// What the completed protocol produced.
    type Artifact;
    /// Protocol failure.
    type Error;

    /// Whether the protocol has been initialized.
    open spec fn spec_init_done(&self) -> bool {
        arbitrary()
    }

    /// Whether the protocol has completed.
    open spec fn spec_complete(&self) -> bool {
        arbitrary()
    }

    /// Whether initializing with `init` takes the protocol from `before` to
    /// `after`.
    open spec fn initializes(before: Self, init: Self::Init, after: Self) -> bool {
        arbitrary()
    }

    /// Length of the next handshake message expected from the peer.
    open spec fn spec_next_read_len(&self) -> usize {
        arbitrary()
    }

    /// Whether consuming the message `input` of the peer takes the protocol
    /// from `before` to `after`, giving the reply or the failure `r`.
    open spec fn advances(before: Self, input: Seq<u8>, after: Self, r: Result<Vec<u8>, Self::Error>) -> bool {
        arbitrary()
    }

    /// Initializes the protocol.
    fn init(&mut self, init: Self::Init)
        ensures
            Self::initializes(*old(self), init, *final(self)),
    ;

    /// Length of the next handshake message expected from the peer.
    fn next_read_len(&self) -> (n: usize)
        ensures
            n == self.spec_next_read_len(),
    ;

    /// Consumes a handshake message of the peer and returns the message to
    /// send in reply (possibly empty).
    fn advance(&mut self, input: &[u8]) -> (r: Result<Vec<u8>, Self::Error>)
        ensures
            Self::advances(*old(self), input@, *final(self), r),
    ;

    /// The artifact of the protocol, once completed.
    open spec fn spec_artifact(&self) -> Option<Self::Artifact> {
        arbitrary()
    }

    /// The artifact of a completed protocol.
    fn artifact(&self) -> (r: Option<Self::Artifact>)
        ensures
            r is Some <==> self.spec_complete(),
            r == self.spec_artifact(),
    ;

    /// Whether the protocol has been initialized.
    fn is_init(&self) -> (r: bool)
        ensures
            r == self.spec_init_done(),
    ;

    /// Whether the protocol has completed.
    fn is_complete(&self) -> (r: bool)
        ensures
            r == self.spec_complete(),
    {
        match self.artifact() {
            Some(_) => true,
            None => false,
        }
    }

    /// Text describing a protocol failure.
    open spec fn describes(error: Self::Error) -> Seq<char> {
        arbitrary()
    }

    /// Text describing a protocol failure.
    fn error_message(error: &Self::Error) -> (s: String)
        ensures
            s@ == Self::describes(*error),
    ;

    /// Runs the whole handshake over `stream` in a blocking way; on success
    /// the protocol has completed. [`run_blocking_handshake`] does it round
    /// after round, and is what an implementation with nothing more to do
    /// calls.
    fn run_handshake<C: NetStream>(&mut self, stream: &mut C) -> (r: Result<(), IoError>)
        ensures
            old(self).spec_complete() ==> r is Ok && *final(self) == *old(self) && final(stream).sent()
                == old(stream).sent() && final(stream).received() == old(stream).received(),
            r is Ok ==> final(self).spec_complete(),
    ;
}

/// Runs the whole handshake of `machine` over `stream` in a blocking way,
/// one [`handshake_round`] after another, starting with an empty input, until
/// the protocol completes. Each reply of the protocol is written to the
/// stream in turn, and each message of the peer read from it to be fed
/// to the next round (see [`handshake_run`]). Should the protocol go on
/// for `usize::MAX` rounds, the handshake fails with `TimedOut`.
pub fn run_blocking_handshake<M: NetStateMachine, C: NetStream>(machine: &mut M, stream: &mut C) -> (r: Result<(), IoError>)
    ensures
        old(machine).spec_complete() ==> r is Ok && *final(machine) == *old(machine) && final(stream).sent()
            == old(stream).sent() && final(stream).received() == old(stream).received(),
        r is Ok ==> final(machine).spec_complete() && exists|
            states: Seq<M>,
            inputs: Seq<Seq<u8>>,
            answers: Seq<Seq<u8>>,
        |
            #[trigger] handshake_run(states, inputs, answers) && states[0] == *old(machine)
                && states.last() == *final(machine) && final(stream).sent() == old(stream).sent()
                + concat_all(answers) && final(stream).received() == old(stream).received()
                + concat_all(inputs),
        r matches Err(e) ==> exists|
            states: Seq<M>,
            inputs: Seq<Seq<u8>>,
            answers: Seq<Seq<u8>>,
            input: Seq<u8>,
            sent: Seq<u8>,
        |
            #[trigger] handshake_fails(states, inputs, answers, input, *final(machine), sent, e)
                && states[0] == *old(machine) && final(stream).sent() == old(stream).sent()
                + concat_all(answers) + sent && final(stream).received() == old(stream).received()
                + concat_all(inputs) + input,
{
    let mut input: Vec<u8> = Vec::new();
    let mut rounds: usize = 0;
    let ghost mut states: Seq<M> = seq![*machine];
    let ghost mut inputs: Seq<Seq<u8>> = Seq::empty();
    let ghost mut answers: Seq<Seq<u8>> = Seq::empty();
    proof {
        assert(concat_all(inputs) =~= Seq::<u8>::empty());
        assert(old(stream).received() + concat_all(inputs) + input@ =~= old(stream).received());
        assert(old(stream).sent() + concat_all(answers) =~= old(stream).sent());
    }
    loop
        invariant
            rounds == 0 ==> *machine == *old(machine) && *stream == *old(stream) && input@ == Seq::<u8>::empty(),
            rounds > 0 ==> !machine.spec_complete() && !old(machine).spec_complete(),
            inputs.len() == rounds,
            handshake_run(states, inputs, answers),
            states[0] == *old(machine),
            states.last() == *machine,
            next_input_fits(states, inputs, input@),
            stream.sent() == old(stream).sent() + concat_all(answers),
            stream.received() == old(stream).received() + concat_all(inputs) + input@,
        decreases usize::MAX - rounds,
    {
        if machine.is_complete() {
            proof {
                assert(input@ =~= Seq::<u8>::empty());
                assert(stream.received() =~= old(stream).received() + concat_all(inputs));
            }
            return Ok(());
        }
        if rounds == usize::MAX {
            let r = Err(IoError::from_kind(IoErrorKind::TimedOut));
            proof {
                assert(stream.sent() =~= old(stream).sent() + concat_all(answers) + Seq::<u8>::empty());
                assert(handshake_fails(states, inputs, answers, input@, *machine, Seq::<u8>::empty(), r->Err_0));
            }
            return r;
        }
        let ghost before = *machine;
        let ghost sent_before = stream.sent();
        let round = handshake_round(machine, stream, input.as_slice());
        match round {
            Ok(next) => {
                let ghost answer = choose|answer: Seq<u8>|
                    #[trigger] advances_with(before, input@, *machine, answer) && stream.sent()
                        == sent_before + answer;
                proof {
                    lemma_handshake_run_push(states, inputs, answers, *machine, input@, answer);
                    lemma_concat_all_push(answers, answer);
                    lemma_concat_all_push(inputs, input@);
                    states = states.push(*machine);
                    inputs = inputs.push(input@);
                    answers = answers.push(answer);
                }
                match next {
                    Some(next) => {
                        proof {
                            assert(stream.received() =~= old(stream).received() + concat_all(inputs) + next@);
                        }
                        rounds = rounds + 1;
                        input = next;
                    },
                    None => {
                        proof {
                            assert(stream.received() =~= old(stream).received() + concat_all(inputs));
                        }
                        return Ok(());
                    },
                }
            },
            Err(e) => {
                let ghost sent = choose|sent: Seq<u8>|
                    #[trigger] round_fails(before, input@, *machine, sent, e) && stream.sent()
                        == sent_before + sent;
                proof {
                    assert(stream.sent() =~= old(stream).sent() + concat_all(answers) + sent);
                    assert(stream.received() == old(stream).received() + concat_all(inputs) + input@);
                    assert(handshake_fails(states, inputs, answers, input@, *machine, sent, e));
                }
                return Err(e);
            },
        }
    }
}

/// One round of a blocking handshake: feeds `input` to the protocol,
/// sends the reply, if any, and, unless the protocol has completed,
/// reads the next message of the peer and returns it.
///
/// A protocol failure is reported as `ConnectionAborted`, with the text
/// of the failure (see [`round_fails`]).
pub fn handshake_round<M: NetStateMachine, C: NetStream>(machine: &mut M, stream: &mut C, input: &[u8]) -> (r: Result<
    Option<Vec<u8>>,
    IoError,
>)
    ensures
        r is Ok ==> exists|answer: Seq<u8>|
            #[trigger] advances_with(*old(machine), input@, *final(machine), answer) && final(stream).sent()
                == old(stream).sent() + answer,
        r matches Ok(None) ==> final(machine).spec_complete() && final(stream).received() == old(
            stream,
        ).received(),
        r matches Ok(Some(next)) ==> !final(machine).spec_complete() && final(stream).received()
            == old(stream).received() + next@ && next@.len() == final(machine).spec_next_read_len(),
        r matches Err(e) ==> final(stream).received() == old(stream).received() && exists|
            sent: Seq<u8>,
        |
            #[trigger] round_fails(*old(machine), input@, *final(machine), sent, e) && final(stream).sent()
                == old(stream).sent() + sent,
{
    let advanced = machine.advance(input);
    let ghost res = advanced;
    let act = match advanced {
        Ok(act) => act,
        Err(err) => {
            let failure = HandshakeError::with(M::error_message(&err));
            let e = IoError::with_message(IoErrorKind::ConnectionAborted, failure.message());
            proof {
                assert(M::advances(*old(machine), input@, *machine, res));
                assert(round_fails(*old(machine), input@, *machine, Seq::<u8>::empty(), e));
                assert(old(stream).sent() + Seq::<u8>::empty() =~= old(stream).sent());
            }
            return Err(e);
        },
    };
    let ghost after = *machine;
    proof {
        assert(M::advances(*old(machine), input@, after, res));
        assert(advances_with(*old(machine), input@, after, act@));
    }
    if act.len() > 0 {
        match stream.write_all(act.as_slice()) {
            Ok(()) => {},
            Err(e) => {
                proof {
                    let n = choose|n: int|
                        0 <= n <= act@.len() && #[trigger] stream.sent() == old(stream).sent() + act@.take(n);
                    assert(round_fails(*old(machine), input@, *machine, act@.take(n), e));
                }
                return Err(e);
            },
        }
    } else {
        proof {
            assert(old(stream).sent() + act@ =~= old(stream).sent());
        }
    }
    if machine.is_complete() {
        Ok(None)
    } else {
        let len = machine.next_read_len();
        match stream.read_exact(len) {
            Ok(next) => Ok(Some(next)),
            Err(e) => {
                proof {
                    assert(act@.take(act@.len() as int) =~= act@);
                    assert(round_fails(*old(machine), input@, *machine, act@.take(act@.len() as int), e));
                }
                Err(e)
            },
        }
    }
}

/// All the parts, one after another.
pub open spec fn concat_all(parts: Seq<Seq<u8>>) -> Seq<u8>
    decreases parts.len(),
{
    if parts.len() == 0 {
        Seq::empty()
    } else {
        concat_all(parts.drop_last()) + parts.last()
    }
}

/// Adding a part at the end adds its bytes at the end.
proof fn lemma_concat_all_push(parts: Seq<Seq<u8>>, part: Seq<u8>)
    ensures
        concat_all(parts.push(part)) == concat_all(parts) + part,
{
    assert(parts.push(part).drop_last() =~= parts);
}

/// Whether the protocol `before`, fed with `input`, advances to `after`
/// with the reply `answer`.
pub open spec fn advances_with<M: NetStateMachine>(before: M, input: Seq<u8>, after: M, answer: Seq<u8>) -> bool {
    exists|act: Vec<u8>| act@ == answer && #[trigger] M::advances(before, input, after, Ok(act))
}

/// Whether the protocol `before`, handed the message `input` of the peer,
/// gives `after` and the reply `reply`: an empty message asks for nothing
/// and changes nothing; any other is consumed, with that reply.
pub open spec fn replies_to<M: NetStateMachine>(before: M, input: Seq<u8>, after: M, reply: Seq<u8>) -> bool {
    if input.len() == 0 {
        after == before && reply.len() == 0
    } else {
        advances_with(before, input, after, reply)
    }
}

/// Whether `e` ends a round of a blocking handshake in which the protocol
/// `before` was fed with `input`, leaving it `after`, with the bytes `sent`
/// written: either the protocol failed, which is reported as
/// `ConnectionAborted` with the text of the failure, nothing being sent; or
/// it replied, and writing the reply, or reading the next message of the
/// peer, failed after a prefix of the reply was written.
pub open spec fn round_fails<M: NetStateMachine>(before: M, input: Seq<u8>, after: M, sent: Seq<u8>, e: IoError) -> bool {
    exists|res: Result<Vec<u8>, M::Error>|
        #[trigger] M::advances(before, input, after, res) && match res {
            Err(err) => is_handshake_failure(e, M::describes(err)) && sent.len() == 0,
            Ok(act) => exists|n: int| 0 <= n <= act@.len() && sent == #[trigger] act@.take(n),
        }
}

/// Round `k` of a blocking handshake: the protocol, not complete, is fed an
/// empty input in the first round, and in each later one a message of the
/// peer of the length it expects; it advances to the next state, replying
/// `answers[k]`.
pub open spec fn handshake_round_at<M: NetStateMachine>(
    states: Seq<M>,
    inputs: Seq<Seq<u8>>,
    answers: Seq<Seq<u8>>,
    k: int,
) -> bool {
    &&& !states[k].spec_complete()
    &&& k == 0 ==> inputs[k] == Seq::<u8>::empty()
    &&& k > 0 ==> inputs[k].len() == states[k].spec_next_read_len()
    &&& advances_with(states[k], inputs[k], states[k + 1], answers[k])
}

/// Whether the protocol went through the states `states` in a blocking
/// handshake, fed with `inputs` and replying `answers`, round after round.
pub open spec fn handshake_run<M: NetStateMachine>(states: Seq<M>, inputs: Seq<Seq<u8>>, answers: Seq<Seq<u8>>) -> bool {
    &&& states.len() == inputs.len() + 1
    &&& answers.len() == inputs.len()
    &&& forall|k: int| 0 <= k < inputs.len() ==> #[trigger] handshake_round_at(states, inputs, answers, k)
}

/// Whether `input` may feed the round after the handshake run `states`:
/// the first round is fed an empty input; a later one a message of the
/// length that the protocol, not complete, expects.
pub open spec fn next_input_fits<M: NetStateMachine>(states: Seq<M>, inputs: Seq<Seq<u8>>, input: Seq<u8>) -> bool {
    &&& inputs.len() == 0 ==> input == Seq::<u8>::empty()
    &&& inputs.len() > 0 ==> input.len() == states.last().spec_next_read_len() && !states.last().spec_complete()
}

/// Whether a blocking handshake failed with `e` after the run `states`,
/// fed with `inputs` and replying `answers`, with `input` read for the next
/// round, leaving the protocol `after` and the bytes `sent` written in that
/// round: the run went on for `usize::MAX` rounds, which is reported as
/// `TimedOut`; or the next round failed (see [`round_fails`]).
pub open spec fn handshake_fails<M: NetStateMachine>(
    states: Seq<M>,
    inputs: Seq<Seq<u8>>,
    answers: Seq<Seq<u8>>,
    input: Seq<u8>,
    after: M,
    sent: Seq<u8>,
    e: IoError,
) -> bool {
    &&& handshake_run(states, inputs, answers)
    &&& next_input_fits(states, inputs, input)
    &&& {
        ||| e.kind == IoErrorKind::TimedOut && inputs.len() == usize::MAX && after == states.last()
            && sent.len() == 0
        ||| round_fails(states.last(), input, after, sent, e)
    }
}

/// A run goes on with one more round.
proof fn lemma_handshake_run_push<M: NetStateMachine>(
    states: Seq<M>,
    inputs: Seq<Seq<u8>>,
    answers: Seq<Seq<u8>>,
    next: M,
    input: Seq<u8>,
    answer: Seq<u8>,
)
    requires
        handshake_run(states, inputs, answers),
        next_input_fits(states, inputs, input),
        !states.last().spec_complete(),
        advances_with(states.last(), input, next, answer),
    ensures
        handshake_run(states.push(next), inputs.push(input), answers.push(answer)),
{
    let s2 = states.push(next);
    let i2 = inputs.push(input);
    let a2 = answers.push(answer);
    assert forall|k: int| 0 <= k < i2.len() implies #[trigger] handshake_round_at(s2, i2, a2, k) by {
        if k < inputs.len() {
            assert(handshake_round_at(states, inputs, answers, k));
            assert(s2[k] == states[k] && s2[k + 1] == states[k + 1]);
        } else {
            assert(s2[k] == states.last());
        }
    }
}

} // verus!

verus! {

/// What a protocol run over a session produced: the artifact of the session
/// below and that of the protocol.
pub struct ProtocolArtifact<M: NetStateMachine, S: NetSession> {
    pub session: S::Artifact,
    pub state: M::Artifact,
}

/// A session made of the handshake protocol `M` run over the session `S`.
///
/// Until the protocol completes, reads and writes drive the handshake; once
/// it has completed, or while the session below has not been established,
/// they pass through to the session below.
pub struct NetProtocol<M: NetStateMachine, S: NetSession> where S::Artifact: IntoInit<M::Init> {
    state: M,
    session: S,
    app_sent: Ghost<Seq<u8>>,
    app_received: Ghost<Seq<u8>>,
}

impl<M: NetStateMachine, S: NetSession> NetProtocol<M, S> where S::Artifact: IntoInit<M::Init> {
    /// The protocol state machine.
    pub closed spec fn spec_state(&self) -> M {
        self.state
    }

    /// The session below the protocol.
    pub closed spec fn spec_session(&self) -> S {
        self.session
    }

    /// Whether reads and writes currently pass through to the session below.
    pub open spec fn spec_passes_through(&self) -> bool {
        self.spec_state().spec_complete() || !self.spec_session().spec_established()
    }

    /// A protocol over `session` whose state machine starts from its default.
    pub fn new(session: S) -> (p: Self) where M: Default
        ensures
            p.spec_session() == session,
            p.sent() == Seq::<u8>::empty(),
            p.received() == Seq::<u8>::empty(),
    {
        Self::with(session, M::default())
    }

    /// The protocol `state_machine` over `session`.
    pub fn with(session: S, state_machine: M) -> (p: Self)
        ensures
            p.spec_session() == session,
            p.spec_state() == state_machine,
            p.sent() == Seq::<u8>::empty(),
            p.received() == Seq::<u8>::empty(),
    {
        NetProtocol {
            state: state_machine,
            session,
            app_sent: Ghost(Seq::empty()),
            app_received: Ghost(Seq::empty()),
        }
    }

    /// Initializes the state machine from the artifact of the session below,
    /// once that session is established and if it was not initialized yet.
    fn init(&mut self) -> (r: bool)
        ensures
            final(self).session == old(self).session,
            final(self).app_sent == old(self).app_sent,
            final(self).app_received == old(self).app_received,
            r == (!old(self).state.spec_init_done() && old(self).session.spec_established()),
            !r ==> final(self).state == old(self).state,
            r ==> exists|i: M::Init| #[trigger] M::initializes(old(self).state, i, final(self).state),
            r ==> Self::initialized_from(old(self).state, old(self).session, final(self).state),
    {
        if !self.state.is_init() {
            match self.session.artifact() {
                Some(artifact) => {
                    let ghost ga = artifact;
                    let i = artifact.into_init();
                    let ghost gi = i;
                    self.state.init(i);
                    assert(M::initializes(old(self).state, gi, self.state));
                    assert(ga.makes_init(gi));
                    assert(Self::initialized_from(old(self).state, old(self).session, self.state));
                    return true;
                },
                None => {},
            }
        }
        false
    }

    /// Whether `after` and `r` are what the state machine `before` does with
    /// the handshake message `input` of the peer: an empty message asks
    /// nothing and changes nothing; otherwise the state machine consumes it
    /// and `r` is its answer (possibly empty), or its failure reported as
    /// `ConnectionAborted` with the text of the failure.
    pub open spec fn answers(before: M, input: Seq<u8>, after: M, r: Result<Vec<u8>, IoError>) -> bool {
        if input.len() == 0 {
            &&& after == before
            &&& r matches Ok(w) && w@.len() == 0
        } else {
            exists|res: Result<Vec<u8>, M::Error>|
                #[trigger] M::advances(before, input, after, res) && match res {
                    Ok(act) => r matches Ok(w) && w@ == act@,
                    Err(err) => r matches Err(e) && is_handshake_failure(e, M::describes(err)),
                }
        }
    }

    /// Takes the outcome of reading the next handshake message of the peer
    /// from the session below: a failed read is handed on unchanged;
    /// otherwise the message goes to the state machine, and what it answers
    /// is returned, to be sent to the peer (see [`Self::answers`]).
    pub fn on_handshake_input(&mut self, input: Result<Vec<u8>, IoError>) -> (r: Result<Vec<u8>, IoError>)
        ensures
            final(self).spec_session() == old(self).spec_session(),
            final(self).sent() == old(self).sent(),
            final(self).received() == old(self).received(),
            input matches Err(e) ==> final(self).spec_state() == old(self).spec_state() && (r matches Err(
                f,
            ) && f == e),
            input matches Ok(v) ==> Self::answers(old(self).spec_state(), v@, final(self).spec_state(), r),
    {
        let input = match input {
            Ok(input) => input,
            Err(e) => return Err(e),
        };
        if input.len() == 0 {
            return Ok(Vec::new());
        }
        let advanced = self.state.advance(input.as_slice());
        let ghost res = advanced;
        let r = match advanced {
            Ok(act) => Ok(act),
            Err(err) => Err(Self::handshake_failure(&err)),
        };
        proof {
            assert(M::advances(old(self).state, input@, self.state, res));
        }
        r
    }

    /// Whether `sent_after` and `r` are what sending the answer `answer` to
    /// the session below gives, after it had sent `sent`: a failure is
    /// reported as it is; an empty answer sends nothing; otherwise the answer
    /// is written whole, and the read gives no data, or the write fails
    /// after a prefix of it.
    pub open spec fn sends_answer(sent: Seq<u8>, answer: Result<Vec<u8>, IoError>, sent_after: Seq<u8>, r: Result<Vec<u8>, IoError>) -> bool {
        match answer {
            Err(e) => r matches Err(f) && f == e && sent_after == sent,
            Ok(act) => if act@.len() == 0 {
                &&& r matches Ok(w) && w@.len() == 0
                &&& sent_after == sent
            } else {
                &&& r matches Ok(w) ==> w@.len() == 0 && sent_after == sent + act@
                &&& r is Err ==> exists|n: int| 0 <= n <= act@.len() && sent_after == sent + #[trigger] act@.take(n)
            },
        }
    }

    /// Whether `after` and `r` are what receiving one handshake message of
    /// the peer gives, from the protocol state `s1` that `before` had, or
    /// that initializing it gave: either the read of a message of the
    /// expected length from the session below fails, and the failure is
    /// reported with nothing changed; or a message `input` of that length
    /// is read, the state machine answers it (see [`Self::answers`]) and the
    /// answer is sent (see [`Self::sends_answer`]).
    pub open spec fn handshake_read(before: Self, s1: M, after: Self, r: Result<Vec<u8>, IoError>) -> bool {
        &&& s1 == before.spec_state() || exists|i: M::Init| #[trigger] M::initializes(before.spec_state(), i, s1)
        &&& {
            ||| {
                &&& r is Err
                &&& after.spec_state() == s1
                &&& after.spec_session().sent() == before.spec_session().sent()
                &&& after.spec_session().received() == before.spec_session().received()
            }
            ||| exists|input: Seq<u8>, answer: Result<Vec<u8>, IoError>| {
                &&& input.len() == s1.spec_next_read_len()
                &&& after.spec_session().received() == before.spec_session().received() + input
                &&& #[trigger] Self::answers(s1, input, after.spec_state(), answer)
                &&& Self::sends_answer(before.spec_session().sent(), answer, after.spec_session().sent(), r)
            }
        }
    }

    /// A read during the handshake answers the peer: when it succeeds, a
    /// message of the length the state machine expects was read from the
    /// session below, and the reply of the state machine to it was written
    /// whole to the session below; an empty message asks for no reply and
    /// leaves the state machine as it was.
    pub proof fn lemma_handshake_read_sends_reply(before: Self, s1: M, after: Self, r: Result<Vec<u8>, IoError>)
        requires
            Self::handshake_read(before, s1, after, r),
            r is Ok,
        ensures
            exists|input: Seq<u8>, reply: Seq<u8>|
                input.len() == s1.spec_next_read_len() && after.spec_session().received()
                    == before.spec_session().received() + input && after.spec_session().sent()
                    == before.spec_session().sent() + reply && #[trigger] replies_to(
                    s1,
                    input,
                    after.spec_state(),
                    reply,
                ),
    {
        let (input, answer) = choose|input: Seq<u8>, answer: Result<Vec<u8>, IoError>| {
            &&& input.len() == s1.spec_next_read_len()
            &&& after.spec_session().received() == before.spec_session().received() + input
            &&& #[trigger] Self::answers(s1, input, after.spec_state(), answer)
            &&& Self::sends_answer(before.spec_session().sent(), answer, after.spec_session().sent(), r)
        };
        if input.len() == 0 {
            let reply = Seq::<u8>::empty();
            assert(after.spec_session().sent() =~= before.spec_session().sent() + reply);
            assert(replies_to(s1, input, after.spec_state(), reply));
        } else {
            let res = choose|res: Result<Vec<u8>, M::Error>|
                #[trigger] M::advances(s1, input, after.spec_state(), res) && match res {
                    Ok(act) => answer matches Ok(w) && w@ == act@,
                    Err(err) => answer matches Err(e) && is_handshake_failure(e, M::describes(err)),
                };
            match res {
                Ok(act) => {
                    assert(advances_with(s1, input, after.spec_state(), act@));
                    if act@.len() == 0 {
                        assert(before.spec_session().sent() + act@ =~= before.spec_session().sent());
                    }
                    assert(after.spec_session().sent() == before.spec_session().sent() + act@);
                    assert(replies_to(s1, input, after.spec_state(), act@));
                },
                Err(_) => {
                    // The failure would have ended the read with an error.
                    assert(answer is Err);
                },
            }
        }
    }

    /// Whether `after` and `r` are what a write of `buf` gives while the
    /// handshake runs, from the protocol state `s1` that `before` had, or
    /// that initializing it gave: when the state machine expects no message
    /// of the peer, it is advanced with an empty input, its failure being
    /// reported as `ConnectionAborted` with its text, its answer, if any,
    /// being sent, and the write then reporting `Interrupted` (or the
    /// failure of sending); otherwise `buf` is written to the session below.
    pub open spec fn handshake_write(before: Self, s1: M, buf: Seq<u8>, after: Self, r: Result<usize, IoError>) -> bool {
        &&& s1 == before.spec_state() || exists|i: M::Init| #[trigger] M::initializes(before.spec_state(), i, s1)
        &&& after.spec_session().received() == before.spec_session().received()
        &&& if s1.spec_next_read_len() == 0 {
            &&& after.sent() == before.sent()
            &&& exists|res: Result<Vec<u8>, M::Error>|
                #[trigger] M::advances(s1, Seq::<u8>::empty(), after.spec_state(), res) && match res {
                    Err(err) => r matches Err(e) && is_handshake_failure(e, M::describes(err))
                        && after.spec_session().sent() == before.spec_session().sent(),
                    Ok(act) => if act@.len() == 0 {
                        &&& r matches Err(e) && e.kind == IoErrorKind::Interrupted
                        &&& after.spec_session().sent() == before.spec_session().sent()
                    } else {
                        &&& r is Err
                        &&& exists|n: int|
                            0 <= n <= act@.len() && after.spec_session().sent()
                                == before.spec_session().sent() + #[trigger] act@.take(n)
                    },
                }
        } else {
            &&& after.spec_state() == s1
            &&& match r {
                Ok(n) => n <= buf.len() && after.spec_session().sent() == before.spec_session().sent()
                    + buf.take(n as int),
                Err(_) => after.spec_session().sent() == before.spec_session().sent(),
            }
        }
    }

    /// Whether initializing the state machine `before` from the artifact of
    /// the established session `below` gives `after`: the artifact makes the
    /// initialization data, with which the state machine is initialized.
    pub open spec fn initialized_from(before: M, below: S, after: M) -> bool {
        exists|a: S::Artifact, i: M::Init|
            below.spec_artifact() == Some(a) && #[trigger] a.makes_init(i) && #[trigger] M::initializes(before, i, after)
    }

    /// Whether `after` and `r` are what running the handshakes in a blocking
    /// way gives from `before`: on success the protocol has completed over
    /// an established session below; and a protocol that was not initialized
    /// was, before its own handshake ran, initialized from the artifact of
    /// the established session below (which is the session it started with,
    /// when that one was established already).
    pub open spec fn runs_handshakes(before: Self, after: Self, r: Result<(), IoError>) -> bool {
        &&& r is Ok ==> after.spec_state().spec_complete() && after.spec_established()
        &&& r is Ok && !before.spec_state().spec_init_done() ==> exists|below: S, mid: M|
            #[trigger] Self::initialized_from(before.spec_state(), below, mid) && below.spec_established()
                && (before.spec_session().spec_established() ==> below == before.spec_session())
    }

    /// A blocking handshake never runs a protocol that was not initialized
    /// without initializing it first from the artifact of the session below:
    /// once it succeeds, some established session below had an artifact
    /// making initialization data with which the protocol was initialized.
    pub proof fn lemma_handshake_initializes_protocol(before: Self, after: Self)
        requires
            Self::runs_handshakes(before, after, Ok(())),
            !before.spec_state().spec_init_done(),
        ensures
            exists|below: S, a: S::Artifact, i: M::Init, mid: M|
                #[trigger] M::initializes(before.spec_state(), i, mid) && #[trigger] below.spec_established()
                    && below.spec_artifact() == Some(a) && #[trigger] a.makes_init(i)
                    && (before.spec_session().spec_established() ==> below == before.spec_session()),
    {
        let (below, mid) = choose|below: S, mid: M|
            #[trigger] Self::initialized_from(before.spec_state(), below, mid) && below.spec_established()
                && (before.spec_session().spec_established() ==> below == before.spec_session());
        let (a, i) = choose|a: S::Artifact, i: M::Init|
            below.spec_artifact() == Some(a) && #[trigger] a.makes_init(i) && #[trigger] M::initializes(before.spec_state(), i, mid);
        assert(M::initializes(before.spec_state(), i, mid) && a.makes_init(i));
    }

    /// Turns a failure of the state machine into an I/O error.
    fn handshake_failure(err: &M::Error) -> (e: IoError)
        ensures
            is_handshake_failure(e, M::describes(*err)),
    {
        let failure = HandshakeError::with(M::error_message(err));
        IoError::with_message(IoErrorKind::ConnectionAborted, failure.message())
    }
}

impl<M: NetStateMachine, S: NetSession> NetStream for NetProtocol<M, S> where
    S::Artifact: IntoInit<M::Init>,
 {
    /// Application bytes accepted through this protocol since it was made.
    closed spec fn sent(&self) -> Seq<u8> {
        self.app_sent@
    }

    /// Application bytes delivered by reads through this protocol since it
    /// was made.
    closed spec fn received(&self) -> Seq<u8> {
        self.app_received@
    }

    /// A write passing through is a write of the session below; one while
    /// the handshake runs goes as [`NetProtocol::handshake_write`] says.
    open spec fn writes(before: Self, buf: Seq<u8>, after: Self, r: Result<usize, IoError>) -> bool {
        if before.spec_passes_through() {
            &&& after.spec_state() == before.spec_state()
            &&& S::writes(before.spec_session(), buf, after.spec_session(), r)
        } else {
            exists|s1: M| #[trigger] Self::handshake_write(before, s1, buf, after, r)
        }
    }

    /// A flush is a flush of the session below.
    open spec fn flushes(before: Self, after: Self, r: Result<(), IoError>) -> bool {
        &&& after.spec_state() == before.spec_state()
        &&& S::flushes(before.spec_session(), after.spec_session(), r)
    }

    /// Passes through to the session below, or else receives the next
    /// handshake message of the peer, answers it and returns no data.
    fn read(&mut self, max_len: usize) -> (r: Result<Vec<u8>, IoError>)
        ensures
            old(self).spec_passes_through() ==> final(self).spec_state() == old(self).spec_state(),
            old(self).spec_passes_through() ==> (r matches Ok(v) ==> final(self).spec_session().received()
                == old(self).spec_session().received() + v@),
            !old(self).spec_passes_through() ==> (r matches Ok(v) ==> v@.len() == 0),
            !old(self).spec_passes_through() ==> final(self).received() == old(self).received(),
            !old(self).spec_passes_through() ==> exists|s1: M|
                #[trigger] Self::handshake_read(*old(self), s1, *final(self), r),
    {
        if self.state.is_complete() || !self.session.is_established() {
            let r = self.session.read(max_len);
            proof {
                if let Ok(v) = &r {
                    self.app_received = Ghost(self.app_received@ + v@);
                }
            }
            return r;
        }
        self.init();
        let ghost s1 = self.state;
        let len = self.state.next_read_len();
        let read = self.session.read_exact(len);
        let ghost read_g = read;
        let ghost sent = self.session.sent();
        let answer = self.on_handshake_input(read);
        let ghost answer_g = answer;
        let r = match answer {
            Err(e) => Err(e),
            Ok(act) => {
                if act.len() == 0 {
                    Ok(Vec::new())
                } else {
                    match self.session.write_all(act.as_slice()) {
                        Ok(()) => Ok(Vec::new()),
                        Err(e) => Err(e),
                    }
                }
            },
        };
        proof {
            match read_g {
                Err(_) => {
                    assert(Self::handshake_read(*old(self), s1, *self, r));
                },
                Ok(v) => {
                    assert(Self::answers(s1, v@, self.spec_state(), answer_g));
                    assert(Self::sends_answer(sent, answer_g, self.session.sent(), r));
                    assert(Self::handshake_read(*old(self), s1, *self, r));
                },
            }
        }
        r
    }

    /// Passes through to the session below; or else, when the protocol has
    /// a message of its own to send, sends it and reports `Interrupted`; or
    /// else writes to the session below.
    fn write(&mut self, buf: &[u8]) -> (r: Result<usize, IoError>)
        ensures
            old(self).spec_passes_through() ==> final(self).spec_state() == old(self).spec_state(),
            old(self).spec_passes_through() ==> (r matches Ok(n) ==> final(self).spec_session().sent()
                == old(self).spec_session().sent() + buf@.take(n as int)),
            !old(self).spec_passes_through() ==> exists|s1: M|
                #[trigger] Self::handshake_write(*old(self), s1, buf@, *final(self), r),
    {
        if !(self.state.is_complete() || !self.session.is_established()) {
            self.init();
            let ghost s1 = self.state;
            if self.state.next_read_len() == 0 {
                let empty: Vec<u8> = Vec::new();
                let advanced = self.state.advance(empty.as_slice());
                let ghost res = advanced;
                proof {
                    assert(empty@ =~= Seq::<u8>::empty());
                    assert(M::advances(s1, Seq::<u8>::empty(), self.state, res));
                }
                let act = match advanced {
                    Ok(act) => act,
                    Err(err) => {
                        let r = Err(Self::handshake_failure(&err));
                        proof {
                            assert(M::advances(s1, Seq::<u8>::empty(), self.spec_state(), res));
                            assert(Self::handshake_write(*old(self), s1, buf@, *self, r));
                        }
                        return r;
                    },
                };
                let ghost before = self.session.sent();
                let r = if act.len() > 0 {
                    match self.session.write_all(act.as_slice()) {
                        Ok(()) => Err(IoError::from_kind(IoErrorKind::Interrupted)),
                        Err(e) => Err(e),
                    }
                } else {
                    Err(IoError::from_kind(IoErrorKind::Interrupted))
                };
                proof {
                    assert(M::advances(s1, Seq::<u8>::empty(), self.spec_state(), res));
                    if act@.len() > 0 {
                        if self.session.sent() == before + act@ {
                            assert(act@.take(act@.len() as int) =~= act@);
                        } else {
                            let n = choose|n: int|
                                0 <= n <= act@.len() && #[trigger] self.session.sent() == before + act@.take(n);
                            assert(self.session.sent() == before + act@.take(n));
                        }
                    } else {
                        assert(self.session.sent() == before);
                    }
                    assert(Self::handshake_write(*old(self), s1, buf@, *self, r));
                }
                return r;
            }
            let r = self.session.write(buf);
            proof {
                if let Ok(n) = r {
                    self.app_sent = Ghost(self.app_sent@ + buf@.take(n as int));
                }
                assert(Self::handshake_write(*old(self), s1, buf@, *self, r));
            }
            return r;
        }
        let r = self.session.write(buf);
        proof {
            if let Ok(n) = r {
                self.app_sent = Ghost(self.app_sent@ + buf@.take(n as int));
            }
        }
        r
    }

    /// Reads exactly `len` bytes. While the handshake runs, a read yields
    /// no data, so a non-empty request fails with `UnexpectedEof` after one
    /// handshake step.
    fn read_exact(&mut self, len: usize) -> (r: Result<Vec<u8>, IoError>)
        ensures
            len == 0 ==> (r matches Ok(v) && v@.len() == 0),
            len > 0 && !old(self).spec_passes_through() ==> r is Err,
            len > 0 && old(self).spec_passes_through() ==> (r matches Ok(v) ==> final(self).spec_session().received()
                == old(self).spec_session().received() + v@),
    {
        if len == 0 {
            return Ok(Vec::new());
        }
        if self.state.is_complete() || !self.session.is_established() {
            let r = self.session.read_exact(len);
            proof {
                if let Ok(v) = &r {
                    self.app_received = Ghost(self.app_received@ + v@);
                }
            }
            return r;
        }
        match self.read(len) {
            Ok(v) => {
                proof {
                    assert(self.app_received@ =~= old(self).app_received@);
                }
                Err(IoError::from_kind(IoErrorKind::UnexpectedEof))
            },
            Err(e) => Err(e),
        }
    }

    /// Writes the whole of `buf`, one write after another, a write that
    /// reports `Interrupted` (as one that sent a handshake message does)
    /// being tried again; a write that accepts nothing fails with
    /// `WriteZero`. After `usize::MAX` interrupted writes the last failure
    /// is reported.
    fn write_all(&mut self, buf: &[u8]) -> (r: Result<(), IoError>) {
        let mut pos: usize = 0;
        let mut retries: usize = 0;
        while pos < buf.len()
            invariant
                pos <= buf.len(),
                self.sent() == old(self).sent() + buf@.take(pos as int),
                self.received() == old(self).received(),
            decreases buf.len() - pos, usize::MAX - retries,
        {
            let rest = vstd::slice::slice_subrange(buf, pos, buf.len());
            match self.write(rest) {
                Ok(n) => {
                    if n == 0 {
                        return Err(IoError::from_kind(IoErrorKind::WriteZero));
                    }
                    proof {
                        assert(buf@.take(pos as int) + rest@.take(n as int) =~= buf@.take(pos + n));
                    }
                    pos = pos + n;
                },
                Err(e) => {
                    if e.kind == IoErrorKind::Interrupted && retries < usize::MAX {
                        retries = retries + 1;
                    } else {
                        return Err(e);
                    }
                },
            }
        }
        proof {
            assert(buf@.take(pos as int) =~= buf@);
        }
        Ok(())
    }

    fn flush(&mut self) -> (r: Result<(), IoError>) {
        self.session.flush()
    }
}

impl<M: NetStateMachine, S: NetSession> SplitIo for NetProtocol<M, S> where
    S::Artifact: IntoInit<M::Init>,
 {
    type Read = NetReader<S>;
    type Write = NetWriter<M, S>;

    /// Halves match when they carry the same tag and the halves of the
    /// session below match.
    closed spec fn parts_match(read: &NetReader<S>, write: &NetWriter<M, S>) -> bool {
        read.unique_id == write.unique_id && S::parts_match(&read.reader, &write.writer)
    }

    /// The halves carry the halves of the session below, with one tag, and
    /// the write half carries the protocol state.
    closed spec fn halves_of(whole: Self, read: NetReader<S>, write: NetWriter<M, S>) -> bool {
        &&& S::halves_of(whole.session, read.reader, write.writer)
        &&& read.unique_id == write.unique_id
        &&& write.state == whole.state
    }

    /// Splits the session below; the protocol state goes with the write half.
    fn split_io(self) -> (r: Result<(NetReader<S>, NetWriter<M, S>), SplitIoError<Self>>)
        ensures
            r matches Ok(halves) ==> halves.1.spec_state() == self.spec_state(),
            r matches Err(e) ==> e.original.spec_state() == self.spec_state() && e.original.sent()
                == self.sent() && e.original.received() == self.received(),
    {
        let unique_id = random_u64();
        let NetProtocol { state, session, app_sent, app_received } = self;
        match session.split_io() {
            Err(err) => Err(
                SplitIoError { original: NetProtocol { state, session: err.original, app_sent, app_received }, error: err.error },
            ),
            Ok((reader, writer)) => Ok(
                (NetReader { unique_id, reader }, NetWriter { unique_id, state, writer }),
            ),
        }
    }

    /// Joins the halves of one split; the protocol state comes from the
    /// write half.
    fn from_split_io(read: NetReader<S>, write: NetWriter<M, S>) -> (p: Self)
        ensures
            p.spec_state() == write.spec_state(),
            p.sent() == Seq::<u8>::empty(),
            p.received() == Seq::<u8>::empty(),
    {
        NetProtocol {
            state: write.state,
            session: S::from_split_io(read.reader, write.writer),
            app_sent: Ghost(Seq::empty()),
            app_received: Ghost(Seq::empty()),
        }
    }
}

impl<M: NetStateMachine, S: NetSession> NetSession for NetProtocol<M, S> where
    S::Artifact: IntoInit<M::Init>,
 {
    type Artifact = ProtocolArtifact<M, S>;
    type Addr = S::Addr;
    type Connection = S::Connection;

    /// Established once the session below is and the protocol has completed.
    open spec fn spec_established(&self) -> bool {
        self.spec_session().spec_established() && self.spec_state().spec_complete()
    }

    /// The artifacts of the session below and of the protocol, once both
    /// are there.
    open spec fn spec_artifact(&self) -> Option<ProtocolArtifact<M, S>> {
        match (self.spec_session().spec_artifact(), self.spec_state().spec_artifact()) {
            (Some(session), Some(state)) => Some(ProtocolArtifact { session, state }),
            _ => None,
        }
    }

    /// Whether the session below is in non-blocking mode.
    open spec fn spec_nonblocking(&self) -> bool {
        self.spec_session().spec_nonblocking()
    }

    /// The descriptor of the session below.
    open spec fn spec_raw_fd(&self) -> i32 {
        self.spec_session().spec_raw_fd()
    }

    /// The local address of the session below.
    open spec fn spec_local_addr(&self) -> S::Addr {
        self.spec_session().spec_local_addr()
    }

    fn is_established(&self) -> (r: bool) {
        self.session.is_established() && self.state.is_complete()
    }

    fn artifact(&self) -> (r: Option<ProtocolArtifact<M, S>>) {
        match self.session.artifact() {
            None => None,
            Some(session) => match self.state.artifact() {
                None => None,
                Some(state) => Some(ProtocolArtifact { session, state }),
            },
        }
    }

    /// Completes the handshakes of the session below, initializes the
    /// protocol and runs its handshake over the raw connection; on success
    /// the protocol has completed.
    fn run_handshake(&mut self) -> (r: Result<(), IoError>)
        ensures
            r is Ok ==> final(self).spec_state().spec_complete() && final(self).spec_established(),
            old(self).spec_session().spec_established() ==> final(self).spec_session().spec_established(),
            Self::runs_handshakes(*old(self), *final(self), r),
    {
        if !self.session.is_established() {
            match self.session.run_handshake() {
                Ok(()) => {},
                Err(e) => return Err(e),
            }
        }
        let ghost below = self.session;
        let inited = self.init();
        let ghost mid = self.state;
        let r = self.state.run_handshake(self.session.as_connection_mut());
        proof {
            if !old(self).state.spec_init_done() {
                assert(inited);
                assert(Self::initialized_from(old(self).state, below, mid));
            }
        }
        r
    }

    /// The artifact of the session below once the whole session is
    /// established, and `<no-id>` before.
    fn display(&self) -> (s: String)
        ensures
            !self.spec_established() ==> s@ == "<no-id>"@,
    {
        if self.is_established() {
            self.session.display()
        } else {
            "<no-id>".to_owned()
        }
    }

    fn as_connection_mut(&mut self) -> &mut S::Connection {
        self.session.as_connection_mut()
    }

    fn raw_fd(&self) -> i32 {
        self.session.raw_fd()
    }

    fn local_addr(&self) -> S::Addr {
        self.session.local_addr()
    }

    fn set_nonblocking(&mut self, nonblocking: bool) -> (r: Result<(), IoError>) {
        self.session.set_nonblocking(nonblocking)
    }

    fn set_read_timeout(&mut self, millis: Option<u64>) -> (r: Result<(), IoError>) {
        self.session.set_read_timeout(millis)
    }

    fn set_write_timeout(&mut self, millis: Option<u64>) -> (r: Result<(), IoError>) {
        self.session.set_write_timeout(millis)
    }

    fn disconnect(self) -> Result<(), IoError> {
        self.session.disconnect()
    }
}

/// The read half of a split protocol session.
pub struct NetReader<S: NetSession> {
    unique_id: u64,
    reader: S::Read,
}

impl<S: NetSession> ReadHalf for NetReader<S> {
    fn read(&mut self, max_len: usize) -> (r: Result<Vec<u8>, IoError>) {
        self.reader.read(max_len)
    }
}

/// The write half of a split protocol session; it keeps the protocol state.
pub struct NetWriter<M: NetStateMachine, S: NetSession> {
    unique_id: u64,
    state: M,
    writer: S::Write,
}

impl<M: NetStateMachine, S: NetSession> NetWriter<M, S> {
    /// The protocol state carried by the write half.
    pub closed spec fn spec_state(&self) -> M {
        self.state
    }
}

impl<M: NetStateMachine, S: NetSession> WriteHalf for NetWriter<M, S> {
    fn write(&mut self, buf: &[u8]) -> (r: Result<usize, IoError>) {
        self.writer.write(buf)
    }

    fn flush(&mut self) -> Result<(), IoError> {
        self.writer.flush()
    }
}

/// A random number tagging the two halves of one split, drawn with
/// `rand::random`; nothing is promised of its value.
#[verifier::external_body]
fn random_u64() -> u64 {
    rand::random::<u64>()
}

} // verus!
