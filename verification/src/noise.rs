//! A session encrypted with a Noise transcoder: reads and writes drive the
//! Noise handshake until it completes, then pass through to the session
//! below.
use vstd::prelude::*;

use crate::connection::NetStream;
use crate::netio::{IoError, IoErrorKind};
use crate::session::{IntoInit, NetSession, NetStateMachine, ProtocolArtifact};
use crate::split::{ReadHalf, SplitIo, SplitIoError, WriteHalf};

verus! {

/// What a Noise session needs of its transcoder: it runs the handshake, then
/// can be split into an encryptor and a decryptor and joined back from them.
pub trait NoiseTranscoder: Sized {
    /// Encrypting half.
    type Encryptor;
    /// Decrypting half.
    type Decryptor;
    /// Handshake failure.
    type Error;

    /// Whether the handshake has completed; the meaning is given by each
    /// implementation.
    open spec fn spec_handshake_complete(&self) -> bool {
        arbitrary()
    }

    /// Whether the encryptor and the decryptor are the halves of the
    /// transcoder; the meaning is given by each implementation.
    open spec fn spec_halves_of(whole: Self, encryptor: Self::Encryptor, decryptor: Self::Decryptor) -> bool {
        arbitrary()
    }

    /// Whether the handshake has completed.
    fn is_handshake_complete(&self) -> (r: bool)
        ensures
            r == self.spec_handshake_complete(),
    ;

    /// Length of the next handshake message expected from the peer; the
    /// meaning is given by each implementation.
    open spec fn spec_next_handshake_len(&self) -> usize {
        arbitrary()
    }

    /// Whether consuming the handshake message `input` of the peer takes the
    /// transcoder from `before` to `after`, giving the reply or the failure
    /// `r`; the meaning is given by each implementation.
    open spec fn advances_handshake(before: Self, input: Seq<u8>, after: Self, r: Result<Option<Vec<u8>>, Self::Error>) -> bool {
        arbitrary()
    }

    /// Text describing a handshake failure; the meaning is given by each
    /// implementation.
    open spec fn describes(error: Self::Error) -> Seq<char> {
        arbitrary()
    }

    /// Length of the next handshake message expected from the peer.
    fn next_handshake_len(&self) -> (n: usize)
        ensures
            n == self.spec_next_handshake_len(),
    ;

    /// Consumes a handshake message of the peer; returns the message to send
    /// in reply, if any.
    fn advance_handshake(&mut self, input: &[u8]) -> (r: Result<Option<Vec<u8>>, Self::Error>)
        ensures
            Self::advances_handshake(*old(self), input@, *final(self), r),
    ;

    /// Text describing a handshake failure.
    fn error_message(error: &Self::Error) -> (s: String)
        ensures
            s@ == Self::describes(*error),
    ;

    /// Splits a transcoder whose handshake has completed; otherwise gives it
    /// back.
    fn try_into_split(self) -> (r: Result<(Self::Encryptor, Self::Decryptor), (Self, Self::Error)>)
        ensures
            r matches Ok(halves) ==> Self::spec_halves_of(self, halves.0, halves.1),
    ;

    /// Joins an encryptor and a decryptor.
    fn with_split(encryptor: Self::Encryptor, decryptor: Self::Decryptor) -> (whole: Self)
        ensures
            Self::spec_halves_of(whole, encryptor, decryptor),
    ;
}

/// What a completed Noise handshake produced: the handshake hash and, when
/// the pattern transmits it, the static key of the peer (in its compressed
/// form), both as bytes.
#[derive(Clone, Debug, PartialEq, Eq, Hash)]
pub struct NoiseArtifact {
    pub handshake_hash: Vec<u8>,
    pub remote_static_key: Option<Vec<u8>>,
}

impl NoiseArtifact {
    /// The artifact of the handshake hash and the key of the peer.
    pub fn with(handshake_hash: Vec<u8>, remote_static_key: Option<Vec<u8>>) -> (a: NoiseArtifact)
        ensures
            a.handshake_hash == handshake_hash,
            a.remote_static_key == remote_static_key,
    {
        NoiseArtifact { handshake_hash, remote_static_key }
    }

    /// The handshake hash followed by the key of the peer, if any.
    pub fn to_vec(&self) -> (v: Vec<u8>)
        ensures
            v@ == match self.remote_static_key {
                Some(key) => self.handshake_hash@ + key@,
                None => self.handshake_hash@,
            },
    {
        let mut v: Vec<u8> = Vec::new();
        crate::bytes::extend_bytes(&mut v, self.handshake_hash.as_slice());
        match &self.remote_static_key {
            Some(key) => crate::bytes::extend_bytes(&mut v, key.as_slice()),
            None => {},
        }
        v
    }
}

/// The handshake hash of the artifact followed by the key of the peer, if any.
pub open spec fn noise_artifact_bytes(a: NoiseArtifact) -> Seq<u8> {
    match a.remote_static_key {
        Some(key) => a.handshake_hash@ + key@,
        None => a.handshake_hash@,
    }
}

/// Whether the bytes are those of the Noise artifact.
pub open spec fn is_noise_artifact_bytes(v: Vec<u8>, a: NoiseArtifact) -> bool {
    v@ == noise_artifact_bytes(a)
}

/// A protocol run after a Noise handshake is initialized with the bytes of
/// the Noise artifact.
impl<M: NetStateMachine<Artifact = NoiseArtifact>, S: NetSession> IntoInit<Vec<u8>> for ProtocolArtifact<M, S> {
    /// The initialization data are the bytes of the Noise artifact.
    open spec fn makes_init(self, init: Vec<u8>) -> bool {
        is_noise_artifact_bytes(init, self.state)
    }

    /// The bytes of the Noise artifact.
    fn into_init(self) -> (v: Vec<u8>)
        ensures
            is_noise_artifact_bytes(v, self.state),
    {
        self.state.to_vec()
    }
}

/// A session encrypted with the Noise transcoder `N` over the session `S`.
pub struct NoiseSession<N: NoiseTranscoder, S: NetSession> {
    inner: S,
    transcoder: N,
    app_sent: Ghost<Seq<u8>>,
    app_received: Ghost<Seq<u8>>,
}

impl<N: NoiseTranscoder, S: NetSession> NoiseSession<N, S> {
    /// The session below.
    pub closed spec fn spec_inner(&self) -> S {
        self.inner
    }

    /// The transcoder.
    pub closed spec fn spec_transcoder(&self) -> N {
        self.transcoder
    }

    /// Noise session over `inner` with the transcoder in its initial state.
    pub fn with(inner: S, transcoder: N) -> (s: Self)
        ensures
            s.spec_inner() == inner,
            s.spec_transcoder() == transcoder,
            s.sent() == Seq::<u8>::empty(),
            s.received() == Seq::<u8>::empty(),
    {
        NoiseSession {
            inner,
            transcoder,
            app_sent: Ghost(Seq::empty()),
            app_received: Ghost(Seq::empty()),
        }
    }

    /// Whether `r` is what splitting `whole` gives once its handshake has
    /// completed, for the result `inner` of splitting the session below and
    /// the result `halves` of splitting the transcoder: a failed split of
    /// the session below hands the session back with its failure; a
    /// transcoder that refuses to split hands the session back, its halves
    /// joined again, with `NotConnected`; otherwise the halves pair the
    /// session's halves with the encryptor and the decryptor.
    pub open spec fn split_outcome(
        whole: Self,
        inner: Result<(S::Read, S::Write), SplitIoError<S>>,
        halves: Result<(N::Encryptor, N::Decryptor), (N, N::Error)>,
        r: Result<(NoiseReader<N, S>, NoiseWriter<N, S>), SplitIoError<Self>>,
    ) -> bool {
        match inner {
            Err(e) => {
                &&& r matches Err(f)
                &&& f.error == e.error
                &&& f.original.spec_inner() == e.original
                &&& f.original.spec_transcoder() == whole.spec_transcoder()
                &&& f.original.sent() == whole.sent()
                &&& f.original.received() == whole.received()
            },
            Ok((rd, wr)) => {
                &&& S::halves_of(whole.spec_inner(), rd, wr)
                &&& match halves {
                    Ok((enc, dec)) => {
                        &&& N::spec_halves_of(whole.spec_transcoder(), enc, dec)
                        &&& r matches Ok((hr, hw))
                        &&& hr.spec_reader() == rd
                        &&& hr.spec_decryptor() == dec
                        &&& hw.spec_writer() == wr
                        &&& hw.spec_encryptor() == enc
                    },
                    Err((t, _)) => {
                        &&& r matches Err(f)
                        &&& f.error.kind == IoErrorKind::NotConnected
                        &&& f.original.spec_transcoder() == t
                        &&& S::halves_of(f.original.spec_inner(), rd, wr)
                        &&& f.original.sent() == whole.sent()
                        &&& f.original.received() == whole.received()
                    },
                }
            },
        }
    }

    /// Turns a handshake failure into an I/O error: `ConnectionAborted`,
    /// with the text of the failure.
    fn handshake_failure(err: &N::Error) -> (e: IoError)
        ensures
            e.kind == IoErrorKind::ConnectionAborted,
            e.message@ == N::describes(*err),
    {
        IoError::with_message(IoErrorKind::ConnectionAborted, N::error_message(err))
    }

    /// Whether `after` and `r` are what the transcoder `before` does with
    /// the handshake message `input` of the peer: it consumes the message,
    /// and `r` is its reply, if any, or its failure reported as
    /// `ConnectionAborted` with the text of the failure.
    pub open spec fn answers(before: N, input: Seq<u8>, after: N, r: Result<Option<Vec<u8>>, IoError>) -> bool {
        exists|res: Result<Option<Vec<u8>>, N::Error>|
            #[trigger] N::advances_handshake(before, input, after, res) && match res {
                Ok(act) => r matches Ok(a) && a == act,
                Err(err) => r matches Err(e) && e.kind == IoErrorKind::ConnectionAborted && e.message@
                    == N::describes(err),
            }
    }

    /// Takes the outcome of reading the next handshake message of the peer
    /// from the session below: a failed read is handed on unchanged;
    /// otherwise the message goes to the transcoder, and its reply, if any,
    /// is returned, to be sent to the peer (see [`Self::answers`]).
    pub fn on_handshake_input(&mut self, input: Result<Vec<u8>, IoError>) -> (r: Result<Option<Vec<u8>>, IoError>)
        ensures
            final(self).spec_inner() == old(self).spec_inner(),
            final(self).sent() == old(self).sent(),
            final(self).received() == old(self).received(),
            input matches Err(e) ==> final(self).spec_transcoder() == old(self).spec_transcoder() && (r matches Err(
                f,
            ) && f == e),
            input matches Ok(v) ==> Self::answers(old(self).spec_transcoder(), v@, final(self).spec_transcoder(), r),
    {
        let input = match input {
            Ok(input) => input,
            Err(e) => return Err(e),
        };
        let advanced = self.transcoder.advance_handshake(input.as_slice());
        let ghost res = advanced;
        let r = match advanced {
            Ok(act) => Ok(act),
            Err(err) => Err(Self::handshake_failure(&err)),
        };
        proof {
            assert(N::advances_handshake(old(self).transcoder, input@, self.transcoder, res));
        }
        r
    }

    /// Whether `sent_after` and `r` are what sending the reply `answer` to
    /// the session below gives, after it had sent `sent`: a failure is
    /// reported as it is; no reply sends nothing; otherwise the reply is
    /// written whole, and the read gives no data, or the write fails after a
    /// prefix of it.
    pub open spec fn sends_answer(sent: Seq<u8>, answer: Result<Option<Vec<u8>>, IoError>, sent_after: Seq<u8>, r: Result<Vec<u8>, IoError>) -> bool {
        match answer {
            Err(e) => r matches Err(f) && f == e && sent_after == sent,
            Ok(None) => r matches Ok(w) && w@.len() == 0 && sent_after == sent,
            Ok(Some(act)) => {
                &&& r matches Ok(w) ==> w@.len() == 0 && sent_after == sent + act@
                &&& r is Err ==> exists|n: int| 0 <= n <= act@.len() && sent_after == sent + #[trigger] act@.take(n)
            },
        }
    }

    /// Whether `after` and `r` are what receiving one handshake message of
    /// the peer gives: either the read of a message of the expected length
    /// from the session below fails, and the failure is reported with
    /// nothing changed; or a message `input` of that length is read, the
    /// transcoder answers it (see [`Self::answers`]) and the reply is sent
    /// (see [`Self::sends_answer`]).
    pub open spec fn handshake_read(before: Self, after: Self, r: Result<Vec<u8>, IoError>) -> bool {
        ||| {
            &&& r is Err
            &&& after.spec_transcoder() == before.spec_transcoder()
            &&& after.spec_inner().sent() == before.spec_inner().sent()
            &&& after.spec_inner().received() == before.spec_inner().received()
        }
        ||| exists|input: Seq<u8>, answer: Result<Option<Vec<u8>>, IoError>| {
            &&& input.len() == before.spec_transcoder().spec_next_handshake_len()
            &&& after.spec_inner().received() == before.spec_inner().received() + input
            &&& #[trigger] Self::answers(before.spec_transcoder(), input, after.spec_transcoder(), answer)
            &&& Self::sends_answer(before.spec_inner().sent(), answer, after.spec_inner().sent(), r)
        }
    }

    /// Whether `after` and `r` are what a write gives while the handshake
    /// runs: the transcoder is advanced with an empty input, its failure
    /// being reported as `ConnectionAborted` with its text, its reply, if
    /// any, being sent, and the write then reporting `Interrupted` (or the
    /// failure of sending).
    pub open spec fn handshake_write(before: Self, after: Self, r: Result<usize, IoError>) -> bool {
        &&& after.sent() == before.sent()
        &&& after.spec_inner().received() == before.spec_inner().received()
        &&& exists|res: Result<Option<Vec<u8>>, N::Error>|
            #[trigger] N::advances_handshake(before.spec_transcoder(), Seq::<u8>::empty(), after.spec_transcoder(), res)
                && match res {
                Err(err) => r matches Err(e) && e.kind == IoErrorKind::ConnectionAborted && e.message@
                    == N::describes(err) && after.spec_inner().sent() == before.spec_inner().sent(),
                Ok(None) => r matches Err(e) && e.kind == IoErrorKind::Interrupted && after.spec_inner().sent()
                    == before.spec_inner().sent(),
                Ok(Some(act)) => {
                    &&& r is Err
                    &&& exists|n: int|
                        0 <= n <= act@.len() && after.spec_inner().sent() == before.spec_inner().sent()
                            + #[trigger] act@.take(n)
                },
            }
    }
}

impl<N: NoiseTranscoder, S: NetSession> NetStream for NoiseSession<N, S> {
    /// Application bytes accepted through this session since it was made.
    closed spec fn sent(&self) -> Seq<u8> {
        self.app_sent@
    }

    /// Application bytes delivered by reads through this session since it
    /// was made.
    closed spec fn received(&self) -> Seq<u8> {
        self.app_received@
    }

    /// Once the handshake has completed, a write is a write of the session
    /// below; before, it goes as [`NoiseSession::handshake_write`] says.
    open spec fn writes(before: Self, buf: Seq<u8>, after: Self, r: Result<usize, IoError>) -> bool {
        if before.spec_transcoder().spec_handshake_complete() {
            &&& after.spec_transcoder() == before.spec_transcoder()
            &&& S::writes(before.spec_inner(), buf, after.spec_inner(), r)
        } else {
            Self::handshake_write(before, after, r)
        }
    }

    /// A flush is a flush of the session below.
    open spec fn flushes(before: Self, after: Self, r: Result<(), IoError>) -> bool {
        &&& after.spec_transcoder() == before.spec_transcoder()
        &&& S::flushes(before.spec_inner(), after.spec_inner(), r)
    }

    /// Once the handshake has completed, reads from the session below;
    /// before, receives the next handshake message, answers it and returns
    /// no data.
    fn read(&mut self, max_len: usize) -> (r: Result<Vec<u8>, IoError>)
        ensures
            old(self).spec_transcoder().spec_handshake_complete() ==> final(self).spec_transcoder()
                == old(self).spec_transcoder() && (r matches Ok(v) ==> final(self).spec_inner().received()
                == old(self).spec_inner().received() + v@),
            !old(self).spec_transcoder().spec_handshake_complete() ==> (r matches Ok(v) ==> v@.len() == 0)
                && final(self).received() == old(self).received()
                && Self::handshake_read(*old(self), *final(self), r),
    {
        if !self.transcoder.is_handshake_complete() {
            let len = self.transcoder.next_handshake_len();
            let read = self.inner.read_exact(len);
            let ghost read_g = read;
            let ghost sent = self.inner.sent();
            let answer = self.on_handshake_input(read);
            let ghost answer_g = answer;
            let r = match answer {
                Err(e) => Err(e),
                Ok(None) => Ok(Vec::new()),
                Ok(Some(act)) => match self.inner.write_all(act.as_slice()) {
                    Ok(()) => Ok(Vec::new()),
                    Err(e) => Err(e),
                },
            };
            proof {
                if let Ok(v) = read_g {
                    assert(Self::answers(old(self).spec_transcoder(), v@, self.spec_transcoder(), answer_g));
                    assert(Self::sends_answer(sent, answer_g, self.spec_inner().sent(), r));
                }
                assert(Self::handshake_read(*old(self), *self, r));
            }
            return r;
        }
        let r = self.inner.read(max_len);
        proof {
            if let Ok(v) = &r {
                self.app_received = Ghost(self.app_received@ + v@);
            }
        }
        r
    }

    /// Once the handshake has completed, writes to the session below;
    /// before, advances the handshake, sends the next handshake message, if
    /// any, and reports `Interrupted`.
    fn write(&mut self, buf: &[u8]) -> (r: Result<usize, IoError>)
        ensures
            old(self).spec_transcoder().spec_handshake_complete() ==> final(self).spec_transcoder()
                == old(self).spec_transcoder() && (r matches Ok(n) ==> final(self).spec_inner().sent()
                == old(self).spec_inner().sent() + buf@.take(n as int)),
            !old(self).spec_transcoder().spec_handshake_complete() ==> Self::handshake_write(*old(self), *final(self), r),
    {
        if !self.transcoder.is_handshake_complete() {
            let empty: Vec<u8> = Vec::new();
            let advanced = self.transcoder.advance_handshake(empty.as_slice());
            let ghost res = advanced;
            proof {
                assert(empty@ =~= Seq::<u8>::empty());
                assert(N::advances_handshake(old(self).spec_transcoder(), Seq::<u8>::empty(), self.spec_transcoder(), res));
            }
            let act = match advanced {
                Ok(act) => act,
                Err(err) => {
                    let r = Err(Self::handshake_failure(&err));
                    proof {
                        assert(Self::handshake_write(*old(self), *self, r));
                    }
                    return r;
                },
            };
            let ghost before = self.inner.sent();
            let r = match act {
                Some(next_act) => match self.inner.write_all(next_act.as_slice()) {
                    Ok(()) => {
                        proof {
                            assert(next_act@.take(next_act@.len() as int) =~= next_act@);
                        }
                        Err(IoError::from_kind(IoErrorKind::Interrupted))
                    },
                    Err(e) => {
                        proof {
                            let n = choose|n: int|
                                0 <= n <= next_act@.len() && #[trigger] self.inner.sent() == before + next_act@.take(n);
                            assert(self.inner.sent() == before + next_act@.take(n));
                        }
                        Err(e)
                    },
                },
                None => Err(IoError::from_kind(IoErrorKind::Interrupted)),
            };
            proof {
                assert(N::advances_handshake(old(self).spec_transcoder(), Seq::<u8>::empty(), self.spec_transcoder(), res));
                assert(Self::handshake_write(*old(self), *self, r));
            }
            return r;
        }
        let r = self.inner.write(buf);
        proof {
            if let Ok(n) = r {
                self.app_sent = Ghost(self.app_sent@ + buf@.take(n as int));
            }
        }
        r
    }

    /// Reads exactly `len` bytes. While the handshake runs, a read yields
    /// no data, so a non-empty request fails with `UnexpectedEof` after one
    /// handshake step.
    fn read_exact(&mut self, len: usize) -> (r: Result<Vec<u8>, IoError>)
        ensures
            len == 0 ==> (r matches Ok(v) && v@.len() == 0),
            len > 0 && !old(self).spec_transcoder().spec_handshake_complete() ==> r is Err,
    {
        if len == 0 {
            return Ok(Vec::new());
        }
        if self.transcoder.is_handshake_complete() {
            let r = self.inner.read_exact(len);
            proof {
                if let Ok(v) = &r {
                    self.app_received = Ghost(self.app_received@ + v@);
                }
            }
            return r;
        }
        match self.read(len) {
            Ok(_) => Err(IoError::from_kind(IoErrorKind::UnexpectedEof)),
            Err(e) => Err(e),
        }
    }

    /// Writes the whole of `buf`, one write after another, a write that
    /// reports `Interrupted` (as one that advanced the handshake does) being
    /// tried again; a write that accepts nothing fails with `WriteZero`.
    /// After `usize::MAX` interrupted writes the last failure is reported.
    fn write_all(&mut self, buf: &[u8]) -> (r: Result<(), IoError>) {
        let mut pos: usize = 0;
        let mut retries: usize = 0;
        while pos < buf.len()
            invariant
                pos <= buf.len(),
                self.sent() == old(self).sent() + buf@.take(pos as int),
                self.received() == old(self).received(),
            decreases buf.len() - pos, usize::MAX - retries,
        {
            let rest = vstd::slice::slice_subrange(buf, pos, buf.len());
            match self.write(rest) {
                Ok(n) => {
                    if n == 0 {
                        return Err(IoError::from_kind(IoErrorKind::WriteZero));
                    }
                    proof {
                        assert(buf@.take(pos as int) + rest@.take(n as int) =~= buf@.take(pos + n));
                    }
                    pos = pos + n;
                },
                Err(e) => {
                    if e.kind == IoErrorKind::Interrupted && retries < usize::MAX {
                        retries = retries + 1;
                    } else {
                        return Err(e);
                    }
                },
            }
        }
        proof {
            assert(buf@.take(pos as int) =~= buf@);
        }
        Ok(())
    }

    fn flush(&mut self) -> (r: Result<(), IoError>) {
        self.inner.flush()
    }
}

/// The read half of a split Noise session.
pub struct NoiseReader<N: NoiseTranscoder, S: NetSession> {
    reader: S::Read,
    decryptor: N::Decryptor,
}

impl<N: NoiseTranscoder, S: NetSession> NoiseReader<N, S> {
    /// The read half of the session below.
    pub closed spec fn spec_reader(&self) -> S::Read {
        self.reader
    }

    /// The decryptor.
    pub closed spec fn spec_decryptor(&self) -> N::Decryptor {
        self.decryptor
    }
}

impl<N: NoiseTranscoder, S: NetSession> ReadHalf for NoiseReader<N, S> {
    fn read(&mut self, max_len: usize) -> (r: Result<Vec<u8>, IoError>) {
        self.reader.read(max_len)
    }
}

/// The write half of a split Noise session.
pub struct NoiseWriter<N: NoiseTranscoder, S: NetSession> {
    writer: S::Write,
    encryptor: N::Encryptor,
}

impl<N: NoiseTranscoder, S: NetSession> NoiseWriter<N, S> {
    /// The write half of the session below.
    pub closed spec fn spec_writer(&self) -> S::Write {
        self.writer
    }

    /// The encryptor.
    pub closed spec fn spec_encryptor(&self) -> N::Encryptor {
        self.encryptor
    }
}

impl<N: NoiseTranscoder, S: NetSession> WriteHalf for NoiseWriter<N, S> {
    fn write(&mut self, buf: &[u8]) -> (r: Result<usize, IoError>) {
        self.writer.write(buf)
    }

    fn flush(&mut self) -> Result<(), IoError> {
        self.writer.flush()
    }
}

impl<N: NoiseTranscoder, S: NetSession> SplitIo for NoiseSession<N, S> {
    type Read = NoiseReader<N, S>;
    type Write = NoiseWriter<N, S>;

    /// Halves match when the halves of the session below do.
    closed spec fn parts_match(read: &NoiseReader<N, S>, write: &NoiseWriter<N, S>) -> bool {
        S::parts_match(&read.reader, &write.writer)
    }

    /// The halves of the session below are the halves of the inner session,
    /// and the encryptor and decryptor those of the transcoder.
    closed spec fn halves_of(whole: Self, read: NoiseReader<N, S>, write: NoiseWriter<N, S>) -> bool {
        &&& S::halves_of(whole.inner, read.reader, write.writer)
        &&& N::spec_halves_of(whole.transcoder, write.encryptor, read.decryptor)
    }

    /// Splits a session whose handshake has completed: the session below is
    /// split, and so is the transcoder. Before the handshake completes the
    /// session is handed back with `NotConnected`; so it is, joined again,
    /// when the transcoder refuses to split.
    fn split_io(self) -> (r: Result<(NoiseReader<N, S>, NoiseWriter<N, S>), SplitIoError<Self>>)
        ensures
            r matches Err(e) ==> e.original.sent() == self.sent() && e.original.received()
                == self.received(),
            !self.spec_transcoder().spec_handshake_complete() ==> (r matches Err(e) && e.error.kind
                == IoErrorKind::NotConnected && e.original == self),
            r is Ok ==> self.spec_transcoder().spec_handshake_complete(),
            self.spec_transcoder().spec_handshake_complete() ==> exists|
                inner: Result<(S::Read, S::Write), SplitIoError<S>>,
                halves: Result<(N::Encryptor, N::Decryptor), (N, N::Error)>,
            | #[trigger] Self::split_outcome(self, inner, halves, r),
    {
        if !self.transcoder.is_handshake_complete() {
            return Err(
                SplitIoError { original: self, error: IoError::from_kind(IoErrorKind::NotConnected) },
            );
        }
        let ghost whole = self;
        let NoiseSession { inner, transcoder, app_sent, app_received } = self;
        let inner_res = inner.split_io();
        let ghost ir = inner_res;
        let (reader, writer) = match inner_res {
            Ok(halves) => halves,
            Err(err) => {
                let r = Err(
                    SplitIoError {
                        original: NoiseSession { inner: err.original, transcoder, app_sent, app_received },
                        error: err.error,
                    },
                );
                proof {
                    let h = arbitrary::<Result<(N::Encryptor, N::Decryptor), (N, N::Error)>>();
                    assert(Self::split_outcome(whole, ir, h, r));
                }
                return r;
            },
        };
        let split = transcoder.try_into_split();
        let ghost tr = split;
        let r = match split {
            Ok((encryptor, decryptor)) => Ok(
                (NoiseReader { reader, decryptor }, NoiseWriter { writer, encryptor }),
            ),
            Err((transcoder, _)) => Err(
                SplitIoError {
                    original: NoiseSession {
                        inner: S::from_split_io(reader, writer),
                        transcoder,
                        app_sent,
                        app_received,
                    },
                    error: IoError::from_kind(IoErrorKind::NotConnected),
                },
            ),
        };
        proof {
            assert(Self::split_outcome(whole, ir, tr, r));
        }
        r
    }

    /// Joins the halves, and the encryptor and decryptor into a transcoder.
    fn from_split_io(read: NoiseReader<N, S>, write: NoiseWriter<N, S>) -> (s: Self)
        ensures
            s.sent() == Seq::<u8>::empty(),
            s.received() == Seq::<u8>::empty(),
    {
        NoiseSession {
            transcoder: N::with_split(write.encryptor, read.decryptor),
            inner: S::from_split_io(read.reader, write.writer),
            app_sent: Ghost(Seq::empty()),
            app_received: Ghost(Seq::empty()),
        }
    }
}

} // verus!
