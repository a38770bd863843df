//! Conversion of a byte stream into length-prefixed frames.
use std::collections::VecDeque;
use std::convert::Infallible;
use std::marker::PhantomData;
use vstd::prelude::*;

use crate::bytes::{queue_drop_front, queue_extend, queue_to_vec, u16_from_le, u16_le_bytes};
use crate::netio::IoError;

verus! {

/// A frame which can be read from its payload.
pub trait Frame: Sized {
    type Error;

    /// Whether `r` is what reading a frame from `payload` gives.
    open spec fn parses_to(payload: Seq<u8>, r: Result<Self, Self::Error>) -> bool {
        arbitrary()
    }

    /// Reads a frame from its payload.
    fn parse(payload: &[u8]) -> (r: Result<Self, Self::Error>)
        ensures
            Self::parses_to(payload@, r),
    ;
}

/// Frame carrying its payload as it is.
#[derive(Clone, Debug, PartialEq, Eq, Hash)]
pub enum DumbFrame64Kb {
    Dumb(Vec<u8>),
}

impl DumbFrame64Kb {
    /// The payload of the frame.
    pub fn as_ref(&self) -> (s: &[u8])
        ensures
            match self {
                DumbFrame64Kb::Dumb(d) => s@ == d@,
            },
    {
        match self {
            DumbFrame64Kb::Dumb(data) => data.as_slice(),
        }
    }
}

/// Copies a slice into a vector.
fn slice_to_vec(s: &[u8]) -> (v: Vec<u8>)
    ensures
        v@ == s@,
{
    let mut v: Vec<u8> = Vec::new();
    crate::bytes::extend_bytes(&mut v, s);
    v
}

impl Frame for DumbFrame64Kb {
    type Error = Infallible;

    open spec fn parses_to(payload: Seq<u8>, r: Result<Self, Self::Error>) -> bool {
        r matches Ok(DumbFrame64Kb::Dumb(d)) && d@ == payload
    }

    fn parse(payload: &[u8]) -> (r: Result<Self, Self::Error>) {
        Ok(DumbFrame64Kb::Dumb(slice_to_vec(payload)))
    }
}

impl Frame for Vec<u8> {
    type Error = Infallible;

    open spec fn parses_to(payload: Seq<u8>, r: Result<Self, Self::Error>) -> bool {
        r matches Ok(d) && d@ == payload
    }

    fn parse(payload: &[u8]) -> (r: Result<Self, Self::Error>) {
        Ok(slice_to_vec(payload))
    }
}

/// A frame of a multiplexed stream: the channel in its first two bytes
/// (little endian), and a payload frame read from the whole frame.
#[derive(Clone, Debug, PartialEq, Eq, Hash)]
pub struct Multiplexed<Payload: Frame> {
    pub channel: u16,
    pub payload: Payload,
}

/// Why a multiplexed frame can't be read.
#[derive(Debug)]
pub enum MultiplexedError<E> {
    /// The frame is shorter than a channel number.
    NoChannel,
    /// The payload frame can't be read.
    PayloadParse(E),
}

impl<Payload: Frame> Frame for Multiplexed<Payload> {
    type Error = MultiplexedError<Payload::Error>;

    open spec fn parses_to(payload: Seq<u8>, r: Result<Self, Self::Error>) -> bool {
        if payload.len() < 2 {
            r matches Err(MultiplexedError::NoChannel)
        } else {
            match r {
                Ok(m) => m.channel == u16_from_le(payload) && Payload::parses_to(
                    payload,
                    Ok(m.payload),
                ),
                Err(MultiplexedError::PayloadParse(e)) => Payload::parses_to(payload, Err(e)),
                Err(MultiplexedError::NoChannel) => false,
            }
        }
    }

    fn parse(payload: &[u8]) -> (r: Result<Self, Self::Error>) {
        if payload.len() < 2 {
            return Err(MultiplexedError::NoChannel);
        }
        let channel = crate::bytes::read_u16_le(payload, 0);
        assert(payload@.skip(0) =~= payload@);
        match Payload::parse(payload) {
            Ok(p) => Ok(Multiplexed { channel, payload: p }),
            Err(e) => Err(MultiplexedError::PayloadParse(e)),
        }
    }
}

/// Value of the first `n` bytes read as a little-endian integer.
pub open spec fn le_value(b: Seq<u8>, n: nat) -> u64
    decreases n,
{
    if n == 0 {
        0
    } else {
        le_value(b, (n - 1) as nat) | ((b[n - 1] as u64) << (8 * (n - 1)) as u64)
    }
}

/// Whether the stream holds a whole frame at its front: a prefix of
/// `prefix` bytes followed by as many bytes as the prefix tells.
pub open spec fn has_frame(bytes: Seq<u8>, prefix: nat) -> bool {
    bytes.len() >= prefix && le_value(bytes, prefix) <= bytes.len() - prefix
}

/// The payload of the frame at the front of the stream.
pub open spec fn frame_payload(bytes: Seq<u8>, prefix: nat) -> Seq<u8> {
    bytes.subrange(prefix as int, prefix + le_value(bytes, prefix))
}

/// Length of the frame at the front of the stream, prefix included.
pub open spec fn frame_len(bytes: Seq<u8>, prefix: nat) -> int {
    prefix + le_value(bytes, prefix)
}

/// A frame written as its length in two little-endian bytes followed by its
/// payload is, ahead of whatever follows it, a whole frame at the front of
/// the stream: its payload is the one written, and taking it out leaves what
/// followed.
pub proof fn lemma_framed_roundtrip(payload: Seq<u8>, rest: Seq<u8>)
    requires
        payload.len() <= u16::MAX,
    ensures
        ({
            let bytes = u16_le_bytes(payload.len() as u16) + payload + rest;
            &&& has_frame(bytes, 2)
            &&& frame_payload(bytes, 2) == payload
            &&& bytes.skip(frame_len(bytes, 2)) == rest
        }),
{
    let v = payload.len() as u16;
    let bytes = u16_le_bytes(v) + payload + rest;
    let b0 = bytes[0];
    let b1 = bytes[1];
    reveal_with_fuel(le_value, 3);
    assert(le_value(bytes, 2) == (0u64 | ((b0 as u64) << 0u64)) | ((b1 as u64) << 8u64));
    assert((0u64 | ((b0 as u64) << 0u64)) | ((b1 as u64) << 8u64) == v as u64) by (bit_vector)
        requires
            b0 == (v & 0xff) as u8,
            b1 == ((v >> 8u16) & 0xff) as u8,
    ;
    assert(le_value(bytes, 2) == payload.len());
    assert(frame_payload(bytes, 2) =~= payload);
    assert(bytes.skip(frame_len(bytes, 2)) =~= rest);
}

/// Processes individual message frames out of a stream of bytes.
///
/// The stream must follow the format of
/// `<FRAME_PREFIX_BYTES-byte message length in little endian><message payload>`.
pub struct FramedStream<F: Frame, const FRAME_PREFIX_BYTES: u8> {
    stream: VecDeque<u8>,
    _phantom: PhantomData<F>,
}

/// Framed stream of frames of at most 64 KiB, carrying their payloads as
/// they are.
pub type DumbFramed64KbStream = FramedStream<DumbFrame64Kb, 2u8>;

impl<F: Frame, const FRAME_PREFIX_BYTES: u8> FramedStream<F, FRAME_PREFIX_BYTES> {
    /// Bytes received and not yet taken out as frames.
    pub closed spec fn contents(&self) -> Seq<u8> {
        self.stream@
    }

    /// Framed stream over the given bytes.
    pub fn with(stream: VecDeque<u8>) -> (s: Self)
        ensures
            s.contents() == stream@,
    {
        FramedStream { stream, _phantom: PhantomData }
    }

    /// Appends received bytes to the stream; all of them are accepted.
    pub fn write(&mut self, buf: &[u8]) -> (r: Result<usize, IoError>)
        ensures
            r matches Ok(n) && n == buf@.len(),
            final(self).contents() == old(self).contents() + buf@,
    {
        queue_extend(&mut self.stream, buf);
        Ok(buf.len())
    }

    /// Reads up to `max_len` bytes from the front of the stream.
    pub fn read(&mut self, max_len: usize) -> (out: Vec<u8>)
        ensures
            out@ == old(self).contents().take(out@.len() as int),
            out@.len() == if max_len < old(self).contents().len() {
                max_len as int
            } else {
                old(self).contents().len() as int
            },
            final(self).contents() == old(self).contents().skip(out@.len() as int),
    {
        let all = queue_to_vec(&self.stream);
        let n = if max_len < all.len() {
            max_len
        } else {
            all.len()
        };
        let mut out: Vec<u8> = Vec::new();
        let mut i: usize = 0;
        while i < n
            invariant
                i <= n,
                n <= all@.len(),
                out@ == all@.take(i as int),
            decreases n - i,
        {
            out.push(all[i]);
            i = i + 1;
            assert(out@ =~= all@.take(i as int));
        }
        queue_drop_front(&mut self.stream, n);
        out
    }

    /// Nothing to flush in memory.
    pub fn flush(&mut self) -> (r: Result<(), IoError>)
        ensures
            r is Ok,
            final(self).contents() == old(self).contents(),
    {
        Ok(())
    }

    /// Takes the next frame out of the stream. When the stream doesn't hold
    /// a whole frame yet, nothing is taken and `None` returned. A whole frame
    /// is taken out even if it can't be read; `None` is returned then.
    pub fn next(&mut self) -> (r: Option<F>)
        requires
            FRAME_PREFIX_BYTES <= 8,
        ensures
            !has_frame(old(self).contents(), FRAME_PREFIX_BYTES as nat) ==> r is None && final(
                self).contents() == old(self).contents(),
            has_frame(old(self).contents(), FRAME_PREFIX_BYTES as nat) ==> final(self).contents()
                == old(self).contents().skip(frame_len(old(self).contents(), FRAME_PREFIX_BYTES as nat))
                && (r matches Some(f) ==> F::parses_to(
                frame_payload(old(self).contents(), FRAME_PREFIX_BYTES as nat),
                Ok(f),
            )) && (r is None ==> exists|e: F::Error|
                #[trigger] F::parses_to(
                    frame_payload(old(self).contents(), FRAME_PREFIX_BYTES as nat),
                    Err::<F, F::Error>(e),
                )),
    {
        let prefix = FRAME_PREFIX_BYTES as usize;
        let all = queue_to_vec(&self.stream);
        if all.len() < prefix {
            return None;
        }
        let mut len: u64 = 0;
        let mut i: usize = 0;
        while i < prefix
            invariant
                i <= prefix,
                prefix <= 8,
                prefix == FRAME_PREFIX_BYTES as usize,
                prefix <= all@.len(),
                len == le_value(all@, i as nat),
            decreases prefix - i,
        {
            len = len | ((all[i] as u64) << (8 * i) as u64);
            i = i + 1;
        }
        let available = all.len() - prefix;
        if len > available as u64 {
            return None;
        }
        let ghost lenv = len;
        let len = len as usize;
        assert(len as int == le_value(all@, prefix as nat));
        assert(prefix + len <= all@.len());
        let total = all.len();
        let mut payload: Vec<u8> = Vec::new();
        let mut j: usize = 0;
        while j < len
            invariant
                j <= len,
                prefix + len <= all@.len(),
                total == all@.len(),
                payload@ == all@.subrange(prefix as int, prefix + j),
            decreases len - j,
        {
            assert(prefix + j < total);
            payload.push(all[prefix + j]);
            j = j + 1;
            assert(payload@ =~= all@.subrange(prefix as int, prefix + j));
        }
        queue_drop_front(&mut self.stream, prefix + len);
        assert(payload@ == frame_payload(all@, FRAME_PREFIX_BYTES as nat));
        match F::parse(payload.as_slice()) {
            Ok(frame) => Some(frame),
            Err(e) => {
                assert(F::parses_to(frame_payload(all@, FRAME_PREFIX_BYTES as nat), Err::<F, F::Error>(e)));
                None
            },
        }
    }
}

} // verus!
