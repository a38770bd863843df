//! Framing of messages in a byte stream and the in-memory marshaller which
//! buffers inbound bytes until whole frames can be extracted.
use std::collections::VecDeque;
use vstd::prelude::*;

use crate::bytes::{queue_drop_front, queue_extend, queue_to_vec};

verus! {

/// A message which can be written to and read back from a byte stream.
pub trait Frame: Sized {
    type Error;

    /// Whether the frame can be encoded.
    open spec fn marshalls(&self) -> bool {
        arbitrary()
    }

    /// The bytes encoding the frame, when it can be encoded.
    open spec fn encoding(&self) -> Seq<u8> {
        arbitrary()
    }

    /// What reading a frame from the front of `bytes` gives: an error, `None`
    /// when the bytes do not yet hold a whole frame, or the frame together
    /// with the number of bytes it occupies.
    open spec fn spec_unmarshall(bytes: Seq<u8>) -> Result<Option<(Self, usize)>, Self::Error> {
        arbitrary()
    }

    /// Reads a frame from the front of `bytes`. If the bytes do not contain
    /// the whole message yet, returns `Ok(None)`.
    fn unmarshall(bytes: &[u8]) -> (r: Result<Option<(Self, usize)>, Self::Error>)
        ensures
            r == Self::spec_unmarshall(bytes@),
            r matches Ok(Some((_, n))) ==> n <= bytes@.len(),
    ;

    /// Encodes the frame.
    fn marshall(&self) -> (r: Result<Vec<u8>, Self::Error>)
        ensures
            r is Ok <==> self.marshalls(),
            r matches Ok(v) ==> v@ == self.encoding(),
    ;
}

/// In-memory marshaller: bytes received from the network are written into
/// its read queue, from which whole frames are popped; frames pushed into it
/// are encoded into its write queue, from which they are read for sending.
#[derive(Clone, Debug, Default)]
pub struct Marshaller {
    read_queue: VecDeque<u8>,
    write_queue: VecDeque<u8>,
}

impl Marshaller {
    /// Bytes received and not yet consumed by a popped frame.
    pub closed spec fn read_bytes(&self) -> Seq<u8> {
        self.read_queue@
    }

    /// Bytes of pushed frames not yet read out for sending.
    pub closed spec fn write_bytes(&self) -> Seq<u8> {
        self.write_queue@
    }

    /// Marshaller with both queues empty.
    pub fn new() -> (m: Self)
        ensures
            m.read_bytes() == Seq::<u8>::empty(),
            m.write_bytes() == Seq::<u8>::empty(),
    {
        Self { read_queue: VecDeque::new(), write_queue: VecDeque::new() }
    }

    /// Marshaller with both queues empty and space reserved for `capacity`
    /// bytes in each.
    pub fn with_capacity(capacity: usize) -> (m: Self)
        ensures
            m.read_bytes() == Seq::<u8>::empty(),
            m.write_bytes() == Seq::<u8>::empty(),
    {
        Self {
            read_queue: VecDeque::with_capacity(capacity),
            write_queue: VecDeque::with_capacity(capacity),
        }
    }

    /// Encodes the frame at the end of the write queue.
    pub fn push<F: Frame>(&mut self, frame: F)
        requires
            frame.marshalls(),
        ensures
            final(self).write_bytes() == old(self).write_bytes() + frame.encoding(),
            final(self).read_bytes() == old(self).read_bytes(),
    {
        match frame.marshall() {
            Ok(bytes) => queue_extend(&mut self.write_queue, bytes.as_slice()),
            Err(_) => {},
        }
    }

    /// Extracts a frame from the front of the read queue. The bytes of the
    /// frame are removed from the queue only when a whole frame was read;
    /// otherwise the queue is left unchanged.
    pub fn pop<F: Frame>(&mut self) -> (r: Result<Option<F>, F::Error>)
        ensures
            match F::spec_unmarshall(old(self).read_bytes()) {
                Ok(Some((f, n))) => r == Ok::<Option<F>, F::Error>(Some(f))
                    && final(self).read_bytes() == old(self).read_bytes().skip(n as int),
                Ok(None) => r == Ok::<Option<F>, F::Error>(None)
                    && final(self).read_bytes() == old(self).read_bytes(),
                Err(e) => r == Err::<Option<F>, F::Error>(e)
                    && final(self).read_bytes() == old(self).read_bytes(),
            },
            final(self).write_bytes() == old(self).write_bytes(),
    {
        let contents = queue_to_vec(&self.read_queue);
        match F::unmarshall(contents.as_slice()) {
            Err(e) => Err(e),
            Ok(None) => Ok(None),
            Ok(Some((frame, pos))) => {
                queue_drop_front(&mut self.read_queue, pos);
                Ok(Some(frame))
            },
        }
    }

    /// Number of bytes in the read queue.
    pub fn read_queue_len(&self) -> (n: usize)
        ensures
            n == self.read_bytes().len(),
    {
        self.read_queue.len()
    }

    /// Number of bytes in the write queue.
    pub fn write_queue_len(&self) -> (n: usize)
        ensures
            n == self.write_bytes().len(),
    {
        self.write_queue.len()
    }

    /// Returns the unread bytes of the read queue.
    ///
    /// # Errors
    ///
    /// If write queue is not empty (i.e. some messages were not sent) fails
    /// to drain and returns back unmodified self
    pub fn drain(self) -> (r: Result<Vec<u8>, Self>)
        ensures
            self.write_bytes().len() == 0 ==> (r matches Ok(v) && v@ == self.read_bytes()),
            self.write_bytes().len() != 0 ==> (r matches Err(m) && m == self),
    {
        if self.write_queue.len() == 0 {
            Ok(queue_to_vec(&self.read_queue))
        } else {
            Err(self)
        }
    }

    /// Reads up to `max_len` bytes from the front of the write queue,
    /// removing them from it.
    pub fn read(&mut self, max_len: usize) -> (out: Vec<u8>)
        ensures
            out@.len() == if max_len < old(self).write_bytes().len() {
                max_len as int
            } else {
                old(self).write_bytes().len() as int
            },
            out@ == old(self).write_bytes().take(out@.len() as int),
            final(self).write_bytes() == old(self).write_bytes().skip(out@.len() as int),
            final(self).read_bytes() == old(self).read_bytes(),
    {
        let mut out: Vec<u8> = Vec::new();
        let ghost orig = self.write_queue@;
        while out.len() < max_len && self.write_queue.len() > 0
            invariant
                out@.len() <= max_len,
                orig == out@ + self.write_queue@,
                self.read_queue@ == old(self).read_queue@,
            decreases self.write_queue@.len(),
        {
            match self.write_queue.pop_front() {
                Some(b) => {
                    proof {
                        assert(orig == out@.push(b) + self.write_queue@) by {
                            assert(orig =~= out@.push(b) + self.write_queue@);
                        }
                    }
                    out.push(b);
                },
                None => {},
            }
        }
        assert(out@ =~= orig.take(out@.len() as int));
        assert(self.write_queue@ =~= orig.skip(out@.len() as int));
        out
    }

    /// Appends bytes received from the network to the read queue; returns
    /// the number of bytes accepted, which is all of them.
    pub fn write(&mut self, buf: &[u8]) -> (n: usize)
        ensures
            n == buf@.len(),
            final(self).read_bytes() == old(self).read_bytes() + buf@,
            final(self).write_bytes() == old(self).write_bytes(),
    {
        queue_extend(&mut self.read_queue, buf);
        buf.len()
    }

    /// Flushing an in-memory marshaller does nothing.
    pub fn flush(&mut self)
        ensures
            *final(self) == *old(self),
    {
    }
}

} // verus!
