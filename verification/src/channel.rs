//! In-memory byte channel: what is written to it is read from it in order.
use std::collections::VecDeque;
use vstd::prelude::*;

use crate::bytes::{queue_drop_front, queue_extend, queue_to_vec};
use crate::netio::{IoError, IoErrorKind};

verus! {

/// In-memory byte channel.
#[derive(Debug, Default)]
pub struct ChannelStream {
    buffer: VecDeque<u8>,
}

impl ChannelStream {
    /// Bytes written and not yet read.
    pub closed spec fn contents(&self) -> Seq<u8> {
        self.buffer@
    }

    /// Empty channel.
    pub fn new() -> (c: Self)
        ensures
            c.contents() == Seq::<u8>::empty(),
    {
        ChannelStream { buffer: VecDeque::new() }
    }

    /// Reads exactly `len` bytes from the front of the channel.
    ///
    /// # Errors
    ///
    /// `UnexpectedEof` when the channel holds fewer bytes; nothing is read then.
    pub fn read(&mut self, len: usize) -> (r: Result<Vec<u8>, IoError>)
        ensures
            len > old(self).contents().len() ==> (r matches Err(e) && e.kind
                == IoErrorKind::UnexpectedEof && final(self).contents() == old(self).contents()),
            len <= old(self).contents().len() ==> (r matches Ok(v) && v@ == old(
                self).contents().take(len as int) && final(self).contents() == old(
                self).contents().skip(len as int)),
    {
        if len > self.buffer.len() {
            return Err(IoError::from_kind(IoErrorKind::UnexpectedEof));
        }
        let all = queue_to_vec(&self.buffer);
        let mut out: Vec<u8> = Vec::new();
        let mut i: usize = 0;
        while i < len
            invariant
                i <= len,
                len <= all@.len(),
                out@ == all@.take(i as int),
            decreases len - i,
        {
            out.push(all[i]);
            i = i + 1;
            assert(out@ =~= all@.take(i as int));
        }
        queue_drop_front(&mut self.buffer, len);
        Ok(out)
    }

    /// Appends bytes to the channel; all of them are accepted.
    pub fn write(&mut self, buf: &[u8]) -> (r: Result<usize, IoError>)
        ensures
            r matches Ok(n) && n == buf@.len(),
            final(self).contents() == old(self).contents() + buf@,
    {
        queue_extend(&mut self.buffer, buf);
        Ok(buf.len())
    }

    /// Nothing to flush in memory.
    pub fn flush(&mut self) -> (r: Result<(), IoError>)
        ensures
            r is Ok,
            final(self).contents() == old(self).contents(),
    {
        Ok(())
    }
}

} // verus!
