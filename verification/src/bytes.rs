//! Little-endian encodings of integers and byte-copying helpers shared by the
//! message codecs.
use std::collections::VecDeque;
use vstd::prelude::*;

verus! {

/// Little-endian encoding of a 64-bit integer.
pub open spec fn u64_le_bytes(v: u64) -> Seq<u8> {
    seq![
        (v & 0xff) as u8,
        ((v >> 8u64) & 0xff) as u8,
        ((v >> 16u64) & 0xff) as u8,
        ((v >> 24u64) & 0xff) as u8,
        ((v >> 32u64) & 0xff) as u8,
        ((v >> 40u64) & 0xff) as u8,
        ((v >> 48u64) & 0xff) as u8,
        ((v >> 56u64) & 0xff) as u8,
    ]
}

/// The 64-bit integer whose little-endian encoding is the first eight bytes.
pub open spec fn u64_from_le(b: Seq<u8>) -> u64
    recommends
        b.len() >= 8,
{
    (b[0] as u64) | ((b[1] as u64) << 8u64) | ((b[2] as u64) << 16u64) | ((b[3] as u64)
        << 24u64) | ((b[4] as u64) << 32u64) | ((b[5] as u64) << 40u64) | ((b[6] as u64)
        << 48u64) | ((b[7] as u64) << 56u64)
}

/// Little-endian encoding of a 16-bit integer.
pub open spec fn u16_le_bytes(v: u16) -> Seq<u8> {
    seq![(v & 0xff) as u8, ((v >> 8u16) & 0xff) as u8]
}

/// The 16-bit integer whose little-endian encoding is the first two bytes.
pub open spec fn u16_from_le(b: Seq<u8>) -> u16
    recommends
        b.len() >= 2,
{
    (b[0] as u16) | ((b[1] as u16) << 8u16)
}

/// Decoding the encoding of a 64-bit integer gives the integer back.
pub proof fn lemma_u64_le_roundtrip(v: u64)
    ensures
        u64_le_bytes(v).len() == 8,
        u64_from_le(u64_le_bytes(v)) == v,
{
    let b = u64_le_bytes(v);
    let b0 = b[0];
    let b1 = b[1];
    let b2 = b[2];
    let b3 = b[3];
    let b4 = b[4];
    let b5 = b[5];
    let b6 = b[6];
    let b7 = b[7];
    assert((b0 as u64) | ((b1 as u64) << 8u64) | ((b2 as u64) << 16u64) | ((b3 as u64) << 24u64)
        | ((b4 as u64) << 32u64) | ((b5 as u64) << 40u64) | ((b6 as u64) << 48u64) | ((b7 as u64)
        << 56u64) == v) by (bit_vector)
        requires
            b0 == (v & 0xff) as u8,
            b1 == ((v >> 8u64) & 0xff) as u8,
            b2 == ((v >> 16u64) & 0xff) as u8,
            b3 == ((v >> 24u64) & 0xff) as u8,
            b4 == ((v >> 32u64) & 0xff) as u8,
            b5 == ((v >> 40u64) & 0xff) as u8,
            b6 == ((v >> 48u64) & 0xff) as u8,
            b7 == ((v >> 56u64) & 0xff) as u8,
    ;
}

/// Encoding the integer decoded from eight bytes gives those bytes back.
pub proof fn lemma_u64_from_le_roundtrip(b: Seq<u8>)
    requires
        b.len() >= 8,
    ensures
        u64_le_bytes(u64_from_le(b)) == b.take(8),
{
    let v = u64_from_le(b);
    let b0 = b[0];
    let b1 = b[1];
    let b2 = b[2];
    let b3 = b[3];
    let b4 = b[4];
    let b5 = b[5];
    let b6 = b[6];
    let b7 = b[7];
    assert({
        &&& (v & 0xff) as u8 == b0
        &&& ((v >> 8u64) & 0xff) as u8 == b1
        &&& ((v >> 16u64) & 0xff) as u8 == b2
        &&& ((v >> 24u64) & 0xff) as u8 == b3
        &&& ((v >> 32u64) & 0xff) as u8 == b4
        &&& ((v >> 40u64) & 0xff) as u8 == b5
        &&& ((v >> 48u64) & 0xff) as u8 == b6
        &&& ((v >> 56u64) & 0xff) as u8 == b7
    }) by (bit_vector)
        requires
            v == (b0 as u64) | ((b1 as u64) << 8u64) | ((b2 as u64) << 16u64) | ((b3 as u64)
                << 24u64) | ((b4 as u64) << 32u64) | ((b5 as u64) << 40u64) | ((b6 as u64)
                << 48u64) | ((b7 as u64) << 56u64),
    ;
    assert(u64_le_bytes(v) =~= b.take(8));
}

/// Decoding the encoding of a 16-bit integer gives the integer back.
pub proof fn lemma_u16_le_roundtrip(v: u16)
    ensures
        u16_le_bytes(v).len() == 2,
        u16_from_le(u16_le_bytes(v)) == v,
{
    let b = u16_le_bytes(v);
    let b0 = b[0];
    let b1 = b[1];
    assert((b0 as u16) | ((b1 as u16) << 8u16) == v) by (bit_vector)
        requires
            b0 == (v & 0xff) as u8,
            b1 == ((v >> 8u16) & 0xff) as u8,
    ;
}

/// Encoding the integer decoded from two bytes gives those bytes back.
pub proof fn lemma_u16_from_le_roundtrip(b: Seq<u8>)
    requires
        b.len() >= 2,
    ensures
        u16_le_bytes(u16_from_le(b)) == b.take(2),
{
    let v = u16_from_le(b);
    let b0 = b[0];
    let b1 = b[1];
    assert((v & 0xff) as u8 == b0 && ((v >> 8u16) & 0xff) as u8 == b1) by (bit_vector)
        requires
            v == (b0 as u16) | ((b1 as u16) << 8u16),
    ;
    assert(u16_le_bytes(v) =~= b.take(2));
}

/// Reads the 64-bit little-endian integer at `start`.
pub fn read_u64_le(data: &[u8], start: usize) -> (v: u64)
    requires
        start + 8 <= data@.len(),
    ensures
        v == u64_from_le(data@.skip(start as int)),
{
    (data[start] as u64) | ((data[start + 1] as u64) << 8u64) | ((data[start + 2] as u64)
        << 16u64) | ((data[start + 3] as u64) << 24u64) | ((data[start + 4] as u64) << 32u64)
        | ((data[start + 5] as u64) << 40u64) | ((data[start + 6] as u64) << 48u64) | ((data[start
        + 7] as u64) << 56u64)
}

/// Reads the 16-bit little-endian integer at `start`.
pub fn read_u16_le(data: &[u8], start: usize) -> (v: u16)
    requires
        start + 2 <= data@.len(),
    ensures
        v == u16_from_le(data@.skip(start as int)),
{
    (data[start] as u16) | ((data[start + 1] as u16) << 8u16)
}

/// Appends the little-endian encoding of a 64-bit integer.
pub fn push_u64_le(out: &mut Vec<u8>, v: u64)
    ensures
        final(out)@ == old(out)@ + u64_le_bytes(v),
{
    out.push((v & 0xff) as u8);
    out.push(((v >> 8u64) & 0xff) as u8);
    out.push(((v >> 16u64) & 0xff) as u8);
    out.push(((v >> 24u64) & 0xff) as u8);
    out.push(((v >> 32u64) & 0xff) as u8);
    out.push(((v >> 40u64) & 0xff) as u8);
    out.push(((v >> 48u64) & 0xff) as u8);
    out.push(((v >> 56u64) & 0xff) as u8);
    assert(out@ =~= old(out)@ + u64_le_bytes(v));
}

/// Appends the little-endian encoding of a 16-bit integer.
pub fn push_u16_le(out: &mut Vec<u8>, v: u16)
    ensures
        final(out)@ == old(out)@ + u16_le_bytes(v),
{
    out.push((v & 0xff) as u8);
    out.push(((v >> 8u16) & 0xff) as u8);
    assert(out@ =~= old(out)@ + u16_le_bytes(v));
}

/// Appends all bytes of a slice.
pub fn extend_bytes(out: &mut Vec<u8>, bytes: &[u8])
    ensures
        final(out)@ == old(out)@ + bytes@,
{
    let mut i: usize = 0;
    while i < bytes.len()
        invariant
            i <= bytes@.len(),
            out@ == old(out)@ + bytes@.take(i as int),
        decreases bytes@.len() - i,
    {
        out.push(bytes[i]);
        i = i + 1;
        assert(out@ =~= old(out)@ + bytes@.take(i as int));
    }
    assert(bytes@.take(bytes@.len() as int) =~= bytes@);
}

/// Copies the bytes of `data` from position `start` to the end.
pub fn copy_from(data: &[u8], start: usize) -> (out: Vec<u8>)
    requires
        start <= data@.len(),
    ensures
        out@ == data@.skip(start as int),
{
    let mut out: Vec<u8> = Vec::new();
    let mut i: usize = start;
    while i < data.len()
        invariant
            start <= i <= data@.len(),
            out@ == data@.subrange(start as int, i as int),
        decreases data@.len() - i,
    {
        out.push(data[i]);
        i = i + 1;
        assert(out@ =~= data@.subrange(start as int, i as int));
    }
    assert(out@ =~= data@.skip(start as int));
    out
}

/// Copies the contents of a byte queue into a vector.
pub fn queue_to_vec(q: &VecDeque<u8>) -> (v: Vec<u8>)
    ensures
        v@ == q@,
{
    let mut v: Vec<u8> = Vec::new();
    let len = q.len();
    let mut i: usize = 0;
    while i < len
        invariant
            len == q@.len(),
            i <= len,
            v@ == q@.take(i as int),
        decreases len - i,
    {
        v.push(q[i]);
        i = i + 1;
        assert(v@ =~= q@.take(i as int));
    }
    assert(q@.take(len as int) =~= q@);
    v
}

/// Removes the first `n` bytes from a byte queue.
pub fn queue_drop_front(q: &mut VecDeque<u8>, n: usize)
    requires
        n <= old(q)@.len(),
    ensures
        final(q)@ == old(q)@.skip(n as int),
{
    let mut i: usize = 0;
    while i < n
        invariant
            i <= n,
            n <= old(q)@.len(),
            q@ == old(q)@.skip(i as int),
        decreases n - i,
    {
        let _ = q.pop_front();
        i = i + 1;
        assert(q@ =~= old(q)@.skip(i as int));
    }
}

/// Appends bytes to the end of a byte queue.
pub fn queue_extend(q: &mut VecDeque<u8>, bytes: &[u8])
    ensures
        final(q)@ == old(q)@ + bytes@,
{
    let mut i: usize = 0;
    while i < bytes.len()
        invariant
            i <= bytes@.len(),
            q@ == old(q)@ + bytes@.take(i as int),
        decreases bytes@.len() - i,
    {
        q.push_back(bytes[i]);
        i = i + 1;
        assert(q@ =~= old(q)@ + bytes@.take(i as int));
    }
    assert(bytes@.take(bytes@.len() as int) =~= bytes@);
}

} // verus!
