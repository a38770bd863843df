//! Transcoders perform cyphering/decyphering of the read or write stream, when
//! each byte is replaced with a different exactly one byte. Transcoders can
//! have a handshake phase.
use vstd::prelude::*;

use crate::channel::ChannelStream;
use crate::netio::IoError;

verus! {

/// Byte-by-byte encoder, possibly changing its state with each byte.
pub trait Encode: Sized {
    /// The encoder after encoding `byte`, and the byte it produces.
    open spec fn encode_step(&self, byte: u8) -> (Self, u8) {
        arbitrary()
    }

    /// Encodes one byte.
    fn encrypt_byte(&mut self, byte: u8) -> (r: u8)
        ensures
            (*final(self), r) == old(self).encode_step(byte),
    ;
}

/// The encoder after encoding `bytes`, and the bytes it produces.
pub open spec fn encode_all<E: Encode>(e: E, bytes: Seq<u8>) -> (E, Seq<u8>)
    decreases bytes.len(),
{
    if bytes.len() == 0 {
        (e, Seq::<u8>::empty())
    } else {
        let (e1, out) = encode_all(e, bytes.drop_last());
        let (e2, b) = e1.encode_step(bytes.last());
        (e2, out.push(b))
    }
}

/// Encodes the bytes of `buf` one after the other.
pub fn encrypt_iter<E: Encode>(encoder: &mut E, buf: &[u8]) -> (r: Vec<u8>)
    ensures
        (*final(encoder), r@) == encode_all(*old(encoder), buf@),
{
    let mut out: Vec<u8> = Vec::new();
    let mut i: usize = 0;
    while i < buf.len()
        invariant
            i <= buf@.len(),
            (*encoder, out@) == encode_all(*old(encoder), buf@.take(i as int)),
        decreases buf@.len() - i,
    {
        let byte = encoder.encrypt_byte(buf[i]);
        out.push(byte);
        proof {
            assert(buf@.take(i + 1).drop_last() =~= buf@.take(i as int));
        }
        i = i + 1;
    }
    proof {
        assert(buf@.take(buf@.len() as int) =~= buf@);
    }
    out
}

/// Encoding replaces each byte with exactly one byte.
pub proof fn lemma_encode_all_len<E: Encode>(e: E, bytes: Seq<u8>)
    ensures
        encode_all(e, bytes).1.len() == bytes.len(),
    decreases bytes.len(),
{
    if bytes.len() > 0 {
        lemma_encode_all_len(e, bytes.drop_last());
    }
}

/// In-place decoder: replaces each byte of a buffer with exactly one byte.
pub trait Decode: Sized {
    /// The decoder after decoding `data`, and the decoded bytes or the failure.
    open spec fn decode_step(&self, data: Seq<u8>) -> (Self, Result<Seq<u8>, IoError>) {
        arbitrary()
    }

    /// Decodes the buffer in place, returning its length.
    fn decrypt(&mut self, buf: &mut Vec<u8>) -> (r: Result<usize, IoError>)
        ensures
            *final(self) == old(self).decode_step(old(buf)@).0,
            match old(self).decode_step(old(buf)@).1 {
                Ok(out) => r matches Ok(n) && n == old(buf)@.len() && final(buf)@ == out
                    && out.len() == old(buf)@.len(),
                Err(e) => r == Err::<usize, IoError>(e),
            },
    ;
}

/// Encoder leaving bytes as they are.
pub struct DumbEncoder;

/// Decoder leaving bytes as they are.
pub struct DumbDecoder;

impl Encode for DumbEncoder {
    open spec fn encode_step(&self, byte: u8) -> (Self, u8) {
        (DumbEncoder, byte)
    }

    fn encrypt_byte(&mut self, byte: u8) -> (r: u8) {
        byte
    }
}

impl Decode for DumbDecoder {
    open spec fn decode_step(&self, data: Seq<u8>) -> (Self, Result<Seq<u8>, IoError>) {
        (DumbDecoder, Ok(data))
    }

    fn decrypt(&mut self, buf: &mut Vec<u8>) -> (r: Result<usize, IoError>) {
        Ok(buf.len())
    }
}

/// The dumb encoder leaves every byte as it is.
pub proof fn lemma_dumb_encoder_identity(bytes: Seq<u8>)
    ensures
        encode_all(DumbEncoder, bytes) == (DumbEncoder, bytes),
    decreases bytes.len(),
{
    if bytes.len() > 0 {
        lemma_dumb_encoder_identity(bytes.drop_last());
        assert(bytes.drop_last().push(bytes.last()) =~= bytes);
    } else {
        assert(bytes =~= Seq::<u8>::empty());
    }
}

/// A stream whose reads are decoded and whose writes are encoded: inbound
/// bytes are pushed into the reader channel, encoded outbound bytes go to
/// the writer channel.
pub struct TranscodedStream<D: Decode, E: Encode> {
    reader: ChannelStream,
    writer: ChannelStream,
    decoder: D,
    encoder: E,
}

/// Transcoded stream which leaves bytes as they are.
pub type DumbTranscodedStream = TranscodedStream<DumbDecoder, DumbEncoder>;

impl<D: Decode, E: Encode> TranscodedStream<D, E> {
    /// Inbound bytes not yet read.
    pub closed spec fn inbound(&self) -> Seq<u8> {
        self.reader.contents()
    }

    /// Encoded outbound bytes.
    pub closed spec fn outbound(&self) -> Seq<u8> {
        self.writer.contents()
    }

    /// Current state of the decoder.
    pub closed spec fn spec_decoder(&self) -> D {
        self.decoder
    }

    /// Current state of the encoder.
    pub closed spec fn spec_encoder(&self) -> E {
        self.encoder
    }

    /// Transcoded stream over the given channels, decoder and encoder.
    pub fn with(reader: ChannelStream, writer: ChannelStream, decoder: D, encoder: E) -> (s: Self)
        ensures
            s.inbound() == reader.contents(),
            s.outbound() == writer.contents(),
            s.spec_decoder() == decoder,
            s.spec_encoder() == encoder,
    {
        TranscodedStream { reader, writer, decoder, encoder }
    }

    /// Pushes received bytes into the reader channel.
    pub fn push_bytes(&mut self, bytes: &[u8]) -> (r: Result<usize, IoError>)
        ensures
            r matches Ok(n) && n == bytes@.len(),
            final(self).inbound() == old(self).inbound() + bytes@,
            final(self).outbound() == old(self).outbound(),
            final(self).spec_decoder() == old(self).spec_decoder(),
            final(self).spec_encoder() == old(self).spec_encoder(),
    {
        self.reader.write(bytes)
    }

    /// Reads exactly `len` inbound bytes and decodes them.
    pub fn read(&mut self, len: usize) -> (r: Result<Vec<u8>, IoError>)
        ensures
            final(self).outbound() == old(self).outbound(),
            final(self).spec_encoder() == old(self).spec_encoder(),
            len > old(self).inbound().len() ==> r is Err && final(self).inbound() == old(
                self).inbound() && final(self).spec_decoder() == old(self).spec_decoder(),
            len <= old(self).inbound().len() ==> {
                let input = old(self).inbound().take(len as int);
                let (d, res) = old(self).spec_decoder().decode_step(input);
                &&& final(self).inbound() == old(self).inbound().skip(len as int)
                &&& final(self).spec_decoder() == d
                &&& match res {
                    Ok(out) => r matches Ok(v) && v@ == out,
                    Err(e) => r == Err::<Vec<u8>, IoError>(e),
                }
            },
    {
        let mut buf = match self.reader.read(len) {
            Err(e) => { return Err(e); },
            Ok(b) => b,
        };
        match self.decoder.decrypt(&mut buf) {
            Err(e) => Err(e),
            Ok(_) => Ok(buf),
        }
    }

    /// Encodes the bytes one by one into the writer channel; returns the
    /// number of bytes written, which is all of them.
    pub fn write(&mut self, buf: &[u8]) -> (r: Result<usize, IoError>)
        ensures
            r matches Ok(n) && n == buf@.len(),
            final(self).outbound() == old(self).outbound() + encode_all(
                old(self).spec_encoder(),
                buf@,
            ).1,
            final(self).spec_encoder() == encode_all(old(self).spec_encoder(), buf@).0,
            final(self).inbound() == old(self).inbound(),
            final(self).spec_decoder() == old(self).spec_decoder(),
    {
        let encoded = encrypt_iter(&mut self.encoder, buf);
        let _ = self.writer.write(encoded.as_slice());
        Ok(buf.len())
    }

    /// Nothing to flush in memory.
    pub fn flush(&mut self) -> (r: Result<(), IoError>)
        ensures
            r is Ok,
            final(self).inbound() == old(self).inbound(),
            final(self).outbound() == old(self).outbound(),
    {
        self.writer.flush()
    }
}

} // verus!
