//! Encrypted streams: each byte written is replaced by exactly one encrypted
//! byte, and bytes read are decrypted in place.
use vstd::prelude::*;

use crate::channel::ChannelStream;
use crate::netio::IoError;

verus! {

/// Byte-by-byte encryptor, possibly changing its state with each byte.
///
/// The spec function `encrypt_step` is given its meaning by each
/// implementation; the default body leaves it unspecified.
pub trait Encrypt: Sized {
    /// The encryptor after encrypting `byte`, and the byte it produces.
    open spec fn encrypt_step(&self, byte: u8) -> (Self, u8) {
        arbitrary()
    }

    /// Encrypts one byte.
    fn encrypt_byte(&mut self, byte: u8) -> (r: u8)
        ensures
            (*final(self), r) == old(self).encrypt_step(byte),
    ;
}

/// The encryptor after encrypting `bytes`, and the bytes it produces.
pub open spec fn encrypt_all<E: Encrypt>(e: E, bytes: Seq<u8>) -> (E, Seq<u8>)
    decreases bytes.len(),
{
    if bytes.len() == 0 {
        (e, Seq::<u8>::empty())
    } else {
        let (e1, out) = encrypt_all(e, bytes.drop_last());
        let (e2, b) = e1.encrypt_step(bytes.last());
        (e2, out.push(b))
    }
}

/// Encryption replaces each byte with exactly one byte.
pub proof fn lemma_encrypt_all_len<E: Encrypt>(e: E, bytes: Seq<u8>)
    ensures
        encrypt_all(e, bytes).1.len() == bytes.len(),
    decreases bytes.len(),
{
    if bytes.len() > 0 {
        lemma_encrypt_all_len(e, bytes.drop_last());
    }
}

/// Encrypts the bytes of `buf` one after the other.
pub fn encrypt_iter<E: Encrypt>(encryptor: &mut E, buf: &[u8]) -> (r: Vec<u8>)
    ensures
        (*final(encryptor), r@) == encrypt_all(*old(encryptor), buf@),
{
    let mut out: Vec<u8> = Vec::new();
    let mut i: usize = 0;
    while i < buf.len()
        invariant
            i <= buf@.len(),
            (*encryptor, out@) == encrypt_all(*old(encryptor), buf@.take(i as int)),
        decreases buf@.len() - i,
    {
        let byte = encryptor.encrypt_byte(buf[i]);
        out.push(byte);
        proof {
            assert(buf@.take(i + 1).drop_last() =~= buf@.take(i as int));
        }
        i = i + 1;
    }
    proof {
        assert(buf@.take(buf@.len() as int) =~= buf@);
    }
    out
}

/// In-place slice decryptor.
///
/// The spec function `decrypt_step` is given its meaning by each
/// implementation; the default body leaves it unspecified.
pub trait Decrypt: Sized {
    /// The decryptor after decrypting `data`, and the decrypted bytes or the
    /// failure.
    open spec fn decrypt_step(&self, data: Seq<u8>) -> (Self, Result<Seq<u8>, IoError>) {
        arbitrary()
    }

    /// Decrypts the buffer in place, returning its length.
    fn decrypt(&mut self, buf: &mut Vec<u8>) -> (r: Result<usize, IoError>)
        ensures
            *final(self) == old(self).decrypt_step(old(buf)@).0,
            match old(self).decrypt_step(old(buf)@).1 {
                Ok(out) => r matches Ok(n) && n == old(buf)@.len() && final(buf)@ == out
                    && out.len() == old(buf)@.len(),
                Err(e) => r == Err::<usize, IoError>(e),
            },
    ;
}

/// A stream reading from an in-memory reader channel, decrypting what it
/// reads, and writing encrypted bytes to an in-memory writer channel.
pub struct EncryptedStream<D: Decrypt, E: Encrypt> {
    reader: ChannelStream,
    writer: ChannelStream,
    decryptor: D,
    encryptor: E,
}

impl<D: Decrypt, E: Encrypt> EncryptedStream<D, E> {
    /// Received bytes not yet read.
    pub closed spec fn inbound(&self) -> Seq<u8> {
        self.reader.contents()
    }

    /// Encrypted bytes written.
    pub closed spec fn outbound(&self) -> Seq<u8> {
        self.writer.contents()
    }

    /// Current state of the decryptor.
    pub closed spec fn spec_decryptor(&self) -> D {
        self.decryptor
    }

    /// Current state of the encryptor.
    pub closed spec fn spec_encryptor(&self) -> E {
        self.encryptor
    }

    /// Encrypted stream over the given channels, decryptor and encryptor.
    pub fn with(reader: ChannelStream, writer: ChannelStream, decryptor: D, encryptor: E) -> (s: Self)
        ensures
            s.inbound() == reader.contents(),
            s.outbound() == writer.contents(),
            s.spec_decryptor() == decryptor,
            s.spec_encryptor() == encryptor,
    {
        EncryptedStream { reader, writer, decryptor, encryptor }
    }

    /// Hands received bytes to the reader channel.
    pub fn push_bytes(&mut self, bytes: &[u8]) -> (r: Result<usize, IoError>)
        ensures
            r matches Ok(n) && n == bytes@.len(),
            final(self).inbound() == old(self).inbound() + bytes@,
            final(self).outbound() == old(self).outbound(),
            final(self).spec_decryptor() == old(self).spec_decryptor(),
            final(self).spec_encryptor() == old(self).spec_encryptor(),
    {
        self.reader.write(bytes)
    }

    /// Reads `len` received bytes and decrypts them; fails, reading nothing,
    /// when fewer bytes were received.
    pub fn read(&mut self, len: usize) -> (r: Result<Vec<u8>, IoError>)
        ensures
            final(self).outbound() == old(self).outbound(),
            final(self).spec_encryptor() == old(self).spec_encryptor(),
            len > old(self).inbound().len() ==> r is Err && final(self).inbound() == old(
                self).inbound() && final(self).spec_decryptor() == old(self).spec_decryptor(),
            len <= old(self).inbound().len() ==> {
                let input = old(self).inbound().take(len as int);
                let (d, res) = old(self).spec_decryptor().decrypt_step(input);
                &&& final(self).inbound() == old(self).inbound().skip(len as int)
                &&& final(self).spec_decryptor() == d
                &&& match res {
                    Ok(out) => r matches Ok(v) && v@ == out,
                    Err(e) => r == Err::<Vec<u8>, IoError>(e),
                }
            },
    {
        let mut buf = match self.reader.read(len) {
            Ok(buf) => buf,
            Err(e) => return Err(e),
        };
        match self.decryptor.decrypt(&mut buf) {
            Ok(_) => Ok(buf),
            Err(e) => Err(e),
        }
    }

    /// Encrypts `buf` byte by byte into the writer channel; all of it is
    /// written.
    pub fn write(&mut self, buf: &[u8]) -> (r: Result<usize, IoError>)
        ensures
            r matches Ok(n) && n == buf@.len(),
            final(self).outbound() == old(self).outbound() + encrypt_all(
                old(self).spec_encryptor(),
                buf@,
            ).1,
            final(self).spec_encryptor() == encrypt_all(old(self).spec_encryptor(), buf@).0,
            final(self).inbound() == old(self).inbound(),
            final(self).spec_decryptor() == old(self).spec_decryptor(),
    {
        let encrypted = encrypt_iter(&mut self.encryptor, buf);
        let _ = self.writer.write(encrypted.as_slice());
        Ok(buf.len())
    }

    /// Nothing to flush in memory.
    pub fn flush(&mut self) -> (r: Result<(), IoError>)
        ensures
            r is Ok,
            final(self).inbound() == old(self).inbound(),
            final(self).outbound() == old(self).outbound(),
    {
        self.writer.flush()
    }
}

} // verus!
