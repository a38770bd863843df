use std::collections::VecDeque;

use cyphernet::ed25519::PrivateKey;
use cyphernet::{EcPk, EcSig, EcSign, EcSk};
use netservices::auth::{Authenticator, ED25519_KEY_LEN, ED25519_SIG_LEN};
use netservices::connection::NetStream;
use netservices::netio::{IoError, IoErrorKind};

/// Byte pipe: what is written can be read back.
#[derive(Default)]
struct Pipe(VecDeque<u8>);

impl NetStream for Pipe {
    fn read(&mut self, max_len: usize) -> Result<Vec<u8>, IoError> {
        let n = max_len.min(self.0.len());
        Ok(self.0.drain(..n).collect())
    }

    fn write(&mut self, buf: &[u8]) -> Result<usize, IoError> {
        self.0.extend(buf);
        Ok(buf.len())
    }

    fn read_exact(&mut self, len: usize) -> Result<Vec<u8>, IoError> {
        if self.0.len() < len {
            return Err(IoError::from_kind(IoErrorKind::UnexpectedEof));
        }
        Ok(self.0.drain(..len).collect())
    }

    fn write_all(&mut self, buf: &[u8]) -> Result<(), IoError> {
        self.0.extend(buf);
        Ok(())
    }

    fn flush(&mut self) -> Result<(), IoError> {
        Ok(())
    }
}

/// A fresh key pair: the public key bytes and the signature of them.
fn credentials() -> (Vec<u8>, Vec<u8>) {
    let (sk, pk) = PrivateKey::generate_keypair();
    let pk_bytes = pk.to_pk_compressed().to_byte_array().to_vec();
    let sig = sk.sign(&pk_bytes);
    (pk_bytes, sig.to_sig_compressed().to_vec())
}

#[test]
fn peers_authenticate_each_other() {
    let (pk, sig) = credentials();
    assert_eq!((pk.len(), sig.len()), (ED25519_KEY_LEN, ED25519_SIG_LEN));
    let sender = Authenticator::new(pk.clone(), sig.clone());
    let mut pipe = Pipe::default();
    sender.certify(&mut pipe).unwrap();
    assert_eq!(pipe.0.len(), 96);
    let (own_pk, own_sig) = credentials();
    let mut receiver = Authenticator::new(own_pk, own_sig);
    assert!(!receiver.is_auth_complete());
    assert_eq!(receiver.verify(&mut pipe).unwrap(), Some(pk.clone()));
    assert!(receiver.is_auth_complete());
    assert_eq!(receiver.remote_id(), Some(pk));
}

#[test]
fn forged_signature_is_refused() {
    let (pk, mut sig) = credentials();
    sig[0] ^= 0x01;
    let mut pipe = Pipe::default();
    Authenticator::new(pk, sig).certify(&mut pipe).unwrap();
    let (own_pk, own_sig) = credentials();
    let mut receiver = Authenticator::new(own_pk, own_sig);
    assert_eq!(receiver.verify(&mut pipe).unwrap(), None);
    assert!(!receiver.is_auth_complete());
    assert_eq!(receiver.remote_id(), None);
}

#[test]
fn signature_of_another_key_is_refused() {
    let (pk, _) = credentials();
    let (_, other_sig) = credentials();
    let (own_pk, own_sig) = credentials();
    let mut receiver = Authenticator::new(own_pk, own_sig);
    assert_eq!(receiver.accept_credentials(pk.clone(), other_sig), None);
    let (pk2, sig2) = credentials();
    assert_eq!(receiver.accept_credentials(pk2.clone(), sig2), Some(pk2));
}

#[test]
fn truncated_credentials_fail() {
    let mut pipe = Pipe(VecDeque::from(vec![0u8; 40]));
    let (own_pk, own_sig) = credentials();
    let mut receiver = Authenticator::new(own_pk, own_sig);
    assert_eq!(receiver.verify(&mut pipe).unwrap_err().kind(), IoErrorKind::UnexpectedEof);
    assert!(!receiver.is_auth_complete());
}
