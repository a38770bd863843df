//! Authentication of a peer by its Ed25519 key: each side sends its public
//! key followed by a signature of that key by itself, and checks the
//! signature the other side sent.
use cyphernet::{EcPk, EcSig};
use vstd::prelude::*;

use crate::connection::NetStream;
use crate::netio::IoError;

verus! {

/// Length of an Ed25519 public key.
pub const ED25519_KEY_LEN: usize = 32;

/// Length of an Ed25519 signature.
pub const ED25519_SIG_LEN: usize = 64;

/// Whether `sig` is a valid Ed25519 signature of `msg` by the public key
/// `pk`, as `cyphernet::ed25519` checks it.
pub uninterp spec fn ed25519_signature_valid(pk: Seq<u8>, msg: Seq<u8>, sig: Seq<u8>) -> bool;

/// Checks an Ed25519 signature with `cyphernet::ed25519` (`EcSig::verify`).
/// The key is read with `EcPk::from_pk_compressed_slice` and the signature
/// with `EcSig::from_sig_compressed_slice`, which accept any 32 and 64 bytes
/// respectively. The contract names the outcome, which depends on the three
/// byte strings alone; it does not say which signatures are valid.
#[verifier::external_body]
fn ed25519_verify(pk: &[u8], msg: &[u8], sig: &[u8]) -> (valid: bool)
    requires
        pk@.len() == ED25519_KEY_LEN,
        sig@.len() == ED25519_SIG_LEN,
    ensures
        valid == ed25519_signature_valid(pk@, msg@, sig@),
{
    let pk = cyphernet::ed25519::PublicKey::from_pk_compressed_slice(pk).expect("32 bytes");
    let sig = cyphernet::ed25519::Signature::from_sig_compressed_slice(sig).expect("64 bytes");
    sig.verify(&pk, msg).is_ok()
}

/// The public key at the front of credentials read from a peer.
pub open spec fn credentials_key(creds: Seq<u8>) -> Seq<u8> {
    creds.take(ED25519_KEY_LEN as int)
}

/// The signature following the public key in credentials read from a peer.
pub open spec fn credentials_signature(creds: Seq<u8>) -> Seq<u8> {
    creds.skip(ED25519_KEY_LEN as int)
}

/// Authentication state of one side: its own credentials and, once
/// authenticated, the key of the peer.
pub struct Authenticator {
    pubkey: Vec<u8>,
    signature: Vec<u8>,
    remote_id: Option<Vec<u8>>,
}

impl Authenticator {
    /// Own public key.
    pub closed spec fn spec_pubkey(&self) -> Seq<u8> {
        self.pubkey@
    }

    /// Own signature of the public key.
    pub closed spec fn spec_signature(&self) -> Seq<u8> {
        self.signature@
    }

    /// Key of the authenticated peer, if any.
    pub closed spec fn spec_remote_id(&self) -> Option<Seq<u8>> {
        match self.remote_id {
            Some(key) => Some(key@),
            None => None,
        }
    }

    /// Authenticator with the own key and signature; no peer is
    /// authenticated yet.
    pub fn new(pubkey: Vec<u8>, signature: Vec<u8>) -> (a: Self)
        requires
            pubkey@.len() == ED25519_KEY_LEN,
            signature@.len() == ED25519_SIG_LEN,
        ensures
            a.spec_pubkey() == pubkey@,
            a.spec_signature() == signature@,
            a.spec_remote_id() is None,
    {
        Authenticator { pubkey, signature, remote_id: None }
    }

    /// Sends the own credentials: the public key, then the signature.
    pub fn certify<W: NetStream>(&self, writer: &mut W) -> (r: Result<(), IoError>)
        ensures
            r is Ok ==> final(writer).sent() == old(writer).sent() + self.spec_pubkey()
                + self.spec_signature(),
    {
        match writer.write_all(self.pubkey.as_slice()) {
            Ok(()) => {},
            Err(e) => return Err(e),
        }
        let r = writer.write_all(self.signature.as_slice());
        proof {
            if r is Ok {
                assert(writer.sent() =~= old(writer).sent() + self.pubkey@ + self.signature@);
            }
        }
        r
    }

    /// Accepts the credentials of the peer when the signature is a valid
    /// signature of its key by that key, which becomes the authenticated
    /// peer key; otherwise nothing changes.
    pub fn accept_credentials(&mut self, pubkey: Vec<u8>, signature: Vec<u8>) -> (r: Option<Vec<u8>>)
        requires
            pubkey@.len() == ED25519_KEY_LEN,
            signature@.len() == ED25519_SIG_LEN,
        ensures
            final(self).spec_pubkey() == old(self).spec_pubkey(),
            final(self).spec_signature() == old(self).spec_signature(),
            ed25519_signature_valid(pubkey@, pubkey@, signature@) ==> (r matches Some(k) && k@
                == pubkey@ && final(self).spec_remote_id() == Some(pubkey@)),
            !ed25519_signature_valid(pubkey@, pubkey@, signature@) ==> r is None
                && final(self).spec_remote_id() == old(self).spec_remote_id(),
    {
        if !ed25519_verify(pubkey.as_slice(), pubkey.as_slice(), signature.as_slice()) {
            return None;
        }
        let mut accepted: Vec<u8> = Vec::new();
        crate::bytes::extend_bytes(&mut accepted, pubkey.as_slice());
        self.remote_id = Some(pubkey);
        Some(accepted)
    }

    /// Receives the credentials of the peer, a public key and a signature,
    /// and checks them as [`Authenticator::accept_credentials`] does.
    /// Returns the authenticated key, or `None` when the signature is not
    /// valid.
    pub fn verify<R: NetStream>(&mut self, reader: &mut R) -> (r: Result<Option<Vec<u8>>, IoError>)
        requires
            old(self).spec_remote_id() is None,
        ensures
            final(self).spec_pubkey() == old(self).spec_pubkey(),
            final(self).spec_signature() == old(self).spec_signature(),
            final(reader).sent() == old(reader).sent(),
            match r {
                Ok(found) => {
                    let creds = final(reader).received().skip(old(reader).received().len() as int);
                    &&& final(reader).received() == old(reader).received() + creds
                    &&& creds.len() == ED25519_KEY_LEN + ED25519_SIG_LEN
                    &&& (found is Some) == ed25519_signature_valid(
                        credentials_key(creds),
                        credentials_key(creds),
                        credentials_signature(creds),
                    )
                    &&& match found {
                        Some(k) => k@ == credentials_key(creds) && final(self).spec_remote_id()
                            == Some(k@),
                        None => final(self).spec_remote_id() is None,
                    }
                },
                Err(_) => final(self).spec_remote_id() is None,
            },
    {
        let pubkey = match reader.read_exact(ED25519_KEY_LEN) {
            Ok(pubkey) => pubkey,
            Err(e) => return Err(e),
        };
        let signature = match reader.read_exact(ED25519_SIG_LEN) {
            Ok(signature) => signature,
            Err(e) => return Err(e),
        };
        let ghost creds = pubkey@ + signature@;
        proof {
            assert(reader.received().skip(old(reader).received().len() as int) =~= creds);
            assert(credentials_key(creds) =~= pubkey@);
            assert(credentials_signature(creds) =~= signature@);
        }
        let r = self.accept_credentials(pubkey, signature);
        Ok(r)
    }

    /// Key of the authenticated peer, if any.
    pub fn remote_id(&self) -> (r: Option<Vec<u8>>)
        ensures
            match self.spec_remote_id() {
                Some(k) => r matches Some(v) && v@ == k,
                None => r is None,
            },
    {
        match &self.remote_id {
            Some(key) => {
                let mut copy: Vec<u8> = Vec::new();
                crate::bytes::extend_bytes(&mut copy, key.as_slice());
                Some(copy)
            },
            None => None,
        }
    }

    /// Whether a peer was authenticated.
    pub fn is_auth_complete(&self) -> (r: bool)
        ensures
            r == self.spec_remote_id() is Some,
    {
        match &self.remote_id {
            Some(_) => true,
            None => false,
        }
    }
}

} // verus!
