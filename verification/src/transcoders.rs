//! Message transcoders: whole messages are encrypted and decrypted at once.
use vstd::prelude::*;

use crate::split::SplitIo;

verus! {

/// Encrypts whole messages.
pub trait Encrypt {
    /// The encrypted form of `data`.
    fn encrypt(&mut self, data: &[u8]) -> Vec<u8>;
}

/// Decrypts whole messages.
pub trait Decrypt {
    /// Why a message could not be decrypted.
    type Error;

    /// The decrypted form of `data`.
    fn decrypt(&mut self, data: &[u8]) -> Result<Vec<u8>, Self::Error>;
}

/// A splittable stream which encrypts what it sends and decrypts what it
/// receives.
pub trait Transcode: SplitIo + Encrypt + Decrypt {
    /// The encrypting part, once split.
    type Encryptor: Encrypt;
    /// The decrypting part, once split.
    type Decryptor: Decrypt;
}

} // verus!
