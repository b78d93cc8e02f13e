//! Results handed to the filters by the encryption capability, and the
//! filters' own failures.
use vstd::prelude::*;

verus! {

/// Why a filter invocation fails.
#[derive(PartialEq, Eq, Structural, Debug, Clone, Copy)]
pub enum FilterError {
    /// The cached `hash` sidecar does not hold exactly one digest.
    MalformedDigest,
    /// No recipient applies to a file that must be encrypted.
    NoRecipients,
    /// Content handed to smudge is not encrypted at all.
    NotEncrypted,
    /// Content handed to smudge is encrypted, but no available identity opens it.
    NotDecryptable,
}

/// What an attempt to decrypt content with a set of identities gave.
#[derive(Debug)]
pub enum Decryption {
    /// The content was encrypted and one of the identities opened it.
    Plaintext(Vec<u8>),
    /// The content is not recognised as encrypted.
    NotEncrypted,
    /// The content is encrypted, but none of the identities opens it.
    WrongIdentity,
}

/// The bytes-level model of a [`Decryption`].
pub ghost enum Decrypted {
    Plaintext(Seq<u8>),
    NotEncrypted,
    WrongIdentity,
}

impl View for Decryption {
    type V = Decrypted;

    open spec fn view(&self) -> Decrypted {
        match self {
            Decryption::Plaintext(p) => Decrypted::Plaintext(p@),
            Decryption::NotEncrypted => Decrypted::NotEncrypted,
            Decryption::WrongIdentity => Decrypted::WrongIdentity,
        }
    }
}

/// The pair of sidecar records stored for a file: the digest of its plaintext
/// (tag `hash`) and the ciphertext that decrypts to it (tag `age`).
#[derive(Debug)]
pub struct SidecarUpdate {
    pub hash: Vec<u8>,
    pub age: Vec<u8>,
}

impl View for SidecarUpdate {
    type V = (Seq<u8>, Seq<u8>);

    open spec fn view(&self) -> (Seq<u8>, Seq<u8>) {
        (self.hash@, self.age@)
    }
}

} // verus!
