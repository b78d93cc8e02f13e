//! The context of one filter invocation: the identities and settings read from
//! configuration, and the smudge and textconv decisions.
use vstd::prelude::*;

use crate::clean::{begun, clean_begin, CleanAction, CleanFilter};
use crate::digest::{blake3_of, bytes_opt, content_digest};
use crate::outcome::{Decrypted, Decryption, FilterError, SidecarUpdate};

verus! {

/// An entry of the identity store.
pub struct IdentityDescriptor {
    /// Where the identity's private key material is found.
    pub path: String,
}

/// Configuration that a filter invocation works with.
pub struct CommandContext {
    /// Identity references from the repository's `identity` configuration key.
    pub identities: Vec<String>,
    /// The entries of the identity store.
    pub identity_store: Vec<IdentityDescriptor>,
    /// Whether fresh ciphertext is ASCII-armored.
    pub armor: bool,
}

/// Plaintext recovered by smudge, and the sidecar records it establishes.
#[derive(Debug)]
pub struct Smudged {
    pub plaintext: Vec<u8>,
    pub update: SidecarUpdate,
}

/// Smudge of `encrypted`: the plaintext that decryption recovered, recorded with
/// its digest and the ciphertext itself; content that is not encrypted, or that
/// no identity opens, is an error.
pub open spec fn smudge_outcome(encrypted: Seq<u8>, d: Decrypted) -> Result<
    (Seq<u8>, (Seq<u8>, Seq<u8>)),
    FilterError,
> {
    match d {
        Decrypted::Plaintext(p) => Ok((p, (blake3_of(p), encrypted))),
        Decrypted::NotEncrypted => Err(FilterError::NotEncrypted),
        Decrypted::WrongIdentity => Err(FilterError::NotDecryptable),
    }
}

/// The model of a smudge result.
pub open spec fn smudged(r: Result<Smudged, FilterError>) -> Result<
    (Seq<u8>, (Seq<u8>, Seq<u8>)),
    FilterError,
> {
    match r {
        Ok(s) => Ok((s.plaintext@, s.update@)),
        Err(e) => Err(e),
    }
}

/// Textconv of `content`: the plaintext where decryption recovered one, the
/// content as it is where it is not encrypted, and no result where it is
/// encrypted but no identity opens it.
pub open spec fn textconv_output(content: Seq<u8>, d: Decrypted) -> Option<Seq<u8>> {
    match d {
        Decrypted::Plaintext(p) => Some(p),
        Decrypted::NotEncrypted => Some(content),
        Decrypted::WrongIdentity => None,
    }
}

impl CommandContext {
    /// The identities that clean and smudge decrypt with, in configured order.
    pub fn get_identities(&self) -> (r: Vec<String>)
        ensures
            r.deep_view() == self.identities.deep_view(),
    {
        let r = self.identities.clone();
        assert(r.deep_view() =~= self.identities.deep_view());
        r
    }

    /// The identities that textconv decrypts with: the path of each entry of
    /// the identity store, in store order.
    pub fn store_identities(&self) -> (r: Vec<String>)
        ensures
            r@.len() == self.identity_store@.len(),
            forall|i: int| 0 <= i < r@.len() ==> #[trigger] r@[i]@ == self.identity_store@[i].path@,
    {
        let mut r: Vec<String> = Vec::new();
        let mut i: usize = 0;
        while i < self.identity_store.len()
            invariant
                i <= self.identity_store@.len(),
                r@.len() == i,
                forall|j: int| 0 <= j < i ==> #[trigger] r@[j]@ == self.identity_store@[j].path@,
            decreases self.identity_store@.len() - i,
        {
            r.push(self.identity_store[i].path.clone());
            i = i + 1;
        }
        r
    }

    /// Begins a clean of `contents`, given the cached `hash` sidecar of the
    /// file; fresh ciphertext is armored as the context says.
    pub fn clean(&self, contents: Vec<u8>, cached_hash: Option<Vec<u8>>) -> (r: Result<
        (CleanFilter, CleanAction),
        FilterError,
    >)
        ensures
            begun(r) == clean_begin(contents@, bytes_opt(cached_hash), self.armor),
    {
        CleanFilter::begin(contents, cached_hash, self.armor)
    }

    /// Smudge of the ciphertext `encrypted`, given the outcome of decrypting it
    /// with the configured identities.
    pub fn smudge(&self, encrypted: Vec<u8>, decrypted: Decryption) -> (r: Result<
        Smudged,
        FilterError,
    >)
        ensures
            smudged(r) == smudge_outcome(encrypted@, decrypted@),
    {
        match decrypted {
            Decryption::Plaintext(p) => {
                let hash = content_digest(&p);
                Ok(Smudged { plaintext: p, update: SidecarUpdate { hash, age: encrypted } })
            },
            Decryption::NotEncrypted => Err(FilterError::NotEncrypted),
            Decryption::WrongIdentity => Err(FilterError::NotDecryptable),
        }
    }

    /// Textconv of `content`, given the outcome of decrypting it with the
    /// identities of the identity store. A wrong identity is no failure here:
    /// there is then nothing to show. It stores no sidecar.
    pub fn textconv(&self, content: Vec<u8>, decrypted: Decryption) -> (r: Option<Vec<u8>>)
        ensures
            bytes_opt(r) == textconv_output(content@, decrypted@),
    {
        match decrypted {
            Decryption::Plaintext(p) => Some(p),
            Decryption::NotEncrypted => Some(content),
            Decryption::WrongIdentity => None,
        }
    }
}

} // verus!
