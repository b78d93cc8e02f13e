//! Content digests and the staleness decision made on them.
use vstd::prelude::*;

verus! {

/// Number of bytes in a content digest.
pub const DIGEST_LEN: usize = 32;

/// The BLAKE3 digest (32 bytes) of a byte sequence.
pub uninterp spec fn blake3_of(b: Seq<u8>) -> Seq<u8>;

/// Relies on `blake3::hash`: the 32-byte BLAKE3 digest of the input, a function
/// of the input bytes alone.
#[verifier::external_body]
pub(crate) fn blake3_hash(b: &Vec<u8>) -> (r: Vec<u8>)
    ensures
        r@ == blake3_of(b@),
        r@.len() == DIGEST_LEN,
{
    blake3::hash(b.as_slice()).as_bytes().to_vec()
}

/// Digest of a content buffer.
pub fn content_digest(contents: &Vec<u8>) -> (r: Vec<u8>)
    ensures
        r@ == blake3_of(contents@),
        r@.len() == DIGEST_LEN,
{
    blake3_hash(contents)
}

/// Whether previously cached ciphertext may be emitted as it is.
#[derive(PartialEq, Eq, Structural, Debug, Clone, Copy)]
pub enum Staleness {
    Reusable,
    Stale,
}

/// The bytes held by an optional buffer.
pub open spec fn bytes_opt(o: Option<Vec<u8>>) -> Option<Seq<u8>> {
    match o {
        Some(v) => Some(v@),
        None => None,
    }
}

/// The cached ciphertext is reusable exactly when a digest was cached and it
/// equals the digest of the new content.
pub open spec fn is_reusable(new_digest: Seq<u8>, cached: Option<Seq<u8>>) -> bool {
    cached == Some(new_digest)
}

/// Compares the digest of new content with the cached one, if any.
pub fn decide(new_digest: &Vec<u8>, cached: &Option<Vec<u8>>) -> (r: Staleness)
    ensures
        (r == Staleness::Reusable) == is_reusable(new_digest@, bytes_opt(*cached)),
{
    match cached {
        None => Staleness::Stale,
        Some(c) => {
            if bytes_equal(new_digest, c) {
                Staleness::Reusable
            } else {
                Staleness::Stale
            }
        },
    }
}

/// Byte-exact comparison of two buffers.
pub fn bytes_equal(a: &Vec<u8>, b: &Vec<u8>) -> (r: bool)
    ensures
        r == (a@ == b@),
{
    if a.len() != b.len() {
        return false;
    }
    let mut i: usize = 0;
    while i < a.len()
        invariant
            a@.len() == b@.len(),
            0 <= i <= a@.len(),
            forall|j: int| 0 <= j < i ==> a@[j] == b@[j],
        decreases a@.len() - i,
    {
        if a[i] != b[i] {
            return false;
        }
        i = i + 1;
    }
    assert(a@ =~= b@);
    true
}

} // verus!
