//! Whole filter invocations, modelled from what the outside world answers, and
//! the laws that hold of them.
use vstd::prelude::*;

use crate::clean::{
    after_committed, after_decrypted, after_encrypted, after_recipients, after_saved_cipher,
    clean_begin, CleanModel, Step,
};
use crate::context::{smudge_outcome, textconv_output};
use crate::digest::{blake3_of, DIGEST_LEN};
use crate::outcome::{Decrypted, FilterError};

verus! {

/// What the outside world answers to the requests of one clean invocation.
pub ghost struct Answers {
    /// The `age` sidecar of the file.
    pub saved: Option<Seq<u8>>,
    /// The file's committed content.
    pub committed: Option<Seq<u8>>,
    /// The decryption of the committed content.
    pub decrypted: Decrypted,
    /// The recipients of the file.
    pub recipients: Seq<Seq<char>>,
    /// What the encryption capability returns.
    pub fresh: Seq<u8>,
}

/// The result of one clean invocation.
pub ghost struct CleanRun {
    /// The ciphertext written out, or the failure.
    pub result: Result<Seq<u8>, FilterError>,
    /// The `hash` and `age` sidecar records stored, if any.
    pub update: Option<(Seq<u8>, Seq<u8>)>,
    /// Whether the encryption capability was invoked.
    pub encrypted: bool,
}

/// A run that stops on `e`, having stored nothing.
pub open spec fn failed(e: FilterError) -> CleanRun {
    CleanRun { result: Err(e), update: None, encrypted: false }
}

/// A run that ends on the step `s`, an [`Step::Emit`].
pub open spec fn emitted(s: Step, encrypted: bool) -> CleanRun {
    match s {
        Step::Emit { output, update } => CleanRun { result: Ok(output), update, encrypted },
        _ => failed(FilterError::NoRecipients),
    }
}

/// The run from the point where the recipients are asked for.
pub open spec fn run_encryption(m: CleanModel, ans: Answers) -> CleanRun {
    match after_recipients(m, ans.recipients) {
        Err(e) => failed(e),
        Ok((m1, _)) => emitted(after_encrypted(m1, ans.fresh).1, true),
    }
}

/// The run from the point where the committed content is asked for.
pub open spec fn run_reconciliation(m: CleanModel, ans: Answers) -> CleanRun {
    let (m1, s1) = after_committed(m, ans.committed);
    if s1 is Decrypt {
        let (m2, s2) = after_decrypted(m1, ans.decrypted);
        if s2 is Emit {
            emitted(s2, false)
        } else {
            run_encryption(m2, ans)
        }
    } else {
        run_encryption(m1, ans)
    }
}

/// A whole clean of `contents`, given the cached `hash` sidecar and the
/// answers to each request that the filter makes.
pub open spec fn clean_run(contents: Seq<u8>, cached: Option<Seq<u8>>, armor: bool, ans: Answers) -> CleanRun {
    match clean_begin(contents, cached, armor) {
        Err(e) => failed(e),
        Ok((m, s)) => if s is LoadSavedCipher {
            let (m1, s1) = after_saved_cipher(m, ans.saved);
            if s1 is Emit {
                emitted(s1, false)
            } else {
                run_reconciliation(m1, ans)
            }
        } else {
            run_reconciliation(m, ans)
        },
    }
}

/// The `hash` sidecar after a run.
pub open spec fn hash_after(cached: Option<Seq<u8>>, run: CleanRun) -> Option<Seq<u8>> {
    match run.update {
        Some((h, _)) => Some(h),
        None => cached,
    }
}

/// The `age` sidecar after a run.
pub open spec fn age_after(saved: Option<Seq<u8>>, run: CleanRun) -> Option<Seq<u8>> {
    match run.update {
        Some((_, a)) => Some(a),
        None => saved,
    }
}

/// A cached digest, where there is one, is a whole digest.
pub open spec fn digest_well_formed(cached: Option<Seq<u8>>) -> bool {
    cached is Some ==> cached->0.len() == DIGEST_LEN
}

/// Cleaning the same contents a second time, with the sidecars that the first
/// clean left, emits the same ciphertext, stores nothing and encrypts nothing,
/// whatever else the outside world answers.
pub proof fn lemma_clean_idempotent(
    contents: Seq<u8>,
    cached: Option<Seq<u8>>,
    armor: bool,
    first: Answers,
    second: Answers,
)
    requires
        clean_run(contents, cached, armor, first).result is Ok,
        second.saved == age_after(first.saved, clean_run(contents, cached, armor, first)),
    ensures
        ({
            let r1 = clean_run(contents, cached, armor, first);
            let r2 = clean_run(contents, hash_after(cached, r1), armor, second);
            r2.result == r1.result && r2.update is None && !r2.encrypted
        }),
{
}

/// Content reverted to what the committed ciphertext decrypts to is cleaned to
/// that very ciphertext, which is recorded with the content's digest, without
/// encrypting, even when the cached digest does not match.
pub proof fn lemma_reuse_on_revert(
    contents: Seq<u8>,
    cached: Option<Seq<u8>>,
    armor: bool,
    ans: Answers,
    committed: Seq<u8>,
)
    requires
        digest_well_formed(cached),
        cached != Some(blake3_of(contents)),
        ans.committed == Some(committed),
        ans.decrypted == Decrypted::Plaintext(contents),
    ensures
        clean_run(contents, cached, armor, ans) == (CleanRun {
            result: Ok(committed),
            update: Some((blake3_of(contents), committed)),
            encrypted: false,
        }),
{
}

/// On a cache miss, content that differs from what the committed ciphertext
/// decrypts to is encrypted afresh, and the fresh ciphertext is emitted and
/// recorded with the content's digest.
pub proof fn lemma_fresh_on_change(
    contents: Seq<u8>,
    cached: Option<Seq<u8>>,
    armor: bool,
    ans: Answers,
    committed: Seq<u8>,
    previous: Seq<u8>,
)
    requires
        digest_well_formed(cached),
        cached != Some(blake3_of(contents)),
        ans.committed == Some(committed),
        ans.decrypted == Decrypted::Plaintext(previous),
        previous != contents,
        ans.recipients.len() > 0,
    ensures
        clean_run(contents, cached, armor, ans) == (CleanRun {
            result: Ok(ans.fresh),
            update: Some((blake3_of(contents), ans.fresh)),
            encrypted: true,
        }),
{
}

/// Where the ciphertext that clean emitted decrypts back to the contents,
/// smudge of it reproduces the contents and stores the very sidecar records
/// that the clean left.
pub proof fn lemma_clean_then_smudge(
    contents: Seq<u8>,
    cached: Option<Seq<u8>>,
    armor: bool,
    ans: Answers,
    ciphertext: Seq<u8>,
)
    requires
        clean_run(contents, cached, armor, ans).result == Ok::<Seq<u8>, FilterError>(ciphertext),
    ensures
        ({
            let r = clean_run(contents, cached, armor, ans);
            smudge_outcome(ciphertext, Decrypted::Plaintext(contents)) == Ok::<
                (Seq<u8>, (Seq<u8>, Seq<u8>)),
                FilterError,
            >(
                (
                    contents,
                    (
                        hash_after(cached, r)->0,
                        age_after(ans.saved, r)->0,
                    ),
                ),
            ) && hash_after(cached, r) is Some && age_after(ans.saved, r) is Some
        }),
{
}

/// Textconv shows content that is not encrypted exactly as it is, and shows
/// nothing for content that is encrypted but that no identity opens. Textconv
/// hands back no sidecar update, so it never writes one.
pub proof fn lemma_textconv_fallback(content: Seq<u8>)
    ensures
        textconv_output(content, Decrypted::NotEncrypted) == Some(content),
        textconv_output(content, Decrypted::WrongIdentity) is None,
{
}

} // verus!
