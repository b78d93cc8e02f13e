//! The clean filter (plaintext to ciphertext) as a state machine: each method
//! takes what the outside world answered and says what to do next, until the
//! ciphertext to emit is known.
use vstd::prelude::*;

use crate::digest::{blake3_of, bytes_equal, bytes_opt, content_digest, decide, Staleness, DIGEST_LEN};
use crate::outcome::{Decrypted, Decryption, FilterError, SidecarUpdate};

verus! {

/// What a clean invocation waits for.
#[derive(PartialEq, Eq, Structural, Debug, Clone, Copy)]
pub enum Stage {
    /// The cached ciphertext (`age` sidecar), after the cached digest matched.
    SavedCipher,
    /// The file's content in the repository's committed tree.
    Committed,
    /// The decryption of the committed content.
    Decrypted,
    /// The recipients that the file must be encrypted for.
    Recipients,
    /// Fresh ciphertext from the encryption capability.
    Encrypted,
    /// Nothing: the output is known.
    Finished,
}

/// What the caller of the clean filter must do next.
#[derive(Debug)]
pub enum CleanAction {
    /// Load the `age` sidecar of the file.
    LoadSavedCipher,
    /// Read the file's committed content; report `None` if it has none.
    ReadCommitted,
    /// Decrypt these bytes with the configured identities.
    Decrypt(Vec<u8>),
    /// Resolve the recipients of the file.
    ResolveRecipients,
    /// Encrypt the plaintext for the recipients.
    Encrypt { recipients: Vec<String>, plaintext: Vec<u8>, armor: bool },
    /// Store the sidecar update, if any, then write the output.
    Emit { output: Vec<u8>, update: Option<SidecarUpdate> },
}

/// The model of a [`CleanAction`].
pub ghost enum Step {
    LoadSavedCipher,
    ReadCommitted,
    Decrypt(Seq<u8>),
    ResolveRecipients,
    Encrypt { recipients: Seq<Seq<char>>, plaintext: Seq<u8>, armor: bool },
    Emit { output: Seq<u8>, update: Option<(Seq<u8>, Seq<u8>)> },
}

impl View for CleanAction {
    type V = Step;

    open spec fn view(&self) -> Step {
        match self {
            CleanAction::LoadSavedCipher => Step::LoadSavedCipher,
            CleanAction::ReadCommitted => Step::ReadCommitted,
            CleanAction::Decrypt(c) => Step::Decrypt(c@),
            CleanAction::ResolveRecipients => Step::ResolveRecipients,
            CleanAction::Encrypt { recipients, plaintext, armor } => Step::Encrypt {
                recipients: recipients.deep_view(),
                plaintext: plaintext@,
                armor: *armor,
            },
            CleanAction::Emit { output, update } => Step::Emit {
                output: output@,
                update: match update {
                    Some(u) => Some(u@),
                    None => None,
                },
            },
        }
    }
}

/// One clean invocation in progress.
pub struct CleanFilter {
    contents: Vec<u8>,
    digest: Vec<u8>,
    armor: bool,
    committed: Vec<u8>,
    stage: Stage,
}

/// The model of a [`CleanFilter`].
pub ghost struct CleanModel {
    /// The plaintext being cleaned.
    pub contents: Seq<u8>,
    /// Its digest.
    pub digest: Seq<u8>,
    /// Whether fresh ciphertext is ASCII-armored.
    pub armor: bool,
    /// The committed content, once read.
    pub committed: Seq<u8>,
    pub stage: Stage,
}

impl View for CleanFilter {
    type V = CleanModel;

    closed spec fn view(&self) -> CleanModel {
        CleanModel {
            contents: self.contents@,
            digest: self.digest@,
            armor: self.armor,
            committed: self.committed@,
            stage: self.stage,
        }
    }
}

/// Start of a clean of `contents`, given the cached `hash` sidecar: a cached
/// digest equal to the digest of `contents` sends for the cached ciphertext;
/// any other cached digest that is not 32 bytes long is refused; otherwise the
/// committed content is consulted.
pub open spec fn clean_begin(contents: Seq<u8>, cached: Option<Seq<u8>>, armor: bool) -> Result<
    (CleanModel, Step),
    FilterError,
> {
    let m = CleanModel {
        contents,
        digest: blake3_of(contents),
        armor,
        committed: Seq::empty(),
        stage: Stage::Committed,
    };
    if cached == Some(blake3_of(contents)) {
        Ok((CleanModel { stage: Stage::SavedCipher, ..m }, Step::LoadSavedCipher))
    } else if cached is Some && cached->0.len() != DIGEST_LEN {
        Err(FilterError::MalformedDigest)
    } else {
        Ok((m, Step::ReadCommitted))
    }
}

/// Cached ciphertext, when there is some, is emitted as it is and nothing is
/// stored; without it the committed content is consulted.
pub open spec fn after_saved_cipher(m: CleanModel, saved: Option<Seq<u8>>) -> (CleanModel, Step) {
    match saved {
        Some(c) => (
            CleanModel { stage: Stage::Finished, ..m },
            Step::Emit { output: c, update: None },
        ),
        None => (CleanModel { stage: Stage::Committed, ..m }, Step::ReadCommitted),
    }
}

/// Committed content is sent for decryption; a file that has none is encrypted
/// afresh.
pub open spec fn after_committed(m: CleanModel, committed: Option<Seq<u8>>) -> (CleanModel, Step) {
    match committed {
        Some(c) => (
            CleanModel { stage: Stage::Decrypted, committed: c, ..m },
            Step::Decrypt(c),
        ),
        None => (CleanModel { stage: Stage::Recipients, ..m }, Step::ResolveRecipients),
    }
}

/// Committed ciphertext that decrypts to exactly the new contents is emitted
/// and recorded with the new digest; any other outcome leads to fresh
/// encryption.
pub open spec fn after_decrypted(m: CleanModel, d: Decrypted) -> (CleanModel, Step) {
    if d == Decrypted::Plaintext(m.contents) {
        (
            CleanModel { stage: Stage::Finished, ..m },
            Step::Emit { output: m.committed, update: Some((m.digest, m.committed)) },
        )
    } else {
        (CleanModel { stage: Stage::Recipients, ..m }, Step::ResolveRecipients)
    }
}

/// Without a recipient the file cannot be encrypted; otherwise the contents
/// are encrypted for all of them.
pub open spec fn after_recipients(m: CleanModel, recipients: Seq<Seq<char>>) -> Result<
    (CleanModel, Step),
    FilterError,
> {
    if recipients.len() == 0 {
        Err(FilterError::NoRecipients)
    } else {
        Ok(
            (
                CleanModel { stage: Stage::Encrypted, ..m },
                Step::Encrypt { recipients, plaintext: m.contents, armor: m.armor },
            ),
        )
    }
}

/// Fresh ciphertext is emitted and recorded with the new digest.
pub open spec fn after_encrypted(m: CleanModel, c: Seq<u8>) -> (CleanModel, Step) {
    (
        CleanModel { stage: Stage::Finished, ..m },
        Step::Emit { output: c, update: Some((m.digest, c)) },
    )
}

/// The model of a result that carries the filter and its next action.
pub open spec fn begun(r: Result<(CleanFilter, CleanAction), FilterError>) -> Result<
    (CleanModel, Step),
    FilterError,
> {
    match r {
        Ok((f, a)) => Ok((f@, a@)),
        Err(e) => Err(e),
    }
}

impl CleanFilter {
    /// Begins a clean of `contents`, given the cached `hash` sidecar of the file.
    pub fn begin(contents: Vec<u8>, cached_hash: Option<Vec<u8>>, armor: bool) -> (r: Result<
        (CleanFilter, CleanAction),
        FilterError,
    >)
        ensures
            begun(r) == clean_begin(contents@, bytes_opt(cached_hash), armor),
    {
        let digest = content_digest(&contents);
        let staleness = decide(&digest, &cached_hash);
        if staleness == Staleness::Stale {
            if let Some(h) = &cached_hash {
                if h.len() != DIGEST_LEN {
                    return Err(FilterError::MalformedDigest);
                }
            }
        }
        let f = CleanFilter {
            contents,
            digest,
            armor,
            committed: Vec::new(),
            stage: Stage::Committed,
        };
        match staleness {
            Staleness::Reusable => Ok(
                (CleanFilter { stage: Stage::SavedCipher, ..f }, CleanAction::LoadSavedCipher),
            ),
            Staleness::Stale => Ok((f, CleanAction::ReadCommitted)),
        }
    }

    /// Takes the cached ciphertext (`age` sidecar), if there is one.
    pub fn on_saved_cipher(&mut self, saved: Option<Vec<u8>>) -> (r: CleanAction)
        requires
            old(self)@.stage == Stage::SavedCipher,
        ensures
            (final(self)@, r@) == after_saved_cipher(old(self)@, bytes_opt(saved)),
    {
        match saved {
            Some(c) => {
                self.stage = Stage::Finished;
                CleanAction::Emit { output: c, update: None }
            },
            None => {
                self.stage = Stage::Committed;
                CleanAction::ReadCommitted
            },
        }
    }

    /// Takes the file's committed content, or `None` where the repository has
    /// no committed content at the file's path.
    pub fn on_committed(&mut self, committed: Option<Vec<u8>>) -> (r: CleanAction)
        requires
            old(self)@.stage == Stage::Committed,
        ensures
            (final(self)@, r@) == after_committed(old(self)@, bytes_opt(committed)),
    {
        match committed {
            Some(c) => {
                let request = c.clone();
                self.committed = c;
                self.stage = Stage::Decrypted;
                CleanAction::Decrypt(request)
            },
            None => {
                self.stage = Stage::Recipients;
                CleanAction::ResolveRecipients
            },
        }
    }

    /// Takes the outcome of decrypting the committed content.
    pub fn on_decrypted(&mut self, decrypted: Decryption) -> (r: CleanAction)
        requires
            old(self)@.stage == Stage::Decrypted,
        ensures
            (final(self)@, r@) == after_decrypted(old(self)@, decrypted@),
    {
        let matches = match &decrypted {
            Decryption::Plaintext(p) => bytes_equal(p, &self.contents),
            _ => false,
        };
        if matches {
            self.stage = Stage::Finished;
            let update = SidecarUpdate { hash: self.digest.clone(), age: self.committed.clone() };
            CleanAction::Emit { output: self.committed.clone(), update: Some(update) }
        } else {
            self.stage = Stage::Recipients;
            CleanAction::ResolveRecipients
        }
    }

    /// Takes the recipients that apply to the file.
    pub fn on_recipients(&mut self, recipients: Vec<String>) -> (r: Result<CleanAction, FilterError>)
        requires
            old(self)@.stage == Stage::Recipients,
        ensures
            match r {
                Ok(a) => after_recipients(old(self)@, recipients.deep_view()) == Ok::<
                    (CleanModel, Step),
                    FilterError,
                >((final(self)@, a@)),
                Err(e) => after_recipients(old(self)@, recipients.deep_view()) == Err::<
                    (CleanModel, Step),
                    FilterError,
                >(e) && final(self)@ == old(self)@,
            },
    {
        if recipients.len() == 0 {
            return Err(FilterError::NoRecipients);
        }
        self.stage = Stage::Encrypted;
        Ok(
            CleanAction::Encrypt {
                recipients,
                plaintext: self.contents.clone(),
                armor: self.armor,
            },
        )
    }

    /// Takes the fresh ciphertext.
    pub fn on_encrypted(&mut self, ciphertext: Vec<u8>) -> (r: CleanAction)
        requires
            old(self)@.stage == Stage::Encrypted,
        ensures
            (final(self)@, r@) == after_encrypted(old(self)@, ciphertext@),
    {
        self.stage = Stage::Finished;
        let update = SidecarUpdate { hash: self.digest.clone(), age: ciphertext.clone() };
        CleanAction::Emit { output: ciphertext, update: Some(update) }
    }

    /// What the filter waits for.
    pub fn stage(&self) -> (r: Stage)
        ensures
            r == self@.stage,
    {
        self.stage
    }
}

} // verus!
