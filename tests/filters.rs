use git_agecrypt::clean::{CleanAction, CleanFilter, Stage};
use git_agecrypt::context::{CommandContext, IdentityDescriptor};
use git_agecrypt::digest::{bytes_equal, content_digest, decide, Staleness};
use git_agecrypt::outcome::{Decryption, FilterError, SidecarUpdate};

const HELLO_DIGEST: &str = "ea8f163db38682925e4491c5e58d4bb3506ef8c14eb78a86e908c5624a67200f";
const EMPTY_DIGEST: &str = "af1349b9f5f9a1a6a0404dea36dcc9499bcb25c9adc112b7cc9a93cae41f3262";

fn hex(b: &[u8]) -> String {
    b.iter().map(|x| format!("{:02x}", x)).collect()
}

fn ctx(armor: bool) -> CommandContext {
    CommandContext {
        identities: vec!["id-a".to_string(), "id-b".to_string()],
        identity_store: vec![
            IdentityDescriptor { path: "/keys/one".to_string() },
            IdentityDescriptor { path: "/keys/two".to_string() },
        ],
        armor,
    }
}

/// A stand-in for the encryption capability: a tag, then the bytes reversed.
fn fake_encrypt(plaintext: &[u8], nonce: u8) -> Vec<u8> {
    let mut out = b"AGE".to_vec();
    out.push(nonce);
    out.extend(plaintext.iter().rev());
    out
}

fn fake_decrypt(content: &[u8]) -> Decryption {
    if content.len() >= 4 && &content[..3] == b"AGE" {
        Decryption::Plaintext(content[4..].iter().rev().cloned().collect())
    } else {
        Decryption::NotEncrypted
    }
}

/// The sidecar store of one file.
#[derive(Default, Clone, Debug, PartialEq)]
struct Sidecar {
    hash: Option<Vec<u8>>,
    age: Option<Vec<u8>>,
}

struct Outcome {
    output: Result<Vec<u8>, FilterError>,
    encryptions: usize,
}

/// Runs a clean through the filter, answering each request from the arguments.
fn run_clean(
    c: &CommandContext,
    contents: &[u8],
    sidecar: &mut Sidecar,
    committed: Option<Vec<u8>>,
    recipients: Vec<String>,
    nonce: u8,
) -> Outcome {
    let mut encryptions = 0;
    let (mut filter, mut action) = match c.clean(contents.to_vec(), sidecar.hash.clone()) {
        Ok(v) => v,
        Err(e) => return Outcome { output: Err(e), encryptions },
    };
    loop {
        action = match action {
            CleanAction::LoadSavedCipher => {
                assert_eq!(filter.stage(), Stage::SavedCipher);
                filter.on_saved_cipher(sidecar.age.clone())
            }
            CleanAction::ReadCommitted => filter.on_committed(committed.clone()),
            CleanAction::Decrypt(bytes) => filter.on_decrypted(fake_decrypt(&bytes)),
            CleanAction::ResolveRecipients => match filter.on_recipients(recipients.clone()) {
                Ok(a) => a,
                Err(e) => return Outcome { output: Err(e), encryptions },
            },
            CleanAction::Encrypt { recipients, plaintext, .. } => {
                assert!(!recipients.is_empty());
                encryptions += 1;
                filter.on_encrypted(fake_encrypt(&plaintext, nonce))
            }
            CleanAction::Emit { output, update } => {
                assert_eq!(filter.stage(), Stage::Finished);
                if let Some(SidecarUpdate { hash, age }) = update {
                    sidecar.hash = Some(hash);
                    sidecar.age = Some(age);
                }
                return Outcome { output: Ok(output), encryptions };
            }
        };
    }
}

fn one_recipient() -> Vec<String> {
    vec!["age1recipient".to_string()]
}

#[test]
fn digest_of_known_inputs() {
    assert_eq!(hex(&content_digest(&b"hello".to_vec())), HELLO_DIGEST);
    assert_eq!(hex(&content_digest(&Vec::new())), EMPTY_DIGEST);
    assert_eq!(content_digest(&b"hello".to_vec()).len(), 32);
}

#[test]
fn digest_is_not_its_input() {
    let input = vec![7u8; 32];
    assert_ne!(content_digest(&input), input);
}

#[test]
fn decide_compares_digests() {
    let d = content_digest(&b"hello".to_vec());
    assert_eq!(decide(&d, &Some(d.clone())), Staleness::Reusable);
    assert_eq!(decide(&d, &None), Staleness::Stale);
    assert_eq!(decide(&d, &Some(vec![0u8; 32])), Staleness::Stale);
    assert_eq!(decide(&d, &Some(d[..31].to_vec())), Staleness::Stale);
}

#[test]
fn bytes_equal_is_exact() {
    assert!(bytes_equal(&b"abc".to_vec(), &b"abc".to_vec()));
    assert!(!bytes_equal(&b"abc".to_vec(), &b"abd".to_vec()));
    assert!(!bytes_equal(&b"abc".to_vec(), &b"ab".to_vec()));
    assert!(bytes_equal(&Vec::new(), &Vec::new()));
}

#[test]
fn identities_come_from_configuration() {
    let c = ctx(false);
    assert_eq!(c.get_identities(), vec!["id-a".to_string(), "id-b".to_string()]);
    assert_eq!(c.store_identities(), vec!["/keys/one".to_string(), "/keys/two".to_string()]);
    let empty = CommandContext { identities: vec![], identity_store: vec![], armor: false };
    assert!(empty.get_identities().is_empty());
    assert!(empty.store_identities().is_empty());
}

#[test]
fn clean_twice_reuses_the_ciphertext() {
    let c = ctx(false);
    let mut sidecar = Sidecar::default();
    let first = run_clean(&c, b"hello", &mut sidecar, None, one_recipient(), 1);
    assert_eq!(first.encryptions, 1);
    let before = sidecar.clone();
    let second = run_clean(&c, b"hello", &mut sidecar, None, one_recipient(), 2);
    assert_eq!(second.encryptions, 0);
    assert_eq!(second.output, first.output);
    assert_eq!(sidecar, before);
}

#[test]
fn clean_reuses_committed_ciphertext_after_revert() {
    let c = ctx(false);
    let committed = fake_encrypt(b"old text", 9);
    let mut sidecar = Sidecar {
        hash: Some(content_digest(&b"newer text".to_vec())),
        age: Some(fake_encrypt(b"newer text", 3)),
    };
    let out = run_clean(&c, b"old text", &mut sidecar, Some(committed.clone()), one_recipient(), 4);
    assert_eq!(out.encryptions, 0);
    assert_eq!(out.output, Ok(committed.clone()));
    assert_eq!(sidecar.hash, Some(content_digest(&b"old text".to_vec())));
    assert_eq!(sidecar.age, Some(committed));
}

#[test]
fn clean_encrypts_changed_content_afresh() {
    let c = ctx(true);
    let committed = fake_encrypt(b"before", 9);
    let mut sidecar = Sidecar::default();
    let out = run_clean(&c, b"after", &mut sidecar, Some(committed.clone()), one_recipient(), 5);
    assert_eq!(out.encryptions, 1);
    let fresh = fake_encrypt(b"after", 5);
    assert_eq!(out.output, Ok(fresh.clone()));
    assert_ne!(fresh, committed);
    assert_eq!(sidecar.hash, Some(content_digest(&b"after".to_vec())));
    assert_eq!(sidecar.age, Some(fresh));
}

#[test]
fn clean_encrypts_when_committed_content_is_plain_or_locked() {
    let c = ctx(false);
    let mut sidecar = Sidecar::default();
    let out = run_clean(&c, b"data", &mut sidecar, Some(b"data".to_vec()), one_recipient(), 6);
    assert_eq!(out.encryptions, 1);
    assert_eq!(out.output, Ok(fake_encrypt(b"data", 6)));

    let (mut f, a) = CleanFilter::begin(b"data".to_vec(), None, false).unwrap();
    assert!(matches!(a, CleanAction::ReadCommitted));
    let a = f.on_committed(Some(b"sealed".to_vec()));
    assert!(matches!(a, CleanAction::Decrypt(ref b) if b == b"sealed"));
    let a = f.on_decrypted(Decryption::WrongIdentity);
    assert!(matches!(a, CleanAction::ResolveRecipients));
    assert_eq!(f.stage(), Stage::Recipients);
}

#[test]
fn clean_of_a_new_file_encrypts_with_armor_setting() {
    let (mut f, a) = CleanFilter::begin(b"x".to_vec(), None, true).unwrap();
    assert!(matches!(a, CleanAction::ReadCommitted));
    assert!(matches!(f.on_committed(None), CleanAction::ResolveRecipients));
    match f.on_recipients(one_recipient()).unwrap() {
        CleanAction::Encrypt { recipients, plaintext, armor } => {
            assert_eq!(recipients, one_recipient());
            assert_eq!(plaintext, b"x".to_vec());
            assert!(armor);
        }
        other => panic!("unexpected action {:?}", other),
    }
}

#[test]
fn clean_without_recipients_fails() {
    let c = ctx(false);
    let mut sidecar = Sidecar::default();
    let out = run_clean(&c, b"secret", &mut sidecar, None, vec![], 1);
    assert_eq!(out.output, Err(FilterError::NoRecipients));
    assert_eq!(out.encryptions, 0);
    assert_eq!(sidecar, Sidecar::default());
}

#[test]
fn clean_refuses_a_malformed_cached_digest() {
    let c = ctx(false);
    let r = c.clean(b"hello".to_vec(), Some(vec![1, 2, 3]));
    assert!(matches!(r, Err(FilterError::MalformedDigest)));
}

#[test]
fn clean_with_matching_digest_but_no_saved_cipher_reconciles() {
    let d = content_digest(&b"hello".to_vec());
    let (mut f, a) = CleanFilter::begin(b"hello".to_vec(), Some(d), false).unwrap();
    assert!(matches!(a, CleanAction::LoadSavedCipher));
    assert!(matches!(f.on_saved_cipher(None), CleanAction::ReadCommitted));
    assert_eq!(f.stage(), Stage::Committed);
}

#[test]
fn smudge_of_plain_content_fails() {
    let c = ctx(false);
    let r = c.smudge(b"plain".to_vec(), fake_decrypt(b"plain"));
    assert!(matches!(r, Err(FilterError::NotEncrypted)));
    let r = c.smudge(b"plain".to_vec(), Decryption::NotEncrypted);
    assert!(matches!(r, Err(FilterError::NotEncrypted)));
}

#[test]
fn smudge_without_a_matching_identity_fails() {
    let c = ctx(false);
    let r = c.smudge(b"AGE?sealed".to_vec(), Decryption::WrongIdentity);
    assert!(matches!(r, Err(FilterError::NotDecryptable)));
}

#[test]
fn smudge_records_digest_and_ciphertext() {
    let c = ctx(false);
    let x = fake_encrypt(b"hello", 1);
    let s = c.smudge(x.clone(), fake_decrypt(&x)).unwrap();
    assert_eq!(s.plaintext, b"hello".to_vec());
    assert_eq!(s.update.hash, content_digest(&b"hello".to_vec()));
    assert_eq!(hex(&s.update.hash), HELLO_DIGEST);
    assert_eq!(s.update.age, x);
}

#[test]
fn textconv_shows_plain_content_unchanged() {
    let c = ctx(false);
    assert_eq!(c.textconv(b"plain".to_vec(), Decryption::NotEncrypted), Some(b"plain".to_vec()));
    assert_eq!(c.textconv(Vec::new(), Decryption::NotEncrypted), Some(Vec::<u8>::new()));
}

#[test]
fn textconv_shows_decrypted_content() {
    let c = ctx(false);
    let x = fake_encrypt(b"diff me", 2);
    assert_eq!(c.textconv(x.clone(), fake_decrypt(&x)), Some(b"diff me".to_vec()));
}

#[test]
fn textconv_without_a_matching_identity_shows_nothing() {
    let c = ctx(false);
    let x = fake_encrypt(b"diff me", 2);
    assert_eq!(c.textconv(x, Decryption::WrongIdentity), None);
}

#[test]
fn clean_then_smudge_round_trip() {
    let c = ctx(false);
    let mut sidecar = Sidecar::default();
    let out = run_clean(&c, b"hello", &mut sidecar, None, one_recipient(), 7);
    let x = out.output.unwrap();
    assert_eq!(hex(sidecar.hash.as_ref().unwrap()), HELLO_DIGEST);
    assert_eq!(sidecar.age, Some(x.clone()));
    let s = c.smudge(x.clone(), fake_decrypt(&x)).unwrap();
    assert_eq!(s.plaintext, b"hello".to_vec());
    assert_eq!(Some(s.update.hash), sidecar.hash);
    assert_eq!(Some(s.update.age), sidecar.age);
}
