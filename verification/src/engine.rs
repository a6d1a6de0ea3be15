use vstd::prelude::*;

use crate::errors::CryptError;
use crate::keystore::{KeyStore, MAX_MASTER_KEY_LEN};
use ring::rand::SecureRandom;

verus! {

/// Length of a nonce: AES-256-GCM takes a 96-bit nonce.
pub const NONCE_LEN: usize = 12;

/// Length of the authentication tag that AES-256-GCM appends.
pub const TAG_LEN: usize = 16;

/// Longest plaintext that AES-256-GCM can seal under one nonce: the block
/// counter is 32 bits wide, which caps one message at (2^39 - 256) / 8
/// bytes of input.
pub const MAX_PLAINTEXT_LEN: u64 = 68_719_476_704;

/// The SHA-256 digest of a byte sequence.
pub uninterp spec fn sha256_of(data: Seq<u8>) -> Seq<u8>;

/// Ciphertext with appended tag produced by AES-256-GCM with empty
/// associated data, as a function of key, nonce and plaintext.
pub uninterp spec fn gcm_seal(key: Seq<u8>, nonce: Seq<u8>, plaintext: Seq<u8>) -> Seq<u8>;

/// Outcome of opening ciphertext-with-tag under AES-256-GCM with empty
/// associated data: the plaintext when the tag verifies, `None` otherwise.
pub uninterp spec fn gcm_open(key: Seq<u8>, nonce: Seq<u8>, data: Seq<u8>) -> Option<Seq<u8>>;

/// Relies on `ring::digest::digest` with `ring::digest::SHA256`: the digest
/// is a function of the input bytes alone and is exactly 32 bytes long;
/// inputs up to 2^61 - 1 bytes are accepted.
#[verifier::external_body]
fn sha256(data: &Vec<u8>) -> (r: Vec<u8>)
    requires
        data@.len() <= MAX_MASTER_KEY_LEN,
    ensures
        r@ == sha256_of(data@),
        r@.len() == 32,
{
    ring::digest::digest(&ring::digest::SHA256, data.as_slice()).as_ref().to_vec()
}

/// Relies on `ring::rand::SystemRandom::fill`: on success the buffer holds
/// fresh random bytes; nothing can be said of their value. The source is
/// safe for concurrent use and fails rather than degrade.
#[verifier::external_body]
fn generate_random_nonce() -> (r: Result<Vec<u8>, CryptError>)
    ensures
        (r matches Ok(n) ==> n@.len() == NONCE_LEN),
        (r matches Err(e) ==> e == CryptError::RandomnessUnavailable),
{
    let mut raw_nonce = [0u8; 12];
    match ring::rand::SystemRandom::new().fill(&mut raw_nonce) {
        Ok(()) => Ok(raw_nonce.to_vec()),
        Err(_) => Err(CryptError::RandomnessUnavailable),
    }
}

/// Relies on `ring::aead` with `AES_256_GCM`: `UnboundKey::new` accepts any
/// 32-byte key, `LessSafeKey::seal_in_place_append_tag` produces ciphertext
/// plus a 16-byte tag as a function of key, nonce and plaintext, it fails
/// exactly when the input exceeds the algorithm's length cap, and
/// `open_in_place` recovers the plaintext from what it produced. The `Nonce`
/// value is passed by move and consumed exactly once.
#[verifier::external_body]
fn aead_seal(key: &Vec<u8>, nonce: &Vec<u8>, plaintext: Vec<u8>) -> (r: Result<
    Vec<u8>,
    CryptError,
>)
    requires
        key@.len() == 32,
        nonce@.len() == NONCE_LEN,
    ensures
        (r matches Ok(c) ==> c@ == gcm_seal(key@, nonce@, plaintext@)
            && c@.len() == plaintext@.len() + TAG_LEN
            && gcm_open(key@, nonce@, c@) == Some(plaintext@)),
        (r matches Err(e) ==> e == CryptError::EncryptionFailure
            && plaintext@.len() > MAX_PLAINTEXT_LEN),
{
    let unbound = match ring::aead::UnboundKey::new(&ring::aead::AES_256_GCM, key.as_slice()) {
        Ok(k) => k,
        Err(_) => return Err(CryptError::EncryptionFailure),
    };
    let nonce_value = match ring::aead::Nonce::try_assume_unique_for_key(nonce.as_slice()) {
        Ok(n) => n,
        Err(_) => return Err(CryptError::EncryptionFailure),
    };
    let mut data = plaintext;
    let sealing_key = ring::aead::LessSafeKey::new(unbound);
    match sealing_key.seal_in_place_append_tag(nonce_value, ring::aead::Aad::empty(), &mut data) {
        Ok(()) => Ok(data),
        Err(_) => Err(CryptError::EncryptionFailure),
    }
}

/// Relies on `ring::aead` with `AES_256_GCM`: `LessSafeKey::open_in_place`
/// verifies the appended tag and returns the plaintext, shorter than its
/// input by the 16-byte tag, as a function of key, nonce and input; every
/// failure — a too-short input, a bad tag, a wrong key — is the one
/// undifferentiated `ring::error::Unspecified`.
#[verifier::external_body]
fn aead_open(key: &Vec<u8>, nonce: &Vec<u8>, data: Vec<u8>) -> (r: Result<Vec<u8>, CryptError>)
    requires
        key@.len() == 32,
        nonce@.len() == NONCE_LEN,
    ensures
        (r matches Ok(p) ==> gcm_open(key@, nonce@, data@) == Some(p@)
            && data@.len() >= TAG_LEN
            && p@.len() == data@.len() - TAG_LEN),
        (r matches Err(e) ==> e == CryptError::DecryptionFailure
            && gcm_open(key@, nonce@, data@) is None),
{
    let unbound = match ring::aead::UnboundKey::new(&ring::aead::AES_256_GCM, key.as_slice()) {
        Ok(k) => k,
        Err(_) => return Err(CryptError::DecryptionFailure),
    };
    let nonce_value = match ring::aead::Nonce::try_assume_unique_for_key(nonce.as_slice()) {
        Ok(n) => n,
        Err(_) => return Err(CryptError::DecryptionFailure),
    };
    let mut buffer = data;
    let opening_key = ring::aead::LessSafeKey::new(unbound);
    match opening_key.open_in_place(nonce_value, ring::aead::Aad::empty(), &mut buffer) {
        Ok(plaintext) => Ok(plaintext.to_vec()),
        Err(_) => Err(CryptError::DecryptionFailure),
    }
}

/// Computes the 256-bit encryption key as the SHA-256 digest of the raw
/// master key bytes. Deterministic and stateless; recomputed on every
/// operation, so a key replaced mid-process takes effect at once.
pub fn derive_key(master_key: &Vec<u8>) -> (r: Vec<u8>)
    requires
        master_key@.len() <= MAX_MASTER_KEY_LEN,
    ensures
        r@ == sha256_of(master_key@),
        r@.len() == 32,
{
    sha256(master_key)
}

/// Draws a fresh 12-byte nonce from the secure random source, failing the
/// operation rather than falling back to anything weaker. Uniqueness rests
/// on the randomness alone; the birthday-bound risk at very high volumes
/// under one key is a known limitation.
pub fn generate_nonce() -> (r: Result<Vec<u8>, CryptError>)
    ensures
        (r matches Ok(n) ==> n@.len() == NONCE_LEN),
        (r matches Err(e) ==> e == CryptError::RandomnessUnavailable),
{
    generate_random_nonce()
}

/// Authenticated encryption of `plaintext` under the given nonce and the
/// key derived from the store's current master key: AES-256-GCM with empty
/// associated data, tag appended. Succeeds on every plaintext up to
/// [`MAX_PLAINTEXT_LEN`] bytes.
pub fn encrypt(store: &KeyStore, plaintext: Vec<u8>, nonce: &Vec<u8>) -> (r: Result<
    Vec<u8>,
    CryptError,
>)
    requires
        nonce@.len() == NONCE_LEN,
    ensures
        (r matches Ok(c) ==> c@ == gcm_seal(sha256_of(store@), nonce@, plaintext@)
            && c@.len() == plaintext@.len() + TAG_LEN
            && gcm_open(sha256_of(store@), nonce@, c@) == Some(plaintext@)),
        (r matches Err(e) ==> e == CryptError::EncryptionFailure
            && plaintext@.len() > MAX_PLAINTEXT_LEN),
{
    let derived = derive_key(store.current());
    aead_seal(&derived, nonce, plaintext)
}

/// Authenticated decryption of ciphertext-with-tag under the given nonce
/// and the key derived from the store's current master key. Returns the
/// plaintext exactly when the tag verifies; every failure is the single
/// undifferentiated [`CryptError::DecryptionFailure`].
pub fn decrypt(store: &KeyStore, data: Vec<u8>, nonce: &Vec<u8>) -> (r: Result<
    Vec<u8>,
    CryptError,
>)
    requires
        nonce@.len() == NONCE_LEN,
    ensures
        (r matches Ok(p) ==> gcm_open(sha256_of(store@), nonce@, data@) == Some(p@)
            && data@.len() >= TAG_LEN
            && p@.len() == data@.len() - TAG_LEN),
        (r matches Err(e) ==> e == CryptError::DecryptionFailure
            && gcm_open(sha256_of(store@), nonce@, data@) is None),
{
    let derived = derive_key(store.current());
    aead_open(&derived, nonce, data)
}

} // verus!
