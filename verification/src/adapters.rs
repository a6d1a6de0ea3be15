use vstd::prelude::*;

use crate::engine::{
    encrypt, decrypt, gcm_open, gcm_seal, generate_nonce, sha256_of, MAX_PLAINTEXT_LEN, NONCE_LEN,
    TAG_LEN,
};
use crate::errors::CryptError;
use crate::keystore::KeyStore;
use crate::token::{b64_decode_of, b64_of, decode_token, encode_token};

verus! {

/// The token that sealing `plaintext` under `master` produces when the
/// fresh nonce comes out as `nonce`: the URL-safe unpadded base64 text of
/// `nonce || ciphertext || tag` under the key derived from `master`.
pub open spec fn seal_of(master: Seq<u8>, nonce: Seq<u8>, plaintext: Seq<u8>) -> Seq<char> {
    b64_of(nonce + gcm_seal(sha256_of(master), nonce, plaintext))
}

/// What unsealing `token` under `master` recovers: the plaintext when the
/// token decodes to a frame of at least a nonce's length whose remainder
/// authenticates under the derived key, `None` otherwise.
pub open spec fn unseal_of(master: Seq<u8>, token: Seq<char>) -> Option<Seq<u8>> {
    match b64_decode_of(token) {
        Option::None => Option::None,
        Option::Some(frame) => if frame.len() < NONCE_LEN {
            Option::None
        } else {
            gcm_open(sha256_of(master), frame.take(NONCE_LEN as int), frame.skip(NONCE_LEN as int))
        },
    }
}

/// Which failure unsealing `token` under `master` reports when it recovers
/// nothing: a token that does not decode, or decodes to less than a nonce,
/// is malformed; one whose frame fails to authenticate is a single
/// undifferentiated decryption failure.
pub open spec fn unseal_err_of(master: Seq<u8>, token: Seq<char>) -> CryptError {
    match b64_decode_of(token) {
        Option::None => CryptError::MalformedToken,
        Option::Some(frame) => if frame.len() < NONCE_LEN {
            CryptError::MalformedToken
        } else {
            CryptError::DecryptionFailure
        },
    }
}

/// Seals `plaintext` under the store's current master key with the given
/// nonce: encrypts, frames and encodes, deterministically in its arguments.
/// The produced token unseals, under the same master key, back to exactly
/// the plaintext. Succeeds on every plaintext up to [`MAX_PLAINTEXT_LEN`]
/// bytes.
pub fn seal_with_nonce(store: &KeyStore, nonce: &Vec<u8>, plaintext: Vec<u8>) -> (r: Result<
    String,
    CryptError,
>)
    requires
        nonce@.len() == NONCE_LEN,
        plaintext@.len() + NONCE_LEN + TAG_LEN <= usize::MAX / 4,
    ensures
        (r matches Ok(t) ==> t@ == seal_of(store@, nonce@, plaintext@)
            && unseal_of(store@, t@) == Some(plaintext@)),
        (r matches Err(e) ==> e == CryptError::EncryptionFailure
            && plaintext@.len() > MAX_PLAINTEXT_LEN),
{
    let ghost p = plaintext@;
    let ciphertext = match encrypt(store, plaintext, nonce) {
        Ok(c) => c,
        Err(e) => {
            return Err(e);
        },
    };
    let token = encode_token(nonce, ciphertext);
    proof {
        let frame = nonce@ + gcm_seal(sha256_of(store@), nonce@, p);
        assert(frame.take(NONCE_LEN as int) =~= nonce@);
        assert(frame.skip(NONCE_LEN as int) =~= gcm_seal(sha256_of(store@), nonce@, p));
    }
    Ok(token)
}

/// Seals a plaintext byte payload into a token under the store's current
/// master key, drawing a fresh random nonce: the encode-side boundary hook.
/// Two calls on the same input near-certainly differ — the nonce is fresh —
/// yet every produced token unseals back to exactly the input.
pub fn e(store: &KeyStore, plaintext: Vec<u8>) -> (r: Result<String, CryptError>)
    requires
        plaintext@.len() + NONCE_LEN + TAG_LEN <= usize::MAX / 4,
    ensures
        (r matches Ok(t) ==> (exists|n: Seq<u8>|
            n.len() == NONCE_LEN && t@ == seal_of(store@, n, plaintext@))
            && unseal_of(store@, t@) == Some(plaintext@)),
        (r matches Err(e) ==> e == CryptError::RandomnessUnavailable || (e
            == CryptError::EncryptionFailure && plaintext@.len() > MAX_PLAINTEXT_LEN)),
{
    let nonce = match generate_nonce() {
        Ok(n) => n,
        Err(e) => {
            return Err(e);
        },
    };
    seal_with_nonce(store, &nonce, plaintext)
}

/// Unseals a token back into the plaintext byte payload: the decode-side
/// boundary hook. Returns the plaintext exactly when the token decodes and
/// its frame authenticates under the store's current master key; otherwise
/// fails with [`CryptError::MalformedToken`] for text that is not a frame,
/// and with [`CryptError::DecryptionFailure`] for a frame that does not
/// authenticate — tampering, a wrong key and corruption are not told apart.
pub fn d(store: &KeyStore, source: String) -> (r: Result<Vec<u8>, CryptError>)
    ensures
        (r matches Ok(p) ==> unseal_of(store@, source@) == Some(p@)),
        (r matches Err(e) ==> unseal_of(store@, source@) is None && e == unseal_err_of(
            store@,
            source@,
        )),
{
    let (nonce, data) = match decode_token(source.as_str()) {
        Ok(pair) => pair,
        Err(e) => {
            return Err(e);
        },
    };
    decrypt(store, data, &nonce)
}

} // verus!
