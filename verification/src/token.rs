use vstd::prelude::*;

use crate::engine::NONCE_LEN;
use crate::errors::CryptError;

verus! {

/// The URL-safe, unpadded base64 text of a byte sequence.
pub uninterp spec fn b64_of(bytes: Seq<u8>) -> Seq<char>;

/// Outcome of URL-safe, unpadded base64 decoding: the bytes when the text
/// is valid base64 in that alphabet, `None` otherwise.
pub uninterp spec fn b64_decode_of(text: Seq<char>) -> Option<Seq<u8>>;

/// Relies on the `base64` crate's `URL_SAFE_NO_PAD` engine: `encode` yields
/// pure-ASCII text in the URL-safe alphabet without padding, a function of
/// the input bytes alone, and `decode` of that text gives the bytes back.
#[verifier::external_body]
fn b64_encode(bytes: &Vec<u8>) -> (r: String)
    requires
        bytes@.len() <= usize::MAX / 4,
    ensures
        r@ == b64_of(bytes@),
        b64_decode_of(r@) == Some(bytes@),
{
    base64::Engine::encode(&base64::engine::general_purpose::URL_SAFE_NO_PAD, bytes.as_slice())
}

/// Relies on the `base64` crate's `URL_SAFE_NO_PAD` engine: `decode` either
/// returns the bytes that the text encodes or rejects it, as a function of
/// the text alone.
#[verifier::external_body]
fn b64_decode(text: &str) -> (r: Option<Vec<u8>>)
    ensures
        (r matches Some(b) ==> b64_decode_of(text@) == Some(b@)),
        (r is None ==> b64_decode_of(text@) is None),
{
    match base64::Engine::decode(&base64::engine::general_purpose::URL_SAFE_NO_PAD, text.as_bytes())
    {
        Ok(b) => Some(b),
        Err(_) => None,
    }
}

/// Frames nonce and ciphertext-with-tag at a fixed offset — the first 12
/// bytes of the frame are the nonce, the remainder the ciphertext — and
/// renders the frame as URL-safe, unpadded base64 text, safe to embed in
/// any textual field.
pub fn encode_token(nonce: &Vec<u8>, ciphertext: Vec<u8>) -> (r: String)
    requires
        nonce@.len() == NONCE_LEN,
        ciphertext@.len() + NONCE_LEN <= usize::MAX / 4,
    ensures
        r@ == b64_of(nonce@ + ciphertext@),
        b64_decode_of(r@) == Some(nonce@ + ciphertext@),
{
    let mut framed: Vec<u8> = Vec::new();
    let mut i: usize = 0;
    while i < nonce.len()
        invariant
            i <= nonce@.len(),
            nonce@.len() == NONCE_LEN,
            framed@ == nonce@.take(i as int),
        decreases nonce@.len() - i,
    {
        framed.push(nonce[i]);
        i = i + 1;
        proof {
            assert(framed@ =~= nonce@.take(i as int));
        }
    }
    let mut j: usize = 0;
    while j < ciphertext.len()
        invariant
            j <= ciphertext@.len(),
            nonce@.len() == NONCE_LEN,
            ciphertext@.len() + NONCE_LEN <= usize::MAX / 4,
            framed@ == nonce@ + ciphertext@.take(j as int),
        decreases ciphertext@.len() - j,
    {
        framed.push(ciphertext[j]);
        j = j + 1;
        proof {
            assert(framed@ =~= nonce@ + ciphertext@.take(j as int));
        }
    }
    proof {
        assert(framed@ =~= nonce@ + ciphertext@);
    }
    b64_encode(&framed)
}

/// Decodes a token back into its nonce and ciphertext-with-tag. Fails with
/// [`CryptError::MalformedToken`] exactly when the text is not valid
/// URL-safe unpadded base64 or the decoded frame is shorter than a nonce;
/// otherwise splits at the fixed 12-byte offset.
pub fn decode_token(token: &str) -> (r: Result<(Vec<u8>, Vec<u8>), CryptError>)
    ensures
        (r matches Ok(p) ==> b64_decode_of(token@) matches Some(frame)
            && frame.len() >= NONCE_LEN
            && p.0@ == frame.take(NONCE_LEN as int)
            && p.1@ == frame.skip(NONCE_LEN as int)),
        (r matches Err(e) ==> e == CryptError::MalformedToken && (b64_decode_of(token@) is None
            || b64_decode_of(token@)->Some_0.len() < NONCE_LEN)),
{
    let decoded = match b64_decode(token) {
        Some(d) => d,
        None => {
            return Err(CryptError::MalformedToken);
        },
    };
    if decoded.len() < NONCE_LEN {
        return Err(CryptError::MalformedToken);
    }
    let mut nonce: Vec<u8> = Vec::new();
    let mut i: usize = 0;
    while i < NONCE_LEN
        invariant
            i <= NONCE_LEN,
            NONCE_LEN <= decoded@.len(),
            nonce@ == decoded@.take(i as int),
        decreases NONCE_LEN - i,
    {
        nonce.push(decoded[i]);
        i = i + 1;
        proof {
            assert(nonce@ =~= decoded@.take(i as int));
        }
    }
    let mut data: Vec<u8> = Vec::new();
    let mut j: usize = NONCE_LEN;
    while j < decoded.len()
        invariant
            NONCE_LEN <= j <= decoded@.len(),
            data@ == decoded@.subrange(NONCE_LEN as int, j as int),
        decreases decoded@.len() - j,
    {
        data.push(decoded[j]);
        j = j + 1;
        proof {
            assert(data@ =~= decoded@.subrange(NONCE_LEN as int, j as int));
        }
    }
    proof {
        assert(data@ =~= decoded@.skip(NONCE_LEN as int));
    }
    Ok((nonce, data))
}

} // verus!
