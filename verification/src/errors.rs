use vstd::prelude::*;

verus! {

/// Every failure that sealing or unsealing can report. Authentication
/// failures are deliberately undifferentiated: a caller learns only that
/// decryption failed, not whether the tag, the key or the data was at fault.
#[derive(Clone, Copy, Debug, PartialEq, Eq, Structural)]
pub enum CryptError {
    /// The secure random source could not supply nonce bytes.
    RandomnessUnavailable,
    /// The AEAD primitive rejected the sealing operation.
    EncryptionFailure,
    /// The token is not valid base64 text, or decodes to fewer bytes than a
    /// nonce occupies, so it cannot contain a valid frame.
    MalformedToken,
    /// Tag verification failed: tampered ciphertext, wrong key, or a
    /// corrupted token.
    DecryptionFailure,
    /// Decrypted bytes do not parse into the expected value shape.
    DeserializationFailure,
}

} // verus!
