//! Field-level authenticated encryption for values flowing through a
//! serialization pipeline.
//!
//! A caller installs a master key in a [`KeyStore`], and the sealing engine
//! turns a plaintext byte payload into an opaque, text-safe token and back:
//! the key is derived from the master key by SHA-256, a fresh 12-byte nonce
//! is drawn for every sealing, the payload is encrypted under AES-256-GCM
//! with a 16-byte authentication tag, and the token is the URL-safe,
//! unpadded base64 text of `nonce || ciphertext || tag`.

mod adapters;
mod engine;
mod errors;
mod keystore;
mod token;

pub use adapters::{d, e, seal_of, seal_with_nonce, unseal_err_of, unseal_of};
pub use engine::{
    decrypt, derive_key, encrypt, generate_nonce, gcm_open, gcm_seal, sha256_of,
    MAX_PLAINTEXT_LEN, NONCE_LEN, TAG_LEN,
};
pub use errors::CryptError;
pub use keystore::{setup, KeyStore, MAX_MASTER_KEY_LEN};
pub use token::{b64_decode_of, b64_of, decode_token, encode_token};
