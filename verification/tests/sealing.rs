use serde_crypt::{
    d, decode_token, decrypt, derive_key, e, encode_token, encrypt, generate_nonce,
    seal_with_nonce, setup, CryptError, KeyStore,
};

fn store_with_key(key: Vec<u8>) -> KeyStore {
    let mut store = KeyStore::new();
    setup(&mut store, key);
    store
}

#[test]
fn round_trip_bytes() {
    let store = store_with_key(vec![5u8; 32]);
    let shapes: Vec<Vec<u8>> = vec![
        Vec::new(),
        vec![0u8],
        (0u8..=255u8).collect(),
        vec![42u8; 10_000],
        b"a secret message".to_vec(),
    ];
    for plaintext in shapes {
        let token = e(&store, plaintext.clone()).unwrap();
        let recovered = d(&store, token).unwrap();
        assert_eq!(recovered, plaintext);
    }
}

#[test]
fn round_trip_under_many_keys() {
    for len in [0usize, 1, 16, 32, 64, 256] {
        let store = store_with_key(vec![0xabu8; len]);
        let token = e(&store, b"payload".to_vec()).unwrap();
        assert_eq!(d(&store, token).unwrap(), b"payload".to_vec());
    }
}

#[test]
fn tokens_differ_but_unseal_same() {
    let store = store_with_key(vec![1u8; 32]);
    let token_a = e(&store, b"a secret message".to_vec()).unwrap();
    let token_b = e(&store, b"a secret message".to_vec()).unwrap();
    assert_ne!(token_a, token_b);
    assert_eq!(d(&store, token_a).unwrap(), b"a secret message".to_vec());
    assert_eq!(d(&store, token_b).unwrap(), b"a secret message".to_vec());
}

#[test]
fn tamper_detection() {
    let store = store_with_key(vec![9u8; 32]);
    let token = e(&store, b"a secret message".to_vec()).unwrap();
    let bytes = token.as_bytes();
    for position in 0..bytes.len() {
        for bit in 0..8 {
            let mut flipped = bytes.to_vec();
            flipped[position] ^= 1u8 << bit;
            match String::from_utf8(flipped) {
                // a flip that leaves valid text must still be rejected,
                // never unseal to some other value
                Ok(mutated) => {
                    let outcome = d(&store, mutated);
                    assert!(matches!(
                        outcome,
                        Err(CryptError::MalformedToken) | Err(CryptError::DecryptionFailure)
                    ));
                }
                // a flip that breaks the text encoding cannot form a token
                Err(_) => {}
            }
        }
    }
}

#[test]
fn key_mismatch_always_fails() {
    let store_one = store_with_key(vec![0u8; 32]);
    let mut other_key = vec![0u8; 32];
    other_key[31] = 1;
    let store_two = store_with_key(other_key);
    for _ in 0..100 {
        let token = e(&store_one, b"cross-key payload".to_vec()).unwrap();
        assert_eq!(d(&store_two, token), Err(CryptError::DecryptionFailure));
    }
}

#[test]
fn nonce_uniqueness_under_load() {
    let store = store_with_key(vec![7u8; 32]);
    let mut nonces: Vec<Vec<u8>> = Vec::new();
    for _ in 0..10_000 {
        let token = e(&store, b"load".to_vec()).unwrap();
        let (nonce, _) = decode_token(&token).unwrap();
        assert_eq!(nonce.len(), 12);
        nonces.push(nonce);
    }
    nonces.sort();
    for pair in nonces.windows(2) {
        assert_ne!(pair[0], pair[1]);
    }
}

#[test]
fn boundary_tokens_fail_cleanly() {
    let store = store_with_key(vec![3u8; 32]);
    // empty text
    assert_eq!(d(&store, String::new()), Err(CryptError::MalformedToken));
    // valid base64, but the frame is shorter than a nonce
    assert_eq!(
        d(&store, "AAAA".to_string()),
        Err(CryptError::MalformedToken)
    );
    // not base64 at all
    assert_eq!(
        d(&store, "!!!not base64!!!".to_string()),
        Err(CryptError::MalformedToken)
    );
    // standard-alphabet padding is refused by the unpadded decoder
    assert_eq!(
        d(&store, "AAAAAAAAAAAAAAAAAA==".to_string()),
        Err(CryptError::MalformedToken)
    );
    // a frame of exactly one nonce and no tag cannot authenticate
    let empty_frame_token = encode_token(&vec![0u8; 12], Vec::new());
    assert_eq!(
        d(&store, empty_frame_token),
        Err(CryptError::DecryptionFailure)
    );
}

#[test]
fn derive_key_matches_sha256_vectors() {
    // SHA-256 of the empty input
    let expected_empty: [u8; 32] = [
        0xe3, 0xb0, 0xc4, 0x42, 0x98, 0xfc, 0x1c, 0x14, 0x9a, 0xfb, 0xf4, 0xc8, 0x99, 0x6f, 0xb9,
        0x24, 0x27, 0xae, 0x41, 0xe4, 0x64, 0x9b, 0x93, 0x4c, 0xa4, 0x95, 0x99, 0x1b, 0x78, 0x52,
        0xb8, 0x55,
    ];
    assert_eq!(derive_key(&Vec::new()), expected_empty.to_vec());
    // SHA-256 of "abc"
    let expected_abc: [u8; 32] = [
        0xba, 0x78, 0x16, 0xbf, 0x8f, 0x01, 0xcf, 0xea, 0x41, 0x41, 0x40, 0xde, 0x5d, 0xae, 0x22,
        0x23, 0xb0, 0x03, 0x61, 0xa3, 0x96, 0x17, 0x7a, 0x9c, 0xb4, 0x10, 0xff, 0x61, 0xf2, 0x00,
        0x15, 0xad,
    ];
    assert_eq!(derive_key(&b"abc".to_vec()), expected_abc.to_vec());
    // the derived key never equals the master key verbatim
    let master = vec![0u8; 32];
    assert_ne!(derive_key(&master), master);
}

#[test]
fn token_encoding_vectors() {
    // 13 zero bytes encode to 18 'A's in unpadded base64
    let token = encode_token(&vec![0u8; 12], vec![0u8]);
    assert_eq!(token, "AAAAAAAAAAAAAAAAAA");
    let (nonce, data) = decode_token(&token).unwrap();
    assert_eq!(nonce, vec![0u8; 12]);
    assert_eq!(data, vec![0u8]);
    // the URL-safe alphabet appears where the standard one would pad or
    // use '+' and '/'
    let nonce_bytes: Vec<u8> = (0u8..12u8).collect();
    let token = encode_token(&nonce_bytes, vec![0xfb, 0xff, 0xbf]);
    assert_eq!(token, "AAECAwQFBgcICQoL-_-_");
    assert!(!token.contains('='));
    let (nonce, data) = decode_token(&token).unwrap();
    assert_eq!(nonce, nonce_bytes);
    assert_eq!(data, vec![0xfb, 0xff, 0xbf]);
}

#[test]
fn engine_primitives_round_trip() {
    let store = store_with_key(b"an arbitrary-length master secret".to_vec());
    let nonce = generate_nonce().unwrap();
    assert_eq!(nonce.len(), 12);
    let other_nonce = generate_nonce().unwrap();
    assert_ne!(nonce, other_nonce);
    let ciphertext = encrypt(&store, b"engine payload".to_vec(), &nonce).unwrap();
    assert_eq!(ciphertext.len(), b"engine payload".len() + 16);
    assert_ne!(&ciphertext[..b"engine payload".len()], b"engine payload");
    let plaintext = decrypt(&store, ciphertext.clone(), &nonce).unwrap();
    assert_eq!(plaintext, b"engine payload".to_vec());
    // the same ciphertext under the wrong nonce does not authenticate
    assert_eq!(
        decrypt(&store, ciphertext, &other_nonce),
        Err(CryptError::DecryptionFailure)
    );
}

#[test]
fn sealing_is_deterministic_in_the_nonce() {
    let store = store_with_key(vec![4u8; 32]);
    let nonce: Vec<u8> = (100u8..112u8).collect();
    let token_one = seal_with_nonce(&store, &nonce, b"payload".to_vec()).unwrap();
    let token_two = seal_with_nonce(&store, &nonce, b"payload".to_vec()).unwrap();
    assert_eq!(token_one, token_two);
    assert_eq!(d(&store, token_one).unwrap(), b"payload".to_vec());
    // the token is exactly the framing of the raw transform
    let ciphertext = encrypt(&store, b"payload".to_vec(), &nonce).unwrap();
    assert_eq!(token_two, encode_token(&nonce, ciphertext));
}

#[test]
fn setup_last_writer_wins() {
    let mut store = KeyStore::new();
    setup(&mut store, vec![1u8; 32]);
    let token = e(&store, b"under the first key".to_vec()).unwrap();
    setup(&mut store, vec![2u8; 32]);
    assert_eq!(d(&store, token.clone()), Err(CryptError::DecryptionFailure));
    setup(&mut store, vec![1u8; 32]);
    assert_eq!(d(&store, token).unwrap(), b"under the first key".to_vec());
}
