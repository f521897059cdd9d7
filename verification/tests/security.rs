use std::collections::HashSet;
use veil_core::cipher;
use veil_core::symmetric::{SymmetricEnvelope, SymmetricKey};

#[test]
fn test_key_material_is_256_bit() {
    let key = cipher::generate_key();
    assert_eq!(key.len(), 32, "Key must be 256 bits (32 bytes)");
}

#[test]
fn test_generated_keys_are_random() {
    let mut keys = HashSet::new();
    for _ in 0..100 {
        let key = cipher::generate_key();
        assert!(
            keys.insert(key),
            "Key generation produced duplicate! CSPRNG failure."
        );
    }
}

#[test]
fn test_symmetric_nonces_are_unique() {
    let key = SymmetricKey::generate();
    let mut nonces = HashSet::new();

    for i in 0..1000 {
        let aad = format!("nonce-test-{i}");
        let envelope = key.encrypt(b"payload", aad.as_bytes()).expect("encrypt");
        assert_eq!(envelope.nonce.len(), 12, "nonce must be 96 bits");
        assert!(
            nonces.insert(envelope.nonce.clone()),
            "Symmetric nonce collision detected at iteration {i}! Critical CSPRNG failure."
        );
    }
}

#[test]
fn test_symmetric_ciphertext_indistinguishability() {
    let key = SymmetricKey::generate();
    let plaintext = b"identical plaintext for indistinguishability test";
    let aad = b"indist-ctx";
    let mut ciphertexts = HashSet::new();

    for i in 0..100 {
        let envelope = key.encrypt(plaintext, aad).expect("encrypt");
        assert!(
            ciphertexts.insert(envelope.ciphertext.clone()),
            "Ciphertext collision at iteration {i}! Same key+plaintext must produce unique ciphertexts."
        );
    }
}

#[test]
fn test_symmetric_key_material_is_256_bit() {
    let key = SymmetricKey::generate();
    assert_eq!(
        key.as_bytes().len(),
        32,
        "SymmetricKey must be 256 bits (32 bytes)"
    );
}

#[test]
fn test_symmetric_derived_keys_are_deterministic() {
    let master = cipher::generate_key();
    let context = b"determinism-test-context";

    let key1 = SymmetricKey::derive(&master, context).expect("derive 1");
    let key2 = SymmetricKey::derive(&master, context).expect("derive 2");

    assert_eq!(
        key1.as_bytes(),
        key2.as_bytes(),
        "HKDF derivation must be deterministic for same master+context"
    );
}

#[test]
fn test_symmetric_derived_keys_vary_with_context() {
    let master = cipher::generate_key();
    let mut key_bytes = HashSet::new();

    for i in 0..100 {
        let context = format!("context-variation-{i}");
        let key = SymmetricKey::derive(&master, context.as_bytes()).expect("derive");
        assert!(
            key_bytes.insert(*key.as_bytes()),
            "Derived key collision at context {i}! HKDF context separation failure."
        );
    }
}

#[test]
fn test_symmetric_zeroize_on_drop() {
    let mut key = SymmetricKey::generate();
    assert_ne!(key.as_bytes(), &[0u8; 32], "generated key must not be all zeros");

    key.zeroize();
    assert_eq!(
        key.as_bytes(),
        &[0u8; 32],
        "key bytes must be zeroed after zeroize()"
    );
}

#[test]
fn test_symmetric_aad_is_authenticated() {
    let key = SymmetricKey::generate();
    let plaintext = b"aad authentication test";

    let envelope = key.encrypt(plaintext, b"aad-A").expect("encrypt");

    let tampered = SymmetricEnvelope {
        version: envelope.version,
        nonce: envelope.nonce.clone(),
        ciphertext: envelope.ciphertext.clone(),
        aad: b"aad-B".to_vec(),
        key_version: envelope.key_version,
    };

    let result = key.decrypt(&tampered);
    assert!(
        result.is_err(),
        "Decryption must fail when AAD is tampered — GCM authentication broken"
    );
}

#[test]
fn test_symmetric_envelope_overhead() {
    let key = SymmetricKey::generate();

    for size in [0, 1, 16, 100, 1024, 65536] {
        let plaintext = vec![0x42u8; size];
        let envelope = key.encrypt(&plaintext, b"overhead-ctx").expect("encrypt");
        assert_eq!(
            envelope.ciphertext.len(),
            size + 16,
            "ciphertext for {size}-byte plaintext must be exactly {size}+16 bytes (GCM tag overhead)"
        );
    }
}

#[test]
fn test_cipher_roundtrip_and_tamper() {
    let key = cipher::generate_key();
    let (nonce, ciphertext) = cipher::encrypt(&key, b"raw cipher", b"ctx").unwrap();
    assert_eq!(nonce.len(), 12);
    assert_eq!(ciphertext.len(), 10 + 16);
    assert_eq!(cipher::decrypt(&key, &nonce, &ciphertext, b"ctx").unwrap(), b"raw cipher");
    assert!(cipher::decrypt(&key, &nonce, &ciphertext, b"other").is_err());
    assert!(cipher::decrypt(&key, &nonce[..11], &ciphertext, b"ctx").is_err());
    let mut bad_nonce = nonce.clone();
    bad_nonce[0] ^= 0xFF;
    assert!(cipher::decrypt(&key, &bad_nonce, &ciphertext, b"ctx").is_err());
}
