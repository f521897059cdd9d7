use veil_core::cipher;
use veil_core::symmetric::SymmetricKey;

#[test]
fn test_symmetric_full_roundtrip() {
    let key = SymmetricKey::generate();
    let plaintext = b"Hello, symmetric world!";
    let aad = b"roundtrip-context";

    let envelope = key.encrypt(plaintext, aad).expect("encrypt failed");
    let decrypted = key.decrypt(&envelope).expect("decrypt failed");

    assert_eq!(decrypted, plaintext, "plaintext must survive encrypt-decrypt roundtrip");
}

#[test]
fn test_symmetric_derive_interop() {
    let master = cipher::generate_key();
    let context = b"cw-agent1-relay1-session42";

    let agent_key = SymmetricKey::derive(&master, context).expect("agent derive");
    let plaintext = b"{\"action\":\"route\",\"payload\":\"sensitive\"}";
    let envelope = agent_key.encrypt(plaintext, context).expect("agent encrypt");

    let relay_key = SymmetricKey::derive(&master, context).expect("relay derive");
    let decrypted = relay_key.decrypt(&envelope).expect("relay decrypt");

    assert_eq!(decrypted, plaintext, "relay must decrypt what agent encrypted");
}

#[test]
fn test_symmetric_versioned_roundtrip() {
    let key = SymmetricKey::generate();
    let plaintext = b"versioned integration test data";
    let aad = b"ver-integration-ctx";

    let envelope = key.encrypt_versioned(plaintext, aad, 2).expect("encrypt_versioned");
    assert_eq!(envelope.key_version, Some(2), "key_version must be set to 2");

    let decrypted = key.decrypt(&envelope).expect("decrypt versioned");
    assert_eq!(decrypted, plaintext);
}

#[test]
fn test_symmetric_context_isolation() {
    let master = cipher::generate_key();

    let key_conv1 = SymmetricKey::derive(&master, b"cw-user1-conv1").expect("derive conv1");
    let key_conv2 = SymmetricKey::derive(&master, b"cw-user1-conv2").expect("derive conv2");

    let plaintext = b"conversation-1 secret message";
    let envelope = key_conv1
        .encrypt(plaintext, b"cw-user1-conv1")
        .expect("encrypt");

    let result = key_conv2.decrypt(&envelope);
    assert!(
        result.is_err(),
        "decryption with different context key must fail — context isolation violated"
    );
}

#[test]
fn test_symmetric_cross_user_isolation() {
    let master_user_a = cipher::generate_key();
    let master_user_b = cipher::generate_key();
    let context = b"shared-context-name";

    let key_a = SymmetricKey::derive(&master_user_a, context).expect("derive A");
    let key_b = SymmetricKey::derive(&master_user_b, context).expect("derive B");

    let envelope = key_a.encrypt(b"user A secret", context).expect("encrypt");

    let result = key_b.decrypt(&envelope);
    assert!(
        result.is_err(),
        "user B must not decrypt user A's data even with identical context"
    );
}

#[test]
fn test_symmetric_large_payload() {
    // 1MB payload through derive -> encrypt -> decrypt (the JSON step of this
    // scenario is a serde form outside the library)
    let master = cipher::generate_key();
    let context = b"large-payload-ctx";

    let key = SymmetricKey::derive(&master, context).expect("derive");
    let plaintext: Vec<u8> = (0..1_000_000).map(|i| (i % 256) as u8).collect();

    let envelope = key.encrypt(&plaintext, context).expect("encrypt 1MB");

    let decrypted = key.decrypt(&envelope).expect("decrypt 1MB");
    assert_eq!(decrypted, plaintext, "1MB payload must survive full roundtrip");
}
