use veil_core::kdf::SessionKeys;
use x25519_dalek::{EphemeralSecret, PublicKey, StaticSecret};

#[test]
fn test_derive_session_keys() {
    let server = StaticSecret::random();
    let server_pub = PublicKey::from(&server);
    let client = EphemeralSecret::random();
    let client_pub = PublicKey::from(&client);

    let client_shared = client.diffie_hellman(&server_pub);
    let server_shared = server.diffie_hellman(&client_pub);

    let client_keys = SessionKeys::derive(&client_shared).unwrap();
    let server_keys = SessionKeys::derive(&server_shared).unwrap();

    assert_eq!(client_keys.client_to_server, server_keys.client_to_server);
    assert_eq!(client_keys.server_to_client, server_keys.server_to_client);
    assert_ne!(client_keys.client_to_server, client_keys.server_to_client);
}

#[test]
fn test_different_secrets_different_keys() {
    let server1 = StaticSecret::random();
    let server2 = StaticSecret::random();
    let client = StaticSecret::random();
    let client_pub = PublicKey::from(&client);

    let shared1 = server1.diffie_hellman(&client_pub);
    let shared2 = server2.diffie_hellman(&client_pub);

    let keys1 = SessionKeys::derive(&shared1).unwrap();
    let keys2 = SessionKeys::derive(&shared2).unwrap();

    assert_ne!(keys1.client_to_server, keys2.client_to_server);
}

#[test]
fn test_session_keys_zeroize() {
    let server = StaticSecret::random();
    let server_pub = PublicKey::from(&server);
    let client = EphemeralSecret::random();
    let shared = client.diffie_hellman(&server_pub);
    let mut keys = SessionKeys::derive(&shared).unwrap();

    assert_ne!(keys.client_to_server, [0u8; 32]);
    assert_ne!(keys.server_to_client, [0u8; 32]);
    keys.zeroize();
    assert_eq!(keys.client_to_server, [0u8; 32], "c2s key not zeroized");
    assert_eq!(keys.server_to_client, [0u8; 32], "s2c key not zeroized");
}

#[test]
fn test_derive_with_prekey_differs_from_standard() {
    let server_static = StaticSecret::random();
    let server_prekey = StaticSecret::random();
    let client = StaticSecret::random();
    let client_pub = PublicKey::from(&client);

    let static_shared = server_static.diffie_hellman(&client_pub);
    let prekey_shared = server_prekey.diffie_hellman(&client_pub);

    let prekey_keys = SessionKeys::derive_with_prekey(&static_shared, &prekey_shared).unwrap();
    let standard_keys = SessionKeys::derive(&static_shared).unwrap();

    assert_ne!(
        prekey_keys.client_to_server, standard_keys.client_to_server,
        "Prekey session keys must differ from standard session keys"
    );
}

#[test]
fn test_prekey_client_server_key_agreement() {
    let server_static = StaticSecret::random();
    let server_prekey = StaticSecret::random();
    let client_sim = StaticSecret::random();
    let client_pub = PublicKey::from(&client_sim);

    let c_static_shared = client_sim.diffie_hellman(&PublicKey::from(&server_static));
    let c_prekey_shared = client_sim.diffie_hellman(&PublicKey::from(&server_prekey));
    let client_keys =
        SessionKeys::derive_with_prekey(&c_static_shared, &c_prekey_shared).unwrap();

    let s_static_shared = server_static.diffie_hellman(&client_pub);
    let s_prekey_shared = server_prekey.diffie_hellman(&client_pub);
    let server_keys =
        SessionKeys::derive_with_prekey(&s_static_shared, &s_prekey_shared).unwrap();

    assert_eq!(
        client_keys.client_to_server, server_keys.client_to_server,
        "Client and server must derive matching c2s keys with prekey"
    );
    assert_eq!(
        client_keys.server_to_client, server_keys.server_to_client,
        "Client and server must derive matching s2c keys with prekey"
    );
}

#[test]
fn test_wrong_prekey_breaks_agreement() {
    let server_static = StaticSecret::random();
    let server_prekey = StaticSecret::random();
    let wrong_prekey = StaticSecret::random();
    let client = StaticSecret::random();
    let client_pub = PublicKey::from(&client);

    let s_static_shared = server_static.diffie_hellman(&client_pub);
    let s_prekey_shared = server_prekey.diffie_hellman(&client_pub);
    let correct_keys =
        SessionKeys::derive_with_prekey(&s_static_shared, &s_prekey_shared).unwrap();

    let w_prekey_shared = wrong_prekey.diffie_hellman(&client_pub);
    let wrong_keys =
        SessionKeys::derive_with_prekey(&s_static_shared, &w_prekey_shared).unwrap();

    assert_ne!(
        correct_keys.client_to_server, wrong_keys.client_to_server,
        "Wrong prekey must yield different session keys"
    );
}

fn hkdf32(salt: &[u8], ikm: &[u8], info: &[u8]) -> [u8; 32] {
    let hk = hkdf::Hkdf::<sha2::Sha256>::new(Some(salt), ikm);
    let mut okm = [0u8; 32];
    hk.expand(info, &mut okm).unwrap();
    okm
}

#[test]
fn test_derive_from_bytes_matches_hkdf() {
    let shared = [0x11u8; 32];
    let keys = SessionKeys::derive_from_bytes(&shared).unwrap();
    assert_eq!(keys.client_to_server, hkdf32(b"veil-e2e-llm-v1", &shared, b"veil-c2s"));
    assert_eq!(keys.server_to_client, hkdf32(b"veil-e2e-llm-v1", &shared, b"veil-s2c"));
}

#[test]
fn test_derive_from_prekey_bytes_matches_hkdf() {
    let a = [0x01u8; 32];
    let b = [0x02u8; 32];
    let mut ikm = [0u8; 64];
    ikm[..32].copy_from_slice(&a);
    ikm[32..].copy_from_slice(&b);
    let keys = SessionKeys::derive_from_prekey_bytes(&a, &b).unwrap();
    assert_eq!(keys.client_to_server, hkdf32(b"veil-e2e-llm-v2-prekey", &ikm, b"veil-c2s"));
    assert_eq!(keys.server_to_client, hkdf32(b"veil-e2e-llm-v2-prekey", &ikm, b"veil-s2c"));
}

#[test]
fn test_derive_equals_derive_from_bytes() {
    let server = StaticSecret::random();
    let client = StaticSecret::random();
    let shared = server.diffie_hellman(&PublicKey::from(&client));
    let keys = SessionKeys::derive(&shared).unwrap();
    let from_bytes = SessionKeys::derive_from_bytes(shared.as_bytes()).unwrap();
    assert_eq!(keys.client_to_server, from_bytes.client_to_server);
    assert_eq!(keys.server_to_client, from_bytes.server_to_client);
}
