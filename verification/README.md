# veil-core (verified)

Symmetric authenticated encryption for data at rest (AES-256-GCM with
HKDF-SHA256 context keys), HKDF derivation of directional session keys from
X25519 shared secrets, the server's configuration and the client proxy's
request decisions, written in Verus with contracts on every function.

- `src/error.rs` -- `VeilError` and its `message`.
- `src/encoding.rs` -- base64 text of byte strings (through the `base64` crate).
- `src/cipher.rs` -- AES-256-GCM sealing and opening with random nonces
  (through `aes-gcm` and `rand`).
- `src/kdf.rs` -- HKDF-SHA256 directional session keys (through `hkdf`,
  `sha2`, `x25519-dalek`, `zeroize`).
- `src/symmetric.rs` -- `SymmetricKey` and `SymmetricEnvelope`: derivation,
  encryption, decryption, validation; the round-trip laws.
- `src/config.rs` -- `ServerConfig`, its defaults and the keys it loads.
- `src/proxy.rs` -- key pinning, model choice, token estimate, upstream URL.
- `app/` -- plain Rust around the library: JSON and MessagePack forms of the
  envelope (serde), and loading the configuration from TOML and the
  environment.
- `tests/` -- the test suite, run against the compiled library.
