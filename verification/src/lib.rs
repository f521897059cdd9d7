//! Veil core: authenticated encryption for data at rest and the key
//! derivation of Veil sessions, with contracts on every function.
//!
//! * `error` -- the error type shared by all modules.
//! * `encoding` -- base64 text form of key material.
//! * `cipher` -- AES-256-GCM sealing and opening with random nonces.
//! * `kdf` -- HKDF-SHA256 derivation of directional session keys.
//! * `symmetric` -- context-bound symmetric keys and their envelopes.
//! * `config` -- the server's configuration and its defaults.
//! * `proxy` -- the decisions of the client proxy about a request.
pub mod cipher;
pub mod config;
pub mod encoding;
pub mod error;
pub mod kdf;
pub mod proxy;
pub mod symmetric;
