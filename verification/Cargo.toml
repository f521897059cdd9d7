[package]
name = "veil-core"
version = "0.1.1"
edition = "2021"
publish = false

[dependencies]
aes-gcm = "0.10"
rand = "0.8"
hkdf = "0.12"
sha2 = "0.10"
base64 = "0.22"
zeroize = "1"
x25519-dalek = { version = "2", features = ["static_secrets", "getrandom"] }
serde = { version = "1", features = ["derive"] }
serde_json = "1"
rmp-serde = "1"
toml = "0.8"
anyhow = "1"
