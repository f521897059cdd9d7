//! HKDF-SHA256 key derivation for Veil sessions.
//!
//! Derives one AES-256 key for each direction (client to server, server to
//! client) from the X25519 shared secret, or, for prekey sessions, from the
//! concatenation of two shared secrets.
use vstd::prelude::*;
use vstd::string::{StringExecFns, StringSliceAdditionalSpecFns};
use crate::error::{VeilError, VeilResult};

verus! {

broadcast use vstd::array::group_array_axioms;

/// The first 32 bytes of HKDF-SHA256 output key material (RFC 5869) for
/// `salt`, input keying material `ikm` and `info`, as the `hkdf` crate
/// computes them.
pub uninterp spec fn hkdf_sha256(salt: Seq<u8>, ikm: Seq<u8>, info: Seq<u8>) -> Seq<u8>;

/// The error of the `hkdf` crate for an oversized output request.
#[verifier::external_type_specification]
#[verifier::external_body]
pub struct ExInvalidLength(hkdf::InvalidLength);

/// HKDF-SHA256 into a 32-byte buffer: `hkdf::Hkdf::<Sha256>::new(Some(salt),
/// ikm)` followed by `expand(info, okm)`. Claimed of it: it succeeds (the
/// crate refuses only outputs longer than 255 hash blocks) and fills `okm`
/// with `hkdf_sha256(salt, ikm, info)`.
#[verifier::external_body]
pub(crate) fn hkdf_sha256_expand(salt: &[u8], ikm: &[u8], info: &[u8], okm: &mut [u8; 32]) -> (r: Result<(), hkdf::InvalidLength>)
    ensures
        r is Ok,
        final(okm)@ == hkdf_sha256(salt@, ikm@, info@),
{
    hkdf::Hkdf::<sha2::Sha256>::new(Some(salt), ikm).expand(info, okm)
}

/// Overwrites `bytes` with zeros (`zeroize::Zeroize::zeroize` on the array).
/// Claimed of it: every byte is zero afterwards.
#[verifier::external_body]
pub(crate) fn zeroize_bytes<const N: usize>(bytes: &mut [u8; N])
    ensures
        final(bytes)@ == Seq::new(N as nat, |i: int| 0u8),
{
    zeroize::Zeroize::zeroize(bytes)
}

/// The opaque X25519 shared secret of `x25519_dalek`.
#[verifier::external_type_specification]
#[verifier::external_body]
pub struct ExSharedSecret(x25519_dalek::SharedSecret);

/// The 32 bytes that `SharedSecret::as_bytes` gives for `secret`.
pub uninterp spec fn shared_secret_value(secret: x25519_dalek::SharedSecret) -> Seq<u8>;

/// The 32 bytes of an X25519 shared secret (`SharedSecret::as_bytes`).
/// Claimed of it: they are `shared_secret_value(secret)`, which depends on
/// the secret alone.
#[verifier::external_body]
fn shared_secret_bytes(secret: &x25519_dalek::SharedSecret) -> (r: [u8; 32])
    ensures
        r@ == shared_secret_value(*secret),
{
    *secret.as_bytes()
}

/// HKDF salt of standard single-DH sessions.
pub open spec fn protocol_salt() -> Seq<u8> {
    "veil-e2e-llm-v1".spec_bytes()
}

/// HKDF salt of prekey (dual-DH) sessions.
pub open spec fn prekey_protocol_salt() -> Seq<u8> {
    "veil-e2e-llm-v2-prekey".spec_bytes()
}

/// HKDF info of the client-to-server key.
pub open spec fn client_to_server_info() -> Seq<u8> {
    "veil-c2s".spec_bytes()
}

/// HKDF info of the server-to-client key.
pub open spec fn server_to_client_info() -> Seq<u8> {
    "veil-s2c".spec_bytes()
}

/// A pair of derived session keys, one for each direction.
///
/// Dropping the pair does not scrub the keys: call `zeroize` before letting
/// them go.
pub struct SessionKeys {
    /// Key for encrypting client->server traffic.
    pub client_to_server: [u8; 32],
    /// Key for encrypting server->client traffic.
    pub server_to_client: [u8; 32],
}

/// `keys` are the two directional keys that HKDF-SHA256 derives from `ikm`
/// under `salt`.
pub open spec fn directional_keys(salt: Seq<u8>, ikm: Seq<u8>, keys: SessionKeys) -> bool {
    &&& keys.client_to_server@ == hkdf_sha256(salt, ikm, client_to_server_info())
    &&& keys.server_to_client@ == hkdf_sha256(salt, ikm, server_to_client_info())
}

/// Both directions derived from `ikm` under `salt`, into fresh buffers.
fn expand_directional(salt: &[u8], ikm: &[u8]) -> (r: VeilResult<SessionKeys>)
    ensures
        r matches Ok(keys) && directional_keys(salt@, ikm@, keys),
        r matches Ok(keys) && keys.client_to_server@ == hkdf_sha256(salt@, ikm@, "veil-c2s".spec_bytes()),
        r matches Ok(keys) && keys.server_to_client@ == hkdf_sha256(salt@, ikm@, "veil-s2c".spec_bytes()),
{
    let c2s_info = "veil-c2s".as_bytes();
    let s2c_info = "veil-s2c".as_bytes();
    let mut c2s = [0u8; 32];
    match hkdf_sha256_expand(salt, ikm, c2s_info, &mut c2s) {
        Ok(()) => {},
        Err(_) => {
            return Err(VeilError::KeyDerivation(
                String::from_str("HKDF expand c2s: invalid number of blocks, too large output"),
            ));
        },
    }
    let mut s2c = [0u8; 32];
    match hkdf_sha256_expand(salt, ikm, s2c_info, &mut s2c) {
        Ok(()) => {},
        Err(_) => {
            return Err(VeilError::KeyDerivation(
                String::from_str("HKDF expand s2c: invalid number of blocks, too large output"),
            ));
        },
    }
    Ok(SessionKeys { client_to_server: c2s, server_to_client: s2c })
}

impl SessionKeys {
    /// Derive session keys from an ECDH shared secret (standard single-DH):
    /// the keys that `derive_from_bytes` derives from the secret's 32 bytes.
    pub fn derive(shared_secret: &x25519_dalek::SharedSecret) -> (r: VeilResult<Self>)
        ensures
            r matches Ok(keys) && directional_keys(protocol_salt(), shared_secret_value(*shared_secret), keys),
            r matches Ok(keys) && keys.client_to_server@ == hkdf_sha256(
                "veil-e2e-llm-v1".spec_bytes(),
                shared_secret_value(*shared_secret),
                "veil-c2s".spec_bytes(),
            ),
            r matches Ok(keys) && keys.server_to_client@ == hkdf_sha256(
                "veil-e2e-llm-v1".spec_bytes(),
                shared_secret_value(*shared_secret),
                "veil-s2c".spec_bytes(),
            ),
    {
        let shared = shared_secret_bytes(shared_secret);
        Self::derive_from_bytes(&shared)
    }

    /// Derive from raw shared secret bytes (32 bytes): HKDF-SHA256 with salt
    /// `"veil-e2e-llm-v1"` and info `"veil-c2s"`, respectively `"veil-s2c"`.
    pub fn derive_from_bytes(shared_bytes: &[u8; 32]) -> (r: VeilResult<Self>)
        ensures
            r matches Ok(keys) && directional_keys(protocol_salt(), shared_bytes@, keys),
            r matches Ok(keys) && keys.client_to_server@ == hkdf_sha256(
                "veil-e2e-llm-v1".spec_bytes(),
                shared_bytes@,
                "veil-c2s".spec_bytes(),
            ),
            r matches Ok(keys) && keys.server_to_client@ == hkdf_sha256(
                "veil-e2e-llm-v1".spec_bytes(),
                shared_bytes@,
                "veil-s2c".spec_bytes(),
            ),
    {
        let salt = "veil-e2e-llm-v1".as_bytes();
        expand_directional(salt, shared_bytes.as_slice())
    }

    /// Derive session keys from two ECDH shared secrets (true forward
    /// secrecy): the keys that `derive_from_prekey_bytes` derives from the
    /// two secrets' bytes.
    pub fn derive_with_prekey(
        static_shared: &x25519_dalek::SharedSecret,
        prekey_shared: &x25519_dalek::SharedSecret,
    ) -> (r: VeilResult<Self>)
        ensures
            r matches Ok(keys) && directional_keys(
                prekey_protocol_salt(),
                shared_secret_value(*static_shared) + shared_secret_value(*prekey_shared),
                keys,
            ),
            r matches Ok(keys) && keys.client_to_server@ == hkdf_sha256(
                "veil-e2e-llm-v2-prekey".spec_bytes(),
                shared_secret_value(*static_shared) + shared_secret_value(*prekey_shared),
                "veil-c2s".spec_bytes(),
            ),
            r matches Ok(keys) && keys.server_to_client@ == hkdf_sha256(
                "veil-e2e-llm-v2-prekey".spec_bytes(),
                shared_secret_value(*static_shared) + shared_secret_value(*prekey_shared),
                "veil-s2c".spec_bytes(),
            ),
    {
        let static_bytes = shared_secret_bytes(static_shared);
        let prekey_bytes = shared_secret_bytes(prekey_shared);
        Self::derive_from_prekey_bytes(&static_bytes, &prekey_bytes)
    }

    /// Derive from the bytes of two shared secrets. The input keying material
    /// is `static_bytes || prekey_bytes` (an attacker needs both), the salt
    /// is `"veil-e2e-llm-v2-prekey"`; the keying material is zeroized after
    /// use.
    pub fn derive_from_prekey_bytes(static_bytes: &[u8; 32], prekey_bytes: &[u8; 32]) -> (r: VeilResult<Self>)
        ensures
            r matches Ok(keys)
                && directional_keys(prekey_protocol_salt(), static_bytes@ + prekey_bytes@, keys),
            r matches Ok(keys) && keys.client_to_server@ == hkdf_sha256(
                "veil-e2e-llm-v2-prekey".spec_bytes(),
                static_bytes@ + prekey_bytes@,
                "veil-c2s".spec_bytes(),
            ),
            r matches Ok(keys) && keys.server_to_client@ == hkdf_sha256(
                "veil-e2e-llm-v2-prekey".spec_bytes(),
                static_bytes@ + prekey_bytes@,
                "veil-s2c".spec_bytes(),
            ),
    {
        let mut ikm = [0u8; 64];
        let mut i: usize = 0;
        while i < 32
            invariant
                0 <= i <= 32,
                forall|j: int| 0 <= j < i ==> ikm@[j] == static_bytes@[j],
                forall|j: int| 0 <= j < i ==> ikm@[32 + j] == prekey_bytes@[j],
            decreases 32 - i,
        {
            ikm[i] = static_bytes[i];
            ikm[32 + i] = prekey_bytes[i];
            i = i + 1;
        }
        assert(ikm@ =~= static_bytes@ + prekey_bytes@);
        let salt = "veil-e2e-llm-v2-prekey".as_bytes();
        let r = expand_directional(salt, ikm.as_slice());
        zeroize_bytes(&mut ikm);
        r
    }

    /// Overwrite both keys with zeros.
    pub fn zeroize(&mut self)
        ensures
            final(self).client_to_server@ == Seq::new(32, |i: int| 0u8),
            final(self).server_to_client@ == Seq::new(32, |i: int| 0u8),
    {
        zeroize_bytes(&mut self.client_to_server);
        zeroize_bytes(&mut self.server_to_client);
    }
}

/// Key agreement: two parties that feed the same keying material to the
/// same derivation obtain the same pair of directional keys.
pub proof fn lemma_same_secret_same_keys(salt: Seq<u8>, ikm: Seq<u8>, a: SessionKeys, b: SessionKeys)
    requires
        directional_keys(salt, ikm, a),
        directional_keys(salt, ikm, b),
    ensures
        a.client_to_server@ == b.client_to_server@,
        a.server_to_client@ == b.server_to_client@,
{
}

/// What `directional_keys` means, for every salt and keying material: the
/// client-to-server key is HKDF-SHA256 with info `"veil-c2s"` and the
/// server-to-client key is HKDF-SHA256 with info `"veil-s2c"`.
pub proof fn lemma_directional_keys_are_hkdf(salt: Seq<u8>, ikm: Seq<u8>, keys: SessionKeys)
    requires
        directional_keys(salt, ikm, keys),
    ensures
        keys.client_to_server@ == hkdf_sha256(salt, ikm, "veil-c2s".spec_bytes()),
        keys.server_to_client@ == hkdf_sha256(salt, ikm, "veil-s2c".spec_bytes()),
{
}

/// And conversely: the HKDF-SHA256 outputs under the two info strings are
/// directional keys.
pub proof fn lemma_hkdf_outputs_are_directional_keys(salt: Seq<u8>, ikm: Seq<u8>, keys: SessionKeys)
    requires
        keys.client_to_server@ == hkdf_sha256(salt, ikm, "veil-c2s".spec_bytes()),
        keys.server_to_client@ == hkdf_sha256(salt, ikm, "veil-s2c".spec_bytes()),
    ensures
        directional_keys(salt, ikm, keys),
{
}

} // verus!
