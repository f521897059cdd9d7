//! Veil symmetric encryption: AES-256-GCM with HKDF key derivation, for
//! data at rest.
//!
//! A 32-byte master key is loaded once; per-context keys are derived with
//! HKDF-SHA256 (salt `"veil-symmetric-v1"`, info = context), and every
//! encryption draws a fresh 12-byte nonce. The context is also passed as the
//! associated data, so an envelope moved to another context fails to open.
use vstd::prelude::*;
use vstd::slice::slice_to_vec;
use vstd::string::{StringExecFns, StringSliceAdditionalSpecFns};
use crate::cipher::{self, aes256gcm_open, aes256gcm_seal, gcm_open_checked, within_gcm_limits, NONCE_LEN, TAG_LEN};
use crate::encoding::{base64_decode, base64_decoding, base64_encode, base64_encoding, decode_error_text, fits_base64};
use crate::error::{append_decimal, decimal_text, has_prefix, VeilError, VeilResult};
use crate::kdf::{hkdf_sha256, hkdf_sha256_expand, zeroize_bytes};

verus! {

broadcast use vstd::array::group_array_axioms;

/// Version of the symmetric envelope format.
pub const SYMMETRIC_VERSION: u8 = 1;

/// HKDF salt of symmetric key derivation.
pub open spec fn symmetric_salt() -> Seq<u8> {
    "veil-symmetric-v1".spec_bytes()
}

/// The detail text of the error for an envelope of another version.
pub open spec fn unsupported_version_text() -> Seq<char> {
    "unsupported symmetric envelope version"@
}

/// The error text for key material of `len` bytes instead of 32.
pub open spec fn wrong_key_length_text(len: nat) -> Seq<char> {
    "key must be 32 bytes, got "@ + decimal_text(len)
}

/// The key that a base64 text denotes: its decoding, where that is exactly
/// 32 bytes long.
pub open spec fn key_from_text(text: Seq<char>) -> Option<Seq<u8>> {
    match base64_decoding(text) {
        Some(bytes) => if bytes.len() == 32 { Some(bytes) } else { None },
        None => None,
    }
}

/// An `InvalidInput` error: `heading` followed by the decoder's own text.
fn invalid_base64_error(heading: &str, e: &base64::DecodeError) -> (r: VeilError)
    ensures
        r matches VeilError::InvalidInput(text) && has_prefix(text@, heading@),
{
    let mut text = String::from_str(heading);
    let detail = decode_error_text(e);
    text.append(detail.as_str());
    assert(text@.subrange(0, heading@.len() as int) =~= heading@);
    VeilError::InvalidInput(text)
}

/// A 256-bit AES-256-GCM symmetric encryption key.
///
/// Keys are generated at random, derived from a master key with
/// HKDF-SHA256, or restored from 32 raw bytes or their base64 text.
///
/// Dropping a key does not scrub its bytes: call `zeroize` before letting
/// key material go.
pub struct SymmetricKey {
    key: [u8; 32],
}

impl View for SymmetricKey {
    type V = Seq<u8>;

    /// The 32 key bytes.
    closed spec fn view(&self) -> Seq<u8> {
        self.key@
    }
}

/// Wire format for symmetrically encrypted payloads: the nonce, the
/// ciphertext with its GCM tag, the authenticated associated data, and an
/// optional master key version for rotation.
#[derive(Debug, Clone)]
pub struct SymmetricEnvelope {
    /// Protocol version (currently 1).
    pub version: u8,
    /// AES-GCM nonce (12 bytes).
    pub nonce: Vec<u8>,
    /// Ciphertext with the GCM authentication tag appended.
    pub ciphertext: Vec<u8>,
    /// Additional authenticated data.
    pub aad: Vec<u8>,
    /// Key version for rotation support (optional).
    pub key_version: Option<u32>,
}

/// `env` is what encrypting `plaintext` with associated data `aad` under
/// `key` produces, stamped with `key_version`: current version, a 12-byte
/// nonce, the AES-256-GCM sealing under that nonce (sixteen bytes longer than
/// the plaintext, and opening back to it), and the associated data itself.
pub open spec fn sealed_envelope(
    key: Seq<u8>,
    plaintext: Seq<u8>,
    aad: Seq<u8>,
    key_version: Option<u32>,
    env: SymmetricEnvelope,
) -> bool {
    &&& env.version == SYMMETRIC_VERSION
    &&& env.nonce@.len() == NONCE_LEN
    &&& env.ciphertext@ == aes256gcm_seal(key, env.nonce@, aad, plaintext)
    &&& env.ciphertext@.len() == plaintext.len() + TAG_LEN
    &&& env.aad@ == aad
    &&& env.key_version == key_version
    &&& aes256gcm_open(key, env.nonce@, aad, env.ciphertext@) == Some(plaintext)
}

/// What decrypting `env` under `key` yields: nothing for an envelope of
/// another version, else the AES-256-GCM opening of its ciphertext with its
/// nonce and associated data. The key version plays no part.
pub open spec fn envelope_opening(key: Seq<u8>, env: SymmetricEnvelope) -> Option<Seq<u8>> {
    if env.version == SYMMETRIC_VERSION {
        gcm_open_checked(key, env.nonce@, env.aad@, env.ciphertext@)
    } else {
        None
    }
}

/// The outcome that `encrypt` and `encrypt_versioned` owe: success exactly
/// within the AES-GCM limits, then a sealed envelope; else an `Encryption`
/// error.
pub open spec fn encryption_outcome(
    key: Seq<u8>,
    plaintext: Seq<u8>,
    aad: Seq<u8>,
    key_version: Option<u32>,
    r: VeilResult<SymmetricEnvelope>,
) -> bool {
    &&& r is Ok <==> within_gcm_limits(plaintext.len(), aad.len())
    &&& r matches Ok(env) ==> sealed_envelope(key, plaintext, aad, key_version, env)
    &&& r matches Err(e) ==> e is Encryption
}

impl SymmetricKey {
    /// Create a key from raw 32 bytes.
    pub fn from_bytes(bytes: [u8; 32]) -> (r: Self)
        ensures
            r@ == bytes@,
    {
        SymmetricKey { key: bytes }
    }

    /// Create a key from a byte slice, which must be exactly 32 bytes long;
    /// any other length `n` is the `InvalidInput` error
    /// `"key must be 32 bytes, got {n}"`.
    pub fn from_slice(raw: &[u8]) -> (r: VeilResult<Self>)
        ensures
            r is Ok <==> raw@.len() == 32,
            r matches Ok(k) ==> k@ == raw@,
            r matches Err(e) ==> (e matches VeilError::InvalidInput(text)
                && text@ == wrong_key_length_text(raw@.len())),
            r matches Err(e) ==> (e matches VeilError::InvalidInput(text)
                && text@ == "key must be 32 bytes, got "@ + decimal_text(raw@.len())),
    {
        if raw.len() != 32 {
            let mut text = String::from_str("key must be 32 bytes, got ");
            append_decimal(&mut text, raw.len());
            return Err(VeilError::InvalidInput(text));
        }
        let mut key = [0u8; 32];
        let mut i: usize = 0;
        while i < 32
            invariant
                0 <= i <= 32,
                raw@.len() == 32,
                forall|j: int| 0 <= j < i ==> key@[j] == raw@[j],
            decreases 32 - i,
        {
            key[i] = raw[i];
            i = i + 1;
        }
        assert(key@ =~= raw@);
        Ok(SymmetricKey { key })
    }

    /// Create a key from its standard base64 text.
    ///
    /// Succeeds exactly when the text decodes to 32 bytes, which become the
    /// key. Malformed base64 is an `InvalidInput` error whose text begins
    /// `"invalid base64: "`; a decoding of another length `n` is the
    /// `InvalidInput` error `"key must be 32 bytes, got {n}"`.
    pub fn from_base64(b64: &str) -> (r: VeilResult<Self>)
        ensures
            r is Ok <==> key_from_text(b64@) is Some,
            r matches Ok(k) ==> Some(k@) == key_from_text(b64@),
            r matches Err(e) ==> e is InvalidInput,
            base64_decoding(b64@) is None ==> (r matches Err(VeilError::InvalidInput(text))
                && has_prefix(text@, "invalid base64: "@)),
            base64_decoding(b64@) matches Some(bytes) ==> (bytes.len() != 32 ==> (r matches Err(
                VeilError::InvalidInput(text),
            ) && text@ == wrong_key_length_text(bytes.len()))),
            r is Ok <==> (base64_decoding(b64@) matches Some(bytes) && bytes.len() == 32),
            r matches Ok(k) ==> base64_decoding(b64@) == Some(k@),
            base64_decoding(b64@) matches Some(bytes) ==> (bytes.len() != 32 ==> (r matches Err(
                VeilError::InvalidInput(text),
            ) && text@ == "key must be 32 bytes, got "@ + decimal_text(bytes.len()))),
    {
        match base64_decode(b64) {
            Ok(bytes) => Self::from_slice(bytes.as_slice()),
            Err(e) => Err(invalid_base64_error("invalid base64: ", &e)),
        }
    }

    /// Generate a random 256-bit key using the OS CSPRNG.
    pub fn generate() -> (r: Self)
        ensures
            r@.len() == 32,
    {
        SymmetricKey { key: cipher::generate_key() }
    }

    /// Derive a context-specific key from a master key via HKDF-SHA256 with
    /// salt `"veil-symmetric-v1"` and `context` as info. The same
    /// `(master, context)` pair always gives the same key.
    pub fn derive(master: &[u8], context: &[u8]) -> (r: VeilResult<Self>)
        ensures
            r matches Ok(k) && k@ == hkdf_sha256(symmetric_salt(), master@, context@),
            r matches Ok(k) && k@ == hkdf_sha256("veil-symmetric-v1".spec_bytes(), master@, context@),
    {
        let salt = "veil-symmetric-v1".as_bytes();
        let mut derived = [0u8; 32];
        match hkdf_sha256_expand(salt, master, context, &mut derived) {
            Ok(()) => Ok(SymmetricKey { key: derived }),
            Err(_) => Err(VeilError::KeyDerivation(
                String::from_str("HKDF expand: invalid number of blocks, too large output"),
            )),
        }
    }

    /// Export the raw key bytes.
    pub fn as_bytes(&self) -> (r: &[u8; 32])
        ensures
            r@ == self@,
    {
        &self.key
    }

    /// Export as standard base64 text (44 characters), which `from_base64`
    /// turns back into this key.
    pub fn to_base64(&self) -> (r: String)
        ensures
            r@ == base64_encoding(self@),
            r@.len() == 44,
            key_from_text(r@) == Some(self@),
            base64_decoding(r@) == Some(self@),
    {
        base64_encode(self.key.as_slice())
    }

    /// Encrypt `plaintext` with AES-256-GCM under this key, authenticating
    /// `aad`, with a fresh random 12-byte nonce. The envelope is version 1,
    /// carries `aad` and no key version; decrypting it gives `plaintext`.
    pub fn encrypt(&self, plaintext: &[u8], aad: &[u8]) -> (r: VeilResult<SymmetricEnvelope>)
        ensures
            encryption_outcome(self@, plaintext@, aad@, None, r),
            r is Ok <==> (plaintext@.len() <= 0x10_0000_0000 && aad@.len() <= 0x10_0000_0000),
            r matches Ok(env) ==> {
                &&& env.version == 1
                &&& env.nonce@.len() == 12
                &&& env.ciphertext@ == aes256gcm_seal(self@, env.nonce@, aad@, plaintext@)
                &&& env.ciphertext@.len() == plaintext@.len() + 16
                &&& env.aad@ == aad@
                &&& env.key_version is None
                &&& aes256gcm_open(self@, env.nonce@, aad@, env.ciphertext@) == Some(plaintext@)
            },
            r matches Err(e) ==> e is Encryption,
    {
        self.seal(plaintext, aad, None)
    }

    /// Like `encrypt`, but stamps the envelope with `Some(key_version)`.
    pub fn encrypt_versioned(&self, plaintext: &[u8], aad: &[u8], key_version: u32) -> (r: VeilResult<SymmetricEnvelope>)
        ensures
            encryption_outcome(self@, plaintext@, aad@, Some(key_version), r),
            r is Ok <==> (plaintext@.len() <= 0x10_0000_0000 && aad@.len() <= 0x10_0000_0000),
            r matches Ok(env) ==> {
                &&& env.version == 1
                &&& env.nonce@.len() == 12
                &&& env.ciphertext@ == aes256gcm_seal(self@, env.nonce@, aad@, plaintext@)
                &&& env.ciphertext@.len() == plaintext@.len() + 16
                &&& env.aad@ == aad@
                &&& env.key_version == Some(key_version)
                &&& aes256gcm_open(self@, env.nonce@, aad@, env.ciphertext@) == Some(plaintext@)
            },
            r matches Err(e) ==> e is Encryption,
    {
        self.seal(plaintext, aad, Some(key_version))
    }

    fn seal(&self, plaintext: &[u8], aad: &[u8], key_version: Option<u32>) -> (r: VeilResult<SymmetricEnvelope>)
        ensures
            encryption_outcome(self@, plaintext@, aad@, key_version, r),
            r is Ok <==> (plaintext@.len() <= 0x10_0000_0000 && aad@.len() <= 0x10_0000_0000),
            r matches Ok(env) ==> {
                &&& env.version == 1
                &&& env.nonce@.len() == 12
                &&& env.ciphertext@ == aes256gcm_seal(self@, env.nonce@, aad@, plaintext@)
                &&& env.ciphertext@.len() == plaintext@.len() + 16
                &&& env.aad@ == aad@
                &&& env.key_version == key_version
                &&& aes256gcm_open(self@, env.nonce@, aad@, env.ciphertext@) == Some(plaintext@)
            },
            r matches Err(e) ==> e is Encryption,
    {
        match cipher::encrypt(&self.key, plaintext, aad) {
            Ok((nonce, ciphertext)) => Ok(SymmetricEnvelope {
                version: SYMMETRIC_VERSION,
                nonce,
                ciphertext,
                aad: slice_to_vec(aad),
                key_version,
            }),
            Err(e) => Err(e),
        }
    }

    /// Decrypt an envelope and return the plaintext it seals.
    ///
    /// An envelope of another version is an `Envelope` error; otherwise the
    /// result is `Ok` exactly when AES-256-GCM authenticates the envelope's
    /// nonce, ciphertext and associated data under this key, and every other
    /// failure is a `Decryption` error.
    pub fn decrypt(&self, envelope: &SymmetricEnvelope) -> (r: VeilResult<Vec<u8>>)
        ensures
            r is Ok <==> envelope_opening(self@, *envelope) is Some,
            r matches Ok(p) ==> Some(p@) == envelope_opening(self@, *envelope),
            envelope.version != SYMMETRIC_VERSION ==> (r matches Err(VeilError::Envelope(text))
                && text@ == unsupported_version_text()),
            envelope.version == SYMMETRIC_VERSION ==> (r matches Err(e) ==> e is Decryption),
            envelope.version == 1 && envelope.nonce@.len() == 12 ==> (r is Ok <==> aes256gcm_open(
                self@,
                envelope.nonce@,
                envelope.aad@,
                envelope.ciphertext@,
            ) is Some),
            r matches Ok(p) ==> envelope.version == 1 && envelope.nonce@.len() == 12 && aes256gcm_open(
                self@,
                envelope.nonce@,
                envelope.aad@,
                envelope.ciphertext@,
            ) == Some(p@),
            envelope.version != 1 ==> (r matches Err(VeilError::Envelope(text))
                && text@ == "unsupported symmetric envelope version"@),
            envelope.version == 1 && envelope.nonce@.len() != 12 ==> r matches Err(VeilError::Decryption(_)),
    {
        match envelope.validate() {
            Ok(()) => {},
            Err(e) => {
                return Err(e);
            },
        }
        cipher::decrypt(&self.key, envelope.nonce.as_slice(), envelope.ciphertext.as_slice(), envelope.aad.as_slice())
    }

    /// Overwrite the key bytes with zeros.
    pub fn zeroize(&mut self)
        ensures
            final(self)@ == Seq::new(32, |i: int| 0u8),
    {
        zeroize_bytes(&mut self.key);
    }
}

impl SymmetricEnvelope {
    /// Check that the envelope version is supported: `Ok` exactly for
    /// version 1, else an `Envelope` error.
    pub fn validate(&self) -> (r: VeilResult<()>)
        ensures
            r is Ok <==> self.version == SYMMETRIC_VERSION,
            r matches Err(e) ==> (e matches VeilError::Envelope(text) && text@ == unsupported_version_text()),
            r matches Err(e) ==> (e matches VeilError::Envelope(text)
                && text@ == "unsupported symmetric envelope version"@),
    {
        if self.version != SYMMETRIC_VERSION {
            return Err(VeilError::Envelope(String::from_str("unsupported symmetric envelope version")));
        }
        Ok(())
    }

    /// Build a version-1 envelope from the base64 texts of its nonce,
    /// ciphertext and associated data, as the Python binding receives them
    /// (the error texts are that binding's).
    ///
    /// Succeeds exactly when all three texts are valid base64; a malformed
    /// one is an `InvalidInput` error naming the first malformed field (the
    /// nonce is checked first, then the ciphertext, then the associated data).
    pub fn from_base64_fields(
        nonce_b64: &str,
        ciphertext_b64: &str,
        aad_b64: &str,
        key_version: Option<u32>,
    ) -> (r: VeilResult<Self>)
        ensures
            r is Ok <==> {
                &&& base64_decoding(nonce_b64@) is Some
                &&& base64_decoding(ciphertext_b64@) is Some
                &&& base64_decoding(aad_b64@) is Some
            },
            r matches Ok(env) ==> {
                &&& env.version == SYMMETRIC_VERSION
                &&& Some(env.nonce@) == base64_decoding(nonce_b64@)
                &&& Some(env.ciphertext@) == base64_decoding(ciphertext_b64@)
                &&& Some(env.aad@) == base64_decoding(aad_b64@)
                &&& env.key_version == key_version
            },
            r matches Err(e) ==> e is InvalidInput,
            base64_decoding(nonce_b64@) is None ==> (r matches Err(VeilError::InvalidInput(text))
                && has_prefix(text@, "invalid nonce base64: "@)),
            base64_decoding(nonce_b64@) is Some && base64_decoding(ciphertext_b64@) is None ==> (
                r matches Err(VeilError::InvalidInput(text))
                && has_prefix(text@, "invalid ciphertext base64: "@)),
            base64_decoding(nonce_b64@) is Some && base64_decoding(ciphertext_b64@) is Some
                && base64_decoding(aad_b64@) is None ==> (r matches Err(VeilError::InvalidInput(text))
                && has_prefix(text@, "invalid aad base64: "@)),
    {
        let nonce = match base64_decode(nonce_b64) {
            Ok(bytes) => bytes,
            Err(e) => {
                return Err(invalid_base64_error("invalid nonce base64: ", &e));
            },
        };
        let ciphertext = match base64_decode(ciphertext_b64) {
            Ok(bytes) => bytes,
            Err(e) => {
                return Err(invalid_base64_error("invalid ciphertext base64: ", &e));
            },
        };
        let aad = match base64_decode(aad_b64) {
            Ok(bytes) => bytes,
            Err(e) => {
                return Err(invalid_base64_error("invalid aad base64: ", &e));
            },
        };
        Ok(SymmetricEnvelope { version: SYMMETRIC_VERSION, nonce, ciphertext, aad, key_version })
    }

    /// The base64 texts of the nonce, the ciphertext and the associated data,
    /// as the Python and Java bindings hand them out; each decodes back to its
    /// field.
    pub fn to_base64_fields(&self) -> (r: (String, String, String))
        requires
            fits_base64(self.nonce@.len()),
            fits_base64(self.ciphertext@.len()),
            fits_base64(self.aad@.len()),
        ensures
            r.0@ == base64_encoding(self.nonce@),
            r.1@ == base64_encoding(self.ciphertext@),
            r.2@ == base64_encoding(self.aad@),
            base64_decoding(r.0@) == Some(self.nonce@),
            base64_decoding(r.1@) == Some(self.ciphertext@),
            base64_decoding(r.2@) == Some(self.aad@),
    {
        (
            base64_encode(self.nonce.as_slice()),
            base64_encode(self.ciphertext.as_slice()),
            base64_encode(self.aad.as_slice()),
        )
    }

    /// Payload size in bytes (ciphertext including the 16-byte GCM tag).
    pub fn payload_size(&self) -> (r: usize)
        ensures
            r == self.ciphertext@.len(),
    {
        self.ciphertext.len()
    }
}

/// Decrypting what `encrypt` or `encrypt_versioned` produced, under the same
/// key, gives back the plaintext.
pub proof fn lemma_decrypt_inverts_encrypt(
    key: Seq<u8>,
    plaintext: Seq<u8>,
    aad: Seq<u8>,
    key_version: Option<u32>,
    env: SymmetricEnvelope,
)
    requires
        sealed_envelope(key, plaintext, aad, key_version, env),
    ensures
        envelope_opening(key, env) == Some(plaintext),
{
}

/// The key version of an envelope plays no part in decryption: two
/// envelopes that differ only there decrypt alike under every key.
pub proof fn lemma_key_version_ignored(key: Seq<u8>, a: SymmetricEnvelope, b: SymmetricEnvelope)
    requires
        a.version == b.version,
        a.nonce@ == b.nonce@,
        a.ciphertext@ == b.ciphertext@,
        a.aad@ == b.aad@,
    ensures
        envelope_opening(key, a) == envelope_opening(key, b),
{
}

/// Derivation is deterministic: two keys derived from the same master key
/// and context are the same key.
pub proof fn lemma_derive_deterministic(master: Seq<u8>, context: Seq<u8>, a: SymmetricKey, b: SymmetricKey)
    requires
        a@ == hkdf_sha256(symmetric_salt(), master, context),
        b@ == hkdf_sha256(symmetric_salt(), master, context),
    ensures
        a@ == b@,
{
}

/// An envelope rebuilt from the base64 texts of another envelope's fields
/// (what `to_base64_fields` hands out and `from_base64_fields` takes back)
/// has the same nonce, ciphertext and associated data, and decrypts exactly
/// as the other does under every key.
pub proof fn lemma_fields_round_trip(
    key: Seq<u8>,
    env: SymmetricEnvelope,
    nonce_text: Seq<char>,
    ciphertext_text: Seq<char>,
    aad_text: Seq<char>,
    rebuilt: SymmetricEnvelope,
)
    requires
        env.version == SYMMETRIC_VERSION,
        base64_decoding(nonce_text) == Some(env.nonce@),
        base64_decoding(ciphertext_text) == Some(env.ciphertext@),
        base64_decoding(aad_text) == Some(env.aad@),
        rebuilt.version == SYMMETRIC_VERSION,
        Some(rebuilt.nonce@) == base64_decoding(nonce_text),
        Some(rebuilt.ciphertext@) == base64_decoding(ciphertext_text),
        Some(rebuilt.aad@) == base64_decoding(aad_text),
    ensures
        rebuilt.nonce@ == env.nonce@,
        rebuilt.ciphertext@ == env.ciphertext@,
        rebuilt.aad@ == env.aad@,
        envelope_opening(key, rebuilt) == envelope_opening(key, env),
{
}

/// What an envelope sealed by `encrypt` (`key_version` None) or
/// `encrypt_versioned` (`key_version` `Some(v)`) is, field by field, for every
/// key, plaintext, associated data and key version: version 1, a 12-byte
/// nonce, the AES-256-GCM sealing of the plaintext under that nonce (sixteen
/// bytes longer, and opening back to the plaintext), the associated data
/// itself, and exactly the key version asked for.
pub proof fn lemma_sealed_envelope_fields(
    key: Seq<u8>,
    plaintext: Seq<u8>,
    aad: Seq<u8>,
    key_version: Option<u32>,
    env: SymmetricEnvelope,
)
    requires
        sealed_envelope(key, plaintext, aad, key_version, env),
    ensures
        env.version == 1,
        env.nonce@.len() == 12,
        env.ciphertext@ == aes256gcm_seal(key, env.nonce@, aad, plaintext),
        env.ciphertext@.len() == plaintext.len() + 16,
        env.aad@ == aad,
        env.key_version == key_version,
        aes256gcm_open(key, env.nonce@, aad, env.ciphertext@) == Some(plaintext),
{
}

/// A successful encryption stamps exactly the key version asked for: an
/// unversioned one none, a versioned one `Some(v)`, for every `v`.
pub proof fn lemma_encryption_stamps_key_version(
    key: Seq<u8>,
    plaintext: Seq<u8>,
    aad: Seq<u8>,
    v: u32,
    unversioned: VeilResult<SymmetricEnvelope>,
    versioned: VeilResult<SymmetricEnvelope>,
)
    requires
        encryption_outcome(key, plaintext, aad, None, unversioned),
        encryption_outcome(key, plaintext, aad, Some(v), versioned),
    ensures
        unversioned matches Ok(env) ==> env.key_version is None,
        versioned matches Ok(env) ==> env.key_version == Some(v),
        unversioned is Ok <==> (plaintext.len() <= 0x10_0000_0000 && aad.len() <= 0x10_0000_0000),
        versioned is Ok <==> unversioned is Ok,
{
}

/// What decryption yields, for every key and envelope: the AES-256-GCM
/// opening of the envelope's ciphertext with its nonce and associated data
/// where the envelope is version 1 with a 12-byte nonce, and nothing
/// otherwise.
pub proof fn lemma_envelope_opening_is_gcm_open(key: Seq<u8>, env: SymmetricEnvelope)
    ensures
        env.version == 1 && env.nonce@.len() == 12 ==> envelope_opening(key, env) == aes256gcm_open(
            key,
            env.nonce@,
            env.aad@,
            env.ciphertext@,
        ),
        !(env.version == 1 && env.nonce@.len() == 12) ==> envelope_opening(key, env) is None,
{
}

/// The key a base64 text denotes, for every text: its decoding exactly when
/// that is 32 bytes long, and none otherwise.
pub proof fn lemma_key_from_text_is_decoding(text: Seq<char>)
    ensures
        (base64_decoding(text) matches Some(bytes) && bytes.len() == 32) ==> key_from_text(text)
            == base64_decoding(text),
        !(base64_decoding(text) matches Some(bytes) && bytes.len() == 32) ==> key_from_text(text) is None,
{
}

} // verus!
