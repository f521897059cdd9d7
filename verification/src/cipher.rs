//! AES-256-GCM authenticated encryption with random 96-bit nonces.
//!
//! Every sealing draws a fresh 12-byte nonce from the operating system's
//! CSPRNG; a ciphertext is the encrypted plaintext followed by the 16-byte
//! GCM tag.
use vstd::prelude::*;
use vstd::slice::slice_to_vec;
use vstd::string::StringExecFns;
use aes_gcm::aead::{Aead, KeyInit, Payload};
use crate::error::{VeilError, VeilResult};

verus! {

broadcast use vstd::array::group_array_axioms;

/// Length of an AES-256 key in bytes.
pub const KEY_LEN: usize = 32;

/// Length of an AES-GCM nonce in bytes.
pub const NONCE_LEN: usize = 12;

/// Length of the GCM authentication tag appended to every ciphertext.
pub const TAG_LEN: usize = 16;

/// Largest plaintext, and largest associated data, that AES-GCM accepts
/// (2^36 bytes).
pub const GCM_MAX_INPUT: u64 = 0x10_0000_0000;

/// What AES-256-GCM produces when sealing `plaintext` with `aad` under
/// `key` and `nonce`: the encrypted bytes followed by the tag.
pub uninterp spec fn aes256gcm_seal(key: Seq<u8>, nonce: Seq<u8>, aad: Seq<u8>, plaintext: Seq<u8>) -> Seq<u8>;

/// What AES-256-GCM gives back when opening `ciphertext` (encrypted bytes
/// followed by the tag) with `aad` under `key` and `nonce`: the plaintext,
/// or `None` when authentication fails.
pub uninterp spec fn aes256gcm_open(key: Seq<u8>, nonce: Seq<u8>, aad: Seq<u8>, ciphertext: Seq<u8>) -> Option<Seq<u8>>;

/// AES-GCM accepts a plaintext and associated data of at most 2^36 bytes each.
pub open spec fn within_gcm_limits(plaintext_len: nat, aad_len: nat) -> bool {
    plaintext_len <= GCM_MAX_INPUT && aad_len <= GCM_MAX_INPUT
}

/// Opening as `decrypt` performs it: a nonce of any length but 12 bytes is
/// refused before AES-GCM is consulted.
pub open spec fn gcm_open_checked(key: Seq<u8>, nonce: Seq<u8>, aad: Seq<u8>, ciphertext: Seq<u8>) -> Option<Seq<u8>> {
    if nonce.len() == NONCE_LEN {
        aes256gcm_open(key, nonce, aad, ciphertext)
    } else {
        None
    }
}

/// The detail text of the error that `encrypt` reports.
pub open spec fn encryption_failure_text() -> Seq<char> {
    "AES-256-GCM encryption failed"@
}

/// The detail text of the error that `decrypt` reports.
pub open spec fn decryption_failure_text() -> Seq<char> {
    "AES-256-GCM decryption failed"@
}

/// The opaque error of the `aead` crate.
#[verifier::external_type_specification]
#[verifier::external_body]
pub struct ExAeadError(aes_gcm::Error);

/// Fills `buf` from the operating system's CSPRNG
/// (`rand::RngCore::fill_bytes` on `rand::rngs::OsRng`). Nothing is claimed
/// of the bytes drawn.
#[verifier::external_body]
fn fill_random<const N: usize>(buf: &mut [u8; N]) {
    rand::RngCore::fill_bytes(&mut rand::rngs::OsRng, buf)
}

/// Seals with `aes_gcm::Aes256Gcm` (`Aead::encrypt` on a cipher built from
/// `key`). Claimed of it: it succeeds exactly within the AES-GCM length
/// limits, the output is `aes256gcm_seal` of the inputs, sixteen bytes
/// longer than the plaintext, and opening it with the same key, nonce and
/// associated data gives the plaintext back.
#[verifier::external_body]
fn aes256gcm_encrypt(key: &[u8; 32], nonce: &[u8; 12], plaintext: &[u8], aad: &[u8]) -> (r: Result<Vec<u8>, aes_gcm::Error>)
    ensures
        r is Ok <==> within_gcm_limits(plaintext@.len(), aad@.len()),
        r matches Ok(c) ==> {
            &&& c@ == aes256gcm_seal(key@, nonce@, aad@, plaintext@)
            &&& c@.len() == plaintext@.len() + TAG_LEN
            &&& aes256gcm_open(key@, nonce@, aad@, c@) == Some(plaintext@)
        },
{
    let cipher = aes_gcm::Aes256Gcm::new(key.into());
    cipher.encrypt(aes_gcm::Nonce::from_slice(nonce), Payload { msg: plaintext, aad })
}

/// Opens with `aes_gcm::Aes256Gcm` (`Aead::decrypt` on a cipher built from
/// `key`). Claimed of it: it succeeds exactly when `aes256gcm_open` of the
/// inputs is some plaintext, returns that plaintext, and the plaintext is
/// sixteen bytes shorter than the ciphertext.
#[verifier::external_body]
fn aes256gcm_decrypt(key: &[u8; 32], nonce: &[u8; 12], ciphertext: &[u8], aad: &[u8]) -> (r: Result<Vec<u8>, aes_gcm::Error>)
    ensures
        r is Ok <==> aes256gcm_open(key@, nonce@, aad@, ciphertext@) is Some,
        r matches Ok(p) ==> {
            &&& Some(p@) == aes256gcm_open(key@, nonce@, aad@, ciphertext@)
            &&& p@.len() + TAG_LEN == ciphertext@.len()
        },
{
    let cipher = aes_gcm::Aes256Gcm::new(key.into());
    cipher.decrypt(aes_gcm::Nonce::from_slice(nonce), Payload { msg: ciphertext, aad })
}

/// A fresh random 256-bit key from the operating system's CSPRNG.
pub fn generate_key() -> (key: [u8; 32])
    ensures
        key@.len() == KEY_LEN,
{
    let mut key = [0u8; 32];
    fill_random(&mut key);
    key
}

/// Copies a 12-byte slice into an array.
fn nonce_array(nonce: &[u8]) -> (r: [u8; 12])
    requires
        nonce@.len() == NONCE_LEN,
    ensures
        r@ == nonce@,
{
    let mut r = [0u8; 12];
    let mut i: usize = 0;
    while i < 12
        invariant
            0 <= i <= 12,
            nonce@.len() == NONCE_LEN,
            forall|j: int| 0 <= j < i ==> r@[j] == nonce@[j],
        decreases 12 - i,
    {
        r[i] = nonce[i];
        i = i + 1;
    }
    assert(r@ =~= nonce@);
    r
}

/// Seals `plaintext` under `key` and the given `nonce`, authenticating `aad`;
/// returns the nonce as a vector alongside the ciphertext. Kept private: a
/// nonce must never come from the caller.
fn seal_with_nonce(key: &[u8; 32], nonce: &[u8; 12], plaintext: &[u8], aad: &[u8]) -> (r: VeilResult<(Vec<u8>, Vec<u8>)>)
    ensures
        r is Ok <==> within_gcm_limits(plaintext@.len(), aad@.len()),
        r matches Ok((nonce_bytes, ciphertext)) ==> {
            &&& nonce_bytes@ == nonce@
            &&& ciphertext@ == aes256gcm_seal(key@, nonce@, aad@, plaintext@)
            &&& ciphertext@.len() == plaintext@.len() + TAG_LEN
            &&& gcm_open_checked(key@, nonce@, aad@, ciphertext@) == Some(plaintext@)
        },
        r matches Err(e) ==> (e matches VeilError::Encryption(text) && text@ == encryption_failure_text()),
{
    match aes256gcm_encrypt(key, nonce, plaintext, aad) {
        Ok(ciphertext) => {
            let nonce_bytes = slice_to_vec(nonce.as_slice());
            Ok((nonce_bytes, ciphertext))
        },
        Err(_) => Err(VeilError::Encryption(String::from_str("AES-256-GCM encryption failed"))),
    }
}

/// Seals `plaintext` with AES-256-GCM under `key`, authenticating `aad`, with
/// a fresh random 12-byte nonce. Returns `(nonce, ciphertext)`.
///
/// Succeeds exactly when plaintext and associated data are within the
/// AES-GCM limits; then the ciphertext is the sealing of the plaintext under
/// the returned nonce, sixteen bytes longer than the plaintext, and opening
/// it gives the plaintext back. Otherwise the error is `Encryption`.
pub fn encrypt(key: &[u8; 32], plaintext: &[u8], aad: &[u8]) -> (r: VeilResult<(Vec<u8>, Vec<u8>)>)
    ensures
        r is Ok <==> within_gcm_limits(plaintext@.len(), aad@.len()),
        r matches Ok((nonce, ciphertext)) ==> {
            &&& nonce@.len() == NONCE_LEN
            &&& ciphertext@ == aes256gcm_seal(key@, nonce@, aad@, plaintext@)
            &&& ciphertext@.len() == plaintext@.len() + TAG_LEN
            &&& gcm_open_checked(key@, nonce@, aad@, ciphertext@) == Some(plaintext@)
        },
        r matches Err(e) ==> (e matches VeilError::Encryption(text) && text@ == encryption_failure_text()),
        r is Ok <==> (plaintext@.len() <= 0x10_0000_0000 && aad@.len() <= 0x10_0000_0000),
        r matches Ok((nonce, ciphertext)) ==> {
            &&& nonce@.len() == 12
            &&& ciphertext@.len() == plaintext@.len() + 16
            &&& aes256gcm_open(key@, nonce@, aad@, ciphertext@) == Some(plaintext@)
        },
        r matches Err(e) ==> (e matches VeilError::Encryption(text) && text@ == "AES-256-GCM encryption failed"@),
{
    let mut nonce = [0u8; 12];
    fill_random(&mut nonce);
    seal_with_nonce(key, &nonce, plaintext, aad)
}

/// Opens `ciphertext` (encrypted bytes followed by the tag) under `key` and
/// `nonce`, authenticating `aad`.
///
/// Returns the plaintext exactly when the nonce is 12 bytes long and
/// AES-256-GCM authenticates the inputs; every failure is a `Decryption`
/// error.
pub fn decrypt(key: &[u8; 32], nonce: &[u8], ciphertext: &[u8], aad: &[u8]) -> (r: VeilResult<Vec<u8>>)
    ensures
        r is Ok <==> gcm_open_checked(key@, nonce@, aad@, ciphertext@) is Some,
        r matches Ok(p) ==> Some(p@) == gcm_open_checked(key@, nonce@, aad@, ciphertext@),
        r matches Err(e) ==> (e matches VeilError::Decryption(text) && text@ == decryption_failure_text()),
        nonce@.len() == 12 ==> (r is Ok <==> aes256gcm_open(key@, nonce@, aad@, ciphertext@) is Some),
        r matches Ok(p) ==> nonce@.len() == 12 && aes256gcm_open(key@, nonce@, aad@, ciphertext@) == Some(p@),
        nonce@.len() != 12 ==> r is Err,
        r matches Err(e) ==> (e matches VeilError::Decryption(text) && text@ == "AES-256-GCM decryption failed"@),
{
    if nonce.len() != NONCE_LEN {
        return Err(VeilError::Decryption(String::from_str("AES-256-GCM decryption failed")));
    }
    let nonce_arr = nonce_array(nonce);
    match aes256gcm_decrypt(key, &nonce_arr, ciphertext, aad) {
        Ok(p) => Ok(p),
        Err(_) => Err(VeilError::Decryption(String::from_str("AES-256-GCM decryption failed"))),
    }
}

/// Opening as `decrypt` performs it, for every input: AES-256-GCM opening
/// with a 12-byte nonce, and nothing with a nonce of any other length.
pub proof fn lemma_open_checked_is_gcm_open(key: Seq<u8>, nonce: Seq<u8>, aad: Seq<u8>, ciphertext: Seq<u8>)
    ensures
        nonce.len() == 12 ==> gcm_open_checked(key, nonce, aad, ciphertext) == aes256gcm_open(
            key,
            nonce,
            aad,
            ciphertext,
        ),
        nonce.len() != 12 ==> gcm_open_checked(key, nonce, aad, ciphertext) is None,
{
}

/// The AES-GCM limits, for every length pair: plaintext and associated data
/// of at most 2^36 bytes each.
pub proof fn lemma_gcm_limits(plaintext_len: nat, aad_len: nat)
    ensures
        within_gcm_limits(plaintext_len, aad_len) <==> (plaintext_len <= 0x10_0000_0000 && aad_len
            <= 0x10_0000_0000),
{
}

} // verus!
