//! Base64 (standard alphabet, with padding) text form of byte strings.
use vstd::prelude::*;
use base64::Engine;

verus! {

/// What the `base64` crate's STANDARD engine produces when encoding `bytes`.
pub uninterp spec fn base64_encoding(bytes: Seq<u8>) -> Seq<char>;

/// What the `base64` crate's STANDARD engine gives back when decoding `text`:
/// the bytes, or `None` where the engine reports a `DecodeError`.
pub uninterp spec fn base64_decoding(text: Seq<char>) -> Option<Seq<u8>>;

/// The error that the `base64` crate reports for malformed text.
#[verifier::external_type_specification]
#[verifier::external_body]
pub struct ExDecodeError(base64::DecodeError);

/// The base64 text of `len` bytes is short enough for its length to be a `usize`.
pub open spec fn fits_base64(len: nat) -> bool {
    4 * ((len + 2) / 3) <= usize::MAX
}

/// Encodes `bytes` with `base64::engine::general_purpose::STANDARD.encode`.
/// Claimed of it: the text is `base64_encoding(bytes)`, it is four characters
/// for every started group of three bytes (padding included), and the same
/// engine decodes it back to `bytes`.
#[verifier::external_body]
pub(crate) fn base64_encode(bytes: &[u8]) -> (r: String)
    requires
        fits_base64(bytes@.len()),
    ensures
        r@ == base64_encoding(bytes@),
        r@.len() == 4 * ((bytes@.len() + 2) / 3),
        base64_decoding(r@) == Some(bytes@),
{
    base64::engine::general_purpose::STANDARD.encode(bytes)
}

/// Decodes `text` with `base64::engine::general_purpose::STANDARD.decode`.
/// Claimed of it: it succeeds exactly when `base64_decoding(text)` is some
/// byte string, and then returns those bytes.
#[verifier::external_body]
pub(crate) fn base64_decode(text: &str) -> (r: Result<Vec<u8>, base64::DecodeError>)
    ensures
        r is Ok <==> base64_decoding(text@) is Some,
        r matches Ok(bytes) ==> Some(bytes@) == base64_decoding(text@),
{
    base64::engine::general_purpose::STANDARD.decode(text)
}

/// The `Display` text of a `base64::DecodeError` (nothing is claimed of it).
#[verifier::external_body]
pub(crate) fn decode_error_text(e: &base64::DecodeError) -> (r: String) {
    format!("{e}")
}

} // verus!
