//! Decisions of the client proxy that encrypts OpenAI-compatible requests:
//! public key pinning, the model and token estimate announced in the request
//! metadata, the upstream address, and what to do with the upstream's reply.
//! The HTTP exchange and the session encryption themselves are not part of
//! this library.
use vstd::prelude::*;
use vstd::string::StringExecFns;
use crate::error::{VeilError, VeilResult};

verus! {

/// Path of the Veil inference endpoint on the upstream server.
pub open spec fn inference_path() -> Seq<char> {
    "/v1/veil/inference"@
}

/// The JSON document that `serde_json::from_slice::<serde_json::Value>`
/// parses from `body`, or `None` where it reports an error.
pub uninterp spec fn json_document(body: Seq<u8>) -> Option<serde_json::Value>;

/// The string at member `key` of the JSON value `value`, as
/// `Value::get(key)` followed by `Value::as_str` gives it: `None` where
/// `value` is no object, lacks the member, or the member is no string.
pub uninterp spec fn json_string_member(value: serde_json::Value, key: Seq<char>) -> Option<Seq<char>>;

/// The opaque JSON value of `serde_json`.
#[verifier::external_type_specification]
#[verifier::external_body]
pub struct ExJsonValue(serde_json::Value);

/// The opaque error of `serde_json`.
#[verifier::external_type_specification]
#[verifier::external_body]
pub struct ExJsonError(serde_json::Error);

/// Parses `body` with `serde_json::from_slice::<serde_json::Value>`.
/// Claimed of it: it succeeds exactly when `json_document(body)` is some
/// value, and returns that value.
#[verifier::external_body]
fn parse_json(body: &[u8]) -> (r: Result<serde_json::Value, serde_json::Error>)
    ensures
        r is Ok <==> json_document(body@) is Some,
        r matches Ok(v) ==> json_document(body@) == Some(v),
{
    serde_json::from_slice(body)
}

/// The string member `key` of `value` (`Value::get` then `Value::as_str`).
/// Claimed of it: the result is `json_string_member(value, key)`.
#[verifier::external_body]
fn string_member(value: &serde_json::Value, key: &str) -> (r: Option<String>)
    ensures
        match r {
            Some(m) => json_string_member(*value, key@) == Some(m@),
            None => json_string_member(*value, key@) is None,
        },
{
    value.get(key).and_then(serde_json::Value::as_str).map(str::to_string)
}

/// The model that a request body names: its `model` string member, where
/// the body is a JSON document with one.
pub open spec fn body_model(body: Seq<u8>) -> Option<Seq<char>> {
    match json_document(body) {
        Some(v) => json_string_member(v, "model"@),
        None => None,
    }
}

/// The model named in the request metadata, chosen from the body's model,
/// the configured default and `"unknown"` in that order.
pub open spec fn chosen_model(body_model: Option<Seq<char>>, default_model: Option<Seq<char>>) -> Seq<char> {
    match body_model {
        Some(m) => m,
        None => match default_model {
            Some(d) => d,
            None => "unknown"@,
        },
    }
}

/// The error text for a request body that is not JSON.
pub open spec fn not_json_text() -> Seq<char> {
    "Request body is not valid JSON"@
}

/// The model to announce for a request `body`: the body must be a JSON
/// document (else `InvalidInput("Request body is not valid JSON")`); its
/// `model` string member is taken where present, else the configured
/// default model, else `"unknown"`.
pub fn request_model(body: &[u8], default_model: &Option<String>) -> (r: VeilResult<String>)
    ensures
        r is Ok <==> json_document(body@) is Some,
        r matches Ok(m) ==> m@ == chosen_model(
            body_model(body@),
            match *default_model {
                Some(d) => Some(d@),
                None => None,
            },
        ),
        r matches Err(e) ==> (e matches VeilError::InvalidInput(text) && text@ == not_json_text()),
        r matches Err(e) ==> (e matches VeilError::InvalidInput(text)
            && text@ == "Request body is not valid JSON"@),
        json_document(body@) matches Some(doc) ==> (json_string_member(doc, "model"@) matches Some(m)
            ==> (r matches Ok(out) && out@ == m)),
        json_document(body@) matches Some(doc) ==> (json_string_member(doc, "model"@) is None
            ==> (default_model matches Some(d) ==> (r matches Ok(out) && out@ == d@))),
        json_document(body@) matches Some(doc) ==> (json_string_member(doc, "model"@) is None
            ==> (default_model is None ==> (r matches Ok(out) && out@ == "unknown"@))),
{
    let document = match parse_json(body) {
        Ok(v) => v,
        Err(_) => {
            return Err(VeilError::InvalidInput(String::from_str("Request body is not valid JSON")));
        },
    };
    let member = string_member(&document, "model");
    Ok(choose_model(member, default_model))
}

/// Public key pinning: with no pinned key every configured key passes;
/// with a pinned key only that very key does.
pub fn server_key_pin_holds(server_public_key: &String, expected_server_public_key: &Option<String>) -> (r: bool)
    ensures
        r == match *expected_server_public_key {
            None => true,
            Some(expected) => expected@ == server_public_key@,
        },
{
    match expected_server_public_key {
        None => true,
        Some(expected) => expected.eq(server_public_key),
    }
}

/// The model named in the request metadata: the request body's `model`
/// string where it has one, else the configured default model, else
/// `"unknown"`.
pub fn choose_model(body_model: Option<String>, default_model: &Option<String>) -> (r: String)
    ensures
        r@ == match body_model {
            Some(m) => m@,
            None => match default_model {
                Some(d) => d@,
                None => "unknown"@,
            },
        },
{
    match body_model {
        Some(m) => m,
        None => match default_model {
            Some(d) => d.clone(),
            None => String::from_str("unknown"),
        },
    }
}

/// Rough token estimate from the body size: a quarter of the byte count,
/// truncated to 32 bits.
pub fn token_estimate(body_len: usize) -> (r: u32)
    ensures
        r as int == (body_len / 4) as int % 0x1_0000_0000,
{
    let quarter = (body_len / 4) as u64;
    let r = quarter as u32;
    assert(r == quarter % 0x1_0000_0000) by (bit_vector)
        requires
            r == quarter as u32,
    ;
    r
}

/// The upstream inference URL: the configured upstream URL followed by
/// `/v1/veil/inference`.
pub fn inference_url(upstream_url: &String) -> (r: String)
    ensures
        r@ == upstream_url@ + inference_path(),
        r@ == upstream_url@ + "/v1/veil/inference"@,
{
    let mut url = upstream_url.clone();
    url.append("/v1/veil/inference");
    url
}

/// What the proxy does with the upstream server's reply.
#[derive(Debug, Clone, Copy, PartialEq, Eq)]
pub enum UpstreamReply {
    /// Pass the upstream's body through unchanged, under this HTTP status.
    Relay { status: u16 },
    /// Decrypt the body as a response envelope and answer 200 with the
    /// plaintext.
    Decrypt,
}

/// The decision on the upstream's reply with HTTP `status`: a success
/// status (200 to 299) is decrypted; any other is passed through under the
/// same status where that is a valid HTTP status code (100 to 999), else
/// under 502 Bad Gateway.
pub fn upstream_reply(status: u16) -> (r: UpstreamReply)
    ensures
        200 <= status <= 299 ==> r == UpstreamReply::Decrypt,
        !(200 <= status <= 299) ==> r == (UpstreamReply::Relay {
            status: if 100 <= status <= 999 { status } else { 502 },
        }),
{
    if 200 <= status && status <= 299 {
        UpstreamReply::Decrypt
    } else if 100 <= status && status <= 999 {
        UpstreamReply::Relay { status }
    } else {
        UpstreamReply::Relay { status: 502 }
    }
}

/// How the announced model is chosen, for every body model and default: a
/// model named by the body wins whatever the default is; without one the
/// default is taken; without both the model is `"unknown"`.
pub proof fn lemma_chosen_model_order(m: Seq<char>, d: Seq<char>, default_model: Option<Seq<char>>)
    ensures
        chosen_model(Some(m), default_model) == m,
        chosen_model(None, Some(d)) == d,
        chosen_model(None, None) == "unknown"@,
{
}

/// The model a body names, for every body: the `model` string member of the
/// JSON document it parses to, and none where it is no JSON document.
pub proof fn lemma_body_model_is_json_member(body: Seq<u8>)
    ensures
        json_document(body) matches Some(doc) ==> body_model(body) == json_string_member(doc, "model"@),
        json_document(body) is None ==> body_model(body) is None,
{
}

} // verus!
