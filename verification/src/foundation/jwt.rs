use vstd::prelude::*;

use base64::Engine;

use super::text::{
    chars_of, split, split_chars, string_of, strip_trailing, strip_trailing_exec, views,
};

verus! {

/// Why a token's claims could not be read.
#[derive(Debug, Clone, PartialEq, Eq)]
pub enum JwtError {
    /// The token does not have three dot-separated segments.
    Malformed,
    /// The payload is not URL-safe base64.
    Base64,
}

/// The bytes the `base64` crate's `URL_SAFE_NO_PAD` engine decodes from text, when it is
/// valid URL-safe base64 without padding.
pub uninterp spec fn base64url_decoded(text: Seq<char>) -> Option<Seq<u8>>;

/// The string member `name` of the JSON object that `serde_json` reads from bytes; `None` when
/// the bytes are not JSON, not an object, or the member is missing or not a string.
pub uninterp spec fn json_string_member(bytes: Seq<u8>, name: Seq<char>) -> Option<Seq<char>>;

/// Decodes URL-safe base64 without padding, through `URL_SAFE_NO_PAD.decode`.
#[verifier::external_body]
fn decode_base64url(text: &str) -> (r: Option<Vec<u8>>)
    ensures
        match r {
            Some(b) => base64url_decoded(text@) == Some(b@),
            None => base64url_decoded(text@) is None,
        },
{
    match base64::engine::general_purpose::URL_SAFE_NO_PAD.decode(text) {
        Ok(bytes) => Some(bytes),
        Err(_) => None,
    }
}

/// The string member `name` of the JSON object in bytes, through `serde_json::from_slice`,
/// `Value::get` and `Value::as_str`.
#[verifier::external_body]
fn string_member(bytes: &[u8], name: &str) -> (r: Option<String>)
    ensures
        match r {
            Some(s) => json_string_member(bytes@, name@) == Some(s@),
            None => json_string_member(bytes@, name@) is None,
        },
{
    let value: serde_json::Value = serde_json::from_slice(bytes).ok()?;
    value.get(name)?.as_str().map(str::to_owned)
}

/// The payload segment of a token with exactly three dot-separated segments, without trailing
/// `=`.
pub open spec fn spec_payload(token: Seq<char>) -> Option<Seq<char>> {
    let parts = split(token, '.');
    if parts.len() == 3 {
        Some(strip_trailing(parts[1], '='))
    } else {
        None
    }
}

/// The payload segment of a token, without trailing `=`.
pub fn payload_segment(token: &str) -> (r: Result<String, JwtError>)
    ensures
        match r {
            Ok(p) => spec_payload(token@) == Some(p@),
            Err(e) => spec_payload(token@) is None && e == JwtError::Malformed,
        },
{
    let t = chars_of(token);
    let parts = split_chars(&t, '.');
    if parts.len() != 3 {
        return Err(JwtError::Malformed);
    }
    assert(views(parts@)[1] == parts@[1]@);
    Ok(string_of(&strip_trailing_exec(&parts[1], '=')))
}

/// The decoded payload bytes of a token.
pub fn payload_bytes(token: &str) -> (r: Result<Vec<u8>, JwtError>)
    ensures
        match spec_payload(token@) {
            None => r == Err::<Vec<u8>, JwtError>(JwtError::Malformed),
            Some(p) => match base64url_decoded(p) {
                None => r == Err::<Vec<u8>, JwtError>(JwtError::Base64),
                Some(b) => r matches Ok(v) && v@ == b,
            },
        },
{
    let payload = match payload_segment(token) {
        Ok(p) => p,
        Err(e) => {
            return Err(e);
        },
    };
    match decode_base64url(payload.as_str()) {
        Some(bytes) => Ok(bytes),
        None => Err(JwtError::Base64),
    }
}

/// A string claim of a token's payload; `None` when the token cannot be read or the claim is
/// not a string.
pub fn string_claim(token: &str, claim: &str) -> (r: Option<String>)
    ensures
        ({
            let expected = match spec_payload(token@) {
                None => None,
                Some(p) => match base64url_decoded(p) {
                    None => None,
                    Some(b) => json_string_member(b, claim@),
                },
            };
            match r {
                Some(s) => expected == Some(s@),
                None => expected is None,
            }
        }),
{
    match payload_bytes(token) {
        Ok(bytes) => string_member(bytes.as_slice(), claim),
        Err(_) => None,
    }
}

} // verus!
