use base64::engine::general_purpose::URL_SAFE_NO_PAD;
use base64::Engine;

use crust_core::foundation::hash::{hex, md5_bytes, sha1_bytes};
use crust_core::foundation::jwt::{payload_bytes, payload_segment, string_claim, JwtError};
use crust_core::foundation::pkce::{random_state, PkceChallenge};

fn build(payload: &str) -> String {
    format!("h.{}.s", URL_SAFE_NO_PAD.encode(payload))
}

#[test]
fn hashes_known_value() {
    assert_eq!(sha1_bytes(b"hello world"), "2aae6c35c94fcfb415dbe95f408b9ce91ee846ed");
}

#[test]
fn hex_is_lower_case_and_two_digits_per_byte() {
    assert_eq!(hex(&[0x00, 0x0f, 0xa5, 0xff]), "000fa5ff");
    assert_eq!(hex(&[]), "");
}

#[test]
fn decodes_payload() {
    let token = build(r#"{"xuid":"2535436228373764","exp":1765466158}"#);
    let bytes = payload_bytes(&token).unwrap();
    let claims: serde_json::Value = serde_json::from_slice(&bytes).unwrap();
    assert_eq!(claims["exp"], 1765466158);
    assert_eq!(string_claim(&token, "xuid").as_deref(), Some("2535436228373764"));
}

#[test]
fn rejects_malformed_token() {
    assert!(matches!(payload_bytes("a.b"), Err(JwtError::Malformed)));
    assert!(matches!(payload_bytes("a.b.c.d"), Err(JwtError::Malformed)));
}

#[test]
fn missing_claim_is_none() {
    let token = build(r#"{"sub":"x"}"#);
    assert_eq!(string_claim(&token, "xuid"), None);
}

#[test]
fn payload_loses_its_padding_and_bad_base64_is_refused() {
    assert_eq!(payload_segment("a.b==.c").unwrap(), "b");
    assert!(matches!(payload_bytes("h.!!!.s"), Err(JwtError::Base64)));
    assert_eq!(string_claim("h.!!!.s", "xuid"), None);
    let not_a_string = build(r#"{"xuid":12}"#);
    assert_eq!(string_claim(&not_a_string, "xuid"), None);
}

#[test]
fn challenge_matches_rfc_7636_example() {
    let pkce = PkceChallenge::from_verifier("dBjftJeZ4CVP-mB92K27uhbUJU1p1r_wW1gFWFOEjXk".to_owned());
    assert_eq!(pkce.challenge(), "E9Melhoa2OwvFrEMTJguCHaoeK1t8URWbuGJSstw-cM");
    assert_eq!(pkce.code_verifier(), "dBjftJeZ4CVP-mB92K27uhbUJU1p1r_wW1gFWFOEjXk");
}

#[test]
fn generated_verifier_has_valid_length() {
    let pkce = PkceChallenge::generate();
    let len = pkce.code_verifier().len();
    assert!((43..=128).contains(&len), "verifier length was {len}");
}

#[test]
fn generated_values_are_unique() {
    assert_ne!(PkceChallenge::generate(), PkceChallenge::generate());
    assert_ne!(random_state(), random_state());
    assert_eq!(random_state().len(), 22);
}

#[test]
fn md5_of_known_values() {
    assert_eq!(md5_bytes(b"hello world"), "5eb63bbbe01eeed093cb22bb8f5acdc3");
    assert_eq!(md5_bytes(b""), "d41d8cd98f00b204e9800998ecf8427e");
}

#[test]
fn generated_texts_have_the_lengths_of_their_bytes() {
    let pkce = PkceChallenge::generate();
    assert_eq!(pkce.code_verifier().len(), 43);
    assert_eq!(pkce.challenge().len(), 43);
    assert_eq!(random_state().len(), 22);
}
