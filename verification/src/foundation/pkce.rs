use vstd::prelude::*;
use vstd::string::StringSliceAdditionalSpecFns;

use base64::Engine;
use sha2::Digest;

verus! {

pub const CHALLENGE_METHOD: &'static str = "S256";

/// The URL-safe base64 text, without padding, that the `base64` crate's `URL_SAFE_NO_PAD`
/// engine makes of bytes.
pub uninterp spec fn base64url(bytes: Seq<u8>) -> Seq<char>;

/// The SHA-256 digest of bytes, as the `sha2` crate computes it.
pub uninterp spec fn sha256(bytes: Seq<u8>) -> Seq<u8>;

/// The length of the URL-safe base64 text without padding of `n` bytes: four characters per
/// three bytes, and two or three more for a last one or two.
pub open spec fn base64url_len(n: nat) -> nat {
    4 * (n / 3) + if n % 3 == 0 {
        0
    } else {
        n % 3 + 1
    }
}

/// Bytes as URL-safe base64 without padding, through `URL_SAFE_NO_PAD.encode`, which panics
/// only when the encoded length does not fit in a `usize`; its length is `encoded_len`'s.
#[verifier::external_body]
fn encode_base64url(bytes: &[u8]) -> (r: String)
    requires
        bytes@.len() <= usize::MAX / 2,
    ensures
        r@ == base64url(bytes@),
        r@.len() == base64url_len(bytes@.len()),
{
    base64::engine::general_purpose::URL_SAFE_NO_PAD.encode(bytes)
}

/// The SHA-256 digest of bytes, through `sha2::Sha256::digest`; it is 32 bytes long.
#[verifier::external_body]
fn sha256_digest(bytes: &[u8]) -> (r: Vec<u8>)
    ensures
        r@ == sha256(bytes@),
        r@.len() == 32,
{
    sha2::Sha256::digest(bytes).to_vec()
}

/// Random bytes from the thread-local generator, through `rand::fill`; nothing is claimed of
/// them but their number.
#[verifier::external_body]
pub(crate) fn random_bytes(count: usize) -> (r: Vec<u8>)
    ensures
        r@.len() == count,
{
    let mut bytes = vec![0u8; count];
    rand::fill(&mut bytes[..]);
    bytes
}

/// A PKCE verifier and its S256 challenge.
#[derive(Debug, Clone, PartialEq, Eq)]
pub struct PkceChallenge {
    code_verifier: String,
    challenge: String,
}

impl PkceChallenge {
    pub closed spec fn verifier_text(&self) -> Seq<char> {
        self.code_verifier@
    }

    pub closed spec fn challenge_text(&self) -> Seq<char> {
        self.challenge@
    }

    /// A fresh verifier of 32 random bytes and its challenge.
    pub fn generate() -> (r: Self)
        ensures
            exists|bytes: Seq<u8>| bytes.len() == 32 && r.verifier_text() == base64url(bytes),
            r.verifier_text().len() == 43,
            r.challenge_text() == base64url(sha256(vstd::utf8::encode_utf8(r.verifier_text()))),
            r.challenge_text().len() == 43,
    {
        let bytes = random_bytes(32);
        let code_verifier = encode_base64url(bytes.as_slice());
        Self::from_verifier(code_verifier)
    }

    /// A verifier and its challenge: the URL-safe base64 of the SHA-256 of its UTF-8 bytes.
    pub fn from_verifier(code_verifier: String) -> (r: Self)
        ensures
            r.verifier_text() == code_verifier@,
            r.challenge_text() == base64url(sha256(vstd::utf8::encode_utf8(code_verifier@))),
            r.challenge_text().len() == 43,
    {
        let digest = sha256_digest(code_verifier.as_str().as_bytes());
        let challenge = encode_base64url(digest.as_slice());
        Self { code_verifier, challenge }
    }

    /// The verifier.
    pub fn code_verifier(&self) -> (r: &str)
        ensures
            r@ == self.verifier_text(),
    {
        self.code_verifier.as_str()
    }

    pub fn challenge(&self) -> (r: &str)
        ensures
            r@ == self.challenge_text(),
    {
        self.challenge.as_str()
    }
}

/// A fresh OAuth state: 16 random bytes in URL-safe base64.
pub fn random_state() -> (r: String)
    ensures
        exists|bytes: Seq<u8>| bytes.len() == 16 && r@ == base64url(bytes),
        r@.len() == 22,
{
    let bytes = random_bytes(16);
    encode_base64url(bytes.as_slice())
}

} // verus!
