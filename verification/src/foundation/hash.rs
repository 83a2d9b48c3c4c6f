use vstd::prelude::*;

use sha1::Digest;

verus! {

/// The SHA-1 digest of bytes, as the `sha1` crate computes it.
pub uninterp spec fn sha1(bytes: Seq<u8>) -> Seq<u8>;

/// The SHA-1 digest of bytes, through `sha1::Sha1::digest`; it is 20 bytes long.
#[verifier::external_body]
fn sha1_digest(bytes: &[u8]) -> (r: Vec<u8>)
    ensures
        r@ == sha1(bytes@),
        r@.len() == 20,
{
    sha1::Sha1::digest(bytes).to_vec()
}

/// The lower-case hexadecimal digit of a value below 16.
pub open spec fn hex_digit(v: u8) -> char {
    if v < 10 {
        (('0' as u8) + v) as char
    } else {
        (('a' as u8) + v - 10) as char
    }
}

/// Bytes as lower-case hexadecimal, two digits per byte.
pub open spec fn spec_hex(bytes: Seq<u8>) -> Seq<char>
    decreases bytes.len(),
{
    if bytes.len() == 0 {
        Seq::empty()
    } else {
        spec_hex(bytes.drop_last()) + seq![hex_digit(bytes.last() / 16), hex_digit(bytes.last() % 16)]
    }
}

fn hex_digit_exec(v: u8) -> (c: char)
    requires
        v < 16,
    ensures
        c == hex_digit(v),
{
    if v < 10 {
        ((48u8 + v) as char)
    } else {
        ((97u8 + v - 10) as char)
    }
}

/// Bytes as lower-case hexadecimal.
pub fn hex(bytes: &[u8]) -> (r: String)
    ensures
        r@ == spec_hex(bytes@),
{
    let mut out: Vec<char> = Vec::new();
    let mut i: usize = 0;
    while i < bytes.len()
        invariant
            i <= bytes.len(),
            out@ == spec_hex(bytes@.subrange(0, i as int)),
        decreases bytes.len() - i,
    {
        let b = bytes[i];
        assert(bytes@.subrange(0, i + 1).drop_last() =~= bytes@.subrange(0, i as int));
        out.push(hex_digit_exec(b / 16));
        out.push(hex_digit_exec(b % 16));
        i = i + 1;
    }
    assert(bytes@.subrange(0, bytes@.len() as int) =~= bytes@);
    super::text::string_of(&out)
}

/// The SHA-1 of bytes in lower-case hexadecimal.
pub fn sha1_bytes(bytes: &[u8]) -> (r: String)
    ensures
        r@ == spec_hex(sha1(bytes@)),
        r@.len() == 40,
{
    let digest = sha1_digest(bytes);
    let r = hex(digest.as_slice());
    proof {
        lemma_hex_len(digest@);
    }
    r
}

/// The MD5 digest of bytes, as the `md-5` crate computes it.
pub uninterp spec fn md5(bytes: Seq<u8>) -> Seq<u8>;

/// The MD5 digest of bytes, through `md5::Md5::digest`; it is 16 bytes long.
#[verifier::external_body]
fn md5_digest(bytes: &[u8]) -> (r: Vec<u8>)
    ensures
        r@ == md5(bytes@),
        r@.len() == 16,
{
    md5::Md5::digest(bytes).to_vec()
}

/// The MD5 of bytes in lower-case hexadecimal.
pub fn md5_bytes(bytes: &[u8]) -> (r: String)
    ensures
        r@ == spec_hex(md5(bytes@)),
        r@.len() == 32,
{
    let digest = md5_digest(bytes);
    let r = hex(digest.as_slice());
    proof {
        lemma_hex_len(digest@);
    }
    r
}

pub proof fn lemma_hex_len(bytes: Seq<u8>)
    ensures
        spec_hex(bytes).len() == 2 * bytes.len(),
    decreases bytes.len(),
{
    if bytes.len() > 0 {
        lemma_hex_len(bytes.drop_last());
    }
}

} // verus!
