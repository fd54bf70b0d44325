//! The cache key: a short stable digest of the canonical URL.
//!
//! The key is the first eight bytes of the BLAKE3 extensible output over
//! the URL's UTF-8 bytes, written as sixteen lowercase hexadecimal digits.
//! It depends on nothing but the URL, so identical canonical URLs always
//! map to identical keys, across processes and machines.

use vstd::prelude::*;

verus! {

use vstd::utf8::encode_utf8;

/// The first eight bytes of the BLAKE3 extensible output over `bytes`.
/// The digest is a function of the input bytes alone.
pub uninterp spec fn xof8_of(bytes: Seq<u8>) -> Seq<u8>;

/// Relies on `blake3::Hasher::new`, `update` and `finalize_xof`, and on
/// `blake3::OutputReader::fill`: the extensible output depends on the
/// hashed bytes alone, and an eight-byte read fills the buffer completely.
#[verifier::external_body]
fn blake3_xof8(input: &[u8]) -> (r: Vec<u8>)
    ensures
        r@ == xof8_of(input@),
        r@.len() == 8,
{
    let mut buf = [0u8; 8];
    blake3::Hasher::new().update(input).finalize_xof().fill(&mut buf);
    buf.to_vec()
}

/// The lowercase hexadecimal digit for a value below sixteen.
pub open spec fn hex_lower_digit(n: u8) -> char
    recommends
        n < 16,
{
    if n < 10 {
        ((48 + n) as u8) as char  // '0' + n
    } else {
        ((87 + n) as u8) as char  // 'a' + (n - 10)
    }
}

/// The lowercase hexadecimal rendering of a byte sequence, two digits per
/// byte, in order.
pub open spec fn hex_of(bytes: Seq<u8>) -> Seq<char>
    decreases bytes.len(),
{
    if bytes.len() == 0 {
        Seq::empty()
    } else {
        seq![hex_lower_digit(bytes[0] / 16), hex_lower_digit(bytes[0] % 16)] + hex_of(
            bytes.drop_first(),
        )
    }
}

/// Two hexadecimal digits are written for every byte.
pub proof fn lemma_hex_of_len(bytes: Seq<u8>)
    ensures
        hex_of(bytes).len() == 2 * bytes.len(),
    decreases bytes.len(),
{
    if bytes.len() > 0 {
        lemma_hex_of_len(bytes.drop_first());
    }
}

/// Relies on `hex::encode`: lowercase hexadecimal, two digits per byte, in
/// input order.
#[verifier::external_body]
fn hex_encode(bytes: &[u8]) -> (r: String)
    ensures
        r@ == hex_of(bytes@),
{
    hex::encode(bytes)
}

/// The cache key derived from a canonical URL.
pub open spec fn cache_key_of(url: Seq<char>) -> Seq<char> {
    hex_of(xof8_of(encode_utf8(url)))
}

/// Derives the cache key of a canonical URL: sixteen lowercase hexadecimal
/// digits of the URL's eight-byte digest.
pub fn hash_digest(url: &str) -> (r: String)
    ensures
        r@ == cache_key_of(url@),
        r@.len() == 16,
{
    let digest = blake3_xof8(url.as_bytes());
    let r = hex_encode(digest.as_slice());
    proof {
        lemma_hex_of_len(digest@);
    }
    r
}

/// Key stability: requests that build the same canonical URL always derive
/// the same cache key, so they share one cache slot. (The converse — that
/// different URLs never share a key — is the hash's collision resistance,
/// which no contract here claims.)
pub proof fn lemma_key_stable(u1: Seq<char>, u2: Seq<char>)
    requires
        u1 == u2,
    ensures
        cache_key_of(u1) == cache_key_of(u2),
{
}

} // verus!
