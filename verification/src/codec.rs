//! Trusted wrappers for the byte/text codecs and the digest that the
//! protocol relies on, with their results named for the contracts.

use vstd::prelude::*;

verus! {

use vstd::utf8::valid_utf8;
use vstd::utf8::encode_utf8;

/// What base64 encoding with the standard alphabet and padding yields on a
/// byte sequence.
pub uninterp spec fn base64_enc(b: Seq<u8>) -> Seq<char>;

/// Relies on base64::encode (standard alphabet, padded): the text is a
/// function of the input bytes alone, and its length is four characters for
/// every three input bytes rounded up.
#[verifier::external_body]
pub fn b64_encode(b: &[u8]) -> (r: String)
    requires
        ((b@.len() + 2) / 3) * 4 <= usize::MAX,
    ensures
        r@ == base64_enc(b@),
        r@.len() == ((b@.len() + 2) / 3) * 4,
        vstd::utf8::is_ascii_chars(r@),
{
    base64::encode(b)
}

/// What base64 decoding with the standard alphabet yields on a byte
/// sequence: the decoded bytes, or nothing when the text is not base64.
pub uninterp spec fn base64_dec(s: Seq<u8>) -> Option<Seq<u8>>;

/// Relies on base64::decode (standard alphabet, padded).
#[verifier::external_body]
pub fn b64_decode(s: &[u8]) -> (r: Option<Vec<u8>>)
    ensures
        match r {
            Some(v) => base64_dec(s@) == Some(v@),
            None => base64_dec(s@) is None,
        },
{
    base64::decode(s).ok()
}

/// Relies on String::from_utf8: it accepts exactly the valid UTF-8 byte
/// sequences and preserves the bytes.
#[verifier::external_body]
pub fn utf8_to_string(b: Vec<u8>) -> (r: Option<String>)
    ensures
        match r {
            Some(s) => valid_utf8(b@) && encode_utf8(s@) == b@,
            None => !valid_utf8(b@),
        },
{
    String::from_utf8(b).ok()
}

/// What the SHA-256 digest of a byte sequence is.
pub uninterp spec fn sha256_of(b: Seq<u8>) -> Seq<u8>;

/// Relies on sha2::Sha256: a 32-byte digest that is a function of the input
/// bytes alone.
#[verifier::external_body]
pub fn sha256(b: &[u8]) -> (r: Vec<u8>)
    ensures
        r@ == sha256_of(b@),
        r@.len() == 32,
{
    <sha2::Sha256 as sha2::Digest>::digest(b).to_vec()
}

} // verus!
