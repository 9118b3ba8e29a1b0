//! Byte codecs the library relies on: Base64 (standard alphabet, padded), UTF-8, lowercase
//! hexadecimal and SHA-256.

use vstd::prelude::*;
use vstd::utf8::{decode_utf8, encode_utf8, valid_utf8};
use base64::Engine;
use sha2::Digest;

verus! {

// ---------------------------------------------------------------- Base64

/// What `base64::engine::general_purpose::STANDARD.encode` returns for these bytes.
pub uninterp spec fn base64_encoding(bytes: Seq<u8>) -> Seq<char>;

/// What `base64::engine::general_purpose::STANDARD.decode` returns for this text: the
/// decoded bytes, or `None` for an error.
pub uninterp spec fn base64_decoding(text: Seq<char>) -> Option<Seq<u8>>;

/// `base64::engine::general_purpose::STANDARD.encode`: the padded standard-alphabet Base64
/// text of the bytes. The crate panics when the encoded length overflows `usize`; the
/// `requires` keeps well below that.
#[verifier::external_body]
pub(crate) fn base64_encode(bytes: &[u8]) -> (r: String)
    requires
        bytes@.len() <= usize::MAX / 2,
    ensures
        r@ == base64_encoding(bytes@),
{
    base64::engine::general_purpose::STANDARD.encode(bytes)
}

/// `base64::engine::general_purpose::STANDARD.decode`: the bytes that the text encodes, or
/// the crate's error message. Decoding the encoding of some bytes gives those bytes back.
#[verifier::external_body]
pub(crate) fn base64_decode(text: &str) -> (r: Result<Vec<u8>, String>)
    ensures
        r is Ok <==> base64_decoding(text@) is Some,
        r matches Ok(b) ==> base64_decoding(text@) == Some(b@),
        forall|b: Seq<u8>| #[trigger] base64_encoding(b) == text@ ==> r is Ok && r->Ok_0@ == b,
{
    base64::engine::general_purpose::STANDARD.decode(text).map_err(|e| e.to_string())
}

// ---------------------------------------------------------------- UTF-8

/// `String::from_utf8`: a string when the bytes are valid UTF-8, else the error message.
#[verifier::external_body]
pub(crate) fn string_from_utf8(bytes: Vec<u8>) -> (r: Result<String, String>)
    ensures
        r is Ok <==> valid_utf8(bytes@),
        r matches Ok(s) ==> s@ == decode_utf8(bytes@),
{
    String::from_utf8(bytes).map_err(|e| e.to_string())
}

/// The UTF-8 bytes of a string slice.
pub fn utf8_bytes(s: &str) -> (r: Vec<u8>)
    ensures
        r@ == encode_utf8(s@),
{
    let b = s.as_bytes();
    let mut v: Vec<u8> = Vec::new();
    for i in 0..b.len()
        invariant
            b@ == encode_utf8(s@),
            v@ == b@.take(i as int),
    {
        v.push(b[i]);
        assert(b@.take(i + 1) =~= b@.take(i as int).push(b@[i as int]));
    }
    assert(b@.take(b@.len() as int) =~= b@);
    v
}

// ---------------------------------------------------------------- hexadecimal

/// The lowercase hexadecimal digit of a value below sixteen.
pub open spec fn hex_digit(n: nat) -> char {
    if n < 10 {
        (('0' as u32) + n) as char
    } else {
        (('a' as u32) + n - 10) as char
    }
}

/// Two lowercase hexadecimal digits per byte, high nibble first.
pub open spec fn hex_lower(b: Seq<u8>) -> Seq<char>
    decreases b.len(),
{
    if b.len() == 0 {
        Seq::<char>::empty()
    } else {
        hex_lower(b.drop_last()) + seq![
            hex_digit((b.last() / 16) as nat),
            hex_digit((b.last() % 16) as nat),
        ]
    }
}

pub proof fn lemma_hex_lower_len(b: Seq<u8>)
    ensures
        hex_lower(b).len() == 2 * b.len(),
    decreases b.len(),
{
    if b.len() > 0 {
        lemma_hex_lower_len(b.drop_last());
    }
}

/// `hex::encode`: two lowercase hexadecimal digits per byte, high nibble first.
#[verifier::external_body]
pub(crate) fn hex_encode(bytes: &[u8]) -> (r: String)
    ensures
        r@ == hex_lower(bytes@),
{
    hex::encode(bytes)
}

/// The value of an ASCII hexadecimal digit of either case, if `c` is one.
pub open spec fn hex_value(c: char) -> Option<nat> {
    if '0' <= c && c <= '9' {
        Some(((c as u32) - ('0' as u32)) as nat)
    } else if 'a' <= c && c <= 'f' {
        Some(((c as u32) - ('a' as u32) + 10) as nat)
    } else if 'A' <= c && c <= 'F' {
        Some(((c as u32) - ('A' as u32) + 10) as nat)
    } else {
        None
    }
}

/// What `hex::decode` accepts and returns: an even number of hexadecimal digits of either
/// case, each pair one byte, high nibble first.
pub open spec fn hex_decode_spec(s: Seq<char>) -> Option<Seq<u8>>
    decreases s.len(),
{
    if s.len() == 0 {
        Some(Seq::<u8>::empty())
    } else if s.len() == 1 {
        None
    } else {
        let hi = hex_value(s[s.len() - 2]);
        let lo = hex_value(s[s.len() - 1]);
        match (hex_decode_spec(s.subrange(0, s.len() - 2)), hi, lo) {
            (Some(prefix), Some(h), Some(l)) => Some(prefix.push((h * 16 + l) as u8)),
            _ => None,
        }
    }
}

/// `hex::decode`: the bytes that the hexadecimal text denotes, or `None` when its length is
/// odd or it holds another character.
#[verifier::external_body]
pub(crate) fn hex_decode(text: &str) -> (r: Option<Vec<u8>>)
    ensures
        r is Some <==> hex_decode_spec(text@) is Some,
        r matches Some(b) ==> hex_decode_spec(text@) == Some(b@),
{
    hex::decode(text).ok()
}

// ---------------------------------------------------------------- SHA-256

/// What `sha2::Sha256::digest` returns for these bytes.
pub uninterp spec fn sha256_of(bytes: Seq<u8>) -> Seq<u8>;

/// `sha2::Sha256::digest`: the 32-byte SHA-256 digest of the bytes.
#[verifier::external_body]
pub(crate) fn sha256(bytes: &[u8]) -> (r: Vec<u8>)
    ensures
        r@ == sha256_of(bytes@),
        r@.len() == 32,
{
    sha2::Sha256::digest(bytes).to_vec()
}

} // verus!
