//! Settings values: which keys are sensitive, and how their values are sealed at rest with
//! AES-256-GCM under a key derived from the application identifier.

use vstd::prelude::*;
use vstd::utf8::{decode_utf8, encode_utf8, valid_utf8, encode_utf8_decode_utf8, encode_utf8_valid_utf8};
use crate::codec::{base64_decode, base64_decoding, base64_encode, base64_encoding, sha256, sha256_of, string_from_utf8};
use crate::crypto::{aes_gcm_max_plaintext, aes256gcm_decrypt, aes256gcm_encrypt, aes256gcm_open, aes256gcm_seal, fill_random, key_from, nonce_from, tail_from};
use crate::error::{concat2, AppError};
use crate::text::{chars_of, contains_str, has_substring, lowercase_of, starts_with_spec, strip_prefix, to_lowercase};

verus! {

/// The identifier from which the settings key is derived.
pub const APP_IDENTIFIER: &'static str = "com.cas.aether";

/// The marker in front of a sealed setting value.
pub const ENCRYPTED_PREFIX: &'static str = "encrypted:";

/// A key is sensitive when its lower-case form mentions an API key, an auth token, a
/// password or a secret.
pub open spec fn is_sensitive(key: Seq<char>) -> bool {
    let l = lowercase_of(key);
    has_substring(l, "api_key"@) || has_substring(l, "auth_token"@) || has_substring(l, "password"@)
        || has_substring(l, "secret"@)
}

/// The settings encryption key: the SHA-256 digest of the application identifier.
pub open spec fn settings_key() -> Seq<u8> {
    sha256_of(encode_utf8(APP_IDENTIFIER@))
}

/// The sealed form of a value: Base64 of the nonce followed by the AES-256-GCM ciphertext of
/// the value's UTF-8 bytes.
pub open spec fn sealed_value(value: Seq<char>, nonce: Seq<u8>) -> Seq<char> {
    base64_encoding(nonce + aes256gcm_seal(settings_key(), nonce, encode_utf8(value)))
}

/// The value that a sealed form opens to, if it decodes, authenticates and is UTF-8.
pub open spec fn opened_value(sealed: Seq<char>) -> Option<Seq<char>> {
    match base64_decoding(sealed) {
        Some(combined) => if combined.len() < 12 {
            None
        } else {
            match aes256gcm_open(
                settings_key(),
                combined.subrange(0, 12),
                combined.subrange(12, combined.len() as int),
            ) {
                Some(p) => if valid_utf8(p) {
                    Some(decode_utf8(p))
                } else {
                    None
                },
                None => None,
            }
        },
        None => None,
    }
}

/// Whether a setting key should be stored encrypted.
pub fn is_sensitive_key(key: &str) -> (r: bool)
    ensures
        r == is_sensitive(key@),
{
    let lower = to_lowercase(key);
    let l = chars_of(lower.as_str());
    contains_str(&l, "api_key") || contains_str(&l, "auth_token") || contains_str(&l, "password")
        || contains_str(&l, "secret")
}

/// The settings encryption key.
pub fn encryption_key() -> (r: [u8; 32])
    ensures
        r@ == settings_key(),
{
    let d = sha256(APP_IDENTIFIER.as_bytes());
    key_from(d.as_slice())
}

/// Whether a value of this many UTF-8 bytes can be sealed: AES-256-GCM takes it, and its
/// ciphertext fits a quarter of the address space.
pub open spec fn sealable_len(n: nat) -> bool {
    n <= aes_gcm_max_plaintext() && n + 16 <= usize::MAX / 4
}

/// Seals a value with a given nonce.
pub fn encrypt_with_nonce(value: &str, nonce: &[u8; 12]) -> (r: Result<String, AppError>)
    ensures
        r is Ok <==> sealable_len(encode_utf8(value@).len()),
        r matches Ok(s) ==> s@ == sealed_value(value@, nonce@),
        r matches Err(e) ==> e is Internal,
{
    let key = encryption_key();
    match aes256gcm_encrypt(&key, nonce, value.as_bytes()) {
        Err(e) => Err(AppError::Internal(concat2("Encryption failed: ", e.as_str()))),
        Ok(ct) => {
            let mut combined: Vec<u8> = Vec::new();
            let mut i: usize = 0;
            while i < 12
                invariant
                    i <= 12,
                    nonce@.len() == 12,
                    combined@ == nonce@.take(i as int),
                decreases 12 - i,
            {
                combined.push(nonce[i]);
                assert(nonce@.take(i + 1) =~= nonce@.take(i as int).push(nonce@[i as int]));
                i = i + 1;
            }
            assert(nonce@.take(12) =~= nonce@);
            let mut ct = ct;
            if ct.len() > usize::MAX / 4 {
                return Err(AppError::Internal(concat2("Encryption failed: ", "value too long")));
            }
            combined.append(&mut ct);
            Ok(base64_encode(combined.as_slice()))
        },
    }
}

/// Seals a value under a fresh random nonce.
pub fn encrypt(value: &str) -> (r: Result<String, AppError>)
    ensures
        r is Ok <==> sealable_len(encode_utf8(value@).len()),
        r matches Ok(s) ==> exists|nonce: Seq<u8>| nonce.len() == 12 && #[trigger] sealed_value(value@, nonce) == s@,
        r matches Err(e) ==> e is Internal,
{
    let mut nonce = [0u8; 12];
    fill_random(&mut nonce);
    let r = encrypt_with_nonce(value, &nonce);
    proof {
        if r is Ok {
            assert(sealed_value(value@, nonce@) == r->Ok_0@);
        }
    }
    r
}

/// Opens a sealed value. A value sealed by `encrypt` opens to itself.
pub fn decrypt(encrypted_value: &str) -> (r: Result<String, AppError>)
    ensures
        r is Ok <==> opened_value(encrypted_value@) is Some,
        r matches Ok(s) ==> opened_value(encrypted_value@) == Some(s@),
        r matches Err(e) ==> e is Internal,
        forall|v: Seq<char>, nonce: Seq<u8>| #![trigger sealed_value(v, nonce)]
            nonce.len() == 12 && sealed_value(v, nonce) == encrypted_value@ ==> r is Ok && r->Ok_0@ == v,
{
    let combined = match base64_decode(encrypted_value) {
        Ok(c) => c,
        Err(e) => { return Err(AppError::Internal(concat2("Base64 decode failed: ", e.as_str()))); },
    };
    if combined.len() < 12 {
        return Err(AppError::Internal(concat2("Invalid encrypted data", "")));
    }
    let key = encryption_key();
    let nonce = nonce_from(combined.as_slice());
    let ct = tail_from(combined.as_slice(), 12);
    proof {
        assert forall|v: Seq<char>, n: Seq<u8>| #![trigger sealed_value(v, n)]
            n.len() == 12 && sealed_value(v, n) == encrypted_value@ implies aes256gcm_seal(
            key@,
            nonce@,
            encode_utf8(v),
        ) == ct@ by {
            let full = n + aes256gcm_seal(settings_key(), n, encode_utf8(v));
            assert(combined@ == full);
            assert(full.subrange(0, 12) =~= n);
            assert(full.subrange(12, full.len() as int) =~= aes256gcm_seal(settings_key(), n, encode_utf8(v)));
        }
    }
    let plain = match aes256gcm_decrypt(&key, &nonce, ct.as_slice()) {
        Ok(p) => p,
        Err(e) => { return Err(AppError::Internal(concat2("Decryption failed: ", e.as_str()))); },
    };
    let ghost pb = plain@;
    match string_from_utf8(plain) {
        Ok(s) => {
            proof {
                assert forall|v: Seq<char>, n: Seq<u8>| #![trigger sealed_value(v, n)]
                    n.len() == 12 && sealed_value(v, n) == encrypted_value@ implies s@ == v by {
                    encode_utf8_decode_utf8(v);
                }
            }
            Ok(s)
        },
        Err(e) => {
            proof {
                assert forall|v: Seq<char>, n: Seq<u8>| #![trigger sealed_value(v, n)]
                    n.len() == 12 && sealed_value(v, n) == encrypted_value@ implies false by {
                    encode_utf8_valid_utf8(v);
                }
            }
            Err(AppError::Internal(concat2("Invalid UTF-8 in decrypted data: ", e.as_str())))
        },
    }
}

/// The stored form of a setting: the marker and sealed value for a sensitive key, the value
/// itself otherwise.
pub open spec fn stored_form(key: Seq<char>, value: Seq<char>, nonce: Seq<u8>) -> Seq<char> {
    if is_sensitive(key) {
        ENCRYPTED_PREFIX@ + sealed_value(value, nonce)
    } else {
        value
    }
}

/// The value to store for a setting: sealed when the key is sensitive, as given otherwise.
pub fn value_to_store(key: &str, value: &str) -> (r: Result<String, AppError>)
    ensures
        r matches Ok(s) ==> exists|nonce: Seq<u8>| nonce.len() == 12 && #[trigger] stored_form(key@, value@, nonce) == s@,
        !is_sensitive(key@) ==> r is Ok && r->Ok_0@ == value@,
        is_sensitive(key@) ==> (r is Ok <==> sealable_len(encode_utf8(value@).len())),
        r matches Err(e) ==> e is Internal,
{
    if is_sensitive_key(key) {
        let sealed = encrypt(value)?;
        let stored = concat2(ENCRYPTED_PREFIX, sealed.as_str());
        proof {
            let nonce = choose|nonce: Seq<u8>| nonce.len() == 12 && #[trigger] sealed_value(value@, nonce) == sealed@;
            assert(stored_form(key@, value@, nonce) == stored@);
        }
        Ok(stored)
    } else {
        let stored = crate::text::string_of(&chars_of(value));
        proof {
            let zeros = Seq::new(12, |i: int| 0u8);
            assert(stored_form(key@, value@, zeros) == stored@);
        }
        Ok(stored)
    }
}

/// The value a stored setting stands for: opened when it carries the marker, as stored
/// otherwise; `None` when a marked value does not open.
pub open spec fn revealed_value(stored: Seq<char>) -> Option<Seq<char>> {
    if starts_with_spec(stored, ENCRYPTED_PREFIX@) {
        opened_value(stored.subrange(ENCRYPTED_PREFIX@.len() as int, stored.len() as int))
    } else {
        Some(stored)
    }
}

/// The value a stored setting stands for: opened when it carries the marker, as stored
/// otherwise. What `value_to_store` stored for a key and value gives the value back, unless
/// the key is not sensitive and the value itself begins with the marker.
pub fn stored_value_to_value(stored: &str) -> (r: Result<String, AppError>)
    ensures
        !starts_with_spec(stored@, ENCRYPTED_PREFIX@) ==> r is Ok && r->Ok_0@ == stored@,
        starts_with_spec(stored@, ENCRYPTED_PREFIX@) ==> (r is Ok <==> opened_value(
            stored@.subrange(ENCRYPTED_PREFIX@.len() as int, stored@.len() as int),
        ) is Some),
        r matches Err(e) ==> e is Internal,
        r is Ok <==> revealed_value(stored@) is Some,
        r matches Ok(v) ==> revealed_value(stored@) == Some(v@),
        forall|key: Seq<char>, value: Seq<char>, nonce: Seq<u8>| #![trigger stored_form(key, value, nonce)]
            nonce.len() == 12 && stored_form(key, value, nonce) == stored@ && (is_sensitive(key)
                || !starts_with_spec(value, ENCRYPTED_PREFIX@)) ==> r is Ok && r->Ok_0@ == value,
{
    match strip_prefix(stored, ENCRYPTED_PREFIX) {
        Some(rest) => {
            proof {
                assert forall|key: Seq<char>, value: Seq<char>, nonce: Seq<u8>| #![trigger stored_form(key, value, nonce)]
                    nonce.len() == 12 && stored_form(key, value, nonce) == stored@ && (is_sensitive(key)
                        || !starts_with_spec(value, ENCRYPTED_PREFIX@)) implies sealed_value(value, nonce) == rest@ by {
                    if is_sensitive(key) {
                        let full = ENCRYPTED_PREFIX@ + sealed_value(value, nonce);
                        assert(full.subrange(ENCRYPTED_PREFIX@.len() as int, full.len() as int) =~= sealed_value(value, nonce));
                    }
                }
            }
            decrypt(rest.as_str())
        },
        None => {
            let s = crate::text::string_of(&chars_of(stored));
            proof {
                assert forall|key: Seq<char>, value: Seq<char>, nonce: Seq<u8>| #![trigger stored_form(key, value, nonce)]
                    nonce.len() == 12 && stored_form(key, value, nonce) == stored@ && (is_sensitive(key)
                        || !starts_with_spec(value, ENCRYPTED_PREFIX@)) implies value == s@ by {
                    if is_sensitive(key) {
                        let full = ENCRYPTED_PREFIX@ + sealed_value(value, nonce);
                        assert(full.subrange(0, ENCRYPTED_PREFIX@.len() as int) =~= ENCRYPTED_PREFIX@);
                    }
                }
            }
            Ok(s)
        },
    }
}

/// The settings as the application sees them: each stored value revealed, in order. The
/// first value that does not open makes the whole read fail.
pub fn reveal_settings(stored: &Vec<(String, String)>) -> (r: Result<Vec<(String, String)>, AppError>)
    ensures
        r is Ok <==> forall|k: int| 0 <= k < stored@.len() ==> (#[trigger] revealed_value(stored@[k].1@)) is Some,
        r matches Ok(v) ==> v@.len() == stored@.len() && forall|k: int| 0 <= k < stored@.len() ==> {
            &&& (#[trigger] v@[k]).0 == stored@[k].0
            &&& revealed_value(stored@[k].1@) == Some(v@[k].1@)
        },
        r matches Err(e) ==> e is Internal,
{
    let mut out: Vec<(String, String)> = Vec::new();
    let mut i: usize = 0;
    while i < stored.len()
        invariant
            i <= stored@.len(),
            out@.len() == i,
            forall|k: int| 0 <= k < i ==> (#[trigger] revealed_value(stored@[k].1@)) is Some,
            forall|k: int| 0 <= k < i ==> {
                &&& (#[trigger] out@[k]).0 == stored@[k].0
                &&& revealed_value(stored@[k].1@) == Some(out@[k].1@)
            },
        decreases stored@.len() - i,
    {
        let (key, value) = &stored[i];
        let v = match stored_value_to_value(value.as_str()) {
            Ok(v) => v,
            Err(e) => {
                assert(revealed_value(stored@[i as int].1@) is None);
                return Err(e);
            },
        };
        out.push((key.clone(), v));
        i = i + 1;
    }
    Ok(out)
}

/// The pattern that selects the settings under a prefix: the prefix followed by `%`.
pub fn prefix_pattern(prefix: &str) -> (r: String)
    ensures
        r@ == prefix@ + "%"@,
{
    concat2(prefix, "%")
}

} // verus!
