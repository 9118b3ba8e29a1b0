//! Sync metadata: the device id, the key material that lets a passphrase be checked, and the
//! server's salt.

use vstd::prelude::*;
use vstd::utf8::encode_utf8;
use crate::codec::{base64_decode, base64_decoding, hex_decode, hex_decode_spec, hex_digit, hex_encode, hex_lower, hex_value, lemma_hex_lower_len, sha256, sha256_of, utf8_bytes};
use crate::error::{error_detail, AppError};
use crate::sync_crypto::{derive_key, key_check_hash, key_check_of, sync_key};
use crate::text::{owned, push_char, push_str, str_eq};

verus! {

/// The bytes from `start` up to `end`.
fn byte_range(bytes: &[u8], start: usize, end: usize) -> (r: Vec<u8>)
    requires
        start <= end <= bytes@.len(),
    ensures
        r@ == bytes@.subrange(start as int, end as int),
{
    let mut r: Vec<u8> = Vec::new();
    let mut i = start;
    while i < end
        invariant
            start <= i <= end <= bytes@.len(),
            r@ == bytes@.subrange(start as int, i as int),
        decreases end - i,
    {
        r.push(bytes[i]);
        assert(bytes@.subrange(start as int, i + 1) =~= bytes@.subrange(start as int, i as int).push(bytes@[i as int]));
        i = i + 1;
    }
    r
}

/// A device id in UUID layout from a digest: its first sixteen bytes in lower-case hex,
/// grouped 4-2-2-2-6 bytes and joined by hyphens.
pub open spec fn device_id_layout(h: Seq<u8>) -> Seq<char> {
    hex_lower(h.subrange(0, 4)) + "-"@ + hex_lower(h.subrange(4, 6)) + "-"@ + hex_lower(h.subrange(6, 8)) + "-"@
        + hex_lower(h.subrange(8, 10)) + "-"@ + hex_lower(h.subrange(10, 16))
}

/// The device id of a machine: the layout of the SHA-256 of `aether-sync-device-v1:` followed
/// by the machine's identifier.
pub open spec fn device_id_for(machine_id: Seq<char>) -> Seq<char> {
    device_id_layout(sha256_of(encode_utf8("aether-sync-device-v1:"@) + encode_utf8(machine_id)))
}

/// The stable device id of a machine, from its identifier; the same identifier always gives
/// the same id.
pub fn generate_device_id(machine_id: &str) -> (r: String)
    ensures
        r@ == device_id_for(machine_id@),
{
    let mut bytes = utf8_bytes("aether-sync-device-v1:");
    let mut rest = utf8_bytes(machine_id);
    bytes.append(&mut rest);
    let h = sha256(bytes.as_slice());
    let a = hex_encode(byte_range(h.as_slice(), 0, 4).as_slice());
    let b = hex_encode(byte_range(h.as_slice(), 4, 6).as_slice());
    let c = hex_encode(byte_range(h.as_slice(), 6, 8).as_slice());
    let d = hex_encode(byte_range(h.as_slice(), 8, 10).as_slice());
    let e = hex_encode(byte_range(h.as_slice(), 10, 16).as_slice());
    let mut r = a;
    push_char(&mut r, '-');
    push_str(&mut r, b.as_str());
    push_char(&mut r, '-');
    push_str(&mut r, c.as_str());
    push_char(&mut r, '-');
    push_str(&mut r, d.as_str());
    push_char(&mut r, '-');
    push_str(&mut r, e.as_str());
    proof {
        reveal_strlit("-");
    }
    r
}

/// Hexadecimal text decodes to the bytes it was written from.
pub proof fn lemma_hex_roundtrip(b: Seq<u8>)
    ensures
        hex_decode_spec(hex_lower(b)) == Some(b),
    decreases b.len(),
{
    if b.len() > 0 {
        let s = hex_lower(b);
        lemma_hex_roundtrip(b.drop_last());
        lemma_hex_lower_len(b.drop_last());
        lemma_hex_lower_len(b);
        assert(s.subrange(0, s.len() - 2) =~= hex_lower(b.drop_last()));
        let x = b.last();
        let hi = (x / 16) as nat;
        let lo = (x % 16) as nat;
        assert(hex_value(hex_digit(hi)) == Some(hi));
        assert(hex_value(hex_digit(lo)) == Some(lo));
        assert((hi * 16 + lo) as u8 == x);
        assert(b.drop_last().push(x) =~= b);
    }
}

/// What is stored so that a passphrase can be checked later: the salt in hex and the key
/// check of the derived key.
#[derive(Debug, Clone)]
pub struct KeyMaterial {
    pub key: [u8; 32],
    pub salt_hex: String,
    pub key_check: String,
}

/// Derives the sync key from the passphrase and the server's salt, with the material to store:
/// the salt in hex and the key check.
pub fn configure_key(passphrase: &str, salt: &[u8; 16]) -> (r: Result<KeyMaterial, AppError>)
    ensures
        r is Ok <==> encode_utf8(passphrase@).len() <= 0xFFFF_FFFF,
        r matches Ok(m) ==> m.key@ == sync_key(passphrase@, salt@) && m.salt_hex@ == hex_lower(salt@)
            && m.key_check@ == key_check_of(m.key@),
        r matches Err(e) ==> e is Sync,
{
    let key = derive_key(passphrase, salt)?;
    let salt_hex = hex_encode(salt);
    let key_check = key_check_hash(&key);
    Ok(KeyMaterial { key, salt_hex, key_check })
}

/// The outcome of checking a passphrase against stored key material.
pub open spec fn key_verification(passphrase: Seq<char>, salt_hex: Option<Seq<char>>, key_check: Option<Seq<char>>) -> Result<Seq<u8>, Seq<char>> {
    match salt_hex {
        None => Err("key_salt not set"@),
        Some(h) => match hex_decode_spec(h) {
            None => Err("key_salt not set"@),
            Some(salt) => if salt.len() != 16 {
                Err("invalid key_salt length"@)
            } else if encode_utf8(passphrase).len() > 0xFFFF_FFFF {
                Err("Argon2"@)
            } else {
                match key_check {
                    None => Err("key_check not set"@),
                    Some(check) => if key_check_of(sync_key(passphrase, salt)) != check {
                        Err("passphrase verification failed"@)
                    } else {
                        Ok(sync_key(passphrase, salt))
                    },
                }
            },
        },
    }
}

/// Checks a passphrase against the stored salt (hex) and key check, returning the derived key.
/// A missing or undecodable salt, a salt that is not 16 bytes, a missing key check and a
/// mismatch are each a `Sync` error with its own message.
pub fn verify_key(passphrase: &str, salt_hex: Option<&str>, key_check: Option<&str>) -> (r: Result<[u8; 32], AppError>)
    ensures
        match key_verification(passphrase@, match salt_hex { Some(h) => Some(h@), None => None }, match key_check { Some(c) => Some(c@), None => None }) {
            Ok(k) => r is Ok && r->Ok_0@ == k,
            Err(m) => r is Err && r->Err_0 is Sync && (m != "Argon2"@ ==> error_detail(r->Err_0) == m),
        },
{
    proof {
        reveal_strlit("Argon2");
        reveal_strlit("key_salt not set");
        reveal_strlit("invalid key_salt length");
        reveal_strlit("key_check not set");
        reveal_strlit("passphrase verification failed");
    }
    let salt = match salt_hex {
        None => { return Err(AppError::Sync(owned("key_salt not set"))); },
        Some(h) => match hex_decode(h) {
            None => { return Err(AppError::Sync(owned("key_salt not set"))); },
            Some(s) => s,
        },
    };
    if salt.len() != 16 {
        return Err(AppError::Sync(owned("invalid key_salt length")));
    }
    let key = derive_key(passphrase, salt.as_slice())?;
    let stored = match key_check {
        None => { return Err(AppError::Sync(owned("key_check not set"))); },
        Some(c) => c,
    };
    let computed = key_check_hash(&key);
    if !str_eq(computed.as_str(), stored) {
        return Err(AppError::Sync(owned("passphrase verification failed")));
    }
    Ok(key)
}

/// A passphrase checks out against the material stored when it was configured, and gives back
/// the key derived then.
pub proof fn law_configured_key_verifies(passphrase: Seq<char>, salt: Seq<u8>)
    requires
        salt.len() == 16,
        encode_utf8(passphrase).len() <= 0xFFFF_FFFF,
    ensures
        key_verification(passphrase, Some(hex_lower(salt)), Some(key_check_of(sync_key(passphrase, salt))))
            == Ok::<Seq<u8>, Seq<char>>(sync_key(passphrase, salt)),
{
    lemma_hex_roundtrip(salt);
}

/// The salt that the server sends, Base64-encoded: a `Sync` error when it is not Base64 or
/// not 16 bytes.
pub fn decode_server_salt(text: &str) -> (r: Result<[u8; 16], AppError>)
    ensures
        r is Ok <==> (base64_decoding(text@) matches Some(b) && b.len() == 16),
        r matches Ok(s) ==> base64_decoding(text@) == Some(s@),
        r matches Err(e) ==> e is Sync,
        (base64_decoding(text@) matches Some(b) && b.len() != 16) ==> (r matches Err(e) && error_detail(e)
            == "invalid salt length from server"@),
{
    let bytes = match base64_decode(text) {
        Ok(b) => b,
        Err(e) => {
            let mut m = owned("invalid base64 salt: ");
            push_str(&mut m, e.as_str());
            return Err(AppError::Sync(m));
        },
    };
    if bytes.len() != 16 {
        return Err(AppError::Sync(owned("invalid salt length from server")));
    }
    let mut salt = [0u8; 16];
    let mut i: usize = 0;
    while i < 16
        invariant
            bytes@.len() == 16,
            i <= 16,
            salt@.len() == 16,
            forall|k: int| 0 <= k < i ==> salt@[k] == bytes@[k],
        decreases 16 - i,
    {
        salt[i] = bytes[i];
        i = i + 1;
    }
    assert(salt@ =~= bytes@);
    Ok(salt)
}

/// The stored value of the trigger-suppression flag, `"0"` when none is stored.
pub fn suppress_triggers_value(stored: Option<String>) -> (r: String)
    ensures
        r@ == (match stored { Some(s) => s@, None => "0"@ }),
{
    match stored {
        Some(s) => s,
        None => owned("0"),
    }
}

} // verus!
