//! Sync encryption: Argon2id key derivation and ChaCha20-Poly1305 for transport and media
//! blobs.

use vstd::prelude::*;
use vstd::utf8::encode_utf8;
use crate::codec::{
    base64_decode, base64_decoding, base64_encode, base64_encoding, hex_encode, hex_lower,
    lemma_hex_lower_len, sha256, sha256_of,
};
use crate::crypto::{
    argon2_hash_into, argon2id_key, chacha20_max_blocks, chacha20poly1305_decrypt, chacha20poly1305_encrypt,
    chacha20poly1305_open, chacha20poly1305_seal, fill_random, nonce_from, tail_from,
};
use crate::error::{concat2, AppError};
use crate::sync_types::EncryptedChange;

verus! {

/// Bytes of salt for key derivation.
pub const SALT_LEN: usize = 16;

/// Bytes of a nonce.
pub const NONCE_LEN: usize = 12;

/// Bytes of a key.
pub const KEY_LEN: usize = 32;

/// The sync key that a passphrase and salt derive.
pub open spec fn sync_key(passphrase: Seq<char>, salt: Seq<u8>) -> Seq<u8> {
    argon2id_key(encode_utf8(passphrase), salt)
}

/// The transport form of a change sealed under `key` with `nonce`: the Base64 nonce and the
/// Base64 ciphertext.
pub open spec fn sealed_change(key: Seq<u8>, nonce: Seq<u8>, plaintext: Seq<u8>) -> (Seq<char>, Seq<char>) {
    (base64_encoding(nonce), base64_encoding(chacha20poly1305_seal(key, nonce, plaintext)))
}

/// The plaintext of a transport change, if its nonce and ciphertext decode and authenticate.
pub open spec fn opened_change(key: Seq<u8>, nonce_b64: Seq<char>, ciphertext_b64: Seq<char>) -> Option<Seq<u8>> {
    match (base64_decoding(nonce_b64), base64_decoding(ciphertext_b64)) {
        (Some(nonce), Some(ct)) => if nonce.len() == NONCE_LEN {
            chacha20poly1305_open(key, nonce, ct)
        } else {
            None
        },
        _ => None,
    }
}

/// A media blob sealed under `key` with `nonce`: the nonce followed by the ciphertext.
pub open spec fn sealed_blob(key: Seq<u8>, nonce: Seq<u8>, plaintext: Seq<u8>) -> Seq<u8> {
    nonce + chacha20poly1305_seal(key, nonce, plaintext)
}

/// The plaintext of a media blob, if it is long enough and authenticates.
pub open spec fn opened_blob(key: Seq<u8>, body: Seq<u8>) -> Option<Seq<u8>> {
    if body.len() < NONCE_LEN {
        None
    } else {
        chacha20poly1305_open(key, body.subrange(0, 12), body.subrange(12, body.len() as int))
    }
}

/// Derives a 32-byte key from a passphrase and salt with Argon2id.
pub fn derive_key(passphrase: &str, salt: &[u8]) -> (r: Result<[u8; 32], AppError>)
    ensures
        r is Ok <==> (encode_utf8(passphrase@).len() <= 0xFFFF_FFFF && 8 <= salt@.len() <= 0xFFFF_FFFF),
        r matches Ok(k) ==> k@ == sync_key(passphrase@, salt@),
        r matches Err(e) ==> e is Sync,
{
    match argon2_hash_into(passphrase.as_bytes(), salt) {
        Ok(k) => Ok(k),
        Err(e) => Err(AppError::Sync(concat2("Argon2: ", e.as_str()))),
    }
}

/// Seals a change's plaintext under `key` with the given nonce, returning the Base64 nonce
/// and ciphertext.
pub fn encrypt_with_nonce(key: &[u8; 32], nonce: &[u8; 12], plaintext: &[u8]) -> (r: Result<(String, String), AppError>)
    requires
        plaintext@.len() <= usize::MAX / 4,
    ensures
        r is Ok <==> plaintext@.len() / 64 < chacha20_max_blocks(),
        r matches Ok((n, c)) ==> (n@, c@) == sealed_change(key@, nonce@, plaintext@),
        r matches Err(e) ==> e is Sync,
{
    match chacha20poly1305_encrypt(key, nonce, plaintext) {
        Err(e) => Err(AppError::Sync(concat2("encrypt: ", e.as_str()))),
        Ok(ct) => {
            let n = base64_encode(nonce);
            let c = base64_encode(ct.as_slice());
            Ok((n, c))
        },
    }
}

/// Seals plaintext with ChaCha20-Poly1305 under a fresh random nonce; returns the Base64
/// nonce and ciphertext.
pub fn encrypt(key: &[u8; 32], plaintext: &[u8]) -> (r: Result<(String, String), AppError>)
    requires
        plaintext@.len() <= usize::MAX / 4,
    ensures
        r is Ok <==> plaintext@.len() / 64 < chacha20_max_blocks(),
        r matches Ok((n, c)) ==> exists|nonce: Seq<u8>|
            nonce.len() == NONCE_LEN && #[trigger] sealed_change(key@, nonce, plaintext@) == (n@, c@),
        r matches Err(e) ==> e is Sync,
{
    let mut nonce = [0u8; 12];
    fill_random(&mut nonce);
    let r = encrypt_with_nonce(key, &nonce, plaintext);
    proof {
        if r is Ok {
            let (n, c) = r->Ok_0;
            assert(sealed_change(key@, nonce@, plaintext@) == (n@, c@));
        }
    }
    r
}

/// Opens a transport change: decodes the Base64 nonce and ciphertext and decrypts. A change
/// sealed under `key` opens to its plaintext.
pub fn decrypt(key: &[u8; 32], nonce_base64: &str, ciphertext_base64: &str) -> (r: Result<Vec<u8>, AppError>)
    ensures
        r is Ok <==> opened_change(key@, nonce_base64@, ciphertext_base64@) is Some,
        r matches Ok(p) ==> opened_change(key@, nonce_base64@, ciphertext_base64@) == Some(p@),
        r matches Err(e) ==> e is Sync,
        forall|nonce: Seq<u8>, p: Seq<u8>| #![trigger sealed_change(key@, nonce, p)]
            nonce.len() == NONCE_LEN && sealed_change(key@, nonce, p) == (nonce_base64@, ciphertext_base64@)
                ==> r is Ok && r->Ok_0@ == p,
{
    let nonce = match base64_decode(nonce_base64) {
        Ok(n) => n,
        Err(e) => { return Err(AppError::Sync(concat2("base64 nonce: ", e.as_str()))); },
    };
    let ciphertext = match base64_decode(ciphertext_base64) {
        Ok(c) => c,
        Err(e) => { return Err(AppError::Sync(concat2("base64 ciphertext: ", e.as_str()))); },
    };
    if nonce.len() != 12 {
        return Err(AppError::Sync(concat2("invalid nonce length", "")));
    }
    let nonce_arr = nonce_from(nonce.as_slice());
    assert(nonce@.subrange(0, 12) =~= nonce@);
    match chacha20poly1305_decrypt(key, &nonce_arr, ciphertext.as_slice()) {
        Ok(p) => Ok(p),
        Err(e) => Err(AppError::Sync(concat2("decrypt: ", e.as_str()))),
    }
}

/// The verification string of a key: the lowercase hex of its SHA-256 digest.
pub open spec fn key_check_of(key: Seq<u8>) -> Seq<char> {
    hex_lower(sha256_of(key))
}

/// The hash stored to verify a key later (`key_check`): 64 lowercase hex digits.
pub fn key_check_hash(key: &[u8; 32]) -> (r: String)
    ensures
        r@ == key_check_of(key@),
        r@.len() == 64,
{
    let d = sha256(key);
    proof {
        lemma_hex_lower_len(d@);
    }
    hex_encode(d.as_slice())
}

/// A fresh random salt for key derivation.
pub fn generate_salt() -> (r: [u8; 16])
    ensures
        r@.len() == SALT_LEN,
{
    let mut s = [0u8; 16];
    fill_random(&mut s);
    s
}

/// Seals a media blob under `key` with the given nonce: the nonce followed by the
/// ciphertext.
pub fn encrypt_blob_with_nonce(key: &[u8; 32], nonce: &[u8; 12], plaintext: &[u8]) -> (r: Result<Vec<u8>, AppError>)
    ensures
        r is Ok <==> plaintext@.len() / 64 < chacha20_max_blocks(),
        r matches Ok(b) ==> b@ == sealed_blob(key@, nonce@, plaintext@),
        r matches Err(e) ==> e is Sync,
{
    match chacha20poly1305_encrypt(key, nonce, plaintext) {
        Err(e) => Err(AppError::Sync(concat2("encrypt blob: ", e.as_str()))),
        Ok(ct) => {
            let mut out: Vec<u8> = Vec::new();
            let mut i: usize = 0;
            while i < 12
                invariant
                    i <= 12,
                    nonce@.len() == 12,
                    out@ == nonce@.take(i as int),
                decreases 12 - i,
            {
                out.push(nonce[i]);
                assert(nonce@.take(i + 1) =~= nonce@.take(i as int).push(nonce@[i as int]));
                i = i + 1;
            }
            assert(nonce@.take(12) =~= nonce@);
            let mut ct = ct;
            out.append(&mut ct);
            Ok(out)
        },
    }
}

/// Seals a media blob under a fresh random nonce: the 12-byte nonce followed by the
/// ciphertext.
pub fn encrypt_blob(key: &[u8; 32], plaintext: &[u8]) -> (r: Result<Vec<u8>, AppError>)
    ensures
        r is Ok <==> plaintext@.len() / 64 < chacha20_max_blocks(),
        r matches Ok(b) ==> exists|nonce: Seq<u8>|
            nonce.len() == NONCE_LEN && #[trigger] sealed_blob(key@, nonce, plaintext@) == b@,
        r matches Err(e) ==> e is Sync,
{
    let mut nonce = [0u8; 12];
    fill_random(&mut nonce);
    let r = encrypt_blob_with_nonce(key, &nonce, plaintext);
    proof {
        if r is Ok {
            assert(sealed_blob(key@, nonce@, plaintext@) == r->Ok_0@);
        }
    }
    r
}

/// Opens a media blob (a 12-byte nonce followed by the ciphertext). A blob sealed under `key`
/// opens to its plaintext.
pub fn decrypt_blob(key: &[u8; 32], body: &[u8]) -> (r: Result<Vec<u8>, AppError>)
    ensures
        r is Ok <==> opened_blob(key@, body@) is Some,
        r matches Ok(p) ==> opened_blob(key@, body@) == Some(p@),
        r matches Err(e) ==> e is Sync,
        forall|nonce: Seq<u8>, p: Seq<u8>| #![trigger sealed_blob(key@, nonce, p)]
            nonce.len() == NONCE_LEN && sealed_blob(key@, nonce, p) == body@ ==> r is Ok && r->Ok_0@ == p,
{
    if body.len() < 12 {
        return Err(AppError::Sync(concat2("blob too short", "")));
    }
    let nonce = nonce_from(body);
    let ct = tail_from(body, 12);
    proof {
        assert forall|n: Seq<u8>, p: Seq<u8>| #![trigger sealed_blob(key@, n, p)]
            n.len() == NONCE_LEN && sealed_blob(key@, n, p) == body@ implies chacha20poly1305_seal(
            key@,
            nonce@,
            p,
        ) == ct@ by {
            assert(body@.subrange(0, 12) =~= n);
            assert(body@.subrange(12, body@.len() as int) =~= chacha20poly1305_seal(key@, n, p));
        }
    }
    match chacha20poly1305_decrypt(key, &nonce, ct.as_slice()) {
        Ok(p) => Ok(p),
        Err(e) => Err(AppError::Sync(concat2("decrypt blob: ", e.as_str()))),
    }
}

/// The plaintexts of a pulled page, in order, or the first change that does not open.
pub open spec fn opened_page(key: Seq<u8>, changes: Seq<EncryptedChange>) -> Option<Seq<Seq<u8>>>
    decreases changes.len(),
{
    if changes.len() == 0 {
        Some(Seq::<Seq<u8>>::empty())
    } else {
        match (opened_page(key, changes.drop_last()), opened_change(
            key,
            changes.last().nonce@,
            changes.last().ciphertext@,
        )) {
            (Some(prev), Some(p)) => Some(prev.push(p)),
            _ => None,
        }
    }
}

/// Decrypts every change of a pulled page; the whole page is refused when one change does
/// not open, with an error that names the pull decryption.
pub fn decode_changes(key: &[u8; 32], changes: &[EncryptedChange]) -> (r: Result<Vec<Vec<u8>>, AppError>)
    ensures
        r is Ok <==> opened_page(key@, changes@) is Some,
        r matches Ok(v) ==> opened_page(key@, changes@) == Some(v@.map_values(|b: Vec<u8>| b@)),
        r matches Err(e) ==> e is Sync && crate::text::has_substring(e->Sync_0@, "pull decrypt"@),
{
    let mut out: Vec<Vec<u8>> = Vec::new();
    let mut i: usize = 0;
    while i < changes.len()
        invariant
            i <= changes@.len(),
            opened_page(key@, changes@.take(i as int)) == Some(out@.map_values(|b: Vec<u8>| b@)),
        decreases changes@.len() - i,
    {
        assert(changes@.take(i + 1).drop_last() =~= changes@.take(i as int));
        assert(changes@.take(i + 1).last() == changes@[i as int]);
        match decrypt(key, changes[i].nonce.as_str(), changes[i].ciphertext.as_str()) {
            Ok(p) => {
                out.push(p);
                assert(out@.map_values(|b: Vec<u8>| b@) =~= out@.drop_last().map_values(
                    |b: Vec<u8>| b@,
                ).push(out@.last()@));
            },
            Err(e) => {
                proof {
                    lemma_opened_page_prefix(key@, changes@, i as int + 1);
                }
                let msg = e.message();
                let full = concat2("pull decrypt: ", msg.as_str());
                proof {
                    reveal_strlit("pull decrypt: ");
                    reveal_strlit("pull decrypt");
                    assert(full@.subrange(0, 12) =~= "pull decrypt"@);
                    assert(crate::text::occurs_at(full@, "pull decrypt"@, 0));
                }
                return Err(AppError::Sync(full));
            },
        }
        i = i + 1;
    }
    assert(changes@.take(changes@.len() as int) =~= changes@);
    Ok(out)
}

proof fn lemma_opened_page_prefix(key: Seq<u8>, changes: Seq<EncryptedChange>, k: int)
    requires
        0 <= k <= changes.len(),
        opened_page(key, changes.take(k)) is None,
    ensures
        opened_page(key, changes) is None,
    decreases changes.len() - k,
{
    if k < changes.len() {
        assert(changes.take(k + 1).drop_last() =~= changes.take(k));
        lemma_opened_page_prefix(key, changes, k + 1);
    } else {
        assert(changes.take(k) =~= changes);
    }
}

} // verus!
