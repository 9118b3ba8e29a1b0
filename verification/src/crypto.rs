//! The cryptographic primitives the library calls: Argon2id key derivation,
//! ChaCha20-Poly1305 and AES-256-GCM authenticated encryption, and the operating system's
//! random number generator.

use vstd::prelude::*;
use chacha20poly1305::aead::{Aead, KeyInit};
use rand::RngCore;

verus! {

// ---------------------------------------------------------------- randomness

/// Fills the buffer with bytes from the operating system's random number generator
/// (`OsRng::fill_bytes` of `rand::RngCore`). Nothing is stated of the bytes but their number;
/// the generator panics if the operating system cannot supply randomness.
#[verifier::external_body]
pub(crate) fn fill_random(buf: &mut [u8])
    ensures
        final(buf)@.len() == old(buf)@.len(),
{
    chacha20poly1305::aead::OsRng.fill_bytes(buf)
}

// ---------------------------------------------------------------- Argon2id

/// What `Argon2::default().hash_password_into` writes into a 32-byte output for this
/// password and salt.
pub uninterp spec fn argon2id_key(password: Seq<u8>, salt: Seq<u8>) -> Seq<u8>;

/// `argon2::Argon2::default().hash_password_into` with a 32-byte output: the derived key,
/// or the crate's error message. The crate refuses a password longer than `0xFFFF_FFFF`
/// bytes and a salt shorter than 8 or longer than `0xFFFF_FFFF` bytes, and nothing else.
#[verifier::external_body]
pub(crate) fn argon2_hash_into(password: &[u8], salt: &[u8]) -> (r: Result<[u8; 32], String>)
    ensures
        r is Ok <==> (password@.len() <= 0xFFFF_FFFF && 8 <= salt@.len() <= 0xFFFF_FFFF),
        r matches Ok(k) ==> k@ == argon2id_key(password@, salt@),
{
    let mut out = [0u8; 32];
    argon2::Argon2::default().hash_password_into(password, salt, &mut out).map(|_| out).map_err(
        |e| e.to_string(),
    )
}

// ---------------------------------------------------------------- ChaCha20-Poly1305

/// What ChaCha20-Poly1305 encryption returns for this key, nonce and plaintext (with no
/// associated data): the ciphertext followed by the tag.
pub uninterp spec fn chacha20poly1305_seal(key: Seq<u8>, nonce: Seq<u8>, plaintext: Seq<u8>) -> Seq<u8>;

/// What ChaCha20-Poly1305 decryption returns for this key, nonce and ciphertext: the
/// plaintext, or `None` when the tag does not authenticate.
pub uninterp spec fn chacha20poly1305_open(key: Seq<u8>, nonce: Seq<u8>, ciphertext: Seq<u8>) -> Option<Seq<u8>>;

/// The most 64-byte blocks ChaCha20-Poly1305 seals under one nonce (its 32-bit block counter).
pub open spec fn chacha20_max_blocks() -> nat {
    0xFFFF_FFFF
}

/// `ChaCha20Poly1305::encrypt` with no associated data: the sealed ciphertext, which is the
/// plaintext's length plus a 16-byte tag, or the crate's error message. It refuses exactly the
/// plaintexts of `chacha20_max_blocks` or more whole 64-byte blocks.
#[verifier::external_body]
pub(crate) fn chacha20poly1305_encrypt(key: &[u8; 32], nonce: &[u8; 12], plaintext: &[u8]) -> (r: Result<Vec<u8>, String>)
    ensures
        r is Ok <==> plaintext@.len() / 64 < chacha20_max_blocks(),
        r matches Ok(c) ==> c@ == chacha20poly1305_seal(key@, nonce@, plaintext@),
        r matches Ok(c) ==> c@.len() == plaintext@.len() + 16,
{
    chacha20poly1305::ChaCha20Poly1305::new(key.into()).encrypt(nonce.into(), plaintext).map_err(
        |e| e.to_string(),
    )
}

/// `ChaCha20Poly1305::decrypt` with no associated data: the plaintext, or the crate's error
/// message when the tag does not authenticate. Decrypting what encryption sealed under the
/// same key and nonce gives the plaintext back.
#[verifier::external_body]
pub(crate) fn chacha20poly1305_decrypt(key: &[u8; 32], nonce: &[u8; 12], ciphertext: &[u8]) -> (r: Result<Vec<u8>, String>)
    ensures
        r is Ok <==> chacha20poly1305_open(key@, nonce@, ciphertext@) is Some,
        r matches Ok(p) ==> chacha20poly1305_open(key@, nonce@, ciphertext@) == Some(p@),
        forall|p: Seq<u8>| #[trigger] chacha20poly1305_seal(key@, nonce@, p) == ciphertext@ ==> r is Ok && r->Ok_0@ == p,
{
    chacha20poly1305::ChaCha20Poly1305::new(key.into()).decrypt(nonce.into(), ciphertext).map_err(
        |e| e.to_string(),
    )
}

// ---------------------------------------------------------------- AES-256-GCM

/// What AES-256-GCM encryption returns for this key, nonce and plaintext (with no
/// associated data): the ciphertext followed by the tag.
pub uninterp spec fn aes256gcm_seal(key: Seq<u8>, nonce: Seq<u8>, plaintext: Seq<u8>) -> Seq<u8>;

/// What AES-256-GCM decryption returns for this key, nonce and ciphertext: the plaintext, or
/// `None` when the tag does not authenticate.
pub uninterp spec fn aes256gcm_open(key: Seq<u8>, nonce: Seq<u8>, ciphertext: Seq<u8>) -> Option<Seq<u8>>;

/// The longest plaintext AES-256-GCM seals (`P_MAX` of the crate: 2^36 bytes).
pub open spec fn aes_gcm_max_plaintext() -> nat {
    0x10_0000_0000
}

/// `Aes256Gcm::encrypt` with no associated data: the sealed ciphertext, which is the
/// plaintext's length plus a 16-byte tag, or the crate's error message. It refuses exactly the
/// plaintexts longer than `aes_gcm_max_plaintext`.
#[verifier::external_body]
pub(crate) fn aes256gcm_encrypt(key: &[u8; 32], nonce: &[u8; 12], plaintext: &[u8]) -> (r: Result<Vec<u8>, String>)
    ensures
        r is Ok <==> plaintext@.len() <= aes_gcm_max_plaintext(),
        r matches Ok(c) ==> c@ == aes256gcm_seal(key@, nonce@, plaintext@),
        r matches Ok(c) ==> c@.len() == plaintext@.len() + 16,
{
    aes_gcm::Aes256Gcm::new(key.into()).encrypt(nonce.into(), plaintext).map_err(|e| e.to_string())
}

/// `Aes256Gcm::decrypt` with no associated data: the plaintext, or the crate's error message
/// when the tag does not authenticate. Decrypting what encryption sealed under the same key
/// and nonce gives the plaintext back.
#[verifier::external_body]
pub(crate) fn aes256gcm_decrypt(key: &[u8; 32], nonce: &[u8; 12], ciphertext: &[u8]) -> (r: Result<Vec<u8>, String>)
    ensures
        r is Ok <==> aes256gcm_open(key@, nonce@, ciphertext@) is Some,
        r matches Ok(p) ==> aes256gcm_open(key@, nonce@, ciphertext@) == Some(p@),
        forall|p: Seq<u8>| #[trigger] aes256gcm_seal(key@, nonce@, p) == ciphertext@ ==> r is Ok && r->Ok_0@ == p,
{
    aes_gcm::Aes256Gcm::new(key.into()).decrypt(nonce.into(), ciphertext).map_err(|e| e.to_string())
}

// ---------------------------------------------------------------- fixed-size arrays

/// The first twelve bytes as a nonce.
pub fn nonce_from(bytes: &[u8]) -> (r: [u8; 12])
    requires
        bytes@.len() >= 12,
    ensures
        r@ == bytes@.subrange(0, 12),
{
    let mut r = [0u8; 12];
    let mut i: usize = 0;
    while i < 12
        invariant
            bytes@.len() >= 12,
            i <= 12,
            r@.len() == 12,
            forall|k: int| 0 <= k < i ==> r@[k] == bytes@[k],
        decreases 12 - i,
    {
        r[i] = bytes[i];
        i = i + 1;
    }
    assert(r@ =~= bytes@.subrange(0, 12));
    r
}

/// The bytes as a 32-byte key.
pub fn key_from(bytes: &[u8]) -> (r: [u8; 32])
    requires
        bytes@.len() == 32,
    ensures
        r@ == bytes@,
{
    let mut r = [0u8; 32];
    let mut i: usize = 0;
    while i < 32
        invariant
            bytes@.len() == 32,
            i <= 32,
            r@.len() == 32,
            forall|k: int| 0 <= k < i ==> r@[k] == bytes@[k],
        decreases 32 - i,
    {
        r[i] = bytes[i];
        i = i + 1;
    }
    assert(r@ =~= bytes@);
    r
}

/// The bytes from `start` on, as a vector.
pub fn tail_from(bytes: &[u8], start: usize) -> (r: Vec<u8>)
    requires
        start <= bytes@.len(),
    ensures
        r@ == bytes@.subrange(start as int, bytes@.len() as int),
{
    let mut r: Vec<u8> = Vec::new();
    let mut i = start;
    while i < bytes.len()
        invariant
            start <= i <= bytes@.len(),
            r@ == bytes@.subrange(start as int, i as int),
        decreases bytes@.len() - i,
    {
        r.push(bytes[i]);
        assert(bytes@.subrange(start as int, i + 1) =~= bytes@.subrange(start as int, i as int).push(
            bytes@[i as int],
        ));
        i = i + 1;
    }
    r
}

/// A copy of the bytes as a vector.
pub fn to_vec(bytes: &[u8]) -> (r: Vec<u8>)
    ensures
        r@ == bytes@,
{
    let r = tail_from(bytes, 0);
    assert(bytes@.subrange(0, bytes@.len() as int) =~= bytes@);
    r
}

} // verus!
