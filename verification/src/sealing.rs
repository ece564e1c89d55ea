//! Authenticated encryption with associated data: AES-256-GCM for the
//! random-key mode and AES-128-GCM for the password-derived mode. Both
//! primitives are deterministic in key, nonce, associated data and
//! plaintext, so their results are named and every other contract of the
//! library speaks of those names.

use vstd::prelude::*;
use aes_gcm::aead::{Aead, Payload};
use aes_gcm::{Aes256Gcm, KeyInit, Nonce};
use crypto::aead::{AeadDecryptor, AeadEncryptor};

verus! {

/// What AES-256-GCM sealing returns for a key, nonce, associated data and
/// plaintext: the ciphertext with the 16-byte tag appended.
pub uninterp spec fn aes256_seal(key: Seq<u8>, nonce: Seq<u8>, aad: Seq<u8>, msg: Seq<u8>) -> Seq<u8>;

/// What AES-128-GCM sealing returns for a key, nonce, associated data and
/// plaintext: the ciphertext with the 16-byte tag appended.
pub uninterp spec fn aes128_seal(key: Seq<u8>, nonce: Seq<u8>, aad: Seq<u8>, msg: Seq<u8>) -> Seq<u8>;

/// Relies on aes_gcm's Aes256Gcm: encryption appends the 16-byte tag to a
/// ciphertext of the plaintext's length, and the result is a function of
/// key, nonce, associated data and plaintext alone.
#[verifier::external_body]
pub(crate) fn aes256_gcm_seal(key: &[u8], nonce: &[u8], aad: &[u8], msg: &[u8]) -> (r: Vec<u8>)
    requires
        key@.len() == 32,
        nonce@.len() == 12,
        msg@.len() <= 0xffff_ffff,
        aad@.len() <= 0xffff_ffff,
    ensures
        r@ == aes256_seal(key@, nonce@, aad@, msg@),
        r@.len() == msg@.len() + 16,
{
    let cipher = Aes256Gcm::new_from_slice(key).unwrap();
    let payload = Payload { msg, aad };
    cipher.encrypt(Nonce::from_slice(nonce), payload).unwrap()
}

/// Relies on aes_gcm's Aes256Gcm: decryption succeeds exactly when the
/// bundle is the seal of a plaintext of the matching length under the same
/// key, nonce and associated data, and returns that plaintext.
#[verifier::external_body]
pub(crate) fn aes256_gcm_open(key: &[u8], nonce: &[u8], aad: &[u8], sealed: &[u8]) -> (r: Option<
    Vec<u8>,
>)
    requires
        key@.len() == 32,
        nonce@.len() == 12,
        sealed@.len() <= 0xffff_ffff,
        aad@.len() <= 0xffff_ffff,
    ensures
        (match r {
            Some(p) => {
                &&& sealed@ == aes256_seal(key@, nonce@, aad@, p@)
                &&& p@.len() + 16 == sealed@.len()
                &&& forall|m: Seq<u8>|
                    sealed@ == aes256_seal(key@, nonce@, aad@, m) && m.len() == p@.len() ==> m
                        == p@
            },
            None => forall|m: Seq<u8>|
                m.len() + 16 == sealed@.len() ==> sealed@ != aes256_seal(key@, nonce@, aad@, m),
        }),
{
    let cipher = Aes256Gcm::new_from_slice(key).unwrap();
    let payload = Payload { msg: sealed, aad };
    cipher.decrypt(Nonce::from_slice(nonce), payload).ok()
}

/// Relies on rust-crypto's AesGcm with a 128-bit key: the ciphertext has
/// the plaintext's length, the tag 16 bytes, and both are a function of
/// key, nonce, associated data and plaintext alone. The last clause is
/// the counter-mode structure of GCM: a 12-byte nonce n sets the counter
/// to n followed by a block count, so the first ciphertext block is the
/// first plaintext block masked with the block cipher at n-and-2, and the
/// block cipher is a permutation — distinct nonces mask a full first
/// block differently, so sealing the same input under another nonce
/// gives other bytes.
#[verifier::external_body]
pub(crate) fn aes128_gcm_seal(key: &[u8], nonce: &[u8], aad: &[u8], msg: &[u8]) -> (r: (
    Vec<u8>,
    Vec<u8>,
))
    requires
        key@.len() == 16,
        nonce@.len() == 12,
    ensures
        r.0@ + r.1@ == aes128_seal(key@, nonce@, aad@, msg@),
        r.0@.len() == msg@.len(),
        r.1@.len() == 16,
        msg@.len() >= 16 ==> forall|n2: Seq<u8>|
            n2.len() == 12 && n2 != nonce@ ==> r.0@ + r.1@ != aes128_seal(key@, n2, aad@, msg@),
{
    let mut gcm = crypto::aes_gcm::AesGcm::new(crypto::aes::KeySize::KeySize128, key, nonce, aad);
    let mut out = vec![0u8; msg.len()];
    let mut tag = vec![0u8; 16];
    gcm.encrypt(msg, &mut out, &mut tag);
    (out, tag)
}

/// Relies on rust-crypto's AesGcm with a 128-bit key: decryption succeeds
/// exactly when ciphertext and tag are the seal of a plaintext of the
/// ciphertext's length under the same key, nonce and associated data, and
/// returns that plaintext.
#[verifier::external_body]
pub(crate) fn aes128_gcm_open(key: &[u8], nonce: &[u8], aad: &[u8], ct: &[u8], tag: &[u8]) -> (r:
    Option<Vec<u8>>)
    requires
        key@.len() == 16,
        nonce@.len() == 12,
        tag@.len() == 16,
    ensures
        (match r {
            Some(p) => {
                &&& ct@ + tag@ == aes128_seal(key@, nonce@, aad@, p@)
                &&& p@.len() == ct@.len()
                &&& forall|m: Seq<u8>|
                    ct@ + tag@ == aes128_seal(key@, nonce@, aad@, m) && m.len() == p@.len() ==> m
                        == p@
            },
            None => forall|m: Seq<u8>|
                m.len() == ct@.len() ==> ct@ + tag@ != aes128_seal(key@, nonce@, aad@, m),
        }),
{
    let mut gcm = crypto::aes_gcm::AesGcm::new(crypto::aes::KeySize::KeySize128, key, nonce, aad);
    let mut out = vec![0u8; ct.len()];
    if gcm.decrypt(ct, &mut out, tag) {
        Some(out)
    } else {
        None
    }
}

} // verus!
