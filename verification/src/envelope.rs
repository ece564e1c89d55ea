//! Envelope encryption: draw a fresh nonce, seal the plaintext with the
//! associated data bound, and open such a bundle again.

use vstd::prelude::*;
use vstd::slice::slice_subrange;
use crate::entropy;
use crate::sealing;
use crate::sealing::{aes128_seal, aes256_seal};

verus! {

/// Encrypt `plaintext` under a 256-bit key, binding `aad`: a fresh
/// 12-byte nonce is drawn, and the sealed bundle is the AES-256-GCM
/// ciphertext with the tag appended.
pub fn encrypt(key: &[u8], plaintext: &[u8], aad: &[u8]) -> (r: (Vec<u8>, Vec<u8>))
    requires
        key@.len() == 32,
        plaintext@.len() <= 0xffff_ffff,
        aad@.len() <= 0xffff_ffff,
    ensures
        r.0@.len() == 12,
        r.1@ == aes256_seal(key@, r.0@, aad@, plaintext@),
        r.1@.len() == plaintext@.len() + 16,
{
    let nonce = entropy::fresh_nonce();
    let sealed = sealing::aes256_gcm_seal(key, nonce.as_slice(), aad, plaintext);
    (nonce, sealed)
}

/// Open an AES-256-GCM bundle. Succeeds exactly when `sealed` is the seal
/// of a plaintext of the matching length under this key, nonce and
/// associated data, and returns that plaintext.
pub fn decrypt(key: &[u8], nonce: &[u8], aad: &[u8], sealed: &[u8]) -> (r: Option<Vec<u8>>)
    requires
        key@.len() == 32,
        nonce@.len() == 12,
        sealed@.len() <= 0xffff_ffff,
        aad@.len() <= 0xffff_ffff,
    ensures
        (match r {
            Some(p) => {
                &&& sealed@ == aes256_seal(key@, nonce@, aad@, p@)
                &&& p@.len() + 16 == sealed@.len()
                &&& forall|m: Seq<u8>|
                    sealed@ == aes256_seal(key@, nonce@, aad@, m) && m.len() == p@.len() ==> m
                        == p@
            },
            None => forall|m: Seq<u8>|
                m.len() + 16 == sealed@.len() ==> sealed@ != aes256_seal(key@, nonce@, aad@, m),
        }),
{
    sealing::aes256_gcm_open(key, nonce, aad, sealed)
}

/// Encrypting and then decrypting under the same key and associated data
/// gives the plaintext back.
pub fn encrypt_then_decrypt(key: &[u8], plaintext: &[u8], aad: &[u8]) -> (r: Option<Vec<u8>>)
    requires
        key@.len() == 32,
        plaintext@.len() <= 0xffff_ffef,
        aad@.len() <= 0xffff_ffff,
    ensures
        r is Some,
        r->Some_0@ == plaintext@,
{
    let (nonce, sealed) = encrypt(key, plaintext, aad);
    let opened = decrypt(key, nonce.as_slice(), aad, sealed.as_slice());
    proof {
        assert(sealed@ == aes256_seal(key@, nonce@, aad@, plaintext@));
        if opened is None {
            assert(false);
        }
    }
    opened
}

/// Encrypt `plaintext` under a 128-bit derived key, binding `aad`: a
/// fresh 12-byte nonce is drawn, and the sealed bundle is the AES-128-GCM
/// ciphertext with the tag appended.
pub fn encrypt_derived(key: &[u8], plaintext: &[u8], aad: &[u8]) -> (r: (Vec<u8>, Vec<u8>))
    requires
        key@.len() == 16,
        plaintext@.len() <= 0xffff_ffff,
    ensures
        r.0@.len() == 12,
        r.1@ == aes128_seal(key@, r.0@, aad@, plaintext@),
        r.1@.len() == plaintext@.len() + 16,
        plaintext@.len() >= 16 ==> forall|n2: Seq<u8>|
            n2.len() == 12 && n2 != r.0@ ==> r.1@ != aes128_seal(key@, n2, aad@, plaintext@),
{
    let nonce = entropy::fresh_nonce();
    let (mut sealed, mut tag) = sealing::aes128_gcm_seal(key, nonce.as_slice(), aad, plaintext);
    sealed.append(&mut tag);
    (nonce, sealed)
}

/// Open an AES-128-GCM bundle. Succeeds exactly when `sealed` is the seal
/// of a plaintext of the matching length under this key, nonce and
/// associated data, and returns that plaintext.
pub fn decrypt_derived(key: &[u8], nonce: &[u8], aad: &[u8], sealed: &[u8]) -> (r: Option<Vec<u8>>)
    requires
        key@.len() == 16,
        nonce@.len() == 12,
    ensures
        (match r {
            Some(p) => {
                &&& sealed@ == aes128_seal(key@, nonce@, aad@, p@)
                &&& p@.len() + 16 == sealed@.len()
                &&& forall|m: Seq<u8>|
                    sealed@ == aes128_seal(key@, nonce@, aad@, m) && m.len() == p@.len() ==> m
                        == p@
            },
            None => forall|m: Seq<u8>|
                m.len() + 16 == sealed@.len() ==> sealed@ != aes128_seal(key@, nonce@, aad@, m),
        }),
{
    if sealed.len() < 16 {
        return None;
    }
    let split = sealed.len() - 16;
    let ct = slice_subrange(sealed, 0, split);
    let tag = slice_subrange(sealed, split, sealed.len());
    let r = sealing::aes128_gcm_open(key, nonce, aad, ct, tag);
    proof {
        assert(ct@ + tag@ =~= sealed@);
    }
    r
}

/// The round trip holds of the derived-key construction as well.
pub fn encrypt_then_decrypt_derived(key: &[u8], plaintext: &[u8], aad: &[u8]) -> (r: Option<
    Vec<u8>,
>)
    requires
        key@.len() == 16,
        plaintext@.len() <= 0xffff_ffef,
    ensures
        r is Some,
        r->Some_0@ == plaintext@,
{
    let (nonce, sealed) = encrypt_derived(key, plaintext, aad);
    let opened = decrypt_derived(key, nonce.as_slice(), aad, sealed.as_slice());
    proof {
        assert(sealed@ == aes128_seal(key@, nonce@, aad@, plaintext@));
        if opened is None {
            assert(false);
        }
    }
    opened
}

} // verus!
