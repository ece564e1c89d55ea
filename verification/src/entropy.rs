//! Entropy sources: the system source for keys, nonces and random filler,
//! and a seeded generator for the signing-key candidate draw, so that a
//! caller can fix the draw.

use vstd::prelude::*;
use aes_gcm::aead::{KeyInit, OsRng};
use aes_gcm::AeadCore;
use rand::RngCore;

verus! {

#[verifier::external_type_specification]
#[verifier::external_body]
pub struct ExFillerRng(fastrand::Rng);

/// Relies on Aes256Gcm::generate_key with the system entropy source: a
/// uniformly random 32-byte key.
#[verifier::external_body]
pub(crate) fn fresh_key() -> (r: Vec<u8>)
    ensures
        r@.len() == 32,
{
    aes_gcm::Aes256Gcm::generate_key(&mut OsRng).to_vec()
}

/// Relies on Aes256Gcm::generate_nonce with the system entropy source: a
/// fresh 12-byte nonce.
#[verifier::external_body]
pub(crate) fn fresh_nonce() -> (r: Vec<u8>)
    ensures
        r@.len() == 12,
{
    aes_gcm::Aes256Gcm::generate_nonce(&mut OsRng).to_vec()
}

/// Relies on rand's thread_rng and fill_bytes: 32 random filler bytes.
#[verifier::external_body]
pub(crate) fn fresh_filler() -> (r: Vec<u8>)
    ensures
        r@.len() == 32,
{
    let mut buf = vec![0u8; 32];
    rand::thread_rng().fill_bytes(&mut buf);
    buf
}

/// Relies on fastrand::Rng::with_seed: a generator seeded from the given
/// value.
#[verifier::external_body]
pub(crate) fn filler_rng(seed: u64) -> fastrand::Rng {
    fastrand::Rng::with_seed(seed)
}

/// Relies on fastrand::Rng::fill: the generator's next 32 bytes.
#[verifier::external_body]
pub(crate) fn draw_candidate(rng: &mut fastrand::Rng) -> (r: Vec<u8>)
    ensures
        r@.len() == 32,
{
    let mut buf = vec![0u8; 32];
    rng.fill(&mut buf);
    buf
}

} // verus!
