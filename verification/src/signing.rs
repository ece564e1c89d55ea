//! Signing-key candidates. Password mode draws 32 random bytes and keeps
//! them only if they encode a valid secret scalar for the secp256k1 curve,
//! redrawing otherwise.

use vstd::prelude::*;
use crate::entropy;

verus! {

/// Whether 32 bytes are an encoding that k256 accepts as a secret scalar:
/// nonzero and below the curve order, read big-endian.
pub uninterp spec fn scalar_ok(candidate: Seq<u8>) -> bool;

/// Relies on k256's SigningKey::from_bytes and to_bytes: from_bytes
/// accepts exactly the valid secret scalar encodings, and to_bytes gives
/// the same 32 bytes back.
#[verifier::external_body]
fn signing_key_from_candidate(candidate: &[u8]) -> (r: Option<Vec<u8>>)
    requires
        candidate@.len() == 32,
    ensures
        r is Some <==> scalar_ok(candidate@),
        (match r {
            Some(k) => k@ == candidate@,
            None => true,
        }),
{
    match k256::ecdsa::SigningKey::from_bytes(k256::FieldBytes::from_slice(candidate)) {
        Ok(sk) => Some(sk.to_bytes().to_vec()),
        Err(_) => None,
    }
}

/// Check a 32-byte signing-key candidate: a valid one comes back
/// unchanged, an invalid one is rejected.
pub fn validate_signing_candidate(candidate: &[u8]) -> (r: Option<Vec<u8>>)
    requires
        candidate@.len() == 32,
    ensures
        r is Some <==> scalar_ok(candidate@),
        (match r {
            Some(k) => k@ == candidate@,
            None => true,
        }),
{
    signing_key_from_candidate(candidate)
}

/// How many candidate draws are attempted before key derivation is given
/// up. A uniformly random candidate is rejected with probability below
/// one in 2^127, so the bound is never reached in practice.
pub const MAX_CANDIDATE_TRIES: usize = 4096;

/// Draw 32-byte candidates from the generator until one is a valid secret
/// scalar, and return its canonical encoding; give up after
/// `MAX_CANDIDATE_TRIES` rejected draws.
pub fn generate_signing_key(rng: &mut fastrand::Rng) -> (r: Option<Vec<u8>>)
    ensures
        (match r {
            Some(k) => k@.len() == 32 && scalar_ok(k@),
            None => true,
        }),
{
    let mut tries: usize = 0;
    while tries < MAX_CANDIDATE_TRIES
        invariant
            tries <= MAX_CANDIDATE_TRIES,
        decreases MAX_CANDIDATE_TRIES - tries,
    {
        let candidate = entropy::draw_candidate(rng);
        let checked = signing_key_from_candidate(candidate.as_slice());
        if let Some(k) = checked {
            return Some(k);
        }
        tries = tries + 1;
    }
    None
}

} // verus!
