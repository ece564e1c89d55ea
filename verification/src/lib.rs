//! A small keystore library: envelope encryption of a secret value together
//! with the metadata needed to decrypt it later.
//!
//! A record is produced in one of two modes. Random-key mode draws a fresh
//! 256-bit key and encrypts random filler under it, binding a timestamp as
//! associated data. Password mode derives a 128-bit key from a password
//! digest, draws a fresh elliptic-curve signing key, and encrypts the signing
//! key bytes under the derived key, binding the raw signing key as associated
//! data. In both modes the nonce is drawn fresh from the system entropy
//! source, and every field of the resulting record is hex-encoded.

pub mod ascii;
pub mod clock;
pub mod digest;
pub mod entropy;
pub mod envelope;
pub mod hexenc;
pub mod record;
pub mod sealing;
pub mod signing;
