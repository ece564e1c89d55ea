//! The password digest. Password mode maps the password to fixed-size key
//! material through a digest of its bytes.

use vstd::prelude::*;

verus! {

/// What the MD5 digest returns for a byte string: sixteen bytes, a
/// function of the input alone.
pub uninterp spec fn md5_of(data: Seq<u8>) -> Seq<u8>;

/// Relies on md5::compute: the 16-byte MD5 digest of the input, a
/// function of the input alone.
#[verifier::external_body]
pub(crate) fn md5_digest(data: &[u8]) -> (r: Vec<u8>)
    ensures
        r@ == md5_of(data@),
        r@.len() == 16,
{
    md5::compute(data).0.to_vec()
}

} // verus!
