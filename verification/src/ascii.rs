//! ASCII lowercasing of raw bytes. Password mode applies it to the digest
//! before using it as key material, and to the signing key bytes before
//! encrypting them.

use vstd::prelude::*;

verus! {

/// One byte, lowercased: the ASCII uppercase letters move down by 32,
/// every other byte is unchanged.
pub open spec fn lower_byte(b: u8) -> u8 {
    if 65 <= b <= 90 {
        (b + 32) as u8
    } else {
        b
    }
}

/// A byte string, lowercased byte by byte.
pub open spec fn ascii_lower(s: Seq<u8>) -> Seq<u8> {
    s.map_values(|b: u8| lower_byte(b))
}

/// Lowercase every ASCII uppercase byte of `data`.
pub fn to_ascii_lower(data: &[u8]) -> (r: Vec<u8>)
    ensures
        r@ == ascii_lower(data@),
{
    let mut out: Vec<u8> = Vec::new();
    let mut i: usize = 0;
    while i < data.len()
        invariant
            i <= data@.len(),
            out@.len() == i,
            forall|j: int| 0 <= j < i ==> out@[j] == lower_byte(data@[j]),
        decreases data@.len() - i,
    {
        let b = data[i];
        let lb = if 65 <= b && b <= 90 {
            b + 32
        } else {
            b
        };
        out.push(lb);
        i = i + 1;
    }
    assert(out@ =~= ascii_lower(data@));
    out
}

} // verus!
