//! Hex encoding of byte strings, as it appears in every field of a record.

use vstd::prelude::*;
use vstd::arithmetic::div_mod::lemma_fundamental_div_mod;

verus! {

/// The lowercase hex digit of a value below sixteen.
pub open spec fn hex_digit(v: u8) -> char {
    if v == 0 {
        '0'
    } else if v == 1 {
        '1'
    } else if v == 2 {
        '2'
    } else if v == 3 {
        '3'
    } else if v == 4 {
        '4'
    } else if v == 5 {
        '5'
    } else if v == 6 {
        '6'
    } else if v == 7 {
        '7'
    } else if v == 8 {
        '8'
    } else if v == 9 {
        '9'
    } else if v == 10 {
        'a'
    } else if v == 11 {
        'b'
    } else if v == 12 {
        'c'
    } else if v == 13 {
        'd'
    } else if v == 14 {
        'e'
    } else {
        'f'
    }
}

/// Whether a character is one of the sixteen lowercase hex digits.
pub open spec fn is_hex_digit(c: char) -> bool {
    ||| c == '0'
    ||| c == '1'
    ||| c == '2'
    ||| c == '3'
    ||| c == '4'
    ||| c == '5'
    ||| c == '6'
    ||| c == '7'
    ||| c == '8'
    ||| c == '9'
    ||| c == 'a'
    ||| c == 'b'
    ||| c == 'c'
    ||| c == 'd'
    ||| c == 'e'
    ||| c == 'f'
}

/// Lowercase hex encoding of a byte string: two digits per byte, high
/// nibble first.
pub open spec fn hex_of(data: Seq<u8>) -> Seq<char>
    decreases data.len(),
{
    if data.len() == 0 {
        seq![]
    } else {
        seq![
            hex_digit(((data.first() as int) / 16) as u8),
            hex_digit(((data.first() as int) % 16) as u8),
        ] + hex_of(data.drop_first())
    }
}

/// The hex encoding of a byte string is exactly twice as long.
pub proof fn lemma_hex_of_len(data: Seq<u8>)
    ensures
        hex_of(data).len() == 2 * data.len(),
    decreases data.len(),
{
    if data.len() > 0 {
        lemma_hex_of_len(data.drop_first());
    }
}

/// Distinct values below sixteen have distinct hex digits.
proof fn lemma_hex_digit_injective(x: u8, y: u8)
    requires
        x < 16,
        y < 16,
        hex_digit(x) == hex_digit(y),
    ensures
        x == y,
{
}

/// Hex encoding is injective: equal encodings encode equal byte strings.
pub proof fn lemma_hex_of_injective(a: Seq<u8>, b: Seq<u8>)
    ensures
        hex_of(a) == hex_of(b) ==> a == b,
    decreases a.len(),
{
    if hex_of(a) == hex_of(b) {
        lemma_hex_of_len(a);
        lemma_hex_of_len(b);
        if a.len() == 0 {
            assert(a =~= b);
        } else {
            assert(hex_of(a)[0] == hex_digit(((a.first() as int) / 16) as u8));
            assert(hex_of(a)[1] == hex_digit(((a.first() as int) % 16) as u8));
            assert(hex_of(b)[0] == hex_digit(((b.first() as int) / 16) as u8));
            assert(hex_of(b)[1] == hex_digit(((b.first() as int) % 16) as u8));
            lemma_hex_digit_injective(
                ((a.first() as int) / 16) as u8,
                ((b.first() as int) / 16) as u8,
            );
            lemma_hex_digit_injective(
                ((a.first() as int) % 16) as u8,
                ((b.first() as int) % 16) as u8,
            );
            lemma_fundamental_div_mod(a.first() as int, 16);
            lemma_fundamental_div_mod(b.first() as int, 16);
            assert(a.first() == b.first());
            lemma_hex_of_len(a.drop_first());
            lemma_hex_of_len(b.drop_first());
            assert forall|j: int| 0 <= j < hex_of(a.drop_first()).len() implies hex_of(
                a.drop_first(),
            )[j] == hex_of(b.drop_first())[j] by {
                assert(hex_of(a)[j + 2] == hex_of(a.drop_first())[j]);
                assert(hex_of(b)[j + 2] == hex_of(b.drop_first())[j]);
            }
            assert(hex_of(a.drop_first()) =~= hex_of(b.drop_first()));
            lemma_hex_of_injective(a.drop_first(), b.drop_first());
            assert forall|i: int| 0 <= i < a.len() implies a[i] == b[i] by {
                if i > 0 {
                    assert(a[i] == a.drop_first()[i - 1]);
                    assert(b[i] == b.drop_first()[i - 1]);
                }
            }
            assert(a =~= b);
        }
    }
}

/// Every character of a hex encoding is a bare lowercase hex digit; in
/// particular none is the 'x' of a "0x" marker.
pub proof fn lemma_hex_of_digits(data: Seq<u8>)
    ensures
        forall|i: int| 0 <= i < hex_of(data).len() ==> is_hex_digit(#[trigger] hex_of(data)[i]),
    decreases data.len(),
{
    if data.len() > 0 {
        lemma_hex_of_digits(data.drop_first());
        assert forall|i: int| 0 <= i < hex_of(data).len() implies is_hex_digit(
            hex_of(data)[i],
        ) by {
            if i >= 2 {
                assert(hex_of(data)[i] == hex_of(data.drop_first())[i - 2]);
            }
        }
    }
}

/// Relies on hex::encode: lowercase hex, two digits per byte, high nibble
/// first.
#[verifier::external_body]
pub(crate) fn hex_encode(data: &[u8]) -> (r: String)
    ensures
        r@ == hex_of(data@),
{
    hex::encode(data)
}

/// Relies on hex::decode: on a string that is the hex encoding of some
/// bytes it returns exactly those bytes.
#[verifier::external_body]
pub(crate) fn hex_decode(s: &str) -> (r: Vec<u8>)
    requires
        exists|b: Seq<u8>| s@ == hex_of(b),
    ensures
        hex_of(r@) == s@,
{
    hex::decode(s).unwrap()
}

} // verus!
