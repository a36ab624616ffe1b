//! Uppercase hexadecimal encoding of byte sequences.

use vstd::prelude::*;

verus! {

/// The uppercase hexadecimal digit standing for a value below 16.
pub open spec fn hex_digit(n: u8) -> char
    recommends
        n < 16,
{
    if n < 10 {
        ((n + 48) as u8) as char
    } else {
        ((n + 55) as u8) as char
    }
}

/// Uppercase hexadecimal encoding: two digits per byte, in byte order,
/// with no separators.
pub open spec fn hex_upper(bytes: Seq<u8>) -> Seq<char>
    decreases bytes.len(),
{
    if bytes.len() == 0 {
        Seq::empty()
    } else {
        seq![hex_digit(bytes[0] / 16), hex_digit(bytes[0] % 16)] + hex_upper(bytes.drop_first())
    }
}

/// Holds exactly of the characters a hex digit can be: `'0'..'9'` and `'A'..'F'`.
pub open spec fn is_upper_hex_char(c: char) -> bool {
    (48 <= c as u32 && c as u32 <= 57) || (65 <= c as u32 && c as u32 <= 70)
}

/// Relies on `String::push`: appends exactly the one character.
#[verifier::external_body]
pub(crate) fn push_char(s: &mut String, c: char)
    ensures
        final(s)@ == old(s)@.push(c),
{
    s.push(c);
}

/// Hex encoding distributes over concatenation of byte sequences.
pub proof fn lemma_hex_upper_concat(a: Seq<u8>, b: Seq<u8>)
    ensures
        hex_upper(a + b) == hex_upper(a) + hex_upper(b),
    decreases a.len(),
{
    if a.len() == 0 {
        assert(a + b =~= b);
        assert(hex_upper(a) + hex_upper(b) =~= hex_upper(b));
    } else {
        assert((a + b).drop_first() =~= a.drop_first() + b);
        lemma_hex_upper_concat(a.drop_first(), b);
        assert(hex_upper(a + b) =~= hex_upper(a) + hex_upper(b));
    }
}

/// A sequence of `n` bytes encodes to exactly `2 * n` characters, each an
/// uppercase hexadecimal digit.
pub proof fn lemma_hex_upper_shape(bytes: Seq<u8>)
    ensures
        hex_upper(bytes).len() == 2 * bytes.len(),
        forall|i: int|
            0 <= i < hex_upper(bytes).len() ==> is_upper_hex_char(#[trigger] hex_upper(bytes)[i]),
    decreases bytes.len(),
{
    if bytes.len() != 0 {
        lemma_hex_upper_shape(bytes.drop_first());
    }
}

} // verus!
