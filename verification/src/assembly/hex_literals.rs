//! Hexadecimal literals read back what hexadecimal rendering writes, in
//! either letter case.

use vstd::prelude::*;

use super::syntax::{hex_digit_value, hex_value, is_hex_digit, is_hex_digits, spec_integer, ParseErrorKind};
use crate::text::layout::{hex_char, hex_char_lower, spec_hex, spec_hex_lower};

verus! {

/// The bytes of an ASCII character sequence.
pub open spec fn ascii_bytes(cs: Seq<char>) -> Seq<u8> {
    cs.map_values(|c: char| c as u8)
}

proof fn lemma_digit_reads_back(d: nat)
    requires
        d < 16,
    ensures
        is_hex_digit(hex_char(d) as u8),
        is_hex_digit(hex_char_lower(d) as u8),
        hex_digit_value(hex_char(d) as u8) == d,
        hex_digit_value(hex_char_lower(d) as u8) == d,
{
}

/// Reading the hexadecimal spelling of `n` as a hex literal gives `n`
/// back, whether its letters are upper case (`FF`) or lower case (`ff`):
/// every hex digit, `a`..`f` and `A`..`F` alike, is worth its place in
/// base 16.
pub proof fn lemma_hex_value_reads_rendering(n: nat)
    ensures
        is_hex_digits(ascii_bytes(spec_hex(n))),
        is_hex_digits(ascii_bytes(spec_hex_lower(n))),
        hex_value(ascii_bytes(spec_hex(n))) == n,
        hex_value(ascii_bytes(spec_hex_lower(n))) == n,
    decreases n,
{
    if n < 16 {
        lemma_digit_reads_back(n);
        assert(ascii_bytes(spec_hex(n)).drop_last() =~= Seq::<u8>::empty());
        assert(ascii_bytes(spec_hex_lower(n)).drop_last() =~= Seq::<u8>::empty());
        assert(hex_value(Seq::<u8>::empty()) == 0);
        assert(ascii_bytes(spec_hex(n)).last() == hex_char(n) as u8);
        assert(ascii_bytes(spec_hex_lower(n)).last() == hex_char_lower(n) as u8);
    } else {
        lemma_hex_value_reads_rendering(n / 16);
        lemma_digit_reads_back(n % 16);
        let u = ascii_bytes(spec_hex(n));
        let l = ascii_bytes(spec_hex_lower(n));
        assert(u.drop_last() =~= ascii_bytes(spec_hex(n / 16)));
        assert(l.drop_last() =~= ascii_bytes(spec_hex_lower(n / 16)));
        assert(u.last() == hex_char(n % 16) as u8);
        assert(l.last() == hex_char_lower(n % 16) as u8);
        assert(n == (n / 16) * 16 + n % 16);
        assert(hex_value(u) == hex_value(u.drop_last()) * 16 + hex_digit_value(u.last()));
        assert(hex_value(l) == hex_value(l.drop_last()) * 16 + hex_digit_value(l.last()));
        assert forall|i: int| 0 <= i < u.len() implies is_hex_digit(#[trigger] u[i]) by {
            if i < u.len() - 1 {
                assert(u[i] == u.drop_last()[i]);
            }
        }
        assert forall|i: int| 0 <= i < l.len() implies is_hex_digit(#[trigger] l[i]) by {
            if i < l.len() - 1 {
                assert(l[i] == l.drop_last()[i]);
            }
        }
    }
}

/// The integer token `0x` followed by the lower-case hexadecimal spelling
/// of `n` is read as `n`, for every `n` up to `i64::MAX`.
pub proof fn lemma_hex_token_reads_rendering(n: nat)
    requires
        n <= i64::MAX,
    ensures
        spec_integer(seq![0x30u8, 0x78u8] + ascii_bytes(spec_hex_lower(n))) == Ok::<i64, ParseErrorKind>(n as i64),
{
    lemma_hex_value_reads_rendering(n);
    let t = seq![0x30u8, 0x78u8] + ascii_bytes(spec_hex_lower(n));
    assert(t.skip(2) =~= ascii_bytes(spec_hex_lower(n)));
}

} // verus!
