//! Hexadecimal rendering and column padding.

use vstd::prelude::*;
use vstd::string::StringExecFns;

verus! {

/// The uppercase hex digit for `d` (`0 <= d < 16`).
pub open spec fn hex_char(d: nat) -> char {
    if d < 10 {
        (d + 0x30) as char
    } else {
        (d - 10 + 0x41) as char
    }
}

/// The uppercase hexadecimal spelling of `n`, without leading zeros.
pub open spec fn spec_hex(n: nat) -> Seq<char>
    decreases n,
{
    if n < 16 {
        seq![hex_char(n)]
    } else {
        spec_hex(n / 16).push(hex_char(n % 16))
    }
}

/// `n` copies of `c`.
pub open spec fn repeat_char(c: char, n: nat) -> Seq<char> {
    Seq::new(n, |i: int| c)
}

/// The uppercase hexadecimal spelling of `n`, zero-padded on the left to
/// at least `width` digits.
pub open spec fn spec_hex_padded(n: nat, width: nat) -> Seq<char> {
    let h = spec_hex(n);
    if h.len() < width {
        repeat_char('0', (width - h.len()) as nat) + h
    } else {
        h
    }
}

/// `s` padded on the right with spaces to at least `width` characters.
pub open spec fn pad_right(s: Seq<char>, width: nat) -> Seq<char> {
    if s.len() < width {
        s + repeat_char(' ', (width - s.len()) as nat)
    } else {
        s
    }
}

fn hex_digit_str(d: usize) -> (s: &'static str)
    requires
        d < 16,
    ensures
        s@ == seq![hex_char(d as nat)],
{
    proof {
        reveal_strlit("0");
        reveal_strlit("1");
        reveal_strlit("2");
        reveal_strlit("3");
        reveal_strlit("4");
        reveal_strlit("5");
        reveal_strlit("6");
        reveal_strlit("7");
        reveal_strlit("8");
        reveal_strlit("9");
        reveal_strlit("A");
        reveal_strlit("B");
        reveal_strlit("C");
        reveal_strlit("D");
        reveal_strlit("E");
        reveal_strlit("F");
    }
    match d {
        0 => "0",
        1 => "1",
        2 => "2",
        3 => "3",
        4 => "4",
        5 => "5",
        6 => "6",
        7 => "7",
        8 => "8",
        9 => "9",
        10 => "A",
        11 => "B",
        12 => "C",
        13 => "D",
        14 => "E",
        _ => "F",
    }
}

/// The number of hex digits of `n`.
fn hex_len(n: usize) -> (k: usize)
    ensures
        k == spec_hex(n as nat).len(),
        k <= 1 + n / 16,
    decreases n,
{
    if n < 16 {
        1
    } else {
        1 + hex_len(n / 16)
    }
}

/// Append the uppercase hexadecimal spelling of `n`.
pub fn push_hex(out: &mut String, n: usize)
    ensures
        final(out)@ == old(out)@ + spec_hex(n as nat),
    decreases n,
{
    if n >= 16 {
        push_hex(out, n / 16);
    }
    out.append(hex_digit_str(n % 16));
}

/// Append `n` copies of the one-character string `c`.
fn push_repeat(out: &mut String, c: &str, ch: Ghost<char>, n: usize)
    requires
        c@ == seq![ch@],
    ensures
        final(out)@ == old(out)@ + repeat_char(ch@, n as nat),
{
    let mut k: usize = 0;
    while k < n
        invariant
            k <= n,
            c@ == seq![ch@],
            out@ == old(out)@ + repeat_char(ch@, k as nat),
        decreases n - k,
    {
        out.append(c);
        proof {
            assert(old(out)@ + repeat_char(ch@, (k + 1) as nat) =~= old(out)@ + repeat_char(ch@, k as nat) + seq![ch@]);
        }
        k += 1;
    }
}

/// Append `n` zero-padded on the left to at least `width` hex digits.
pub fn push_hex_padded(out: &mut String, n: usize, width: usize)
    ensures
        final(out)@ == old(out)@ + spec_hex_padded(n as nat, width as nat),
{
    let k = hex_len(n);
    if k < width {
        proof {
            reveal_strlit("0");
            assert("0"@ == seq!['0']);
        }
        push_repeat(out, "0", Ghost('0'), width - k);
    }
    let ghost mid = out@;
    push_hex(out, n);
    proof {
        assert(out@ =~= old(out)@ + spec_hex_padded(n as nat, width as nat));
    }
}

/// Append `s` padded on the right with spaces to at least `width`
/// characters.
pub fn push_padded(out: &mut String, s: &str, width: usize)
    ensures
        final(out)@ == old(out)@ + pad_right(s@, width as nat),
{
    out.append(s);
    let n = s.unicode_len();
    if n < width {
        proof {
            reveal_strlit(" ");
            assert(" "@ == seq![' ']);
        }
        push_repeat(out, " ", Ghost(' '), width - n);
    }
    proof {
        assert(out@ =~= old(out)@ + pad_right(s@, width as nat));
    }
}

/// The lowercase hex digit for `d` (`0 <= d < 16`).
pub open spec fn hex_char_lower(d: nat) -> char {
    if d < 10 {
        (d + 0x30) as char
    } else {
        (d - 10 + 0x61) as char
    }
}

/// The lowercase hexadecimal spelling of `n`, without leading zeros.
pub open spec fn spec_hex_lower(n: nat) -> Seq<char>
    decreases n,
{
    if n < 16 {
        seq![hex_char_lower(n)]
    } else {
        spec_hex_lower(n / 16).push(hex_char_lower(n % 16))
    }
}

/// `0x` and the lowercase hexadecimal spelling of `n`, zero-padded so that
/// the whole is at least `width` characters (Rust's `{:#0width$x}`).
pub open spec fn spec_hex_prefixed(n: nat, width: nat) -> Seq<char> {
    let h = spec_hex_lower(n);
    if h.len() + 2 < width {
        "0x"@ + repeat_char('0', (width - 2 - h.len()) as nat) + h
    } else {
        "0x"@ + h
    }
}

fn hex_digit_str_lower(d: usize) -> (s: &'static str)
    requires
        d < 16,
    ensures
        s@ == seq![hex_char_lower(d as nat)],
{
    proof {
        reveal_strlit("0");
        reveal_strlit("1");
        reveal_strlit("2");
        reveal_strlit("3");
        reveal_strlit("4");
        reveal_strlit("5");
        reveal_strlit("6");
        reveal_strlit("7");
        reveal_strlit("8");
        reveal_strlit("9");
        reveal_strlit("a");
        reveal_strlit("b");
        reveal_strlit("c");
        reveal_strlit("d");
        reveal_strlit("e");
        reveal_strlit("f");
    }
    match d {
        0 => "0",
        1 => "1",
        2 => "2",
        3 => "3",
        4 => "4",
        5 => "5",
        6 => "6",
        7 => "7",
        8 => "8",
        9 => "9",
        10 => "a",
        11 => "b",
        12 => "c",
        13 => "d",
        14 => "e",
        _ => "f",
    }
}

fn hex_len_lower(n: u64) -> (k: usize)
    ensures
        k == spec_hex_lower(n as nat).len(),
        k <= 16,
    decreases n,
{
    if n < 16 {
        1
    } else {
        proof {
            lemma_hex_lower_len(n as nat);
        }
        1 + hex_len_lower(n / 16)
    }
}

proof fn lemma_hex_lower_len(n: nat)
    requires
        n <= u64::MAX,
    ensures
        spec_hex_lower(n).len() <= 16,
    decreases n,
{
    reveal_with_fuel(pow16, 17);
    assert(pow16(16) == 0x1_0000_0000_0000_0000);
    lemma_hex_lower_len_bound(n, 16);
}

proof fn lemma_hex_lower_len_bound(n: nat, k: nat)
    requires
        n < pow16(k),
    ensures
        spec_hex_lower(n).len() <= if k == 0 { 1 } else { k },
    decreases n,
{
    if n >= 16 {
        assert(k >= 2) by {
            if k < 2 {
                assert(pow16(0) == 1);
                assert(pow16(1) == 16);
            }
        }
        assert(n / 16 < pow16((k - 1) as nat)) by {
            assert(pow16(k) == 16 * pow16((k - 1) as nat));
        }
        lemma_hex_lower_len_bound(n / 16, (k - 1) as nat);
    }
}

/// `16^k`.
pub open spec fn pow16(k: nat) -> nat
    decreases k,
{
    if k == 0 {
        1
    } else {
        16 * pow16((k - 1) as nat)
    }
}

/// Append the lowercase hexadecimal spelling of `n`.
fn push_hex_lower(out: &mut String, n: u64)
    ensures
        final(out)@ == old(out)@ + spec_hex_lower(n as nat),
    decreases n,
{
    if n >= 16 {
        push_hex_lower(out, n / 16);
    }
    out.append(hex_digit_str_lower((n % 16) as usize));
}

/// Append `0x` and the lowercase hexadecimal spelling of `n`, zero-padded
/// so that the whole is at least `width` characters.
pub fn push_hex_prefixed(out: &mut String, n: u64, width: usize)
    ensures
        final(out)@ == old(out)@ + spec_hex_prefixed(n as nat, width as nat),
{
    proof {
        reveal_strlit("0x");
        reveal_strlit("0");
        assert("0"@ == seq!['0']);
    }
    out.append("0x");
    let k = hex_len_lower(n);
    if k + 2 < width {
        push_repeat(out, "0", Ghost('0'), width - 2 - k);
    }
    push_hex_lower(out, n);
    proof {
        assert(out@ =~= old(out)@ + spec_hex_prefixed(n as nat, width as nat));
    }
}

} // verus!
