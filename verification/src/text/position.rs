//! Line and column of a byte offset in a source text.

use vstd::prelude::*;
use vstd::string::StringSliceAdditionalSpecFns;

verus! {

/// Whether `b` continues a UTF-8 sequence (it starts no character).
pub open spec fn is_continuation(b: u8) -> bool {
    0x80 <= b < 0xC0
}

/// The 1-based line and column reached after the first `k` bytes of `b`:
/// a newline starts a new line at column 1; every other byte that starts a
/// character advances the column by one.
pub open spec fn spec_line_col(b: Seq<u8>, k: nat) -> (nat, nat)
    decreases k,
{
    if k == 0 {
        (1, 1)
    } else {
        let (l, c) = spec_line_col(b, (k - 1) as nat);
        let x = b[k - 1];
        if x == 0x0a {
            (l + 1, 1)
        } else if is_continuation(x) {
            (l, c)
        } else {
            (l, c + 1)
        }
    }
}

proof fn lemma_line_col_bound(b: Seq<u8>, k: nat)
    ensures
        spec_line_col(b, k).0 + spec_line_col(b, k).1 <= k + 2,
        spec_line_col(b, k).0 >= 1,
        spec_line_col(b, k).1 >= 1,
    decreases k,
{
    if k > 0 {
        lemma_line_col_bound(b, (k - 1) as nat);
    }
}

/// The 1-based line and column (counted in characters) of byte `offset` of
/// `src`; an offset past the end stands for the end.
pub fn line_col(src: &str, offset: usize) -> (r: (usize, usize))
    requires
        src.spec_bytes().len() < usize::MAX,
    ensures
        ({
            let n = if offset <= src.spec_bytes().len() { offset as nat } else { src.spec_bytes().len() };
            r.0 as nat == spec_line_col(src.spec_bytes(), n).0 && r.1 as nat == spec_line_col(
                src.spec_bytes(),
                n,
            ).1
        }),
{
    let b = src.as_bytes();
    let n = if offset <= b.len() { offset } else { b.len() };
    let mut line: usize = 1;
    let mut col: usize = 1;
    let mut k: usize = 0;
    while k < n
        invariant
            b@ == src.spec_bytes(),
            n <= b@.len() < usize::MAX,
            k <= n,
            (line as nat, col as nat) == spec_line_col(b@, k as nat),
        decreases n - k,
    {
        proof {
            lemma_line_col_bound(b@, k as nat);
        }
        let x = b[k];
        if x == 0x0a {
            line = line + 1;
            col = 1;
        } else if !(0x80 <= x && x < 0xC0) {
            col = col + 1;
        }
        k = k + 1;
    }
    (line, col)
}

} // verus!
