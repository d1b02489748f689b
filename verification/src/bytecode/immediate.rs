//! Big-endian, two's-complement immediates of the `PUSHn` instructions.
//!
//! `PUSHn` carries an `n`-byte big-endian constant (`1 <= n <= 8`) that is
//! sign-extended to `i64` when pushed.

use vstd::prelude::*;

use super::instruction::Instruction;

verus! {

/// `256^n`.
pub open spec fn pow256(n: nat) -> int
    decreases n,
{
    if n == 0 {
        1
    } else {
        256 * pow256((n - 1) as nat)
    }
}

/// The unsigned big-endian value of `bytes`.
pub open spec fn be_unsigned(bytes: Seq<u8>) -> int
    decreases bytes.len(),
{
    if bytes.len() == 0 {
        0
    } else {
        bytes[0] * pow256((bytes.len() - 1) as nat) + be_unsigned(bytes.drop_first())
    }
}

/// The signed (two's-complement) big-endian value of `bytes`.
pub open spec fn be_signed(bytes: Seq<u8>) -> int {
    if bytes.len() > 0 && bytes[0] >= 128 {
        be_unsigned(bytes) - pow256(bytes.len())
    } else {
        be_unsigned(bytes)
    }
}

/// Whether `v` is representable as an `n`-byte two's-complement integer.
pub open spec fn fits_bytes(v: int, n: nat) -> bool {
    n >= 1 && -128 * pow256((n - 1) as nat) <= v < 128 * pow256((n - 1) as nat)
}

/// The number of bytes of the smallest `PUSHn` that holds `v`.
pub open spec fn push_width(v: int) -> nat {
    if fits_bytes(v, 1) {
        1
    } else if fits_bytes(v, 2) {
        2
    } else if fits_bytes(v, 3) {
        3
    } else if fits_bytes(v, 4) {
        4
    } else if fits_bytes(v, 5) {
        5
    } else if fits_bytes(v, 6) {
        6
    } else if fits_bytes(v, 7) {
        7
    } else {
        8
    }
}

/// The constant a `PUSHn` instruction pushes, or `None` for other
/// instructions.
pub open spec fn push_value(i: Instruction) -> Option<int> {
    match i {
        Instruction::Push1 { val } => Some(be_signed(val@)),
        Instruction::Push2 { val } => Some(be_signed(val@)),
        Instruction::Push3 { val } => Some(be_signed(val@)),
        Instruction::Push4 { val } => Some(be_signed(val@)),
        Instruction::Push5 { val } => Some(be_signed(val@)),
        Instruction::Push6 { val } => Some(be_signed(val@)),
        Instruction::Push7 { val } => Some(be_signed(val@)),
        Instruction::Push8 { val } => Some(be_signed(val@)),
        _ => None,
    }
}

/// The constant width of a `PUSHn` instruction, or 0 for other
/// instructions.
pub open spec fn push_bytes(i: Instruction) -> nat {
    match i {
        Instruction::Push1 { .. } => 1,
        Instruction::Push2 { .. } => 2,
        Instruction::Push3 { .. } => 3,
        Instruction::Push4 { .. } => 4,
        Instruction::Push5 { .. } => 5,
        Instruction::Push6 { .. } => 6,
        Instruction::Push7 { .. } => 7,
        Instruction::Push8 { .. } => 8,
        _ => 0,
    }
}

pub proof fn lemma_pow256_values()
    ensures
        pow256(0) == 1,
        pow256(1) == 0x100,
        pow256(2) == 0x1_0000,
        pow256(3) == 0x100_0000,
        pow256(4) == 0x1_0000_0000,
        pow256(5) == 0x100_0000_0000,
        pow256(6) == 0x1_0000_0000_0000,
        pow256(7) == 0x100_0000_0000_0000,
        pow256(8) == 0x1_0000_0000_0000_0000,
{
    reveal_with_fuel(pow256, 9);
}

/// An unsigned big-endian value is below `256^len`.
pub proof fn lemma_be_unsigned_bound(bytes: Seq<u8>)
    ensures
        0 <= be_unsigned(bytes) < pow256(bytes.len()),
    decreases bytes.len(),
{
    if bytes.len() > 0 {
        let p = pow256((bytes.len() - 1) as nat);
        lemma_be_unsigned_bound(bytes.drop_first());
        let b = bytes[0] as int;
        let r = be_unsigned(bytes.drop_first());
        assert(0 <= b * p + r < 256 * p) by (nonlinear_arith)
            requires
                0 <= b < 256,
                0 <= r < p,
        ;
    }
}

/// Sign-extend a big-endian byte slice (1..=8 bytes) to `i64`.
pub fn sign_extend_be(bytes: &[u8]) -> (v: i64)
    requires
        1 <= bytes@.len() <= 8,
    ensures
        v == be_signed(bytes@),
{
    let n = bytes.len();
    let mut u: u64 = 0;
    let mut k: usize = 0;
    proof {
        lemma_pow256_values();
    }
    while k < n
        invariant
            k <= n,
            n == bytes@.len(),
            1 <= n <= 8,
            u as int == be_unsigned(bytes@.subrange(0, k as int)),
            u < pow256(k as nat),
        decreases n - k,
    {
        proof {
            lemma_pow256_values();
            lemma_be_unsigned_snoc(bytes@.subrange(0, k as int), bytes@[k as int]);
            assert(bytes@.subrange(0, k as int).push(bytes@[k as int]) =~= bytes@.subrange(0, k + 1));
            let p = pow256(k as nat);
            assert(u * 256 + bytes@[k as int] < p * 256) by (nonlinear_arith)
                requires
                    u < p,
                    bytes@[k as int] < 256,
            ;
            assert(pow256((k + 1) as nat) == 256 * pow256(k as nat));
            assert(p <= pow256(7)) by {
                lemma_pow256_mono(k as nat, 7);
            }
        }
        u = u * 256 + bytes[k] as u64;
        k = k + 1;
    }
    proof {
        assert(bytes@.subrange(0, n as int) =~= bytes@);
        lemma_pow256_values();
        lemma_be_unsigned_first(bytes@);
    }
    let half: u64 = pow256_u64(n - 1) * 128;
    if u >= half {
        let full: i128 = pow256_u64(n - 1) as i128 * 256;
        (u as i128 - full) as i64
    } else {
        u as i64
    }
}

/// `256^n` as a `u64`, for `n < 8`.
pub(crate) fn pow256_u64(n: usize) -> (p: u64)
    requires
        n < 8,
    ensures
        p == pow256(n as nat),
{
    proof {
        lemma_pow256_values();
    }
    let mut p: u64 = 1;
    let mut k: usize = 0;
    while k < n
        invariant
            k <= n,
            n < 8,
            p == pow256(k as nat),
        decreases n - k,
    {
        proof {
            lemma_pow256_values();
            lemma_pow256_mono(k as nat, 7);
        }
        p = p * 256;
        k = k + 1;
    }
    p
}

/// `256^m <= 256^n` for `m <= n`.
pub proof fn lemma_pow256_mono(m: nat, n: nat)
    requires
        m <= n,
    ensures
        1 <= pow256(m) <= pow256(n),
    decreases n,
{
    if n > m {
        lemma_pow256_mono(m, (n - 1) as nat);
    } else if n > 0 {
        lemma_pow256_mono(0, (n - 1) as nat);
    }
}

/// Appending a byte shifts the value one byte up.
pub proof fn lemma_be_unsigned_snoc(bytes: Seq<u8>, b: u8)
    ensures
        be_unsigned(bytes.push(b)) == be_unsigned(bytes) * 256 + b,
    decreases bytes.len(),
{
    if bytes.len() == 0 {
        assert(bytes.push(b).drop_first() =~= Seq::<u8>::empty());
        assert(pow256(0) == 1);
        assert(be_unsigned(bytes.push(b)) == b * pow256(0) + be_unsigned(Seq::<u8>::empty()));
    } else {
        lemma_be_unsigned_snoc(bytes.drop_first(), b);
        assert(bytes.push(b).drop_first() =~= bytes.drop_first().push(b));
        let p = pow256((bytes.len() - 1) as nat);
        assert(pow256(bytes.len() as nat) == 256 * p);
        let x = bytes[0] as int;
        let r = be_unsigned(bytes.drop_first());
        assert(x * (256 * p) + (r * 256 + b) == (x * p + r) * 256 + b) by (nonlinear_arith);
        assert(bytes.push(b)[0] == bytes[0]);
        assert(be_unsigned(bytes.push(b)) == x * pow256(bytes.len() as nat) + be_unsigned(bytes.push(b).drop_first()));
    }
}

/// The first byte decides whether the value is in the upper half.
pub proof fn lemma_be_unsigned_first(bytes: Seq<u8>)
    requires
        bytes.len() >= 1,
    ensures
        (bytes[0] >= 128) == (be_unsigned(bytes) >= 128 * pow256((bytes.len() - 1) as nat)),
{
    let p = pow256((bytes.len() - 1) as nat);
    lemma_be_unsigned_bound(bytes.drop_first());
    let r = be_unsigned(bytes.drop_first());
    let b = bytes[0] as int;
    assert((b >= 128) == (b * p + r >= 128 * p)) by (nonlinear_arith)
        requires
            0 <= r < p,
            0 <= b,
    ;
}

/// Two byte strings of one length with the same unsigned value are equal.
pub proof fn lemma_be_unsigned_injective(a: Seq<u8>, b: Seq<u8>)
    requires
        a.len() == b.len(),
        be_unsigned(a) == be_unsigned(b),
    ensures
        a == b,
    decreases a.len(),
{
    if a.len() > 0 {
        let p = pow256((a.len() - 1) as nat);
        lemma_be_unsigned_bound(a.drop_first());
        lemma_be_unsigned_bound(b.drop_first());
        let ra = be_unsigned(a.drop_first());
        let rb = be_unsigned(b.drop_first());
        let xa = a[0] as int;
        let xb = b[0] as int;
        assert(xa == xb && ra == rb) by (nonlinear_arith)
            requires
                xa * p + ra == xb * p + rb,
                0 <= ra < p,
                0 <= rb < p,
        ;
        lemma_be_unsigned_injective(a.drop_first(), b.drop_first());
        assert(a =~= b) by {
            assert forall|i: int| 0 <= i < a.len() implies a[i] == b[i] by {
                if i > 0 {
                    assert(a[i] == a.drop_first()[i - 1]);
                    assert(b[i] == b.drop_first()[i - 1]);
                }
            }
        }
    } else {
        assert(a =~= b);
    }
}

/// Two non-empty byte strings of one length with the same signed value are
/// equal.
pub proof fn lemma_be_signed_injective(a: Seq<u8>, b: Seq<u8>)
    requires
        a.len() == b.len(),
        a.len() >= 1,
        be_signed(a) == be_signed(b),
    ensures
        a == b,
{
    let n = a.len();
    let p = pow256((n - 1) as nat);
    assert(pow256(n) == 256 * p);
    lemma_be_unsigned_first(a);
    lemma_be_unsigned_first(b);
    lemma_be_unsigned_bound(a);
    lemma_be_unsigned_bound(b);
    lemma_be_unsigned_injective(a, b);
}

/// The smallest `PUSHn` instruction whose sign-extended immediate is `v`.
pub open spec fn push_instruction(v: int) -> Instruction {
    choose|i: Instruction| push_value(i) == Some(v) && push_bytes(i) == push_width(v)
}

/// Two `PUSHn` instructions of one width pushing the same value are equal.
pub proof fn lemma_push_unique(i: Instruction, j: Instruction)
    requires
        push_value(i) is Some,
        push_value(i) == push_value(j),
        push_bytes(i) == push_bytes(j),
    ensures
        i == j,
{
    match (i, j) {
        (Instruction::Push1 { val: x }, Instruction::Push1 { val: y }) => {
            lemma_be_signed_injective(x@, y@);
            assert(x =~= y);
        },
        (Instruction::Push2 { val: x }, Instruction::Push2 { val: y }) => {
            lemma_be_signed_injective(x@, y@);
            assert(x =~= y);
        },
        (Instruction::Push3 { val: x }, Instruction::Push3 { val: y }) => {
            lemma_be_signed_injective(x@, y@);
            assert(x =~= y);
        },
        (Instruction::Push4 { val: x }, Instruction::Push4 { val: y }) => {
            lemma_be_signed_injective(x@, y@);
            assert(x =~= y);
        },
        (Instruction::Push5 { val: x }, Instruction::Push5 { val: y }) => {
            lemma_be_signed_injective(x@, y@);
            assert(x =~= y);
        },
        (Instruction::Push6 { val: x }, Instruction::Push6 { val: y }) => {
            lemma_be_signed_injective(x@, y@);
            assert(x =~= y);
        },
        (Instruction::Push7 { val: x }, Instruction::Push7 { val: y }) => {
            lemma_be_signed_injective(x@, y@);
            assert(x =~= y);
        },
        (Instruction::Push8 { val: x }, Instruction::Push8 { val: y }) => {
            lemma_be_signed_injective(x@, y@);
            assert(x =~= y);
        },
        _ => {},
    }
}

/// An instruction that pushes `v` at the smallest width is
/// [`push_instruction`]`(v)`.
pub proof fn lemma_push_instruction(i: Instruction, v: int)
    requires
        push_value(i) == Some(v),
        push_bytes(i) == push_width(v),
    ensures
        i == push_instruction(v),
{
    let j = push_instruction(v);
    assert(push_value(j) == Some(v) && push_bytes(j) == push_width(v));
    lemma_push_unique(i, j);
}

} // verus!
