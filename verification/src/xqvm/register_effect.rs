//! Register effect metadata for instructions.

use vstd::prelude::*;

verus! {

/// A compact set of register indices (0-2 elements, stack-allocated).
#[derive(Debug, Clone, Copy, PartialEq, Eq)]
pub struct RegisterEffect {
    buf: [u8; 2],
    len: u8,
}

impl RegisterEffect {
    #[verifier::type_invariant]
    spec fn inv(self) -> bool {
        self.len <= 2
    }

    /// The registers in the set, in order.
    pub closed spec fn spec_regs(self) -> Seq<u8> {
        self.buf@.take(self.len as int)
    }

    /// Empty set (no registers).
    pub fn empty() -> (e: Self)
        ensures
            e.spec_regs() == Seq::<u8>::empty(),
    {
        let e = Self { buf: [0, 0], len: 0 };
        proof {
            assert(e.spec_regs() =~= Seq::<u8>::empty());
        }
        e
    }

    /// Single-register set.
    pub fn one(r: u8) -> (e: Self)
        ensures
            e.spec_regs() == seq![r],
    {
        let e = Self { buf: [r, 0], len: 1 };
        proof {
            assert(e.spec_regs() =~= seq![r]);
        }
        e
    }

    /// Two-register set.
    pub fn two(a: u8, b: u8) -> (e: Self)
        ensures
            e.spec_regs() == seq![a, b],
    {
        let e = Self { buf: [a, b], len: 2 };
        proof {
            assert(e.spec_regs() =~= seq![a, b]);
        }
        e
    }

    /// View as a slice.
    pub fn as_slice(&self) -> (s: &[u8])
        ensures
            s@ == self.spec_regs(),
    {
        proof {
            use_type_invariant(self);
        }
        let full: &[u8] = &self.buf;
        let s = vstd::slice::slice_subrange(full, 0, self.len as usize);
        s
    }

    /// Number of registers in the set.
    pub fn len(&self) -> (n: usize)
        ensures
            n == self.spec_regs().len(),
    {
        proof {
            use_type_invariant(self);
        }
        self.len as usize
    }

    /// Whether the set is empty.
    pub fn is_empty(&self) -> (b: bool)
        ensures
            b == (self.spec_regs().len() == 0),
    {
        proof {
            use_type_invariant(self);
        }
        self.len == 0
    }
}

} // verus!
