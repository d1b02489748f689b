//! Jump table: maps sequential `TARGET` ids to their byte positions.
//!
//! The table is computed at load time by scanning the instruction stream for
//! `TARGET` opcodes; each `TARGET` is assigned a sequential id (`0, 1, 2,
//! ...`) in program order, and the table records the byte offset where it
//! starts. `JUMP1`/`JUMP2`/`JUMPI1`/`JUMPI2` operands are these sequential
//! ids.

use vstd::prelude::*;

use super::checker;

verus! {

/// Maps sequential `TARGET` ids to their byte positions in the instruction
/// stream.
#[derive(Debug, Clone, PartialEq, Eq, Default)]
pub struct JumpTable {
    /// `targets[seq_id]` is the byte offset of the `TARGET` opcode whose
    /// sequential id is `seq_id`.
    targets: Vec<usize>,
}

impl JumpTable {
    /// The byte offsets of the targets, indexed by sequential id.
    pub closed spec fn spec_targets(&self) -> Seq<usize> {
        self.targets@
    }

    /// Create a jump table from an explicit list of target byte offsets,
    /// indexed by sequential id.
    pub fn new(targets: Vec<usize>) -> (t: Self)
        ensures
            t.spec_targets() == targets@,
    {
        Self { targets }
    }

    /// Scan an instruction-byte buffer and record the position of every
    /// `TARGET` opcode in stream order, up to the first byte that does not
    /// decode.
    pub fn scan(code: &[u8]) -> (t: Self)
        ensures
            t.spec_targets() == checker::spec_scan(code@).0,
    {
        checker::scan(code).0
    }

    /// Look up the byte offset of the `TARGET` with sequential id `label`.
    ///
    /// Returns `None` if the program has fewer than `label + 1` targets.
    pub fn get(&self, label: u16) -> (r: Option<usize>)
        ensures
            label < self.spec_targets().len() ==> r == Some(self.spec_targets()[label as int]),
            label >= self.spec_targets().len() ==> r is None,
    {
        let i = label as usize;
        if i < self.targets.len() {
            Some(self.targets[i])
        } else {
            None
        }
    }

    /// Number of `TARGET` opcodes recorded.
    pub fn len(&self) -> (n: usize)
        ensures
            n == self.spec_targets().len(),
    {
        self.targets.len()
    }

    /// Whether the table is empty (the program has no `TARGET` opcodes).
    pub fn is_empty(&self) -> (b: bool)
        ensures
            b == (self.spec_targets().len() == 0),
    {
        self.targets.len() == 0
    }

    /// Borrow the raw `targets` slice (sequential id -> byte offset).
    pub fn targets(&self) -> (s: &[usize])
        ensures
            s@ == self.spec_targets(),
    {
        self.targets.as_slice()
    }
}

} // verus!
