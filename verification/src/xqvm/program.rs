//! Complete XQVM program: the instruction stream and its jump table.
//!
//! The wire format is exactly the instruction stream; the [`JumpTable`] is
//! rebuilt by scanning for `TARGET` opcodes whenever a program is created
//! from bytes.

use vstd::prelude::*;

use super::jump_table::JumpTable;
use super::checker;

verus! {

/// A complete XQVM program: instruction bytes and a pre-computed
/// [`JumpTable`].
#[derive(Debug, Clone, PartialEq, Eq)]
pub struct Program {
    code: Vec<u8>,
    jump_table: JumpTable,
}

/// Error returned by [`Program::decode`].
///
/// No value of it is ever produced: decoding the current wire format never
/// fails. The type keeps room for future format additions.
#[derive(Debug, Clone, Copy, PartialEq, Eq)]
pub struct ProgramDecodeError {
    unused: (),
}

impl Program {
    /// The instruction bytes.
    pub closed spec fn spec_code(&self) -> Seq<u8> {
        self.code@
    }

    /// The jump table's target offsets.
    pub closed spec fn spec_targets(&self) -> Seq<usize> {
        self.jump_table.spec_targets()
    }

    /// Wrap raw instruction bytes, computing the jump table by scanning the
    /// buffer for `TARGET` opcodes.
    pub fn new(code: Vec<u8>) -> (p: Self)
        ensures
            p.spec_code() == code@,
            p.spec_targets() == checker::spec_scan(code@).0,
    {
        let jump_table = JumpTable::scan(code.as_slice());
        Self { code, jump_table }
    }

    /// Wrap raw instruction bytes with an explicit jump table.
    pub fn from_parts(code: Vec<u8>, jump_table: JumpTable) -> (p: Self)
        ensures
            p.spec_code() == code@,
            p.spec_targets() == jump_table.spec_targets(),
    {
        Self { code, jump_table }
    }

    /// The pre-computed jump table.
    pub fn jump_table(&self) -> (t: &JumpTable)
        ensures
            t.spec_targets() == self.spec_targets(),
    {
        &self.jump_table
    }

    /// The raw instruction bytes.
    pub fn code(&self) -> (c: &[u8])
        ensures
            c@ == self.spec_code(),
    {
        self.code.as_slice()
    }

    /// Encode the program to its wire format: the raw instruction stream.
    pub fn encode(&self) -> (bytes: Vec<u8>)
        ensures
            bytes@ == self.spec_code(),
    {
        vstd::slice::slice_to_vec(self.code.as_slice())
    }

    /// Decode a program from its wire format. Never fails: every byte
    /// string is an instruction stream.
    pub fn decode(bytes: &[u8]) -> (r: Result<Self, ProgramDecodeError>)
        ensures
            r matches Ok(p) && p.spec_code() == bytes@ && p.spec_targets() == checker::spec_scan(bytes@).0,
    {
        Ok(Self::new(vstd::slice::slice_to_vec(bytes)))
    }
}

} // verus!
