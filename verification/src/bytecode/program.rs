//! Complete XQVM program in wire form: jump table + instruction bytes.
//!
//! The binary format is `jump_table_bytes ++ code_bytes`: [`Program::encode`]
//! writes the jump table followed by the instruction bytes, and
//! [`Program::decode`] parses the jump table first, then treats the
//! remainder as code.

use vstd::prelude::*;

use super::jump_table::{self, DecodeError, JumpEntry, JumpTable};

verus! {

/// The wire encoding of a program with jump-table entries `t` and code `c`.
pub open spec fn spec_encode(t: Seq<JumpEntry>, c: Seq<u8>) -> Seq<u8> {
    jump_table::spec_encode(t) + c
}

/// The result of decoding a program from `s`: its jump-table entries and
/// its code, which is everything after the table.
pub open spec fn spec_decode(s: Seq<u8>) -> Result<(Seq<JumpEntry>, Seq<u8>), DecodeError> {
    match jump_table::spec_decode(s) {
        Ok((t, n)) => Ok((t, s.skip(n as int))),
        Err(e) => Err(e),
    }
}

/// A complete XQVM program: jump table + instruction bytes.
#[derive(Debug, Clone, PartialEq, Eq)]
pub struct Program {
    jump_table: JumpTable,
    code: Vec<u8>,
}

impl Program {
    /// The entries of the program's jump table.
    pub closed spec fn spec_table(&self) -> Seq<JumpEntry> {
        self.jump_table@
    }

    /// The program's instruction bytes.
    pub closed spec fn spec_code(&self) -> Seq<u8> {
        self.code@
    }

    /// Create a program from raw instruction bytes (empty jump table).
    pub fn new(code: Vec<u8>) -> (p: Self)
        ensures
            p.spec_table() == Seq::<JumpEntry>::empty(),
            p.spec_code() == code@,
    {
        Program { jump_table: JumpTable::default(), code }
    }

    /// Create a program with an explicit jump table.
    pub fn new_with_table(jump_table: JumpTable, code: Vec<u8>) -> (p: Self)
        ensures
            p.spec_table() == jump_table@,
            p.spec_code() == code@,
    {
        Program { jump_table, code }
    }

    /// The jump table.
    pub fn jump_table(&self) -> (t: &JumpTable)
        ensures
            t@ == self.spec_table(),
    {
        &self.jump_table
    }

    /// The raw instruction bytes.
    pub fn code(&self) -> (c: &[u8])
        ensures
            c@ == self.spec_code(),
    {
        self.code.as_slice()
    }

    /// Encode the program to a byte buffer (jump table + code).
    pub fn encode(&self) -> (bytes: Vec<u8>)
        ensures
            bytes@ == spec_encode(self.spec_table(), self.spec_code()),
    {
        let mut buf = self.jump_table.encode();
        let mut i: usize = 0;
        let ghost head = buf@;
        while i < self.code.len()
            invariant
                i <= self.code@.len(),
                buf@ == head + self.code@.take(i as int),
            decreases self.code@.len() - i,
        {
            buf.push(self.code[i]);
            proof {
                assert(self.code@.take(i + 1) =~= self.code@.take(i as int).push(self.code@[i as int]));
            }
            i += 1;
        }
        proof {
            assert(self.code@.take(i as int) =~= self.code@);
        }
        buf
    }

    /// Decode a program from its encoded byte representation.
    pub fn decode(bytes: &[u8]) -> (r: Result<Program, DecodeError>)
        ensures
            match r {
                Ok(p) => spec_decode(bytes@) == Ok::<(Seq<JumpEntry>, Seq<u8>), DecodeError>(
                    (p.spec_table(), p.spec_code()),
                ),
                Err(e) => spec_decode(bytes@) == Err::<(Seq<JumpEntry>, Seq<u8>), DecodeError>(e),
            },
    {
        match JumpTable::decode(bytes) {
            Err(e) => Err(e),
            Ok((jump_table, consumed)) => {
                let mut code: Vec<u8> = Vec::new();
                let mut i: usize = consumed;
                proof {
                    jump_table::lemma_encode_len(jump_table@);
                }
                while i < bytes.len()
                    invariant
                        consumed <= i <= bytes@.len(),
                        code@ == bytes@.subrange(consumed as int, i as int),
                    decreases bytes@.len() - i,
                {
                    code.push(bytes[i]);
                    proof {
                        assert(bytes@.subrange(consumed as int, i + 1) =~= bytes@.subrange(
                            consumed as int,
                            i as int,
                        ).push(bytes@[i as int]));
                    }
                    i += 1;
                }
                proof {
                    assert(code@ =~= bytes@.skip(consumed as int));
                }
                Ok(Program { jump_table, code })
            },
        }
    }
}

/// Decoding the encoding of a program gives back its jump table and its
/// code. The count header holds 16 bits, so this holds for programs whose
/// table has at most 65535 entries.
pub proof fn lemma_decode_encode(t: Seq<JumpEntry>, c: Seq<u8>)
    requires
        t.len() <= 0xffff,
    ensures
        spec_decode(spec_encode(t, c)) == Ok::<(Seq<JumpEntry>, Seq<u8>), DecodeError>((t, c)),
{
    jump_table::lemma_decode_encode(t, c);
    jump_table::lemma_encode_len(t);
    assert(spec_encode(t, c).skip((2 + 10 * t.len()) as int) =~= c);
}

} // verus!
