//! Binary codec for XQVM instructions.
//!
//! An [`Instruction`] is encoded as `[opcode: u8, operands...]`: the opcode
//! byte, then each operand field in declaration order at its natural width
//! in big-endian byte order. There are no varints and no length prefixes,
//! so the length of an encoded instruction is fixed by its opcode.

use vstd::prelude::*;

use super::instruction::{Instruction, Opcode};

verus! {

/// Error returned by [`decode`] when the bytes do not start with a complete
/// instruction.
#[derive(Debug, Clone, Copy, PartialEq, Eq, Structural)]
pub enum DecodeError {
    /// The input is empty.
    UnexpectedEnd,
    /// The first byte is not an assigned opcode.
    UnknownOpcode {
        /// The unrecognised byte.
        byte: u8,
    },
    /// The opcode is known but the input ends before its last operand byte.
    Truncated {
        /// The opcode byte whose operands are missing.
        byte: u8,
    },
}

/// The result of decoding the instruction at the start of `s`: the
/// instruction and the number of bytes it occupies.
pub open spec fn spec_decode(s: Seq<u8>) -> Result<(Instruction, nat), DecodeError> {
    if s.len() == 0 {
        Err(DecodeError::UnexpectedEnd)
    } else {
        match Opcode::spec_from_byte(s[0]) {
            None => Err(DecodeError::UnknownOpcode { byte: s[0] }),
            Some(op) => {
                let n = op.spec_operand_len();
                if s.len() < 1 + n {
                    Err(DecodeError::Truncated { byte: s[0] })
                } else {
                    Ok((Instruction::spec_from_parts(op, s.subrange(1, (1 + n) as int)), 1 + n))
                }
            },
        }
    }
}

/// Encode a single instruction in the wire format `[opcode][operand fields]`.
pub fn encode(instr: &Instruction) -> (bytes: Vec<u8>)
    ensures
        bytes@ == instr.spec_encode(),
{
    instr.to_bytes()
}

/// Decode the instruction that starts at `bytes[pos]`.
///
/// Returns the instruction and the number of bytes it occupies.
pub fn decode_at(bytes: &[u8], pos: usize) -> (r: Result<(Instruction, usize), DecodeError>)
    requires
        pos <= bytes@.len(),
    ensures
        match r {
            Ok((i, n)) => spec_decode(bytes@.skip(pos as int)) == Ok::<(Instruction, nat), DecodeError>((i, n as nat)),
            Err(e) => spec_decode(bytes@.skip(pos as int)) == Err::<(Instruction, nat), DecodeError>(e),
        },
{
    if pos >= bytes.len() {
        return Err(DecodeError::UnexpectedEnd);
    }
    let byte = bytes[pos];
    match Opcode::from_byte(byte) {
        None => Err(DecodeError::UnknownOpcode { byte }),
        Some(op) => {
            let n = op.operand_len();
            if bytes.len() - pos - 1 < n {
                Err(DecodeError::Truncated { byte })
            } else {
                let instr = Instruction::from_parts(op, bytes, pos + 1);
                proof {
                    assert(bytes@.subrange(pos + 1, pos + 1 + n) =~= bytes@.skip(pos as int).subrange(1, 1 + n));
                }
                Ok((instr, n + 1))
            }
        },
    }
}

/// Decode a single instruction from the start of `bytes`.
///
/// Returns `(instruction, bytes_consumed)` on success.
pub fn decode(bytes: &[u8]) -> (r: Result<(Instruction, usize), DecodeError>)
    ensures
        match r {
            Ok((i, n)) => spec_decode(bytes@) == Ok::<(Instruction, nat), DecodeError>((i, n as nat)),
            Err(e) => spec_decode(bytes@) == Err::<(Instruction, nat), DecodeError>(e),
        },
{
    proof {
        assert(bytes@.skip(0) =~= bytes@);
    }
    decode_at(bytes, 0)
}

/// Decoding the encoding of an instruction, followed by any bytes at all,
/// gives the instruction back and consumes exactly its encoding.
pub proof fn lemma_decode_encode(i: Instruction, rest: Seq<u8>)
    ensures
        spec_decode(i.spec_encode() + rest) == Ok::<(Instruction, nat), DecodeError>((i, i.spec_encode().len())),
{
    let s = i.spec_encode() + rest;
    let op = i.spec_opcode();
    i.lemma_operands_len();
    op.lemma_byte_roundtrip();
    i.lemma_from_parts_roundtrip();
    assert(s.subrange(1, (1 + op.spec_operand_len()) as int) =~= i.spec_operands());
}

/// Whatever decodes successfully is the encoding of the decoded instruction:
/// the wire format has exactly one encoding per instruction.
pub proof fn lemma_encode_decode(s: Seq<u8>)
    ensures
        spec_decode(s) matches Ok((i, n)) ==> n == i.spec_encode().len() && i.spec_encode() =~= s.subrange(0, n as int),
{
    if let Ok((i, n)) = spec_decode(s) {
        let op = Opcode::spec_from_byte(s[0]).unwrap();
        Opcode::lemma_from_byte_inverse(s[0]);
        let ops = s.subrange(1, (1 + op.spec_operand_len()) as int);
        Instruction::lemma_from_parts_canonical(op, ops);
        i.lemma_operands_len();
        assert(i.spec_encode() =~= s.subrange(0, n as int));
    }
}

} // verus!
