//! Tests of the opcode table, the instruction type and the binary codec.

use aglais_xqvm::bytecode::codec::{decode, encode};
use aglais_xqvm::bytecode::instruction::{Instruction, Opcode, Register};

/// Every instruction, with zeroed operands, beside its opcode and mnemonic.
fn all_instructions() -> Vec<(Instruction, Opcode, &'static str)> {
    vec![
        (Instruction::Nop {}, Opcode::Nop, "NOP"),
        (Instruction::Target {}, Opcode::Target, "TARGET"),
        (Instruction::Jump2 { label: 0 }, Opcode::Jump2, "JUMP2"),
        (Instruction::JumpI2 { label: 0 }, Opcode::JumpI2, "JUMPI2"),
        (Instruction::Next {}, Opcode::Next, "NEXT"),
        (Instruction::LVal { reg: Register::default() }, Opcode::LVal, "LVAL"),
        (Instruction::Range {}, Opcode::Range, "RANGE"),
        (Instruction::Iter { reg: Register::default() }, Opcode::Iter, "ITER"),
        (Instruction::Halt {}, Opcode::Halt, "HALT"),
        (Instruction::Load { reg: Register::default() }, Opcode::Load, "LOAD"),
        (Instruction::Stow { reg: Register::default() }, Opcode::Stow, "STOW"),
        (Instruction::Drop { reg: Register::default() }, Opcode::Drop, "DROP"),
        (Instruction::Input { reg: Register::default() }, Opcode::Input, "INPUT"),
        (Instruction::Output { reg: Register::default() }, Opcode::Output, "OUTPUT"),
        (Instruction::Pop {}, Opcode::Pop, "POP"),
        (Instruction::Push1 { val: [0u8; 1] }, Opcode::Push1, "PUSH1"),
        (Instruction::Push2 { val: [0u8; 2] }, Opcode::Push2, "PUSH2"),
        (Instruction::Push3 { val: [0u8; 3] }, Opcode::Push3, "PUSH3"),
        (Instruction::Push4 { val: [0u8; 4] }, Opcode::Push4, "PUSH4"),
        (Instruction::Push5 { val: [0u8; 5] }, Opcode::Push5, "PUSH5"),
        (Instruction::Push6 { val: [0u8; 6] }, Opcode::Push6, "PUSH6"),
        (Instruction::Push7 { val: [0u8; 7] }, Opcode::Push7, "PUSH7"),
        (Instruction::Push8 { val: [0u8; 8] }, Opcode::Push8, "PUSH8"),
        (Instruction::Lidx { reg: Register::default() }, Opcode::Lidx, "LIDX"),
        (Instruction::Sclr {}, Opcode::Sclr, "SCLR"),
        (Instruction::Swap {}, Opcode::Swap, "SWAP"),
        (Instruction::Copy {}, Opcode::Copy, "COPY"),
        (Instruction::Jump1 { label: 0 }, Opcode::Jump1, "JUMP1"),
        (Instruction::JumpI1 { label: 0 }, Opcode::JumpI1, "JUMPI1"),
        (Instruction::Add {}, Opcode::Add, "ADD"),
        (Instruction::Sub {}, Opcode::Sub, "SUB"),
        (Instruction::Mul {}, Opcode::Mul, "MUL"),
        (Instruction::Div {}, Opcode::Div, "DIV"),
        (Instruction::Modulo {}, Opcode::Modulo, "MOD"),
        (Instruction::Sqr {}, Opcode::Sqr, "SQR"),
        (Instruction::Abs {}, Opcode::Abs, "ABS"),
        (Instruction::Neg {}, Opcode::Neg, "NEG"),
        (Instruction::Min {}, Opcode::Min, "MIN"),
        (Instruction::Max {}, Opcode::Max, "MAX"),
        (Instruction::Inc {}, Opcode::Inc, "INC"),
        (Instruction::Dec {}, Opcode::Dec, "DEC"),
        (Instruction::Eq {}, Opcode::Eq, "EQ"),
        (Instruction::Lt {}, Opcode::Lt, "LT"),
        (Instruction::Gt {}, Opcode::Gt, "GT"),
        (Instruction::Lte {}, Opcode::Lte, "LTE"),
        (Instruction::Gte {}, Opcode::Gte, "GTE"),
        (Instruction::Not {}, Opcode::Not, "NOT"),
        (Instruction::And {}, Opcode::And, "AND"),
        (Instruction::Or {}, Opcode::Or, "OR"),
        (Instruction::Xor {}, Opcode::Xor, "XOR"),
        (Instruction::BAnd {}, Opcode::BAnd, "BAND"),
        (Instruction::BOr {}, Opcode::BOr, "BOR"),
        (Instruction::BXor {}, Opcode::BXor, "BXOR"),
        (Instruction::BNot {}, Opcode::BNot, "BNOT"),
        (Instruction::Shl {}, Opcode::Shl, "SHL"),
        (Instruction::Shr {}, Opcode::Shr, "SHR"),
        (Instruction::Bqmx { reg: Register::default() }, Opcode::Bqmx, "BQMX"),
        (Instruction::Sqmx { reg: Register::default() }, Opcode::Sqmx, "SQMX"),
        (Instruction::Xqmx { reg: Register::default() }, Opcode::Xqmx, "XQMX"),
        (Instruction::Bsmx { reg: Register::default() }, Opcode::Bsmx, "BSMX"),
        (Instruction::Ssmx { reg: Register::default() }, Opcode::Ssmx, "SSMX"),
        (Instruction::Xsmx { reg: Register::default() }, Opcode::Xsmx, "XSMX"),
        (Instruction::Vec { reg: Register::default() }, Opcode::Vec, "VEC"),
        (Instruction::VecI { reg: Register::default() }, Opcode::VecI, "VECI"),
        (Instruction::VecX { reg: Register::default() }, Opcode::VecX, "VECX"),
        (Instruction::VecPush { reg: Register::default() }, Opcode::VecPush, "VECPUSH"),
        (Instruction::VecGet { reg: Register::default() }, Opcode::VecGet, "VECGET"),
        (Instruction::VecSet { reg: Register::default() }, Opcode::VecSet, "VECSET"),
        (Instruction::VecLen { reg: Register::default() }, Opcode::VecLen, "VECLEN"),
        (Instruction::IdxGrid {}, Opcode::IdxGrid, "IDXGRID"),
        (Instruction::IdxTriu {}, Opcode::IdxTriu, "IDXTRIU"),
        (Instruction::GetLine { reg: Register::default() }, Opcode::GetLine, "GETLINE"),
        (Instruction::SetLine { reg: Register::default() }, Opcode::SetLine, "SETLINE"),
        (Instruction::AddLine { reg: Register::default() }, Opcode::AddLine, "ADDLINE"),
        (Instruction::GetQuad { reg: Register::default() }, Opcode::GetQuad, "GETQUAD"),
        (Instruction::SetQuad { reg: Register::default() }, Opcode::SetQuad, "SETQUAD"),
        (Instruction::AddQuad { reg: Register::default() }, Opcode::AddQuad, "ADDQUAD"),
        (Instruction::Resize { reg: Register::default() }, Opcode::Resize, "RESIZE"),
        (Instruction::RowFind { reg: Register::default() }, Opcode::RowFind, "ROWFIND"),
        (Instruction::ColFind { reg: Register::default() }, Opcode::ColFind, "COLFIND"),
        (Instruction::RowSum { reg: Register::default() }, Opcode::RowSum, "ROWSUM"),
        (Instruction::ColSum { reg: Register::default() }, Opcode::ColSum, "COLSUM"),
        (Instruction::OneHotR { reg: Register::default() }, Opcode::OneHotR, "ONEHOTR"),
        (Instruction::OneHotC { reg: Register::default() }, Opcode::OneHotC, "ONEHOTC"),
        (Instruction::Exclude { reg: Register::default() }, Opcode::Exclude, "EXCLUDE"),
        (Instruction::Implies { reg: Register::default() }, Opcode::Implies, "IMPLIES"),
        (Instruction::Energy { model: Register::default(), sample: Register::default() }, Opcode::Energy, "ENERGY"),
    ]
}

#[test]
fn opcode_method_covers_all_variants() {
    for (instr, expected, _) in all_instructions() {
        assert_eq!(instr.opcode(), expected, "opcode mismatch for {instr:?}");
    }
}

#[test]
fn mnemonic_method_covers_all_variants() {
    for (instr, _, expected_mnem) in all_instructions() {
        assert_eq!(instr.mnemonic(), expected_mnem, "mnemonic mismatch for {instr:?}");
    }
}

#[test]
fn energy_named_fields() {
    let e = Instruction::Energy {
        model: Register(0),
        sample: Register(1),
    };
    assert_eq!(e.opcode(), Opcode::Energy);
    if let Instruction::Energy { model, sample } = e {
        assert_eq!(model.slot(), 0);
        assert_eq!(sample.slot(), 1);
    } else {
        panic!("pattern match failed");
    }
}

#[test]
fn register_slot_accessor() {
    assert_eq!(Register(0).slot(), 0);
    assert_eq!(Register(255).slot(), 255);
}

#[test]
fn register_default_is_slot_zero() {
    assert_eq!(Register::default(), Register(0));
}

#[test]
fn encode_decode_roundtrip_all_68() {
    for (instr, _, _) in all_instructions() {
        let bytes = encode(&instr);
        let (decoded, consumed) = decode(&bytes).expect("decode failed");
        assert_eq!(decoded, instr, "roundtrip mismatch for {instr:?}");
        assert_eq!(consumed, bytes.len(), "consumed != encoded length for {instr:?}");
    }
}

#[test]
fn codec_nop_is_one_byte() {
    assert_eq!(encode(&Instruction::Nop {}), [0x00]);
}

#[test]
fn energy_two_register_bytes() {
    // Register serializes as raw u8
    let bytes = encode(&Instruction::Energy {
        model: Register(2),
        sample: Register(3),
    });
    assert_eq!(bytes, [0x7F, 2, 3]);
}

#[test]
fn unknown_opcode_returns_error() {
    // 0x08 is a gap opcode (not assigned)
    assert!(decode(&[0x08u8]).is_err());
}
