//! Integration tests for the named-label assembler: assemble complete
//! programs and check the decoded instruction stream.

use aglais_xqvm::assembly::assemble_source;
use aglais_xqvm::bytecode::instruction::{Instruction, Register};
use aglais_xqvm::bytecode::stream::InstructionStream;

fn decode_all(buf: &[u8]) -> Vec<Instruction> {
    let mut stream = InstructionStream::new(buf);
    let mut out = Vec::new();
    while let Some(item) = stream.next_instruction() {
        out.push(item.unwrap().2);
    }
    out
}

fn assembled(src: &str) -> Vec<Instruction> {
    let program = assemble_source(src).expect("assemble_source failed");
    decode_all(program.code())
}

#[test]
fn integration_empty_program_produces_empty_buffer() {
    let prog = assemble_source("").unwrap();
    assert!(prog.code().is_empty());
}

#[test]
fn integration_comment_only_produces_empty_buffer() {
    let prog = assemble_source("; nothing here\n; more comments").unwrap();
    assert!(prog.code().is_empty());
}

#[test]
fn integration_single_halt() {
    let instrs = assembled("HALT");
    assert_eq!(instrs, [Instruction::Halt {}]);
}

#[test]
fn integration_push_and_halt() {
    let instrs = assembled("PUSH 7\nHALT");
    assert_eq!(instrs[0], Instruction::Push1 { val: [7] });
    assert_eq!(instrs[1], Instruction::Halt {});
}

#[test]
fn integration_arithmetic_sequence() {
    let instrs = assembled("PUSH 10\nPUSH 3\nSUB\nNEG\nHALT");
    assert_eq!(instrs[0], Instruction::Push1 { val: [10] });
    assert_eq!(instrs[1], Instruction::Push1 { val: [3] });
    assert_eq!(instrs[2], Instruction::Sub {});
    assert_eq!(instrs[3], Instruction::Neg {});
    assert_eq!(instrs[4], Instruction::Halt {});
}

#[test]
fn integration_bitwise_instructions() {
    let instrs = assembled("PUSH 0xFF\nPUSH 0x0F\nBAND\nHALT");
    assert_eq!(instrs[0], Instruction::Push2 { val: [0x00, 0xFF] });
    assert_eq!(instrs[1], Instruction::Push1 { val: [0x0F] });
    assert_eq!(instrs[2], Instruction::BAnd {});
}

#[test]
fn integration_stow_and_load_roundtrip() {
    let instrs = assembled("PUSH 99\nSTOW r5\nLOAD r5\nHALT");
    assert_eq!(instrs[0], Instruction::Push1 { val: [99] });
    assert_eq!(instrs[1], Instruction::Stow { reg: Register(5) });
    assert_eq!(instrs[2], Instruction::Load { reg: Register(5) });
}

#[test]
fn integration_max_register_r255() {
    let instrs = assembled("PUSH 1\nSTOW r255\nHALT");
    assert_eq!(instrs[1], Instruction::Stow { reg: Register(255) });
}

#[test]
fn integration_energy_instruction() {
    let instrs = assembled("ENERGY r0 r1");
    assert_eq!(
        instrs[0],
        Instruction::Energy {
            model: Register(0),
            sample: Register(1),
        }
    );
}

#[test]
fn integration_bqmx_allocate() {
    let instrs = assembled("PUSH 4\nBQMX r0");
    assert_eq!(instrs[0], Instruction::Push1 { val: [4] });
    assert_eq!(instrs[1], Instruction::Bqmx { reg: Register(0) });
}

#[test]
fn integration_setquad_instruction() {
    let instrs = assembled("PUSH -1\nPUSH 2\nPUSH 2\nSETQUAD r0");
    assert_eq!(instrs[0], Instruction::Push1 { val: [0xFF] });
    assert_eq!(instrs[3], Instruction::SetQuad { reg: Register(0) });
}

#[test]
fn integration_vec_operations() {
    let instrs = assembled("VECI r2\nPUSH 7\nVECPUSH r2\nPUSH 0\nVECGET r2");
    assert_eq!(instrs[0], Instruction::VecI { reg: Register(2) });
    assert_eq!(instrs[2], Instruction::VecPush { reg: Register(2) });
    assert_eq!(instrs[4], Instruction::VecGet { reg: Register(2) });
}

#[test]
fn integration_inline_comments_ignored() {
    let instrs = assembled("PUSH 1 ; push one\nHALT ; stop");
    assert_eq!(instrs.len(), 2);
    assert_eq!(instrs[0], Instruction::Push1 { val: [1] });
}

#[test]
fn integration_blank_lines_and_indentation_ignored() {
    let src = "\n\n    PUSH 1\n\n    HALT\n\n";
    let instrs = assembled(src);
    assert_eq!(instrs.len(), 2);
}

#[test]
fn integration_hex_and_decimal_literals() {
    let instrs = assembled("PUSH 0xFF\nPUSH 255");
    assert_eq!(instrs[0], Instruction::Push2 { val: [0x00, 0xFF] });
    assert_eq!(instrs[1], Instruction::Push2 { val: [0x00, 0xFF] });
}

#[test]
fn integration_lowercase_mnemonics_assemble() {
    let instrs = assembled("push 5\npush 3\nadd\nhalt");
    assert_eq!(instrs[0], Instruction::Push1 { val: [5] });
    assert_eq!(instrs[1], Instruction::Push1 { val: [3] });
    assert_eq!(instrs[2], Instruction::Add {});
    assert_eq!(instrs[3], Instruction::Halt {});
}

#[test]
fn integration_mixed_case_mnemonics_assemble() {
    let instrs = assembled("pUsH 7\nHaLt");
    assert_eq!(instrs[0], Instruction::Push1 { val: [7] });
    assert_eq!(instrs[1], Instruction::Halt {});
}

#[test]
fn integration_mixed_case_produces_same_bytecode_as_uppercase() {
    let upper = assemble_source("PUSH 1\nADD\nHALT").unwrap();
    let lower = assemble_source("push 1\nadd\nhalt").unwrap();
    let mixed = assemble_source("Push 1\nAdd\nHalt").unwrap();
    assert_eq!(upper.code(), lower.code());
    assert_eq!(upper.code(), mixed.code());
}

#[test]
fn integration_push_large_value_encodes_inline() {
    // 100000 = 0x0001_86A0 encodes inline as PUSH3 -- no constant pool needed.
    let program = assemble_source("PUSH 100000\nHALT").expect("assemble failed");
    let instrs = decode_all(program.code());
    assert_eq!(instrs[0], Instruction::Push3 { val: [0x01, 0x86, 0xA0] });
    assert_eq!(instrs[1], Instruction::Halt {});
}

#[test]
fn integration_unknown_mnemonic_is_error() {
    assert!(assemble_source("INVALID_OPCODE").is_err());
}

#[test]
fn integration_undefined_label_is_error() {
    assert!(assemble_source("JUMP nonexistent").is_err());
}

#[test]
fn integration_duplicate_label_is_error() {
    assert!(assemble_source("top:\nNOP\ntop:\nHALT").is_err());
}

#[test]
fn integration_wrong_operand_count_is_error() {
    assert!(assemble_source("ADD r0").is_err());
}

#[test]
fn integration_register_where_integer_expected_is_error() {
    assert!(assemble_source("PUSH r0").is_err());
}

#[test]
fn integration_integer_where_register_expected_is_error() {
    assert!(assemble_source("LOAD 42").is_err());
}

#[test]
fn integration_register_out_of_range_parse_error() {
    assert!(assemble_source("LOAD r256").is_err());
}

#[test]
fn integer_offset_overflow_is_error() {
    // A raw integer is not a label reference.
    assert!(assemble_source("JUMP 40000").is_err());
}
