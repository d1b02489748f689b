//! Tests of the scanned jump table, the program container and register
//! effects.

use aglais_xqvm::bytecode::codec;
use aglais_xqvm::bytecode::instruction::Instruction;
use aglais_xqvm::xqvm::jump_table::JumpTable;
use aglais_xqvm::xqvm::program::Program;
use aglais_xqvm::xqvm::register_effect::RegisterEffect;

fn assemble(instrs: &[Instruction]) -> Vec<u8> {
    instrs.iter().flat_map(codec::encode).collect()
}

#[test]
fn empty_buffer_has_no_targets() {
    let table = JumpTable::scan(&[]);
    assert!(table.is_empty());
    assert_eq!(table.len(), 0);
    assert_eq!(table.get(0), None);
}

#[test]
fn buffer_with_no_targets_has_empty_table() {
    let buf = assemble(&[Instruction::Push1 { val: [42] }, Instruction::Halt {}]);
    let table = JumpTable::scan(&buf);
    assert!(table.is_empty());
}

#[test]
fn single_target_at_offset_zero() {
    let buf = assemble(&[Instruction::Target {}, Instruction::Halt {}]);
    let table = JumpTable::scan(&buf);
    assert_eq!(table.len(), 1);
    assert_eq!(table.get(0), Some(0));
}

#[test]
fn target_after_other_instructions() {
    // PUSH1 (2 bytes) + TARGET (1 byte) + HALT
    let buf = assemble(&[
        Instruction::Push1 { val: [7] },
        Instruction::Target {},
        Instruction::Halt {},
    ]);
    let table = JumpTable::scan(&buf);
    assert_eq!(table.len(), 1);
    assert_eq!(table.get(0), Some(2));
}

#[test]
fn multiple_targets_get_sequential_ids() {
    // TARGET (0) + NOP (1) + TARGET (2) + NOP (3) + TARGET (4) + HALT
    let buf = assemble(&[
        Instruction::Target {},
        Instruction::Nop {},
        Instruction::Target {},
        Instruction::Nop {},
        Instruction::Target {},
        Instruction::Halt {},
    ]);
    let table = JumpTable::scan(&buf);
    assert_eq!(table.len(), 3);
    assert_eq!(table.get(0), Some(0));
    assert_eq!(table.get(1), Some(2));
    assert_eq!(table.get(2), Some(4));
    assert_eq!(table.get(3), None);
}

#[test]
fn explicit_constructor_round_trips_through_get() {
    let table = JumpTable::new(vec![10, 20, 30]);
    assert_eq!(table.len(), 3);
    assert_eq!(table.get(0), Some(10));
    assert_eq!(table.get(1), Some(20));
    assert_eq!(table.get(2), Some(30));
    assert_eq!(table.get(3), None);
    assert_eq!(table.targets(), &[10, 20, 30]);
}

#[test]
fn encode_is_just_the_code() {
    let prog = Program::new(vec![0xFF]);
    assert_eq!(prog.encode(), vec![0xFF]);
}

#[test]
fn decode_round_trips() {
    let prog = Program::new(vec![0xFF, 0x00]);
    let decoded = Program::decode(&prog.encode()).unwrap();
    assert_eq!(decoded.code(), &[0xFF, 0x00]);
}

#[test]
fn empty_program_has_empty_jump_table() {
    let prog = Program::new(vec![]);
    assert!(prog.jump_table().is_empty());
    assert!(prog.encode().is_empty());
}

#[test]
fn jump_table_is_built_from_targets_in_code() {
    let buf = assemble(&[
        Instruction::Target {},
        Instruction::Nop {},
        Instruction::Target {},
        Instruction::Halt {},
    ]);
    let prog = Program::new(buf);
    let table = prog.jump_table();
    assert_eq!(table.len(), 2);
    assert_eq!(table.get(0), Some(0));
    assert_eq!(table.get(1), Some(2));
}

#[test]
fn empty_register_effect() {
    let e = RegisterEffect::empty();
    assert!(e.is_empty());
    assert_eq!(e.len(), 0);
    assert_eq!(e.as_slice(), &[] as &[u8]);
}

#[test]
fn one_register_effect() {
    let e = RegisterEffect::one(5);
    assert!(!e.is_empty());
    assert_eq!(e.len(), 1);
    assert_eq!(e.as_slice(), &[5]);
}

#[test]
fn two_register_effect() {
    let e = RegisterEffect::two(3, 7);
    assert_eq!(e.len(), 2);
    assert_eq!(e.as_slice(), &[3, 7]);
}
