//! Tests of the seekable instruction stream.

use aglais_xqvm::bytecode::codec;
use aglais_xqvm::bytecode::instruction::{Instruction, Register};
use aglais_xqvm::bytecode::stream::{Error, InstructionStream};

fn assemble(program: &[Instruction]) -> Vec<u8> {
    program.iter().flat_map(codec::encode).collect()
}

#[test]
fn empty_buffer_yields_none_immediately() {
    let mut stream = InstructionStream::new(&[]);
    assert_eq!(stream.next_instruction(), None);
}

#[test]
fn single_instruction_roundtrip() {
    let buf = assemble(&[Instruction::Halt {}]);
    let mut stream = InstructionStream::new(&buf);
    assert_eq!(stream.next_instruction(), Some(Ok((0, None, Instruction::Halt {}))),);
    assert_eq!(stream.next_instruction(), None);
}

#[test]
fn seek_to_end_makes_stream_done() {
    let buf = assemble(&[Instruction::Halt {}]);
    let mut stream = InstructionStream::new(&buf);
    stream.seek(buf.len()).unwrap();
    assert_eq!(stream.next_instruction(), None);
}

#[test]
fn seek_out_of_bounds_returns_error() {
    let buf = assemble(&[Instruction::Halt {}]);
    let mut stream = InstructionStream::new(&buf);
    assert_eq!(
        stream.seek(buf.len() + 1),
        Err(Error::SeekOutOfBounds {
            target: buf.len() + 1,
            len: buf.len()
        }),
    );
    // Position is unchanged after a failed seek.
    assert_eq!(stream.pos(), 0);
}

#[test]
fn unknown_opcode_returns_error_and_advances() {
    // 0x08 is a gap opcode (not assigned).
    let buf = [0x08u8, Instruction::Halt {}.opcode().byte()];
    let mut stream = InstructionStream::new(&buf);

    assert_eq!(
        stream.next_instruction(),
        Some(Err(Error::UnknownOpcode {
            offset: 0,
            byte: 0x08
        })),
    );
    // After the error the cursor moved to byte 1; HALT should decode.
    assert_eq!(stream.next_instruction(), Some(Ok((1, None, Instruction::Halt {}))),);
}

#[test]
fn pos_and_len_are_correct() {
    let buf = assemble(&[Instruction::Nop {}, Instruction::Halt {}]);
    let mut stream = InstructionStream::new(&buf);
    assert_eq!(stream.len(), 2);
    assert_eq!(stream.pos(), 0);
    let _ = stream.next_instruction();
    assert_eq!(stream.pos(), 1);
    let _ = stream.next_instruction();
    assert_eq!(stream.pos(), 2);
}

#[test]
fn register_instruction_decodes_correctly() {
    let buf = assemble(&[Instruction::Load { reg: Register(7) }]);
    let mut stream = InstructionStream::new(&buf);
    let (_, _, instr) = stream.next_instruction().unwrap().unwrap();
    assert_eq!(instr, Instruction::Load { reg: Register(7) });
}

#[test]
fn truncated_push_returns_error_and_advances() {
    // PUSH2 opcode only, no operand bytes -- truncated.
    let buf = [0x12u8];
    let mut stream = InstructionStream::new(&buf);
    assert_eq!(stream.next_instruction(), Some(Err(Error::TruncatedInstruction { offset: 0 })),);
    // Cursor is at 1 == len, so stream is exhausted.
    assert_eq!(stream.next_instruction(), None);
}

#[test]
fn referenced_target_carries_label() {
    // JUMP1 0 (2 bytes) at 0, NOP at 2, TARGET at 3 -> L0, HALT at 4.
    let buf = assemble(&[
        Instruction::Jump1 { label: 0 },
        Instruction::Nop {},
        Instruction::Target {},
        Instruction::Halt {},
    ]);
    let mut stream = InstructionStream::new(&buf);
    assert_eq!(stream.labels().len(), 1);
    assert_eq!(stream.labels().get(&3).map(String::as_str), Some("L0"));
    stream.seek(3).unwrap();
    let (off, label, instr) = stream.next_instruction().unwrap().unwrap();
    assert_eq!(off, 3);
    assert_eq!(label.as_deref(), Some("L0"));
    assert_eq!(instr, Instruction::Target {});
}

#[test]
fn unreferenced_targets_get_no_label() {
    let buf = assemble(&[Instruction::Target {}, Instruction::Push1 { val: [1] }, Instruction::Halt {}]);
    let stream = InstructionStream::new(&buf);
    assert!(stream.labels().is_empty());
}
