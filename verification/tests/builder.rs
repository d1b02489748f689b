//! Tests of the instruction builder: label resolution, jump narrowing and
//! minimal PUSH encoding.

use aglais_xqvm::bytecode::builder::{Error, InstructionBuilder};
use aglais_xqvm::bytecode::instruction::{Instruction, Register};
use aglais_xqvm::bytecode::stream::InstructionStream;

fn decode_all(buf: &[u8]) -> Vec<Instruction> {
    let mut stream = InstructionStream::new(buf);
    let mut out = Vec::new();
    while let Some(item) = stream.next_instruction() {
        out.push(item.unwrap().2);
    }
    out
}

#[test]
fn empty_builder_produces_empty_code() {
    let program = InstructionBuilder::new().build().unwrap();
    assert!(program.code().is_empty());
}

#[test]
fn push_zero_emits_push1() {
    let mut b = InstructionBuilder::new();
    b.push(0).halt();
    let instrs = decode_all(b.build().unwrap().code());
    assert_eq!(instrs[0], Instruction::Push1 { val: [0x00] });
}

#[test]
fn push_i8_emits_push1() {
    let mut b = InstructionBuilder::new();
    b.push(42).halt();
    let instrs = decode_all(b.build().unwrap().code());
    assert_eq!(instrs[0], Instruction::Push1 { val: [42] });
}

#[test]
fn push_minus_one_emits_push1() {
    let mut b = InstructionBuilder::new();
    b.push(-1).halt();
    let instrs = decode_all(b.build().unwrap().code());
    // -1 as i8 = 0xFF
    assert_eq!(instrs[0], Instruction::Push1 { val: [0xFF] });
}

#[test]
fn push_i8_max_uses_push1() {
    let mut b = InstructionBuilder::new();
    b.push(127).halt();
    let instrs = decode_all(b.build().unwrap().code());
    assert_eq!(instrs[0], Instruction::Push1 { val: [0x7F] });
}

#[test]
fn push_i8_max_plus_one_uses_push2() {
    let mut b = InstructionBuilder::new();
    b.push(128).halt();
    let instrs = decode_all(b.build().unwrap().code());
    assert_eq!(instrs[0], Instruction::Push2 { val: [0x00, 0x80] });
}

#[test]
fn push_i64_max_uses_push8() {
    let mut b = InstructionBuilder::new();
    b.push(i64::MAX).halt();
    let instrs = decode_all(b.build().unwrap().code());
    assert_eq!(
        instrs[0],
        Instruction::Push8 {
            val: i64::MAX.to_be_bytes()
        }
    );
}

#[test]
fn push_i64_min_uses_push8() {
    let mut b = InstructionBuilder::new();
    b.push(i64::MIN).halt();
    let instrs = decode_all(b.build().unwrap().code());
    assert_eq!(
        instrs[0],
        Instruction::Push8 {
            val: i64::MIN.to_be_bytes()
        }
    );
}

#[test]
fn backward_jump_resolves_correctly() {
    // After narrowing:
    //   TARGET   (1 byte at 0)  <- emitted by place()
    //   Push1    (2 bytes at 1)
    //   JumpI1   (2 bytes at 3) <- narrowed; seq id 0 fits in u8
    let mut b = InstructionBuilder::new();
    let top = b.label();
    b.place(top).push(0).jump_if(top);

    let program = b.build().unwrap();
    let instrs = decode_all(program.code());
    assert_eq!(instrs[0], Instruction::Target {});
    assert_eq!(instrs[1], Instruction::Push1 { val: [0x00] });
    // Narrowed to JumpI1; sequential id 0 (the only TARGET).
    assert_eq!(instrs[2], Instruction::JumpI1 { label: 0 });

    // The jump table is built by scanning the byte stream for TARGETs;
    // the only TARGET is at byte 0 so seq id 0 -> 0.
    assert_eq!(program.jump_table().len(), 1);
    assert_eq!(program.jump_table().get(0), Some(0));
}

#[test]
fn forward_jump_resolves_correctly() {
    // After narrowing:
    //   Jump1    (2 bytes at 0)  <- narrowed from placeholder Jump2
    //   Nop      (1 byte  at 2)
    //   TARGET   (1 byte  at 3)  <- emitted by place()
    //   Halt     (1 byte  at 4)
    let mut b = InstructionBuilder::new();
    let done = b.label();
    b.jump(done).nop().place(done).halt();

    let program = b.build().unwrap();
    let instrs = decode_all(program.code());
    assert_eq!(instrs[0], Instruction::Jump1 { label: 0 });
    assert_eq!(instrs[1], Instruction::Nop {});
    assert_eq!(instrs[2], Instruction::Target {});
    assert_eq!(instrs[3], Instruction::Halt {});

    // Sequential id 0 -> byte 3 (the TARGET, shifted left by the narrowing).
    assert_eq!(program.jump_table().get(0), Some(3));
}

#[test]
fn multiple_jumps_to_same_label() {
    let mut b = InstructionBuilder::new();
    let done = b.label();
    b.push(0)
        .jump_if(done)
        .push(0)
        .jump_if(done)
        .place(done)
        .halt();

    let program = b.build().unwrap();
    let instrs = decode_all(program.code());
    // Layout: Push1 .. JumpI1 .0 .. Push1 .. JumpI1 .0 .. Target .. Halt
    assert_eq!(*instrs.last().unwrap(), Instruction::Halt {});
    assert_eq!(instrs[0], Instruction::Push1 { val: [0x00] });
    assert_eq!(instrs[2], Instruction::Push1 { val: [0x00] });
    // Both jumps target sequential id 0 (the only TARGET in the program).
    assert!(matches!(instrs[1], Instruction::JumpI1 { label: 0 }));
    assert!(matches!(instrs[3], Instruction::JumpI1 { label: 0 }));
    // place() inserts an inline TARGET before HALT.
    assert_eq!(instrs[4], Instruction::Target {});
    assert_eq!(instrs[5], Instruction::Halt {});
}

#[test]
fn build_renumbers_labels_in_stream_order() {
    // Allocate labels in one order, place them in the opposite order.
    // The fixup must use the placed-order id, not the allocation id.
    let mut b = InstructionBuilder::new();
    let first = b.label(); // alloc id 0
    let second = b.label(); // alloc id 1

    // Reference both before placing.
    b.jump_if(first).jump(second);
    // Place `second` first (alloc id 1 -> seq id 0).
    b.place(second).nop();
    // Then place `first` (alloc id 0 -> seq id 1).
    b.place(first).halt();

    let program = b.build().unwrap();
    let instrs = decode_all(program.code());
    // jump_if `first` was alloc id 0, but `first` is the *second* TARGET
    // in stream order, so its sequential id is 1.
    assert!(matches!(instrs[0], Instruction::JumpI1 { label: 1 }));
    // jump `second` was alloc id 1, but `second` is the *first* TARGET
    // in stream order, so its sequential id is 0.
    assert!(matches!(instrs[1], Instruction::Jump1 { label: 0 }));
}

#[test]
fn jump_narrows_to_jump1_for_small_seq_id() {
    // build() narrows Jump2 → Jump1 when the sequential id fits in u8.
    // For a single label, seq id is 0 which always fits.
    let mut b = InstructionBuilder::new();
    let l = b.label();
    b.jump(l).place(l).halt();

    let program = b.build().unwrap();
    let instrs = decode_all(program.code());
    // Narrowed to Jump1 (2 bytes) since seq id 0 fits in u8.
    assert_eq!(instrs[0], Instruction::Jump1 { label: 0 });
}

#[test]
fn jump_if_narrows_to_jumpi1_for_small_seq_id() {
    let mut b = InstructionBuilder::new();
    let l = b.label();
    b.push(1).jump_if(l).place(l).halt();

    let program = b.build().unwrap();
    let instrs = decode_all(program.code());
    assert_eq!(instrs[1], Instruction::JumpI1 { label: 0 });
}

#[test]
fn unplaced_label_returns_error() {
    let mut b = InstructionBuilder::new();
    let ghost = b.label();
    b.jump(ghost).halt();
    assert_eq!(b.build(), Err(Error::UnplacedLabel { id: 0 }));
}

#[test]
fn unused_label_returns_error() {
    let mut b = InstructionBuilder::new();
    let l0 = b.label();
    let _l1 = b.label(); // placed but never jumped to
    b.jump(l0);
    b.place(l0).nop();
    // l1 is allocated but not placed, which is fine (not used).
    // But if we place it without referencing it, that's an error.
    let mut b2 = InstructionBuilder::new();
    let target = b2.label();
    let unused = b2.label();
    b2.jump(target).place(target).nop().place(unused).halt();
    assert_eq!(b2.build(), Err(Error::UnusedLabel { id: 1 }));
}

#[test]
fn emit_arbitrary_instruction() {
    let mut b = InstructionBuilder::new();
    b.emit(Instruction::Copy {}).emit(Instruction::Halt {});
    let instrs = decode_all(b.build().unwrap().code());
    assert_eq!(instrs, [Instruction::Copy {}, Instruction::Halt {}]);
}

#[test]
fn arithmetic_chain() {
    let mut b = InstructionBuilder::new();
    b.push(10).push(3).add().push(2).mul().neg().halt();
    let instrs = decode_all(b.build().unwrap().code());
    assert_eq!(instrs[2], Instruction::Add {});
    assert_eq!(instrs[4], Instruction::Mul {});
    assert_eq!(instrs[5], Instruction::Neg {});
}

#[test]
fn energy_method_encodes_both_registers() {
    let mut b = InstructionBuilder::new();
    b.energy(Register(1), Register(2)).halt();
    let instrs = decode_all(b.build().unwrap().code());
    assert_eq!(
        instrs[0],
        Instruction::Energy {
            model: Register(1),
            sample: Register(2)
        },
    );
}

#[test]
fn jump_table_has_correct_ranges() {
    // .0: NOP; .1: HALT
    let mut b = InstructionBuilder::new();
    let l0 = b.label();
    let l1 = b.label();
    b.place(l0).nop().jump(l1).place(l1).halt();

    let program = b.build().unwrap();
    // The runtime jump table records each TARGET's byte offset in
    // stream order; the narrowed layout is TARGET (1) + NOP (1) +
    // JUMP1 (2) + TARGET (1) + HALT (1).
    // Sequential id 0 -> first TARGET at byte 0.
    // Sequential id 1 -> second TARGET at byte 4 (shifted by narrowing).
    assert_eq!(program.jump_table().len(), 2);
    assert_eq!(program.jump_table().get(0), Some(0));
    assert_eq!(program.jump_table().get(1), Some(4));
}

#[test]
fn every_jump_lands_on_its_labels_target() {
    let mut b = InstructionBuilder::new();
    let a = b.label();
    let c = b.label();
    b.jump(c).place(a).nop().place(c).jump(a);
    let program = b.build().unwrap();
    // JUMP1 (2 bytes) at 0, TARGET at 2, NOP at 3, TARGET at 4, JUMP1 at 5.
    assert_eq!(
        decode_all(program.code()),
        [
            Instruction::Jump1 { label: 1 },
            Instruction::Target {},
            Instruction::Nop {},
            Instruction::Target {},
            Instruction::Jump1 { label: 0 },
        ]
    );
    assert_eq!(program.jump_table().get(1), Some(4));
    assert_eq!(program.jump_table().get(0), Some(2));
    assert_eq!(program.jump_table().len(), 2);
}
