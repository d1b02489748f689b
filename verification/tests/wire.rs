//! Tests of the wire-format jump table, program container and constant
//! pool.

use aglais_xqvm::bytecode::jump_table::{DecodeError, JumpEntry, JumpTable};
use aglais_xqvm::bytecode::pool::{ConstantPool, PoolOverflow};
use aglais_xqvm::bytecode::program::Program;

#[test]
fn empty_table_roundtrip() {
    let table = JumpTable::default();
    let bytes = table.encode();
    assert_eq!(bytes, [0x00, 0x00]);
    let (decoded, consumed) = JumpTable::decode(&bytes).unwrap();
    assert_eq!(consumed, 2);
    assert_eq!(decoded, table);
}

#[test]
fn single_entry_roundtrip() {
    let table = JumpTable::new(vec![JumpEntry {
        label: 0,
        start: 0,
        end: 42,
    }]);
    let bytes = table.encode();
    assert_eq!(bytes.len(), 12);
    let (decoded, consumed) = JumpTable::decode(&bytes).unwrap();
    assert_eq!(consumed, 12);
    assert_eq!(decoded, table);
}

#[test]
fn multi_entry_roundtrip() {
    let table = JumpTable::new(vec![
        JumpEntry {
            label: 0,
            start: 0,
            end: 10,
        },
        JumpEntry {
            label: 1,
            start: 10,
            end: 25,
        },
        JumpEntry {
            label: 2,
            start: 25,
            end: 30,
        },
    ]);
    let bytes = table.encode();
    let (decoded, consumed) = JumpTable::decode(&bytes).unwrap();
    assert_eq!(consumed, 2 + 3 * 10);
    assert_eq!(decoded, table);
}

#[test]
fn get_by_label() {
    let table = JumpTable::new(vec![
        JumpEntry {
            label: 0,
            start: 0,
            end: 5,
        },
        JumpEntry {
            label: 1,
            start: 5,
            end: 12,
        },
    ]);
    assert_eq!(table.get(0).unwrap().start, 0);
    assert_eq!(table.get(1).unwrap().end, 12);
    assert!(table.get(2).is_none());
}

#[test]
fn truncated_header_error() {
    assert!(matches!(
        JumpTable::decode(&[0x00]),
        Err(DecodeError::TruncatedHeader { len: 1 })
    ));
}

#[test]
fn truncated_entries_error() {
    // Header says 1 entry (10 bytes) but only 5 available.
    let bytes = [0x00, 0x01, 0x00, 0x00, 0x00, 0x00, 0x00];
    assert!(matches!(
        JumpTable::decode(&bytes),
        Err(DecodeError::TruncatedEntries { count: 1, .. })
    ));
}

#[test]
fn decode_with_trailing_bytes() {
    let table = JumpTable::new(vec![JumpEntry {
        label: 0,
        start: 0,
        end: 5,
    }]);
    let mut bytes = table.encode();
    bytes.extend_from_slice(&[0xFF, 0xFE]); // trailing code bytes
    let (decoded, consumed) = JumpTable::decode(&bytes).unwrap();
    assert_eq!(consumed, 12);
    assert_eq!(decoded, table);
}

#[test]
fn encode_decode_roundtrip() {
    let prog = Program::new(vec![0x0F]);
    assert_eq!(Program::decode(&prog.encode()).unwrap().code(), prog.code());
}

#[test]
fn empty_program() {
    let prog = Program::new(vec![]);
    let bytes = prog.encode();
    // Empty table header (2 bytes) + no code
    assert_eq!(bytes, [0x00, 0x00]);
}

#[test]
fn code_is_preserved() {
    let prog = Program::new(vec![0x0F, 0x00]);
    let decoded = Program::decode(&prog.encode()).unwrap();
    assert_eq!(decoded.code(), &[0x0F, 0x00]);
}

#[test]
fn roundtrip_with_jump_table() {
    let table = JumpTable::new(vec![
        JumpEntry {
            label: 0,
            start: 0,
            end: 3,
        },
        JumpEntry {
            label: 1,
            start: 3,
            end: 5,
        },
    ]);
    let prog = Program::new_with_table(table, vec![0x00, 0x00, 0x0F, 0x00, 0x0F]);
    let decoded = Program::decode(&prog.encode()).unwrap();
    assert_eq!(decoded.jump_table(), prog.jump_table());
    assert_eq!(decoded.code(), prog.code());
}

#[test]
fn intern_deduplicates_values() {
    let mut pool = ConstantPool::new();
    let a = pool.intern(42).unwrap();
    let b = pool.intern(42).unwrap();
    assert_eq!(a, b);
    assert_eq!(pool.len(), 1);
}

#[test]
fn intern_returns_sequential_indices() {
    let mut pool = ConstantPool::new();
    let a = pool.intern(1).unwrap();
    let b = pool.intern(2).unwrap();
    let c = pool.intern(3).unwrap();
    assert_eq!(a, 0);
    assert_eq!(b, 1);
    assert_eq!(c, 2);
}

#[test]
fn get_valid_index() {
    let mut pool = ConstantPool::new();
    let idx = pool.intern(99).unwrap();
    assert_eq!(pool.get(idx), Some(99));
}

#[test]
fn get_out_of_range_returns_none() {
    let pool = ConstantPool::new();
    assert_eq!(pool.get(0), None);
}

#[test]
fn len_and_is_empty() {
    let mut pool = ConstantPool::new();
    assert!(pool.is_empty());
    pool.intern(1).unwrap();
    assert_eq!(pool.len(), 1);
    assert!(!pool.is_empty());
}

#[test]
fn entries_order_matches_insertion() {
    let mut pool = ConstantPool::new();
    pool.intern(10).unwrap();
    pool.intern(20).unwrap();
    pool.intern(30).unwrap();
    assert_eq!(pool.entries(), &[10, 20, 30]);
}

#[test]
fn intern_at_capacity_returns_overflow() {
    let mut pool = ConstantPool::new();
    // Fill to exactly u16::MAX entries (65535).
    for i in 0..i64::from(u16::MAX) {
        pool.intern(i).unwrap();
    }
    assert_eq!(pool.len(), usize::from(u16::MAX));
    // One more distinct value should overflow.
    assert_eq!(pool.intern(i64::from(u16::MAX) + 1), Err(PoolOverflow));
}

#[test]
fn intern_existing_value_at_capacity_succeeds() {
    let mut pool = ConstantPool::new();
    for i in 0..i64::from(u16::MAX) {
        pool.intern(i).unwrap();
    }
    // Interning an already-present value must still succeed.
    assert_eq!(pool.intern(0), Ok(0));
}
