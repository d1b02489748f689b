//! Messages of every error type, and locating an offset in a text.

use aglais_xqvm::bytecode::builder::Error as BuildError;
use aglais_xqvm::bytecode::stream::Error as StreamError;
use aglais_xqvm::text::position::line_col;
use aglais_xqvm::vm::error::{diagnostic_context, find_line_span, Error as VmError};
use aglais_xqvm::xqvm::program::Program;
use aglais_xqvm::xqasm::assemble_source;
use aglais_xqvm::xqvm::checker::VerifierError;

#[test]
fn stream_error_messages() {
    assert_eq!(
        StreamError::UnknownOpcode { offset: 0x1A, byte: 0x08 }.message(),
        "unknown opcode 0x08 at offset 0x001A"
    );
    assert_eq!(
        StreamError::TruncatedInstruction { offset: 3 }.message(),
        "truncated instruction at offset 0x0003"
    );
    assert_eq!(
        StreamError::SeekOutOfBounds { target: 9, len: 4 }.message(),
        "seek target 9 is out of bounds (buffer length 4)"
    );
}

#[test]
fn build_error_messages() {
    assert_eq!(BuildError::TooManyTargets { count: 65537 }.message(), "too many TARGETs: 65537 (max 65536)");
    assert_eq!(BuildError::UnplacedLabel { id: 2 }.message(), "label 2 was used but never placed");
    assert_eq!(BuildError::UnusedLabel { id: 0 }.message(), "label 0 was placed but never referenced by a jump");
}

#[test]
fn verifier_error_messages() {
    let cases = [
        (
            VerifierError::UndefinedJumpTarget { offset: 5, label: 3, target_count: 1 },
            "jump at byte 0x0005 references undefined target label 3 (program has 1 targets)",
        ),
        (
            VerifierError::NoActiveLoop { offset: 0x2c },
            "loop instruction at byte 0x002c executed outside any active loop",
        ),
        (
            VerifierError::UnmatchedLoop { offset: 0, depth: 2 },
            "unmatched loop: RANGE/ITER at byte 0x0000 has no corresponding NEXT (2 loop(s) still open at end of program)",
        ),
        (VerifierError::TruncatedInstruction { offset: 7 }, "truncated instruction at byte 0x0007"),
        (VerifierError::BadOpcode { offset: 16, byte: 0xfe }, "unknown opcode 0xfe at byte 0x0010"),
        (
            VerifierError::ReadUnsetRegister { offset: 1, reg: 9 },
            "register r9 read at byte 0x0001 before being written",
        ),
        (
            VerifierError::RegisterTypeMismatch { offset: 2, reg: 4, expected: "int", got: "model" },
            "register r4 at byte 0x0002: expected int, got model",
        ),
        (VerifierError::StackUnderflow { offset: 0 }, "stack underflow at byte 0x0000"),
        (
            VerifierError::StackOverflowRisk { offset: 0x100, depth: 8193 },
            "potential stack overflow at byte 0x0100 (depth 8193)",
        ),
        (
            VerifierError::LoopStackImbalance { opener: 3, entry: 1, exit: 2 },
            "loop starting at byte 0x0003 has non-zero stack effect (entry depth 1, exit depth 2)",
        ),
    ];
    for (err, want) in cases {
        assert_eq!(err.message(), want);
    }
}

#[test]
fn runtime_error_messages() {
    assert_eq!(VmError::StackUnderflow { pos: 3 }.message(), "stack underflow at byte 0x0003");
    assert_eq!(
        VmError::RegisterType { reg: 1, expected: "int", got: "model" }.message(),
        "register r1 holds model, expected int"
    );
    assert_eq!(
        VmError::IndexOutOfBounds { pos: 1, index: -1, len: 0 }.message(),
        "vec index -1 out of bounds (len 0) at byte 0x0001"
    );
    assert_eq!(
        VmError::BadJumpTarget { pos: 0x10, target: 0x1234 }.message(),
        "jump from 0x0010 to 0x00001234 is out of bounds"
    );
    assert_eq!(VmError::BadOpcode { pos: 2, byte: 0xfe }.message(), "bad opcode 0xfe at byte 0x0002");
    assert_eq!(VmError::StepLimitExceeded { limit: 1000 }.message(), "step limit of 1000 exceeded");
    assert_eq!(
        VmError::InvalidGridDimensions { pos: 0, rows: 0, cols: -3 }.message(),
        "invalid grid dimensions 0x-3 at byte 0x0000"
    );
}

#[test]
fn runtime_error_byte_positions() {
    assert_eq!(VmError::StackUnderflow { pos: 3 }.byte_pos(), Some(3));
    assert_eq!(VmError::BadJumpTarget { pos: 5, target: 99 }.byte_pos(), Some(5));
    assert_eq!(VmError::CallDataIndex { index: 4, len: 2 }.byte_pos(), None);
    assert_eq!(VmError::StepLimitExceeded { limit: 1 }.byte_pos(), None);
}

#[test]
fn stream_errors_convert_to_runtime_errors() {
    let e: VmError = StreamError::UnknownOpcode { offset: 4, byte: 0xfe }.into();
    assert_eq!(e, VmError::BadOpcode { pos: 4, byte: 0xfe });
    let e: VmError = StreamError::TruncatedInstruction { offset: 6 }.into();
    assert_eq!(e, VmError::TruncatedInstruction { pos: 6 });
}

#[test]
fn find_line_span_locates_listing_line() {
    let text = "  0x0000:  NOP\n  0x0001:  HALT\n";
    assert_eq!(find_line_span(text, 0), Some((0, 14)));
    assert_eq!(find_line_span(text, 1), Some((15, 30)));
    assert_eq!(find_line_span(text, 2), None);
}

#[test]
fn line_col_counts_lines_and_characters() {
    assert_eq!(line_col("ab\ncd", 0), (1, 1));
    assert_eq!(line_col("ab\ncd", 4), (2, 2));
    assert_eq!(line_col("ab\ncd", 100), (2, 3));
    // `é` is two bytes but one column.
    assert_eq!(line_col("é x", 3), (1, 3));
}

#[test]
fn numbered_dialect_error_messages() {
    let cases = [
        ("FOO", "unknown mnemonic `FOO`"),
        ("JUMP .3", "undefined label '.3'"),
        ("LOAD 5", "operand 'reg' of 'LOAD' must be a register (e.g. r0)"),
        ("ADD 1", "'ADD' expects 0 operand(s), got 1"),
        ("NOP\n.0:\nNOP\n.0:\nJUMP .0", "label '.0' is defined more than once"),
        ("NOP\n.4:\nHALT", "label '.4' is defined but never used"),
        ("NOP\n  LOAD r300", "parse error at line 2, col 8: register index 300 is out of range [0, 255]"),
    ];
    for (src, want) in cases {
        let err = assemble_source(src).unwrap_err();
        assert_eq!(err.message(src), want, "for {src:?}");
    }
}

#[test]
fn runtime_error_context_points_at_the_failing_line() {
    let program = Program::new(vec![0x00, 0x09]);
    let (text, span) = diagnostic_context(&VmError::StackUnderflow { pos: 1 }, &program);
    assert_eq!(text, "  0x0000:  NOP     \n  0x0001:  HALT    \n");
    assert_eq!(span, Some((20, 39)));
    let (_, span) = diagnostic_context(&VmError::StepLimitExceeded { limit: 5 }, &program);
    assert_eq!(span, None);
    let (_, span) = diagnostic_context(&VmError::StackUnderflow { pos: 7 }, &program);
    assert_eq!(span, None);
}
