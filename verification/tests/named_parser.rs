//! Parser and assembler tests of the named-label dialect, on single lines
//! and small programs.

use aglais_xqvm::assembly::assembler::assemble;
use aglais_xqvm::assembly::ast::{AsmLine, Operand, ParsedInstr};
use aglais_xqvm::assembly::error::AssembleError;
use aglais_xqvm::assembly::parser::parse;
use aglais_xqvm::assembly::syntax::ParseError;

fn instr(lines: &[AsmLine]) -> &ParsedInstr {
    for l in lines {
        if let AsmLine::Instruction(i) = l {
            return i;
        }
    }
    panic!("no instruction found")
}

fn parse_test(src: &str) -> Result<Vec<AsmLine>, ParseError> {
    parse(src, "<test>")
}

fn assembled_bytes(src: &str) -> Vec<u8> {
    let lines = parse(src, "<test>").unwrap();
    assemble(&lines, src, "<test>").unwrap().code().to_vec()
}

#[test]
fn parse_nop() {
    let lines = parse_test("NOP").unwrap();
    assert_eq!(lines.len(), 1);
    let i = instr(&lines);
    assert_eq!(i.mnemonic, "NOP");
    assert!(i.operands.is_empty());
}

#[test]
fn parse_push_positive() {
    let lines = parse_test("PUSH 42").unwrap();
    let i = instr(&lines);
    assert_eq!(i.mnemonic, "PUSH");
    assert_eq!(i.operands, [Operand::Integer(42)]);
}

#[test]
fn parse_push_negative() {
    let lines = parse_test("PUSH -99").unwrap();
    let i = instr(&lines);
    assert_eq!(i.operands, [Operand::Integer(-99)]);
}

#[test]
fn parse_push_hex() {
    let lines = parse_test("PUSH 0xFF").unwrap();
    let i = instr(&lines);
    assert_eq!(i.operands, [Operand::Integer(255)]);
}

#[test]
fn parse_load_register() {
    let lines = parse_test("LOAD r3").unwrap();
    let i = instr(&lines);
    assert_eq!(i.mnemonic, "LOAD");
    assert_eq!(i.operands, [Operand::Register(3)]);
}

#[test]
fn parse_energy_two_registers() {
    let lines = parse_test("ENERGY r0 r1").unwrap();
    let i = instr(&lines);
    assert_eq!(i.mnemonic, "ENERGY");
    assert_eq!(i.operands, [Operand::Register(0), Operand::Register(1)]);
}

#[test]
fn parse_jump_label_ref() {
    let lines = parse_test("JUMP loop_top").unwrap();
    let i = instr(&lines);
    assert_eq!(i.operands, [Operand::LabelRef("loop_top".to_string())]);
}

#[test]
fn parse_jump_integer_offset() {
    let lines = parse_test("JUMP -10").unwrap();
    let i = instr(&lines);
    assert_eq!(i.operands, [Operand::Integer(-10)]);
}

#[test]
fn parse_label_def() {
    let lines = parse_test("loop:").unwrap();
    assert_eq!(lines.len(), 1);
    assert!(matches!(&lines[0], AsmLine::LabelDef { name, .. } if name == "loop"));
}

#[test]
fn parse_label_and_instruction_same_line() {
    let lines = parse_test("start: NOP").unwrap();
    assert_eq!(lines.len(), 2);
    assert!(matches!(&lines[0], AsmLine::LabelDef { name, .. } if name == "start"));
    let i = instr(&lines);
    assert_eq!(i.mnemonic, "NOP");
}

#[test]
fn parse_multiline_program() {
    let src = "PUSH 1\nPUSH 2\nADD\nHALT";
    let lines = parse_test(src).unwrap();
    assert_eq!(lines.len(), 4);
}

#[test]
fn parse_comment_only_line_ignored() {
    let lines = parse_test("; this is a comment\nHALT").unwrap();
    assert_eq!(lines.len(), 1);
    let i = instr(&lines);
    assert_eq!(i.mnemonic, "HALT");
}

#[test]
fn parse_inline_comment() {
    let lines = parse_test("NOP ; do nothing").unwrap();
    assert_eq!(lines.len(), 1);
}

#[test]
fn parse_blank_lines_ignored() {
    let src = "\nNOP\n\nHALT\n";
    let lines = parse_test(src).unwrap();
    assert_eq!(lines.len(), 2);
}

#[test]
fn parse_register_out_of_range() {
    assert!(parse_test("LOAD r256").is_err());
}

#[test]
fn parse_invalid_syntax_returns_error() {
    assert!(parse_test("@@@").is_err());
}

#[test]
fn parse_vecpush_instruction() {
    let lines = parse_test("VECPUSH r5").unwrap();
    let i = instr(&lines);
    assert_eq!(i.mnemonic, "VECPUSH");
    assert_eq!(i.operands, [Operand::Register(5)]);
}

#[test]
fn assembler_nop_is_one_byte() {
    assert_eq!(assembled_bytes("NOP"), [0x00]);
}

#[test]
fn energy_two_registers() {
    assert_eq!(assembled_bytes("ENERGY r2 r3"), [0x7F, 0x02, 0x03]);
}

#[test]
fn unknown_mnemonic_error() {
    let src = "FOOBAR";
    let lines = parse(src, "<test>").unwrap();
    assert!(assemble(&lines, src, "<test>").is_err());
}

#[test]
fn wrong_operand_count_error() {
    let src = "HALT r0";
    let lines = parse(src, "<test>").unwrap();
    assert!(assemble(&lines, src, "<test>").is_err());
}

#[test]
fn wrong_operand_kind_error() {
    // LOAD expects a register, not an integer
    let src = "LOAD 42";
    let lines = parse(src, "<test>").unwrap();
    assert!(assemble(&lines, src, "<test>").is_err());
}

#[test]
fn undefined_label_error() {
    let src = "JUMP nowhere";
    let lines = parse(src, "<test>").unwrap();
    assert!(assemble(&lines, src, "<test>").is_err());
}

#[test]
fn duplicate_label_error() {
    let src = "top:\nNOP\ntop:\nHALT";
    let lines = parse(src, "<test>").unwrap();
    assert!(assemble(&lines, src, "<test>").is_err());
}

#[test]
fn duplicate_label_reports_first_definition_location() {
    let src = "top:\nNOP\ntop:\nHALT";
    let lines = parse(src, "<test>").unwrap();
    let err = assemble(&lines, src, "<test>").unwrap_err();
    assert!(matches!(
        err,
        AssembleError::DuplicateLabel { ref label, .. } if label == "top"
    ));
}

#[test]
fn all_zero_arg_instructions_assemble() {
    for mnem in &["NOP", "HALT", "ADD", "SUB", "MUL", "DIV", "NOT", "AND"] {
        let buf = assembled_bytes(mnem);
        assert_eq!(buf.len(), 1, "expected 1 byte for {mnem}");
    }
}

#[test]
fn duplicate_label_span_is_first_definition() {
    let src = "top:\nNOP\ntop:\nHALT";
    let lines = parse(src, "<test>").unwrap();
    let err = assemble(&lines, src, "<test>").unwrap_err();
    assert!(matches!(err, AssembleError::DuplicateLabel { offset: 0, len: 3, .. }));
    assert_eq!(err.message(), "label 'top' is defined more than once");
}

#[test]
fn parse_error_message_gives_line_and_column() {
    let src = "NOP\n  LOAD r256";
    let err = parse_test(src).unwrap_err();
    assert_eq!(err.message(src), "parse error at line 2, col 8: register index 256 is out of range [0, 255]");
}

#[test]
fn assemble_error_messages() {
    let cases = [
        ("FOOBAR", "unknown mnemonic 'FOOBAR'"),
        ("HALT r0", "'HALT' expects 0 operand(s), got 1"),
        ("JUMP nowhere", "undefined label 'nowhere'"),
    ];
    for (src, want) in cases {
        let lines = parse(src, "<test>").unwrap();
        let err = assemble(&lines, src, "<test>").unwrap_err();
        assert_eq!(err.message(), want, "for {src:?}");
    }
}

#[test]
fn mnemonic_case_does_not_change_the_code() {
    let upper = assembled_bytes("JUMP done\nNOP\ndone:\nHALT");
    assert_eq!(assembled_bytes("jump done\nnop\ndone:\nhalt"), upper);
    assert_eq!(assembled_bytes("Jump done\nNop\ndone:\nHalt"), upper);
}

#[test]
fn jump_operand_must_be_an_offset_or_label() {
    for src in ["JUMP r1", "JUMPI 5"] {
        let lines = parse(src, "<test>").unwrap();
        let err = assemble(&lines, src, "<test>").unwrap_err();
        match &err {
            AssembleError::WrongOperandKind { field, expected_kind, .. } => {
                assert_eq!(*field, "offset");
                assert_eq!(*expected_kind, "integer or label reference");
            },
            other => panic!("unexpected error {other:?}"),
        }
    }
    let lines = parse("JUMP r1", "<test>").unwrap();
    let err = assemble(&lines, "JUMP r1", "<test>").unwrap_err();
    assert_eq!(err.message(), "operand 'offset' of 'JUMP' must be a integer or label reference");
}

#[test]
fn undefined_label_is_reported_before_label_count() {
    let src = "JUMP nowhere\nNOP";
    let lines = parse(src, "<test>").unwrap();
    let err = assemble(&lines, src, "<test>").unwrap_err();
    assert!(matches!(err, AssembleError::UndefinedLabel { ref label, offset: 0, .. } if label == "nowhere"));
}
