//! Register values, models, trace rendering, disassembly listings and the
//! conformance filter.

use aglais_xqvm::bytecode::builder::InstructionBuilder;
use aglais_xqvm::bytecode::codec::encode;
use aglais_xqvm::bytecode::instruction::{Instruction, Register};
use aglais_xqvm::bytecode::stream::instruction_count;
use aglais_xqvm::conformance::{prefix_matches, select_vectors, vector_selected};
use aglais_xqvm::disasm::display::{instruction_text, Disassembly};
use aglais_xqvm::xqvm::model::{Domain, XqmxModel, XqmxSample};
use aglais_xqvm::xqvm::tracer::{json_escape, regs_json, regval_json, stack_json, JsonTracer, StepState, Tracer};
use aglais_xqvm::xqvm::program::Program;
use aglais_xqvm::xqvm::summary::{ok_line, verify_and_count};
use aglais_xqvm::xqvm::value::RegVal;

fn assemble(program: &[Instruction]) -> Vec<u8> {
    program.iter().flat_map(encode).collect()
}

#[test]
fn unknown_byte_displays_as_dot_byte() {
    let buf = [0xFEu8];
    let text = Disassembly::new(&buf).to_text();
    assert!(text.contains(".byte"), "expected .byte in:\n{text}");
    assert!(text.contains("0xFE"), "expected 0xFE in:\n{text}");
}

#[test]
fn empty_bytecode_produces_empty_output() {
    assert_eq!(Disassembly::new(&[]).to_text(), "");
}

#[test]
fn register_operand_displays_as_r_slot() {
    let buf = assemble(&[Instruction::Load { reg: Register(3) }]);
    let text = Disassembly::new(&buf).to_text();
    assert!(text.contains("r3"), "expected r3 in:\n{text}");
}

#[test]
fn energy_instruction_shows_two_registers() {
    let buf = assemble(&[Instruction::Energy { model: Register(1), sample: Register(2) }]);
    let text = Disassembly::new(&buf).to_text();
    assert!(text.contains("ENERGY"), "missing ENERGY in:\n{text}");
    assert!(text.contains("r1"), "missing r1 in:\n{text}");
    assert!(text.contains("r2"), "missing r2 in:\n{text}");
}

#[test]
fn listing_without_jumps_is_exact() {
    let buf = assemble(&[Instruction::Load { reg: Register(3) }, Instruction::Halt {}, ]);
    let text = Disassembly::new(&buf).to_text();
    assert_eq!(text, "  0x0000:  LOAD    r3\n  0x0002:  HALT    \n");
}

#[test]
fn listing_shows_unknown_and_truncated_bytes() {
    // 0xFE is no opcode; 0x0A (LOAD) at the end lacks its register byte.
    let text = Disassembly::new(&[0xFE, 0x0A]).to_text();
    assert_eq!(text, "  0x0000:  .byte    0xFE\n  0x0001:  .byte    0x0A\n");
}

#[test]
fn listing_labels_jump_targets() {
    let mut b = InstructionBuilder::new();
    let top = b.label();
    b.place(top).nop().jump(top);
    let program = b.build().unwrap();
    let text = Disassembly::from_program(&program).to_text();
    assert!(text.contains("L0:"), "missing label L0 in:\n{text}");
    assert!(text.contains("L0\n"), "jump operand should show L0 in:\n{text}");
}

#[test]
fn instruction_text_spells_operands() {
    assert_eq!(instruction_text(&Instruction::Halt {}), "HALT");
    assert_eq!(instruction_text(&Instruction::Load { reg: Register(7) }), "LOAD r7");
    assert_eq!(instruction_text(&Instruction::Energy { model: Register(1), sample: Register(2) }), "ENERGY r1, r2");
}

#[test]
fn instruction_count_skips_undecodable_bytes() {
    assert_eq!(instruction_count(&[]), 0);
    assert_eq!(instruction_count(&assemble(&[Instruction::Nop {}, Instruction::Halt {}])), 2);
    assert_eq!(instruction_count(&[0x00, 0xFE, 0x09]), 2);
}

#[test]
fn prefix_matches_selects_categories_and_vectors() {
    assert!(prefix_matches("arith", "arith"));
    assert!(prefix_matches("arith/add", "arith"));
    assert!(prefix_matches("arith", "arith/add"));
    assert!(!prefix_matches("arithmetic", "arith"));
    assert!(!prefix_matches("stack", "arith"));
    assert!(!prefix_matches("arith/sub", "arith/add"));
}

#[test]
fn json_escape_escapes_quotes_and_controls() {
    assert_eq!(json_escape("plain"), "plain");
    assert_eq!(json_escape("a\"b\\c"), "a\\\"b\\\\c");
    assert_eq!(json_escape("x\ny\tz\r"), "x\\ny\\tz\\r");
    assert_eq!(json_escape("\u{1}"), "\\u0001");
    assert_eq!(json_escape("\u{7f}"), "\\u007f");
}

#[test]
fn register_values_render_as_json() {
    assert_eq!(regval_json(&RegVal::Unset), "{\"type\":\"unset\"}");
    assert_eq!(regval_json(&RegVal::Int(-5)), "{\"type\":\"int\",\"value\":-5}");
    assert_eq!(regval_json(&RegVal::VecInt(vec![1, 2, 3])), "{\"type\":\"vec<int>\",\"len\":3}");
    let mut m = XqmxModel::new(Domain::Binary, 6);
    m.rows = 2;
    m.cols = 3;
    assert_eq!(regval_json(&RegVal::Model(m)), "{\"type\":\"model\",\"rows\":2,\"cols\":3}");
    let s = XqmxSample { rows: 1, cols: 2, values: vec![0, 1] };
    assert_eq!(regval_json(&RegVal::Sample(s)), "{\"type\":\"sample\",\"len\":2}");
    assert_eq!(stack_json(&[]), "[]");
    assert_eq!(stack_json(&[1, -2, 3]), "[1,-2,3]");
    assert_eq!(regs_json(&[]), "{}");
    assert_eq!(
        regs_json(&[(0, RegVal::Int(1)), (2, RegVal::Unset)]),
        "{\"0\":{\"type\":\"int\",\"value\":1},\"2\":{\"type\":\"unset\"}}"
    );
}

#[test]
fn json_tracer_writes_one_line_per_step() {
    let mut t = JsonTracer::new(String::new());
    assert!(t.enabled());
    let instr = Instruction::Load { reg: Register(1) };
    let stack = [7i64];
    let read = [(1u8, RegVal::Int(7))];
    let state = StepState { pos: 4, step: 1, instruction: &instr, stack: &stack, read_regs: &read, written_regs: &[], loop_depth: 0 };
    t.on_step(&state);
    t.on_step(&StepState { step: 2, ..state });
    let line = "{\"step\":1,\"pos\":4,\"instruction\":\"LOAD r1\",\"stack\":[7],\"read_regs\":{\"1\":{\"type\":\"int\",\"value\":7}},\"written_regs\":{}}\n";
    assert_eq!(t.output().lines().count(), 2);
    assert!(t.output().starts_with(line));
    assert!(t.output().ends_with("\"written_regs\":{}}\n"));
    assert!(t.output().contains("{\"step\":2,"));
}

#[test]
fn register_value_accessors() {
    assert_eq!(RegVal::Int(3).as_int(), Ok(3));
    assert_eq!(RegVal::Unset.as_int(), Err("unset"));
    assert_eq!(RegVal::VecInt(vec![4]).as_vec_int().unwrap(), &vec![4]);
    assert_eq!(RegVal::Int(1).as_vec_int().unwrap_err(), "int");
    assert_eq!(RegVal::Int(1).as_model().unwrap_err(), "int");
    assert_eq!(RegVal::VecXqmx(vec![]).kind(), "vec<xqmx>");
    assert!(matches!(RegVal::default(), RegVal::Unset));
}

#[test]
fn grid_and_linear_updates_on_registers() {
    let mut r = RegVal::Model(XqmxModel::new(Domain::Spin, 4));
    {
        let mut g = r.as_xqmx_grid_mut().unwrap();
        g.set_grid(2, 2);
        g.linear_set(1, 5);
        g.linear_add(1, -2);
        assert_eq!(g.size(), 4);
    }
    let g = r.as_xqmx_grid().unwrap();
    assert_eq!((g.rows(), g.cols(), g.size()), (2, 2, 4));
    assert_eq!(g.linear(1), 3);
    assert_eq!(g.linear(0), 0);

    let mut s = RegVal::Sample(XqmxSample { rows: 1, cols: 3, values: vec![0, 0, 0] });
    {
        let mut g = s.as_xqmx_grid_mut().unwrap();
        g.linear_set(2, 1);
        g.linear_add(2, 1);
        g.linear_set(9, 1);
    }
    assert_eq!(s.as_xqmx_grid().unwrap().linear(2), 2);
    assert_eq!(s.as_xqmx_grid().unwrap().size(), 3);

    let mut i = RegVal::Int(0);
    assert!(matches!(i.as_xqmx_grid_mut(), Err("int")));
    assert!(matches!(i.as_model_mut(), Err("int")));

    let mut v = RegVal::VecInt(vec![1]);
    v.as_vec_int_mut().unwrap().push(2);
    assert_eq!(v.as_vec_int().unwrap(), &vec![1, 2]);
    let mut m = RegVal::Model(XqmxModel::new(Domain::Binary, 2));
    m.as_model_mut().unwrap().set_linear(0, 7);
    assert_eq!(m.as_model().unwrap().get_linear(0), 7);
}

#[test]
fn model_linear_coefficients() {
    let mut m = XqmxModel::new(Domain::Discrete(3), 5);
    assert_eq!((m.size, m.rows, m.cols), (5, 1, 5));
    assert_eq!(m.get_linear(4), 0);
    m.set_linear(4, 9);
    m.add_linear(4, -9);
    assert_eq!(m.get_linear(4), 0);
    assert!(m.linear.is_empty());
    m.add_linear(0, 3);
    assert_eq!(m.get_linear(0), 3);
    assert_eq!(m.linear.len(), 1);
}

#[test]
fn vector_selection_by_filter() {
    assert!(vector_selected("arith", "add", None));
    assert!(vector_selected("arith", "add", Some("arith")));
    assert!(vector_selected("arith", "add", Some("arith/add")));
    assert!(!vector_selected("arith", "sub", Some("arith/add")));
    assert!(!vector_selected("stack", "add", Some("arith")));
    assert!(vector_selected("arith", "add", Some("arith/add/extra")));
}

fn tree() -> Vec<(String, Vec<String>)> {
    vec![
        ("stack".to_string(), vec!["push".to_string(), "pop".to_string()]),
        ("arith".to_string(), vec!["sub".to_string(), "add".to_string()]),
    ]
}

fn pairs(v: &[(&str, &str)]) -> Vec<(String, String)> {
    v.iter().map(|(a, b)| (a.to_string(), b.to_string())).collect()
}

#[test]
fn select_vectors_sorts_and_filters() {
    assert_eq!(
        select_vectors(&tree(), None),
        pairs(&[("arith", "add"), ("arith", "sub"), ("stack", "pop"), ("stack", "push")])
    );
    assert_eq!(select_vectors(&tree(), Some("arith")), pairs(&[("arith", "add"), ("arith", "sub")]));
    assert_eq!(select_vectors(&tree(), Some("stack/pop")), pairs(&[("stack", "pop")]));
    assert!(select_vectors(&tree(), Some("ari")).is_empty());
    assert!(select_vectors(&[], None).is_empty());
}

#[test]
fn ok_line_pluralises_instructions() {
    assert_eq!(ok_line("prog.xqb", 1), "ok: prog.xqb (1 instruction)");
    assert_eq!(ok_line("prog.xqb", 0), "ok: prog.xqb (0 instructions)");
    assert_eq!(ok_line("a b", 12), "ok: a b (12 instructions)");
}

#[test]
fn verify_and_count_reports_instructions_or_the_first_error() {
    let good = Program::new(assemble(&[Instruction::Nop {}, Instruction::Halt {}]));
    assert_eq!(verify_and_count(&good), Ok(2));
    let bad = Program::new(vec![0xFE]);
    assert!(verify_and_count(&bad).is_err());
}
