//! Execution tracing: the observer interface of the runtime and a JSON
//! Lines tracer.
//!
//! A [`Tracer`] is notified after each executed instruction with a
//! [`StepState`] snapshot. [`NoopTracer`] ignores it; [`JsonTracer`]
//! renders one JSON object per step, with fields `step`, `pos`,
//! `instruction`, `stack`, `read_regs` and `written_regs`, and collects the
//! lines.

use vstd::prelude::*;
use vstd::string::{StrSliceExecFns, StringExecFns};

use super::value::RegVal;
use crate::bytecode::instruction::Instruction;
use crate::disasm::display::{instruction_text, spec_instruction_text};
use crate::text::decimal::{push_decimal, push_decimal_u64, push_signed_decimal, spec_decimal, spec_signed_decimal};
use crate::text::layout::hex_char_lower;

verus! {

/// Snapshot of the machine state after an instruction executes.
pub struct StepState<'a> {
    /// Byte offset of the instruction in the code section.
    pub pos: usize,
    /// Step number (1-based).
    pub step: u64,
    /// The instruction that just executed.
    pub instruction: &'a Instruction,
    /// Current stack contents (bottom-first).
    pub stack: &'a [i64],
    /// Registers read by this instruction (index, value at read time).
    pub read_regs: &'a [(u8, RegVal)],
    /// Registers written by this instruction (index, new value).
    pub written_regs: &'a [(u8, RegVal)],
    /// Current loop nesting depth.
    pub loop_depth: usize,
}

/// Observer notified on every execution step.
pub trait Tracer {
    /// Whether this tracer is active; when it is not, the runtime skips
    /// all snapshotting.
    fn enabled(&self) -> bool;

    /// Called after each instruction executes, with the resulting state.
    fn on_step(&mut self, state: &StepState<'_>);
}

/// A tracer that does nothing.
#[derive(Debug, Clone, Copy)]
pub struct NoopTracer;

impl Tracer for NoopTracer {
    fn enabled(&self) -> (b: bool)
        ensures
            !b,
    {
        false
    }

    fn on_step(&mut self, state: &StepState<'_>)
        ensures
            *final(self) == *old(self),
    {
    }
}

/// Whether `c` is a control character (Unicode category `Cc`).
pub open spec fn is_control(c: char) -> bool {
    (c as u32) < 0x20 || (0x7f <= (c as u32) <= 0x9f)
}

/// The JSON spelling of one character inside a string literal.
pub open spec fn escape_char(c: char) -> Seq<char> {
    if c == '"' {
        seq!['\\', '"']
    } else if c == '\\' {
        seq!['\\', '\\']
    } else if c == '\n' {
        seq!['\\', 'n']
    } else if c == '\r' {
        seq!['\\', 'r']
    } else if c == '\t' {
        seq!['\\', 't']
    } else if is_control(c) {
        seq!['\\', 'u', '0', '0', hex_char_lower((c as u32 / 16) as nat), hex_char_lower((c as u32 % 16) as nat)]
    } else {
        seq![c]
    }
}

/// The JSON escaping of a string's characters.
pub open spec fn spec_json_escape(s: Seq<char>) -> Seq<char>
    decreases s.len(),
{
    if s.len() == 0 {
        Seq::empty()
    } else {
        spec_json_escape(s.drop_last()) + escape_char(s.last())
    }
}

fn hex_digit_lower(d: u32) -> (s: &'static str)
    requires
        d < 16,
    ensures
        s@ == seq![hex_char_lower(d as nat)],
{
    proof {
        reveal_strlit("0");
        reveal_strlit("1");
        reveal_strlit("2");
        reveal_strlit("3");
        reveal_strlit("4");
        reveal_strlit("5");
        reveal_strlit("6");
        reveal_strlit("7");
        reveal_strlit("8");
        reveal_strlit("9");
        reveal_strlit("a");
        reveal_strlit("b");
        reveal_strlit("c");
        reveal_strlit("d");
        reveal_strlit("e");
        reveal_strlit("f");
    }
    match d {
        0 => "0",
        1 => "1",
        2 => "2",
        3 => "3",
        4 => "4",
        5 => "5",
        6 => "6",
        7 => "7",
        8 => "8",
        9 => "9",
        10 => "a",
        11 => "b",
        12 => "c",
        13 => "d",
        14 => "e",
        _ => "f",
    }
}

/// Escape a string for use inside a JSON string literal.
pub fn json_escape(s: &str) -> (r: String)
    ensures
        r@ == spec_json_escape(s@),
{
    let mut out = String::new();
    let n = s.unicode_len();
    let mut i: usize = 0;
    while i < n
        invariant
            n == s@.len(),
            i <= n,
            out@ == spec_json_escape(s@.take(i as int)),
        decreases n - i,
    {
        let c = s.get_char(i);
        let ghost before = out@;
        proof {
            reveal_strlit("\\\"");
            reveal_strlit("\\\\");
            reveal_strlit("\\n");
            reveal_strlit("\\r");
            reveal_strlit("\\t");
            reveal_strlit("\\u00");
        }
        if c == '"' {
            out.append("\\\"");
        } else if c == '\\' {
            out.append("\\\\");
        } else if c == '\n' {
            out.append("\\n");
        } else if c == '\r' {
            out.append("\\r");
        } else if c == '\t' {
            out.append("\\t");
        } else if (c as u32) < 0x20 || (0x7f <= (c as u32) && (c as u32) <= 0x9f) {
            out.append("\\u00");
            out.append(hex_digit_lower(c as u32 / 16));
            out.append(hex_digit_lower(c as u32 % 16));
            proof {
                assert("\\u00"@ == seq!['\\', 'u', '0', '0']);
            }
        } else {
            let piece = s.substring_char(i, i + 1);
            proof {
                assert(piece@ =~= seq![c]);
            }
            out.append(piece);
        }
        proof {
            assert(s@.take(i + 1).drop_last() =~= s@.take(i as int));
            assert(s@.take(i + 1).last() == c);
            assert(out@ =~= before + escape_char(c));
        }
        i += 1;
    }
    proof {
        assert(s@.take(n as int) =~= s@);
    }
    out
}

/// The JSON object describing a register value.
pub open spec fn spec_regval_json(v: RegVal) -> Seq<char> {
    match v {
        RegVal::Unset => "{\"type\":\"unset\"}"@,
        RegVal::Int(x) => "{\"type\":\"int\",\"value\":"@ + spec_signed_decimal(x as int) + "}"@,
        RegVal::VecInt(x) => "{\"type\":\"vec<int>\",\"len\":"@ + spec_decimal(x@.len()) + "}"@,
        RegVal::VecXqmx(x) => "{\"type\":\"vec<model>\",\"len\":"@ + spec_decimal(x@.len()) + "}"@,
        RegVal::Model(m) => "{\"type\":\"model\",\"rows\":"@ + spec_decimal(m.rows as nat) + ",\"cols\":"@
            + spec_decimal(m.cols as nat) + "}"@,
        RegVal::Sample(s) => "{\"type\":\"sample\",\"len\":"@ + spec_decimal(s.values@.len()) + "}"@,
    }
}

/// Format a register value as a JSON object.
pub fn regval_json(val: &RegVal) -> (s: String)
    ensures
        s@ == spec_regval_json(*val),
{
    let mut out = String::new();
    match val {
        RegVal::Unset => {
            out.append("{\"type\":\"unset\"}");
        },
        RegVal::Int(x) => {
            out.append("{\"type\":\"int\",\"value\":");
            push_signed_decimal(&mut out, *x);
            out.append("}");
        },
        RegVal::VecInt(x) => {
            out.append("{\"type\":\"vec<int>\",\"len\":");
            push_decimal(&mut out, x.len());
            out.append("}");
        },
        RegVal::VecXqmx(x) => {
            out.append("{\"type\":\"vec<model>\",\"len\":");
            push_decimal(&mut out, x.len());
            out.append("}");
        },
        RegVal::Model(m) => {
            out.append("{\"type\":\"model\",\"rows\":");
            push_decimal(&mut out, m.rows);
            out.append(",\"cols\":");
            push_decimal(&mut out, m.cols);
            out.append("}");
        },
        RegVal::Sample(s) => {
            out.append("{\"type\":\"sample\",\"len\":");
            push_decimal(&mut out, s.values.len());
            out.append("}");
        },
    }
    proof {
        assert(out@ =~= spec_regval_json(*val));
    }
    out
}

/// `"idx":{...}` for one register entry.
pub open spec fn spec_reg_entry(e: (u8, RegVal)) -> Seq<char> {
    "\""@ + spec_decimal(e.0 as nat) + "\":"@ + spec_regval_json(e.1)
}

/// Register entries separated by commas.
pub open spec fn spec_reg_entries(regs: Seq<(u8, RegVal)>) -> Seq<char>
    decreases regs.len(),
{
    if regs.len() == 0 {
        Seq::empty()
    } else if regs.len() == 1 {
        spec_reg_entry(regs[0])
    } else {
        spec_reg_entries(regs.drop_last()) + ","@ + spec_reg_entry(regs.last())
    }
}

/// A register list as a JSON object: `{"0":{...},"2":{...}}`.
pub open spec fn spec_regs_json(regs: Seq<(u8, RegVal)>) -> Seq<char> {
    "{"@ + spec_reg_entries(regs) + "}"@
}

/// Format a register list as a JSON object: `{"0":{...},"2":{...}}`.
pub fn regs_json(regs: &[(u8, RegVal)]) -> (s: String)
    ensures
        s@ == spec_regs_json(regs@),
{
    let mut out = String::new();
    out.append("{");
    let ghost start = out@;
    let mut i: usize = 0;
    while i < regs.len()
        invariant
            i <= regs@.len(),
            out@ == start + spec_reg_entries(regs@.take(i as int)),
        decreases regs@.len() - i,
    {
        let ghost before = out@;
        if i > 0 {
            out.append(",");
        }
        let (idx, val) = &regs[i];
        out.append("\"");
        push_decimal(&mut out, *idx as usize);
        out.append("\":");
        let v = regval_json(val);
        out.append(v.as_str());
        proof {
            let t = regs@.take(i + 1);
            assert(t.drop_last() =~= regs@.take(i as int));
            assert(t.last() == regs@[i as int]);
            if i == 0 {
                assert(out@ =~= start + spec_reg_entries(t));
            } else {
                assert(out@ =~= start + spec_reg_entries(t));
            }
        }
        i += 1;
    }
    out.append("}");
    proof {
        assert(regs@.take(i as int) =~= regs@);
        assert(out@ =~= spec_regs_json(regs@));
    }
    out
}

/// Stack values separated by commas.
pub open spec fn spec_stack_values(stack: Seq<i64>) -> Seq<char>
    decreases stack.len(),
{
    if stack.len() == 0 {
        Seq::empty()
    } else if stack.len() == 1 {
        spec_signed_decimal(stack[0] as int)
    } else {
        spec_stack_values(stack.drop_last()) + ","@ + spec_signed_decimal(stack.last() as int)
    }
}

/// A stack as a JSON array.
pub open spec fn spec_stack_json(stack: Seq<i64>) -> Seq<char> {
    "["@ + spec_stack_values(stack) + "]"@
}

/// Format a stack as a JSON array.
pub fn stack_json(stack: &[i64]) -> (s: String)
    ensures
        s@ == spec_stack_json(stack@),
{
    let mut out = String::new();
    out.append("[");
    let ghost start = out@;
    let mut i: usize = 0;
    while i < stack.len()
        invariant
            i <= stack@.len(),
            out@ == start + spec_stack_values(stack@.take(i as int)),
        decreases stack@.len() - i,
    {
        if i > 0 {
            out.append(",");
        }
        push_signed_decimal(&mut out, stack[i]);
        proof {
            let t = stack@.take(i + 1);
            assert(t.drop_last() =~= stack@.take(i as int));
            assert(t.last() == stack@[i as int]);
            assert(out@ =~= start + spec_stack_values(t));
        }
        i += 1;
    }
    out.append("]");
    proof {
        assert(stack@.take(i as int) =~= stack@);
        assert(out@ =~= spec_stack_json(stack@));
    }
    out
}

/// The JSON line of one step.
pub open spec fn spec_step_line(
    step: u64,
    pos: usize,
    instruction: Instruction,
    stack: Seq<i64>,
    read_regs: Seq<(u8, RegVal)>,
    written_regs: Seq<(u8, RegVal)>,
) -> Seq<char> {
    "{\"step\":"@ + spec_decimal(step as nat) + ",\"pos\":"@ + spec_decimal(pos as nat) + ",\"instruction\":\""@
        + spec_json_escape(spec_instruction_text(instruction)) + "\",\"stack\":"@ + spec_stack_json(stack)
        + ",\"read_regs\":"@ + spec_regs_json(read_regs) + ",\"written_regs\":"@ + spec_regs_json(written_regs)
        + "}\n"@
}

/// A tracer that renders one JSON object per step (JSON Lines) and
/// collects the lines.
#[derive(Debug)]
pub struct JsonTracer {
    out: String,
}

impl JsonTracer {
    /// The lines written so far.
    pub closed spec fn spec_output(&self) -> Seq<char> {
        self.out@
    }

    /// A tracer whose lines follow the text already in `out`.
    pub fn new(out: String) -> (t: Self)
        ensures
            t.spec_output() == out@,
    {
        JsonTracer { out }
    }

    /// The lines written so far.
    pub fn output(&self) -> (s: &str)
        ensures
            s@ == self.spec_output(),
    {
        self.out.as_str()
    }
}

impl Tracer for JsonTracer {
    fn enabled(&self) -> (b: bool)
        ensures
            b,
    {
        true
    }

    fn on_step(&mut self, state: &StepState<'_>)
        ensures
            final(self).spec_output() == old(self).spec_output() + spec_step_line(
                state.step,
                state.pos,
                *state.instruction,
                state.stack@,
                state.read_regs@,
                state.written_regs@,
            ),
    {
        let instr = json_escape(instruction_text(state.instruction).as_str());
        self.out.append("{\"step\":");
        push_decimal_u64(&mut self.out, state.step);
        self.out.append(",\"pos\":");
        push_decimal(&mut self.out, state.pos);
        self.out.append(",\"instruction\":\"");
        self.out.append(instr.as_str());
        self.out.append("\",\"stack\":");
        self.out.append(stack_json(state.stack).as_str());
        self.out.append(",\"read_regs\":");
        self.out.append(regs_json(state.read_regs).as_str());
        self.out.append(",\"written_regs\":");
        self.out.append(regs_json(state.written_regs).as_str());
        self.out.append("}\n");
        proof {
            assert(self.out@ =~= old(self).spec_output() + spec_step_line(
                state.step,
                state.pos,
                *state.instruction,
                state.stack@,
                state.read_regs@,
                state.written_regs@,
            ));
        }
    }
}

} // verus!
