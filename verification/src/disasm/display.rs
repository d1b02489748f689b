//! Pretty printer for XQVM bytecode.
//!
//! [`Disassembly`] wraps a raw byte slice (or a program's code) and renders
//! it as a listing, one instruction per line:
//!
//! ```text
//!   0x0000:  L0:  PUSH1   12
//!   0x0002:       GT
//!   0x0003:       JUMPI1  L0
//!   0x0005:       HALT
//! ```
//!
//! Referenced jump targets are named `L0`, `L1`, ... in address order by the
//! underlying [`InstructionStream`]; each name is printed between the byte
//! offset and the mnemonic, and jump operands are printed as the name of
//! the target they refer to. The label column is left out when there are
//! no labels. `PUSHn` operands are printed as their sign-extended decimal
//! value. Bytes that do not decode are printed as `.byte 0xXX`
//! pseudo-instructions so no information is dropped.

use std::collections::BTreeMap;

use vstd::prelude::*;
use vstd::string::{StrSliceExecFns, StringExecFns};

use crate::bytecode::immediate::{be_signed, push_value, sign_extend_be};
use crate::bytecode::instruction::{Instruction, Register};
use crate::bytecode::stream::{
    Error, InstructionStream, lemma_items_unfold, lemma_step_advances, spec_items, spec_items_from, spec_step,
    spec_targets,
};
use crate::text::decimal::{decimal_len, push_decimal, push_signed_decimal, spec_decimal, spec_signed_decimal};
use crate::text::layout::{pad_right, push_hex_padded, push_padded, spec_hex_padded};
use crate::xqvm::program::Program;

verus! {

broadcast use vstd::std_specs::btree::group_btree_axioms;

/// `rN`
pub open spec fn reg_text(r: Register) -> Seq<char> {
    seq!['r'] + spec_decimal(r.0 as nat)
}

/// The sign-extended decimal value of a `PUSHn` immediate.
pub open spec fn push_text(val: Seq<u8>) -> Seq<char> {
    spec_signed_decimal(be_signed(val))
}

/// A jump's label operand: the name of the `TARGET` with sequential id `k`,
/// or `k` in decimal when that target has no name.
pub open spec fn label_text(k: nat, labels: Map<usize, String>, targets: Seq<usize>) -> Seq<char> {
    if k < targets.len() && labels.contains_key(targets[k as int]) {
        labels[targets[k as int]]@
    } else {
        spec_decimal(k)
    }
}

/// The rendered operands of an instruction, in field order.
pub open spec fn operand_texts(i: Instruction, labels: Map<usize, String>, targets: Seq<usize>) -> Seq<Seq<char>> {
    match i {
        Instruction::Jump2 { label } => seq![label_text(label as nat, labels, targets)],
        Instruction::JumpI2 { label } => seq![label_text(label as nat, labels, targets)],
        Instruction::LVal { reg } => seq![reg_text(reg)],
        Instruction::Iter { reg } => seq![reg_text(reg)],
        Instruction::Load { reg } => seq![reg_text(reg)],
        Instruction::Stow { reg } => seq![reg_text(reg)],
        Instruction::Drop { reg } => seq![reg_text(reg)],
        Instruction::Input { reg } => seq![reg_text(reg)],
        Instruction::Output { reg } => seq![reg_text(reg)],
        Instruction::Push1 { val } => seq![push_text(val@)],
        Instruction::Push2 { val } => seq![push_text(val@)],
        Instruction::Push3 { val } => seq![push_text(val@)],
        Instruction::Push4 { val } => seq![push_text(val@)],
        Instruction::Push5 { val } => seq![push_text(val@)],
        Instruction::Push6 { val } => seq![push_text(val@)],
        Instruction::Push7 { val } => seq![push_text(val@)],
        Instruction::Push8 { val } => seq![push_text(val@)],
        Instruction::Lidx { reg } => seq![reg_text(reg)],
        Instruction::Jump1 { label } => seq![label_text(label as nat, labels, targets)],
        Instruction::JumpI1 { label } => seq![label_text(label as nat, labels, targets)],
        Instruction::Bqmx { reg } => seq![reg_text(reg)],
        Instruction::Sqmx { reg } => seq![reg_text(reg)],
        Instruction::Xqmx { reg } => seq![reg_text(reg)],
        Instruction::Bsmx { reg } => seq![reg_text(reg)],
        Instruction::Ssmx { reg } => seq![reg_text(reg)],
        Instruction::Xsmx { reg } => seq![reg_text(reg)],
        Instruction::Vec { reg } => seq![reg_text(reg)],
        Instruction::VecI { reg } => seq![reg_text(reg)],
        Instruction::VecX { reg } => seq![reg_text(reg)],
        Instruction::VecPush { reg } => seq![reg_text(reg)],
        Instruction::VecGet { reg } => seq![reg_text(reg)],
        Instruction::VecSet { reg } => seq![reg_text(reg)],
        Instruction::VecLen { reg } => seq![reg_text(reg)],
        Instruction::GetLine { reg } => seq![reg_text(reg)],
        Instruction::SetLine { reg } => seq![reg_text(reg)],
        Instruction::AddLine { reg } => seq![reg_text(reg)],
        Instruction::GetQuad { reg } => seq![reg_text(reg)],
        Instruction::SetQuad { reg } => seq![reg_text(reg)],
        Instruction::AddQuad { reg } => seq![reg_text(reg)],
        Instruction::Resize { reg } => seq![reg_text(reg)],
        Instruction::RowFind { reg } => seq![reg_text(reg)],
        Instruction::ColFind { reg } => seq![reg_text(reg)],
        Instruction::RowSum { reg } => seq![reg_text(reg)],
        Instruction::ColSum { reg } => seq![reg_text(reg)],
        Instruction::OneHotR { reg } => seq![reg_text(reg)],
        Instruction::OneHotC { reg } => seq![reg_text(reg)],
        Instruction::Exclude { reg } => seq![reg_text(reg)],
        Instruction::Implies { reg } => seq![reg_text(reg)],
        Instruction::Energy { model, sample } => seq![reg_text(model), reg_text(sample)],
        _ => Seq::empty(),
    }
}

/// A `PUSHn` is shown with the value it pushes: its one operand is the
/// signed decimal spelling of the sign-extended immediate, for every width,
/// in the listing and on its own.
pub proof fn lemma_push_shows_pushed_value(i: Instruction, labels: Map<usize, String>, targets: Seq<usize>)
    requires
        push_value(i) is Some,
    ensures
        operand_texts(i, labels, targets) == seq![spec_signed_decimal(push_value(i).unwrap())],
        spec_instruction_text(i) == i.spec_opcode().spec_mnemonic() + seq![' '] + spec_signed_decimal(
            push_value(i).unwrap(),
        ),
{
    let ops = operand_texts(i, Map::empty(), Seq::empty());
    assert(ops == seq![spec_signed_decimal(push_value(i).unwrap())]);
    assert(join_operands(ops) == spec_signed_decimal(push_value(i).unwrap()));
    assert(" "@ == seq![' ']) by {
        reveal_strlit(" ");
    }
    lemma_signed_decimal_nonempty(push_value(i).unwrap());
}

proof fn lemma_signed_decimal_nonempty(v: int)
    ensures
        spec_signed_decimal(v).len() > 0,
{
    if v >= 0 {
        lemma_decimal_nonempty(v as nat);
    } else {
        lemma_decimal_nonempty((-v) as nat);
    }
}

proof fn lemma_decimal_nonempty(n: nat)
    ensures
        spec_decimal(n).len() > 0,
    decreases n,
{
    if n >= 10 {
        lemma_decimal_nonempty(n / 10);
    }
}

/// Operands separated by `, ` (an instruction has at most two).
pub open spec fn join_operands(ts: Seq<Seq<char>>) -> Seq<char> {
    if ts.len() == 0 {
        Seq::empty()
    } else if ts.len() == 1 {
        ts[0]
    } else {
        ts[0] + ", "@ + ts[1]
    }
}

/// An instruction: its mnemonic padded to eight columns, then its operands.
pub open spec fn instr_text(i: Instruction, labels: Map<usize, String>, targets: Seq<usize>) -> Seq<char> {
    pad_right(i.spec_opcode().spec_mnemonic(), 8) + join_operands(operand_texts(i, labels, targets))
}

/// The width of the label column: the widest name, `L{n-1}` for `n`
/// labels, and its colon; 0 when there are no labels.
pub open spec fn label_width(labels: Map<usize, String>) -> nat {
    if labels.len() == 0 {
        0
    } else {
        spec_decimal((labels.len() - 1) as nat).len() + 2
    }
}

/// The label column of the line at `offset`.
pub open spec fn label_column(labels: Map<usize, String>, offset: usize, width: nat) -> Seq<char> {
    if width == 0 {
        Seq::empty()
    } else {
        pad_right(
            if labels.contains_key(offset) {
                labels[offset]@ + ":"@
            } else {
                Seq::empty()
            },
            width,
        ) + "  "@
    }
}

/// The start of the line at `offset`.
pub open spec fn line_head(offset: usize) -> Seq<char> {
    "  0x"@ + spec_hex_padded(offset as nat, 4) + ":  "@
}

/// The offset and byte of an undecodable item.
pub open spec fn error_byte(bytes: Seq<u8>, e: Error) -> (usize, u8) {
    match e {
        Error::UnknownOpcode { offset, byte } => (offset, byte),
        Error::TruncatedInstruction { offset } => (offset, bytes[offset as int]),
        Error::SeekOutOfBounds { .. } => (0, 0),
    }
}

/// The line of one stream item.
pub open spec fn item_text(
    bytes: Seq<u8>,
    labels: Map<usize, String>,
    targets: Seq<usize>,
    width: nat,
    item: Result<(usize, Instruction), Error>,
) -> Seq<char> {
    match item {
        Ok((off, i)) => line_head(off) + label_column(labels, off, width) + instr_text(i, labels, targets) + "\n"@,
        Err(e) => {
            let (off, byte) = error_byte(bytes, e);
            line_head(off) + label_column(labels, off, width) + ".byte    0x"@ + spec_hex_padded(byte as nat, 2)
                + "\n"@
        },
    }
}

/// The lines of a run of stream items.
pub open spec fn items_text(
    bytes: Seq<u8>,
    labels: Map<usize, String>,
    targets: Seq<usize>,
    width: nat,
    items: Seq<Result<(usize, Instruction), Error>>,
) -> Seq<char>
    decreases items.len(),
{
    if items.len() == 0 {
        Seq::empty()
    } else {
        items_text(bytes, labels, targets, width, items.drop_last()) + item_text(
            bytes,
            labels,
            targets,
            width,
            items.last(),
        )
    }
}

/// The listing of `bytes` with label map `labels`.
pub open spec fn spec_listing(bytes: Seq<u8>, labels: Map<usize, String>) -> Seq<char> {
    let items = spec_items(bytes);
    items_text(bytes, labels, spec_targets(items), label_width(labels), items)
}

/// A pretty-printed view of raw XQVM bytecode or of a program's code.
#[derive(Debug, Clone)]
pub struct Disassembly<'a> {
    stream: InstructionStream<'a>,
}

impl<'a> Disassembly<'a> {
    /// The bytes being shown.
    pub closed spec fn spec_bytes(&self) -> Seq<u8> {
        self.stream.spec_bytes()
    }

    /// The label map of the bytes.
    pub closed spec fn spec_labels(&self) -> Map<usize, String> {
        self.stream.spec_labels()
    }

    /// Wrap a raw bytecode buffer for display. The label pre-pass runs
    /// once, here.
    pub fn new(bytes: &'a [u8]) -> (d: Self)
        ensures
            d.spec_bytes() == bytes@,
            crate::bytecode::stream::spec_labels_ok(bytes@, d.spec_labels()),
    {
        Disassembly { stream: InstructionStream::new(bytes) }
    }

    /// Wrap a program's code for display.
    pub fn from_program(program: &'a Program) -> (d: Self)
        ensures
            d.spec_bytes() == program.spec_code(),
            crate::bytecode::stream::spec_labels_ok(program.spec_code(), d.spec_labels()),
    {
        Disassembly::new(program.code())
    }

    /// Append the listing to `out`, one line per instruction.
    pub fn write_to(&self, out: &mut String)
        ensures
            final(out)@ == old(out)@ + spec_listing(self.spec_bytes(), self.spec_labels()),
    {
        let bytes = self.stream.bytes();
        let labels = self.stream.labels();
        let ghost items = spec_items(bytes@);
        // Pass 1: the offsets of the TARGETs, in stream order.
        let mut s = InstructionStream::new(bytes);
        let mut targets: Vec<usize> = Vec::new();
        let ghost mut seen: Seq<Result<(usize, Instruction), Error>> = Seq::empty();
        proof {
            assert(items == seen + spec_items_from(bytes@, 0));
        }
        loop
            invariant
                s.spec_bytes() == bytes@,
                s.spec_pos() <= bytes@.len(),
                items == spec_items(bytes@),
                items == seen + spec_items_from(bytes@, s.spec_pos()),
                targets@ == spec_targets(seen),
            ensures
                targets@ == spec_targets(items),
            decreases bytes@.len() - s.spec_pos(),
        {
            let ghost pos = s.spec_pos();
            let next = s.next_instruction();
            match next {
                None => {
                    proof {
                        assert(seen + spec_items_from(bytes@, pos) =~= seen);
                    }
                    break;
                },
                Some(r) => {
                    proof {
                        lemma_items_unfold(bytes@, pos);
                        lemma_step_advances(bytes@, pos);
                        let item = spec_step(bytes@, pos).0;
                        assert(seen.push(item) + spec_items_from(bytes@, s.spec_pos()) =~= seen + (seq![item]
                            + spec_items_from(bytes@, s.spec_pos())));
                        assert(seen.push(item).drop_last() =~= seen);
                        seen = seen.push(item);
                    }
                    match r {
                        Ok((off, _, Instruction::Target {  })) => {
                            targets.push(off);
                        },
                        _ => {},
                    }
                },
            }
        }
        // Pass 2: the lines.
        let width: usize = if labels.len() == 0 {
            0
        } else {
            decimal_len(labels.len() - 1) + 2
        };
        let mut s = self.stream.clone();
        let _ = s.seek(0);
        let ghost mut seen: Seq<Result<(usize, Instruction), Error>> = Seq::empty();
        let ghost start = out@;
        proof {
            assert(items == seen + spec_items_from(bytes@, 0));
            assert(start == start + items_text(bytes@, labels@, targets@, width as nat, seen));
        }
        loop
            invariant
                s.spec_bytes() == bytes@,
                s.spec_labels() == labels@,
                labels@ == self.spec_labels(),
                bytes@ == self.spec_bytes(),
                s.spec_pos() <= bytes@.len(),
                items == spec_items(bytes@),
                items == seen + spec_items_from(bytes@, s.spec_pos()),
                targets@ == spec_targets(items),
                width == label_width(labels@),
                out@ == start + items_text(bytes@, labels@, targets@, width as nat, seen),
            ensures
                out@ == start + items_text(bytes@, labels@, targets@, width as nat, items),
            decreases bytes@.len() - s.spec_pos(),
        {
            let ghost pos = s.spec_pos();
            let next = s.next_instruction();
            match next {
                None => {
                    proof {
                        assert(seen + spec_items_from(bytes@, pos) =~= seen);
                    }
                    break;
                },
                Some(r) => {
                    let ghost item = spec_step(bytes@, pos).0;
                    proof {
                        lemma_items_unfold(bytes@, pos);
                        lemma_step_advances(bytes@, pos);
                        assert(seen.push(item) + spec_items_from(bytes@, s.spec_pos()) =~= seen + (seq![item]
                            + spec_items_from(bytes@, s.spec_pos())));
                        assert(seen.push(item).drop_last() =~= seen);
                    }
                    push_item_line(out, &r, bytes, labels, targets.as_slice(), width, Ghost(item));
                    proof {
                        seen = seen.push(item);
                    }
                },
            }
        }
    }

    /// The listing as a string.
    pub fn to_text(&self) -> (s: String)
        ensures
            s@ == spec_listing(self.spec_bytes(), self.spec_labels()),
    {
        let mut s = String::new();
        self.write_to(&mut s);
        s
    }
}

/// Append the line of one stream item.
fn push_item_line(
    out: &mut String,
    r: &Result<(usize, Option<String>, Instruction), Error>,
    bytes: &[u8],
    labels: &BTreeMap<usize, String>,
    targets: &[usize],
    width: usize,
    item: Ghost<Result<(usize, Instruction), Error>>,
)
    requires
        match (*r, item@) {
            (Ok((off, lab, i)), Ok((p, j))) => off == p && i == j && match lab {
                Some(name) => labels@.contains_key(off) && labels@[off] == name,
                None => !labels@.contains_key(off),
            },
            (Err(e), Err(f)) => e == f && (e matches Error::TruncatedInstruction { offset } ==> offset < bytes@.len()),
            _ => false,
        },
    ensures
        final(out)@ == old(out)@ + item_text(bytes@, labels@, targets@, width as nat, item@),
{
    match r {
        Ok((off, lab, instr)) => {
            push_line_head(out, *off);
            push_label_column(out, lab, width, Ghost(labels@), Ghost(*off));
            push_instr(out, instr, labels, targets);
            out.append("\n");
            proof {
                assert(out@ =~= old(out)@ + item_text(bytes@, labels@, targets@, width as nat, item@));
            }
        },
        Err(e) => {
            let (off, byte) = match e {
                Error::UnknownOpcode { offset, byte } => (*offset, *byte),
                Error::TruncatedInstruction { offset } => (*offset, bytes[*offset]),
                Error::SeekOutOfBounds { .. } => (0, 0),
            };
            let lab = match labels.get(&off) {
                Some(name) => Some(name.clone()),
                None => None,
            };
            push_line_head(out, off);
            push_label_column(out, &lab, width, Ghost(labels@), Ghost(off));
            out.append(".byte    0x");
            push_hex_padded(out, byte as usize, 2);
            out.append("\n");
            proof {
                assert(out@ =~= old(out)@ + item_text(bytes@, labels@, targets@, width as nat, item@));
            }
        },
    }
}

/// Append `  0xOOOO:  `.
fn push_line_head(out: &mut String, offset: usize)
    ensures
        final(out)@ == old(out)@ + line_head(offset),
{
    out.append("  0x");
    push_hex_padded(out, offset, 4);
    out.append(":  ");
    proof {
        assert(out@ =~= old(out)@ + line_head(offset));
    }
}

/// Append the label column for a line whose label is `lab`.
fn push_label_column(
    out: &mut String,
    lab: &Option<String>,
    width: usize,
    labels: Ghost<Map<usize, String>>,
    offset: Ghost<usize>,
)
    requires
        match lab {
            Some(name) => labels@.contains_key(offset@) && labels@[offset@] == name,
            None => !labels@.contains_key(offset@),
        },
    ensures
        final(out)@ == old(out)@ + label_column(labels@, offset@, width as nat),
{
    if width > 0 {
        let mut col = String::new();
        match lab {
            Some(name) => {
                col.append(name.as_str());
                col.append(":");
            },
            None => {},
        }
        proof {
            if lab is None {
                assert(col@ =~= Seq::<char>::empty());
            }
        }
        push_padded(out, col.as_str(), width);
        out.append("  ");
        proof {
            assert(out@ =~= old(out)@ + label_column(labels@, offset@, width as nat));
        }
    }
}

/// Append `rN`.
fn push_reg(out: &mut String, r: Register)
    ensures
        final(out)@ == old(out)@ + reg_text(r),
{
    proof {
        reveal_strlit("r");
    }
    out.append("r");
    push_decimal(out, r.0 as usize);
    proof {
        assert(out@ =~= old(out)@ + reg_text(r));
    }
}

/// Append a jump's label operand.
fn push_label(out: &mut String, k: usize, labels: &BTreeMap<usize, String>, targets: &[usize])
    ensures
        final(out)@ == old(out)@ + label_text(k as nat, labels@, targets@),
{
    if k < targets.len() {
        match labels.get(&targets[k]) {
            Some(name) => {
                out.append(name.as_str());
                return;
            },
            None => {},
        }
    }
    push_decimal(out, k);
}

/// Append the text of an instruction.
fn push_instr(out: &mut String, i: &Instruction, labels: &BTreeMap<usize, String>, targets: &[usize])
    ensures
        final(out)@ == old(out)@ + instr_text(*i, labels@, targets@),
{
    push_padded(out, i.mnemonic(), 8);
    let ghost mid = out@;
    push_operands(out, i, labels, targets);
    proof {
        assert(out@ =~= old(out)@ + instr_text(*i, labels@, targets@));
    }
}

/// Append the operands of an instruction, separated by `, `.
fn push_operands(out: &mut String, i: &Instruction, labels: &BTreeMap<usize, String>, targets: &[usize])
    ensures
        final(out)@ == old(out)@ + join_operands(operand_texts(*i, labels@, targets@)),
{
    proof {
        reveal_strlit(", ");
    }
    match *i {
        Instruction::Jump2 { label } => {
            push_label(out, label as usize, labels, targets);
        },
        Instruction::JumpI2 { label } => {
            push_label(out, label as usize, labels, targets);
        },
        Instruction::LVal { reg } => {
            push_reg(out, reg);
        },
        Instruction::Iter { reg } => {
            push_reg(out, reg);
        },
        Instruction::Load { reg } => {
            push_reg(out, reg);
        },
        Instruction::Stow { reg } => {
            push_reg(out, reg);
        },
        Instruction::Drop { reg } => {
            push_reg(out, reg);
        },
        Instruction::Input { reg } => {
            push_reg(out, reg);
        },
        Instruction::Output { reg } => {
            push_reg(out, reg);
        },
        Instruction::Push1 { val } => {
            push_signed_decimal(out, sign_extend_be(&val));
        },
        Instruction::Push2 { val } => {
            push_signed_decimal(out, sign_extend_be(&val));
        },
        Instruction::Push3 { val } => {
            push_signed_decimal(out, sign_extend_be(&val));
        },
        Instruction::Push4 { val } => {
            push_signed_decimal(out, sign_extend_be(&val));
        },
        Instruction::Push5 { val } => {
            push_signed_decimal(out, sign_extend_be(&val));
        },
        Instruction::Push6 { val } => {
            push_signed_decimal(out, sign_extend_be(&val));
        },
        Instruction::Push7 { val } => {
            push_signed_decimal(out, sign_extend_be(&val));
        },
        Instruction::Push8 { val } => {
            push_signed_decimal(out, sign_extend_be(&val));
        },
        Instruction::Lidx { reg } => {
            push_reg(out, reg);
        },
        Instruction::Jump1 { label } => {
            push_label(out, label as usize, labels, targets);
        },
        Instruction::JumpI1 { label } => {
            push_label(out, label as usize, labels, targets);
        },
        Instruction::Bqmx { reg } => {
            push_reg(out, reg);
        },
        Instruction::Sqmx { reg } => {
            push_reg(out, reg);
        },
        Instruction::Xqmx { reg } => {
            push_reg(out, reg);
        },
        Instruction::Bsmx { reg } => {
            push_reg(out, reg);
        },
        Instruction::Ssmx { reg } => {
            push_reg(out, reg);
        },
        Instruction::Xsmx { reg } => {
            push_reg(out, reg);
        },
        Instruction::Vec { reg } => {
            push_reg(out, reg);
        },
        Instruction::VecI { reg } => {
            push_reg(out, reg);
        },
        Instruction::VecX { reg } => {
            push_reg(out, reg);
        },
        Instruction::VecPush { reg } => {
            push_reg(out, reg);
        },
        Instruction::VecGet { reg } => {
            push_reg(out, reg);
        },
        Instruction::VecSet { reg } => {
            push_reg(out, reg);
        },
        Instruction::VecLen { reg } => {
            push_reg(out, reg);
        },
        Instruction::GetLine { reg } => {
            push_reg(out, reg);
        },
        Instruction::SetLine { reg } => {
            push_reg(out, reg);
        },
        Instruction::AddLine { reg } => {
            push_reg(out, reg);
        },
        Instruction::GetQuad { reg } => {
            push_reg(out, reg);
        },
        Instruction::SetQuad { reg } => {
            push_reg(out, reg);
        },
        Instruction::AddQuad { reg } => {
            push_reg(out, reg);
        },
        Instruction::Resize { reg } => {
            push_reg(out, reg);
        },
        Instruction::RowFind { reg } => {
            push_reg(out, reg);
        },
        Instruction::ColFind { reg } => {
            push_reg(out, reg);
        },
        Instruction::RowSum { reg } => {
            push_reg(out, reg);
        },
        Instruction::ColSum { reg } => {
            push_reg(out, reg);
        },
        Instruction::OneHotR { reg } => {
            push_reg(out, reg);
        },
        Instruction::OneHotC { reg } => {
            push_reg(out, reg);
        },
        Instruction::Exclude { reg } => {
            push_reg(out, reg);
        },
        Instruction::Implies { reg } => {
            push_reg(out, reg);
        },
        Instruction::Energy { model, sample } => {
            push_reg(out, model);
            out.append(", ");
            push_reg(out, sample);
        },
        _ => {},
    }
    proof {
        assert(out@ =~= old(out)@ + join_operands(operand_texts(*i, labels@, targets@)));
    }
}

/// An instruction on its own: its mnemonic, then its operands after a
/// space; jump labels are shown as sequential ids.
pub open spec fn spec_instruction_text(i: Instruction) -> Seq<char> {
    let ops = join_operands(operand_texts(i, Map::empty(), Seq::empty()));
    i.spec_opcode().spec_mnemonic() + if ops.len() > 0 {
        " "@ + ops
    } else {
        Seq::empty()
    }
}

/// Render an instruction on its own: its mnemonic, then its operands
/// after a space; jump labels are shown as sequential ids.
pub fn instruction_text(i: &Instruction) -> (s: String)
    ensures
        s@ == spec_instruction_text(*i),
{
    let labels: BTreeMap<usize, String> = BTreeMap::new();
    let targets: Vec<usize> = Vec::new();
    let mut ops = String::new();
    push_operands(&mut ops, i, &labels, targets.as_slice());
    proof {
        assert(labels@ =~= Map::<usize, String>::empty());
        assert(targets@ =~= Seq::<usize>::empty());
    }
    let mut out = String::new();
    out.append(i.mnemonic());
    if ops.unicode_len() > 0 {
        out.append(" ");
        out.append(ops.as_str());
    }
    proof {
        assert(out@ =~= spec_instruction_text(*i));
    }
    out
}

} // verus!
