//! Assembler: converts a parsed [`AsmLine`] list into a [`Program`].
//!
//! Label resolution and the choice of jump form are delegated to
//! [`InstructionBuilder`]. Lines are processed in a single pass:
//!
//! * a label definition places its label (emitting an inline `TARGET`);
//! * `JUMP .N` / `JUMPI .N` emit a jump to label `N`, resolved at the end,
//!   so forward and backward references both work;
//! * `PUSH v` emits the smallest `PUSHn` that holds `v`;
//! * any other mnemonic names an instruction whose operands are all
//!   registers.
//!
//! Labels get builder handles in order of first appearance, whether that
//! is a definition or a reference. The first line in source order that is
//! in error decides the error; a program whose lines are all well formed
//! can still fail at the end, on a label that is referenced but never
//! defined, defined but never referenced, or on too many labels.

use vstd::prelude::*;
use vstd::utf8::encode_utf8;

use super::ast::{AsmLine, InstrView, LineView, Operand, ParsedInstr, lines_view};
use super::error::{AssembleError, AssembleErrorV};
use crate::bytecode::builder::{self, BuilderItem, InstructionBuilder, LabelId, spec_build};
use crate::bytecode::immediate::push_instruction;
use crate::bytecode::instruction::{Instruction, Opcode};
use crate::xqvm::program::Program;

verus! {

/// What one well-formed instruction line asks of the builder.
#[derive(Debug, Clone, Copy, PartialEq, Eq)]
pub enum Step {
    /// A jump to a label; `conditional` for `JUMPI`.
    Jump { conditional: bool, label: u16 },
    /// `PUSH v`.
    Push(i64),
    /// Any other instruction, emitted as is.
    Emit(Instruction),
}

/// The UTF-8 bytes of an instruction's mnemonic.
pub open spec fn mnemonic_bytes(i: InstrView) -> Seq<u8> {
    encode_utf8(i.mnemonic)
}

/// `JUMP`
pub open spec fn word_jump() -> Seq<u8> {
    seq![0x4au8, 0x55u8, 0x4du8, 0x50u8]
}

/// `JUMPI`
pub open spec fn word_jumpi() -> Seq<u8> {
    seq![0x4au8, 0x55u8, 0x4du8, 0x50u8, 0x49u8]
}

/// `PUSH`
pub open spec fn word_push() -> Seq<u8> {
    seq![0x50u8, 0x55u8, 0x53u8, 0x48u8]
}

/// Whether every operand field of `op` is a register, so that assembly
/// source can spell it by its mnemonic. The `PUSHn` and sized jump forms
/// are chosen by the assembler instead.
pub open spec fn is_register_form(op: Opcode) -> bool {
    match op {
        Opcode::Push1 | Opcode::Push2 | Opcode::Push3 | Opcode::Push4 | Opcode::Push5 | Opcode::Push6
        | Opcode::Push7 | Opcode::Push8 | Opcode::Jump1 | Opcode::Jump2 | Opcode::JumpI1 | Opcode::JumpI2 => false,
        _ => true,
    }
}

/// The name of operand field `k` of a register-form instruction.
pub open spec fn field_name(op: Opcode, k: int) -> Seq<char> {
    if op == Opcode::Energy {
        if k == 0 {
            "model"@
        } else {
            "sample"@
        }
    } else {
        "reg"@
    }
}

/// The first operand from index `k` on that is not a register.
pub open spec fn first_non_register(ops: Seq<Operand>, k: int) -> Option<int>
    decreases ops.len() - k,
{
    if k >= ops.len() || k < 0 {
        None
    } else if ops[k] is Register {
        first_non_register(ops, k + 1)
    } else {
        Some(k)
    }
}

/// The slot bytes of register operands.
pub open spec fn register_bytes(ops: Seq<Operand>) -> Seq<u8> {
    ops.map_values(
        |o: Operand|
            match o {
                Operand::Register(r) => r,
                _ => 0u8,
            },
    )
}

/// The error for an unknown mnemonic.
pub open spec fn unknown_error(i: InstrView) -> AssembleErrorV {
    AssembleErrorV::UnknownMnemonic { mnemonic: i.mnemonic, offset: i.offset, len: mnemonic_bytes(i).len() }
}

/// The error for a wrong number of operands.
pub open spec fn count_error(i: InstrView, expected: nat) -> AssembleErrorV {
    AssembleErrorV::WrongOperandCount {
        mnemonic: i.mnemonic,
        expected,
        got: i.operands.len(),
        offset: i.offset,
        len: mnemonic_bytes(i).len(),
    }
}

/// The error for an operand of the wrong kind.
pub open spec fn kind_error(i: InstrView, field: Seq<char>, expected_kind: Seq<char>) -> AssembleErrorV {
    AssembleErrorV::WrongOperandKind {
        mnemonic: i.mnemonic,
        field,
        expected_kind,
        offset: i.offset,
        len: mnemonic_bytes(i).len(),
    }
}

/// What an instruction line asks of the builder, or why it is rejected.
pub open spec fn spec_step(i: InstrView) -> Result<Step, AssembleErrorV> {
    let m = mnemonic_bytes(i);
    if m == word_jump() || m == word_jumpi() {
        if i.operands.len() != 1 {
            Err(count_error(i, 1))
        } else {
            match i.operands[0] {
                Operand::LabelRef(l) => Ok(Step::Jump { conditional: m == word_jumpi(), label: l }),
                _ => Err(kind_error(i, "label"@, "label reference (e.g. .0)"@)),
            }
        }
    } else if m == word_push() {
        if i.operands.len() != 1 {
            Err(count_error(i, 1))
        } else {
            match i.operands[0] {
                Operand::Integer(v) => Ok(Step::Push(v)),
                _ => Err(kind_error(i, "imm"@, "integer literal"@)),
            }
        }
    } else {
        match Opcode::spec_from_mnemonic(m) {
            None => Err(unknown_error(i)),
            Some(op) => if !is_register_form(op) {
                Err(unknown_error(i))
            } else if i.operands.len() != op.spec_operand_len() {
                Err(count_error(i, op.spec_operand_len()))
            } else {
                match first_non_register(i.operands, 0) {
                    Some(k) => Err(kind_error(i, field_name(op, k), "register (e.g. r0)"@)),
                    None => Ok(Step::Emit(Instruction::spec_from_parts(op, register_bytes(i.operands)))),
                }
            },
        }
    }
}

/// The label a line defines or jumps to, if any.
pub open spec fn line_label(l: LineView) -> Option<u16> {
    match l {
        LineView::LabelDef { label, .. } => Some(label),
        LineView::Instruction(i) => match spec_step(i) {
            Ok(Step::Jump { label, .. }) => Some(label),
            _ => None,
        },
    }
}

/// The labels of the first `k` lines, in order of first appearance.
pub open spec fn labels_seen(lines: Seq<LineView>, k: nat) -> Seq<u16>
    decreases k,
{
    if k == 0 {
        Seq::empty()
    } else {
        let prev = labels_seen(lines, (k - 1) as nat);
        match line_label(lines[k - 1]) {
            Some(l) => if prev.contains(l) {
                prev
            } else {
                prev.push(l)
            },
            None => prev,
        }
    }
}

/// All labels of the program, in order of first appearance: label `j` of
/// this sequence is the builder's label with index `j`.
pub open spec fn label_order(lines: Seq<LineView>) -> Seq<u16> {
    labels_seen(lines, lines.len())
}

/// The builder index of label `l`.
pub open spec fn label_index(lines: Seq<LineView>, l: u16) -> int {
    choose|j: int| 0 <= j < label_order(lines).len() && label_order(lines)[j] == l
}

/// The builder handle of label `l`.
pub open spec fn label_id(lines: Seq<LineView>, l: u16) -> LabelId {
    LabelId::spec_from_index(label_index(lines, l) as usize)
}

/// Whether a line defines label `l`.
pub open spec fn defines(line: LineView, l: u16) -> bool {
    match line {
        LineView::LabelDef { label, .. } => label == l,
        _ => false,
    }
}

/// Whether a line jumps to label `l`.
pub open spec fn jumps_to(line: LineView, l: u16) -> bool {
    match line {
        LineView::Instruction(i) => match spec_step(i) {
            Ok(Step::Jump { label, .. }) => label == l,
            _ => false,
        },
        _ => false,
    }
}

/// The first of the first `k` lines that defines label `l`.
pub open spec fn def_line(lines: Seq<LineView>, l: u16, k: nat) -> Option<nat>
    decreases k,
{
    if k == 0 {
        None
    } else {
        match def_line(lines, l, (k - 1) as nat) {
            Some(j) => Some(j),
            None => if defines(lines[k - 1], l) {
                Some((k - 1) as nat)
            } else {
                None
            },
        }
    }
}

/// The first of the first `k` lines that jumps to label `l`.
pub open spec fn jump_line(lines: Seq<LineView>, l: u16, k: nat) -> Option<nat>
    decreases k,
{
    if k == 0 {
        None
    } else {
        match jump_line(lines, l, (k - 1) as nat) {
            Some(j) => Some(j),
            None => if jumps_to(lines[k - 1], l) {
                Some((k - 1) as nat)
            } else {
                None
            },
        }
    }
}

/// The byte offset of a line's first token.
pub open spec fn line_offset(line: LineView) -> nat {
    match line {
        LineView::LabelDef { offset, .. } => offset,
        LineView::Instruction(i) => i.offset,
    }
}

/// The number of decimal digits of `n`.
pub open spec fn decimal_digits(n: nat) -> nat
    decreases n,
{
    if n < 10 {
        1
    } else {
        1 + decimal_digits(n / 10)
    }
}

/// The byte length of label `l` written `.N`.
pub open spec fn label_len(l: u16) -> nat {
    1 + decimal_digits(l as nat)
}

/// The offset of the first line among the first `k` that satisfies a
/// lookup, or 0 when there is none.
pub open spec fn offset_of(lines: Seq<LineView>, found: Option<nat>) -> nat {
    match found {
        Some(j) => line_offset(lines[j as int]),
        None => 0,
    }
}

/// The error line `k` raises on its own or against the lines before it.
pub open spec fn line_error(lines: Seq<LineView>, k: nat) -> Option<AssembleErrorV> {
    match lines[k as int] {
        LineView::LabelDef { label, .. } => match def_line(lines, label, k) {
            Some(j) => Some(
                AssembleErrorV::DuplicateLabel {
                    label,
                    offset: line_offset(lines[j as int]),
                    len: label_len(label),
                },
            ),
            None => None,
        },
        LineView::Instruction(i) => match spec_step(i) {
            Err(e) => Some(e),
            Ok(_) => None,
        },
    }
}

/// The error of the first line, from line `k` on, that is in error.
pub open spec fn first_error(lines: Seq<LineView>, k: nat) -> Option<AssembleErrorV>
    decreases lines.len() - k,
{
    if k >= lines.len() {
        None
    } else {
        match line_error(lines, k) {
            Some(e) => Some(e),
            None => first_error(lines, k + 1),
        }
    }
}

/// The builder item line `k` becomes.
pub open spec fn item_of(lines: Seq<LineView>, k: int) -> BuilderItem {
    match lines[k] {
        LineView::LabelDef { label, .. } => BuilderItem::Place(label_id(lines, label)),
        LineView::Instruction(i) => match spec_step(i) {
            Ok(Step::Jump { conditional, label }) => BuilderItem::Jump { conditional, label: label_id(lines, label) },
            Ok(Step::Push(v)) => BuilderItem::Instr(push_instruction(v as int)),
            Ok(Step::Emit(x)) => BuilderItem::Instr(x),
            Err(_) => BuilderItem::Instr(Instruction::Nop {  }),
        },
    }
}

/// The builder items of the program, one per line.
pub open spec fn items_of(lines: Seq<LineView>) -> Seq<BuilderItem> {
    Seq::new(lines.len(), |k: int| item_of(lines, k))
}

/// Where the builder's labels are placed: label `j` at the line that first
/// defines it.
pub open spec fn positions_of(lines: Seq<LineView>) -> Seq<Option<usize>> {
    let order = label_order(lines);
    Seq::new(
        order.len(),
        |j: int|
            match def_line(lines, order[j], lines.len()) {
                Some(k) => Some(k as usize),
                None => None,
            },
    )
}

/// The label with builder index `id`, or 0 past the last label.
pub open spec fn label_at(lines: Seq<LineView>, id: usize) -> u16 {
    if id < label_order(lines).len() {
        label_order(lines)[id as int]
    } else {
        0
    }
}

/// The assembler error a builder error stands for.
pub open spec fn map_build_error(lines: Seq<LineView>, e: builder::Error) -> AssembleErrorV {
    match e {
        builder::Error::UnplacedLabel { id } => {
            let l = label_at(lines, id);
            AssembleErrorV::UndefinedLabel {
                label: l,
                offset: offset_of(lines, jump_line(lines, l, lines.len())),
                len: label_len(l),
            }
        },
        builder::Error::UnusedLabel { id } => {
            let l = label_at(lines, id);
            AssembleErrorV::UnusedLabel {
                label: l,
                offset: offset_of(lines, def_line(lines, l, lines.len())),
                len: label_len(l),
            }
        },
        builder::Error::TooManyTargets { count } => AssembleErrorV::TooManyTargets { count: count as nat },
    }
}

/// What [`assemble`] produces from `lines`: the first line error, else
/// the builder's result on the lines' items, its errors restated in terms
/// of labels and source offsets.
pub open spec fn spec_assemble(lines: Seq<LineView>) -> Result<Seq<u8>, AssembleErrorV> {
    match first_error(lines, 0) {
        Some(e) => Err(e),
        None => match spec_build(items_of(lines), positions_of(lines)) {
            Ok(code) => Ok(code),
            Err(e) => Err(map_build_error(lines, e)),
        },
    }
}

// ---------------------------------------------------------------------------
// Lemmas
// ---------------------------------------------------------------------------

/// The labels of fewer lines are a prefix of the labels of more lines.
pub proof fn lemma_seen_prefix(lines: Seq<LineView>, k: nat, n: nat)
    requires
        k <= n,
    ensures
        labels_seen(lines, k).len() <= labels_seen(lines, n).len(),
        forall|j: int| 0 <= j < labels_seen(lines, k).len() ==> #[trigger] labels_seen(lines, n)[j] == labels_seen(lines, k)[j],
    decreases n,
{
    if k < n {
        lemma_seen_prefix(lines, k, (n - 1) as nat);
    }
}

/// No label appears twice in the order of first appearance.
pub proof fn lemma_seen_distinct(lines: Seq<LineView>, k: nat)
    ensures
        labels_seen(lines, k).no_duplicates(),
    decreases k,
{
    if k > 0 {
        lemma_seen_distinct(lines, (k - 1) as nat);
    }
}

/// A label at position `j` of the first lines' order has builder index `j`.
pub proof fn lemma_index_stable(lines: Seq<LineView>, k: nat, j: int)
    requires
        k <= lines.len(),
        0 <= j < labels_seen(lines, k).len(),
    ensures
        label_index(lines, labels_seen(lines, k)[j]) == j,
        label_order(lines)[j] == labels_seen(lines, k)[j],
        j < label_order(lines).len(),
{
    lemma_seen_prefix(lines, k, lines.len());
    lemma_seen_distinct(lines, lines.len());
    let order = label_order(lines);
    let l = labels_seen(lines, k)[j];
    assert(order[j] == l);
    let c = label_index(lines, l);
    assert(0 <= c < order.len() && order[c] == l);
}

/// The first error from line 0 is the first error from line `k` when no
/// line before `k` is in error.
pub proof fn lemma_first_error_skip(lines: Seq<LineView>, k: nat)
    requires
        k <= lines.len(),
        forall|j: nat| j < k ==> #[trigger] line_error(lines, j) is None,
    ensures
        first_error(lines, 0) == first_error(lines, k),
    decreases k,
{
    if k > 0 {
        lemma_first_error_skip(lines, (k - 1) as nat);
        assert(line_error(lines, (k - 1) as nat) is None);
    }
}

/// An unplaced-label error names a label some jump refers to.
pub proof fn lemma_first_unplaced_bound(items: Seq<BuilderItem>, positions: Seq<Option<usize>>, k: nat, bound: nat)
    requires
        forall|j: int|
            0 <= j < items.len() && (#[trigger] items[j] is Jump) ==> items[j]->label.spec_index() < bound,
    ensures
        builder::first_unplaced(items, positions, k) matches Some(id) ==> id < bound,
    decreases items.len() - k,
{
    if k < items.len() {
        lemma_first_unplaced_bound(items, positions, k + 1, bound);
    }
}

/// An unused-label error names a label that exists.
pub proof fn lemma_first_unused_bound(items: Seq<BuilderItem>, positions: Seq<Option<usize>>, l: nat)
    ensures
        builder::first_unused(items, positions, l) matches Some(id) ==> id < positions.len(),
    decreases positions.len() - l,
{
    if l < positions.len() {
        lemma_first_unused_bound(items, positions, l + 1);
    }
}

// ---------------------------------------------------------------------------
// Executable helpers
// ---------------------------------------------------------------------------

/// Whether `m` spells `JUMP`.
pub(crate) fn is_jump_word(m: &[u8]) -> (r: bool)
    ensures
        r == (m@ == word_jump()),
{
    let r = m.len() == 4 && m[0] == 0x4a && m[1] == 0x55 && m[2] == 0x4d && m[3] == 0x50;
    proof {
        if r {
            assert(m@ =~= word_jump());
        } else if m@.len() == 4 {
            assert(m@ != word_jump() || (m@[0] == 0x4a && m@[1] == 0x55 && m@[2] == 0x4d && m@[3] == 0x50));
        }
    }
    r
}

/// Whether `m` spells `JUMPI`.
pub(crate) fn is_jumpi_word(m: &[u8]) -> (r: bool)
    ensures
        r == (m@ == word_jumpi()),
{
    let r = m.len() == 5 && m[0] == 0x4a && m[1] == 0x55 && m[2] == 0x4d && m[3] == 0x50 && m[4] == 0x49;
    proof {
        if r {
            assert(m@ =~= word_jumpi());
        } else if m@.len() == 5 {
            assert(m@ != word_jumpi() || (m@[0] == 0x4a && m@[1] == 0x55 && m@[2] == 0x4d && m@[3] == 0x50
                && m@[4] == 0x49));
        }
    }
    r
}

/// Whether `m` spells `PUSH`.
fn is_push_word(m: &[u8]) -> (r: bool)
    ensures
        r == (m@ == word_push()),
{
    let r = m.len() == 4 && m[0] == 0x50 && m[1] == 0x55 && m[2] == 0x53 && m[3] == 0x48;
    proof {
        if r {
            assert(m@ =~= word_push());
        } else if m@.len() == 4 {
            assert(m@ != word_push() || (m@[0] == 0x50 && m@[1] == 0x55 && m@[2] == 0x53 && m@[3] == 0x48));
        }
    }
    r
}

/// Whether every operand field of `op` is a register.
fn register_form(op: Opcode) -> (r: bool)
    ensures
        r == is_register_form(op),
{
    match op {
        Opcode::Push1 | Opcode::Push2 | Opcode::Push3 | Opcode::Push4 | Opcode::Push5 | Opcode::Push6
        | Opcode::Push7 | Opcode::Push8 | Opcode::Jump1 | Opcode::Jump2 | Opcode::JumpI1 | Opcode::JumpI2 => false,
        _ => true,
    }
}

/// The name of operand field `k` of a register-form instruction.
fn field_name_of(op: Opcode, k: usize) -> (s: &'static str)
    ensures
        s@ == field_name(op, k as int),
{
    if op == Opcode::Energy {
        if k == 0 {
            "model"
        } else {
            "sample"
        }
    } else {
        "reg"
    }
}

/// The byte length of label `l` written `.N`.
fn label_width(l: u16) -> (w: usize)
    ensures
        w == label_len(l),
{
    let mut n: u16 = l;
    let mut d: usize = 1;
    while n >= 10
        invariant
            1 <= d <= 5,
            decimal_digits(l as nat) == (d - 1) + decimal_digits(n as nat),
            d + (if n >= 10000 { 4nat } else if n >= 1000 { 3nat } else if n >= 100 { 2nat } else if n >= 10 { 1nat } else { 0nat }) <= 5,
        decreases n,
    {
        n = n / 10;
        d = d + 1;
    }
    d + 1
}

/// The position of `l` in `order`, if it is there.
fn find_label(order: &Vec<u16>, l: u16) -> (r: Option<usize>)
    ensures
        match r {
            Some(j) => j < order@.len() && order@[j as int] == l,
            None => !order@.contains(l),
        },
{
    let mut j: usize = 0;
    while j < order.len()
        invariant
            j <= order@.len(),
            forall|i: int| 0 <= i < j ==> order@[i] != l,
        decreases order@.len() - j,
    {
        if order[j] == l {
            return Some(j);
        }
        j += 1;
    }
    None
}

/// What an instruction line asks of the builder, or why it is rejected.
pub(crate) fn instr_step(i: &ParsedInstr) -> (r: Result<Step, AssembleError>)
    ensures
        match r {
            Ok(st) => spec_step(i@) == Ok::<Step, AssembleErrorV>(st),
            Err(e) => spec_step(i@) == Err::<Step, AssembleErrorV>(e@),
        },
{
    let m = i.mnemonic.as_str().as_bytes();
    let ops = &i.operands;
    let jump = is_jump_word(m);
    let jumpi = is_jumpi_word(m);
    if jump || jumpi {
        if ops.len() != 1 {
            return Err(
                AssembleError::WrongOperandCount {
                    mnemonic: i.mnemonic.clone(),
                    expected: 1,
                    got: ops.len(),
                    offset: i.offset,
                    len: m.len(),
                },
            );
        }
        return match ops[0] {
            Operand::LabelRef(l) => Ok(Step::Jump { conditional: jumpi, label: l }),
            _ => Err(
                AssembleError::WrongOperandKind {
                    mnemonic: i.mnemonic.clone(),
                    field: "label",
                    expected_kind: "label reference (e.g. .0)",
                    offset: i.offset,
                    len: m.len(),
                },
            ),
        };
    }
    if is_push_word(m) {
        if ops.len() != 1 {
            return Err(
                AssembleError::WrongOperandCount {
                    mnemonic: i.mnemonic.clone(),
                    expected: 1,
                    got: ops.len(),
                    offset: i.offset,
                    len: m.len(),
                },
            );
        }
        return match ops[0] {
            Operand::Integer(v) => Ok(Step::Push(v)),
            _ => Err(
                AssembleError::WrongOperandKind {
                    mnemonic: i.mnemonic.clone(),
                    field: "imm",
                    expected_kind: "integer literal",
                    offset: i.offset,
                    len: m.len(),
                },
            ),
        };
    }
    let op = match Opcode::from_mnemonic(m) {
        Some(op) => op,
        None => {
            return Err(AssembleError::UnknownMnemonic { mnemonic: i.mnemonic.clone(), offset: i.offset, len: m.len() });
        },
    };
    if !register_form(op) {
        return Err(AssembleError::UnknownMnemonic { mnemonic: i.mnemonic.clone(), offset: i.offset, len: m.len() });
    }
    let n = op.operand_len();
    if ops.len() != n {
        return Err(
            AssembleError::WrongOperandCount {
                mnemonic: i.mnemonic.clone(),
                expected: n,
                got: ops.len(),
                offset: i.offset,
                len: m.len(),
            },
        );
    }
    let mut regs: Vec<u8> = Vec::new();
    let mut k: usize = 0;
    while k < n
        invariant
            n == ops@.len(),
            ops@ == i@.operands,
            m@ == mnemonic_bytes(i@),
            n == op.spec_operand_len(),
            spec_step(i@) == match first_non_register(ops@, 0) {
                Some(j) => Err(kind_error(i@, field_name(op, j), "register (e.g. r0)"@)),
                None => Ok(Step::Emit(Instruction::spec_from_parts(op, register_bytes(ops@)))),
            },
            k <= n,
            regs@ =~= register_bytes(ops@.take(k as int)),
            first_non_register(ops@, 0) == first_non_register(ops@, k as int),
        decreases n - k,
    {
        match ops[k] {
            Operand::Register(r) => {
                regs.push(r);
                proof {
                    assert(ops@.take(k + 1) =~= ops@.take(k as int).push(ops@[k as int]));
                }
            },
            _ => {
                let field = field_name_of(op, k);
                return Err(
                    AssembleError::WrongOperandKind {
                        mnemonic: i.mnemonic.clone(),
                        field,
                        expected_kind: "register (e.g. r0)",
                        offset: i.offset,
                        len: m.len(),
                    },
                );
            },
        }
        k += 1;
    }
    proof {
        assert(ops@.take(n as int) =~= ops@);
        assert(regs@.subrange(0, n as int) =~= regs@);
    }
    Ok(Step::Emit(Instruction::from_parts(op, regs.as_slice(), 0)))
}

/// A line index as a builder position.
pub open spec fn opt_index(o: Option<nat>) -> Option<usize> {
    match o {
        Some(k) => Some(k as usize),
        None => None,
    }
}

/// The source offset of an optional line.
pub open spec fn opt_offset(lines: Seq<LineView>, o: Option<nat>) -> Option<usize> {
    match o {
        Some(k) => Some(line_offset(lines[k as int]) as usize),
        None => None,
    }
}

/// A label defined among the first lines has been seen by then.
pub proof fn lemma_def_seen(lines: Seq<LineView>, l: u16, k: nat)
    requires
        k <= lines.len(),
    ensures
        def_line(lines, l, k) is Some ==> labels_seen(lines, k).contains(l),
        jump_line(lines, l, k) is Some ==> labels_seen(lines, k).contains(l),
        def_line(lines, l, k) matches Some(j) ==> j < k && defines(lines[j as int], l),
        jump_line(lines, l, k) matches Some(j) ==> j < k,
    decreases k,
{
    if k > 0 {
        lemma_def_seen(lines, l, (k - 1) as nat);
        let prev = labels_seen(lines, (k - 1) as nat);
        if prev.contains(l) {
            let w = choose|w: int| 0 <= w < prev.len() && prev[w] == l;
            lemma_seen_prefix(lines, (k - 1) as nat, k);
            assert(labels_seen(lines, k)[w] == l);
        }
        if defines(lines[k - 1], l) || jumps_to(lines[k - 1], l) {
            assert(line_label(lines[k - 1]) == Some(l));
            if !prev.contains(l) {
                assert(labels_seen(lines, k) == prev.push(l));
                assert(labels_seen(lines, k)[prev.len() as int] == l);
            }
        }
    }
}

/// Find label `l` among the labels seen so far, or allocate it.
fn label_slot(
    b: &mut InstructionBuilder,
    order: &mut Vec<u16>,
    ids: &mut Vec<LabelId>,
    def_off: &mut Vec<Option<usize>>,
    ref_off: &mut Vec<Option<usize>>,
    l: u16,
) -> (j: usize)
    requires
        old(b).wf(),
        old(ids)@.len() == old(order)@.len(),
        old(def_off)@.len() == old(order)@.len(),
        old(ref_off)@.len() == old(order)@.len(),
        old(b).spec_positions().len() == old(order)@.len(),
        forall|j: int| 0 <= j < old(order)@.len() ==> #[trigger] old(ids)@[j] == LabelId::spec_from_index(j as usize),
    ensures
        final(b).wf(),
        final(b).spec_items() == old(b).spec_items(),
        j < final(order)@.len(),
        final(order)@[j as int] == l,
        final(ids)@.len() == final(order)@.len(),
        final(def_off)@.len() == final(order)@.len(),
        final(ref_off)@.len() == final(order)@.len(),
        final(b).spec_positions().len() == final(order)@.len(),
        forall|j: int| 0 <= j < final(order)@.len() ==> #[trigger] final(ids)@[j] == LabelId::spec_from_index(j as usize),
        old(order)@.contains(l) ==> {
            &&& *final(b) == *old(b)
            &&& final(order)@ == old(order)@
            &&& final(ids)@ == old(ids)@
            &&& final(def_off)@ == old(def_off)@
            &&& final(ref_off)@ == old(ref_off)@
        },
        !old(order)@.contains(l) ==> {
            &&& final(b).spec_positions() == old(b).spec_positions().push(None)
            &&& final(order)@ == old(order)@.push(l)
            &&& final(def_off)@ == old(def_off)@.push(None)
            &&& final(ref_off)@ == old(ref_off)@.push(None)
        },
{
    match find_label(order, l) {
        Some(j) => j,
        None => {
            let id = b.label();
            order.push(l);
            ids.push(id);
            def_off.push(None);
            ref_off.push(None);
            proof {
                id.lemma_from_index((order@.len() - 1) as usize);
            }
            order.len() - 1
        },
    }
}

/// Assemble a list of parsed lines into a [`Program`].
///
/// `source` and `name` are the source text and its display name; errors
/// carry byte spans into `source` for diagnostics.
pub fn assemble(lines: &[AsmLine], source: &str, name: &str) -> (r: Result<Program, AssembleError>)
    ensures
        match r {
            Ok(p) => spec_assemble(lines_view(lines@)) == Ok::<Seq<u8>, AssembleErrorV>(p.spec_code()),
            Err(e) => spec_assemble(lines_view(lines@)) == Err::<Seq<u8>, AssembleErrorV>(e@),
        },
{
    let ghost lv = lines_view(lines@);
    let mut b = InstructionBuilder::new();
    let mut order: Vec<u16> = Vec::new();
    let mut ids: Vec<LabelId> = Vec::new();
    let mut def_off: Vec<Option<usize>> = Vec::new();
    let mut ref_off: Vec<Option<usize>> = Vec::new();
    let mut k: usize = 0;
    while k < lines.len()
        invariant
            lv == lines_view(lines@),
            k <= lines@.len(),
            b.wf(),
            order@ == labels_seen(lv, k as nat),
            ids@.len() == order@.len(),
            def_off@.len() == order@.len(),
            ref_off@.len() == order@.len(),
            b.spec_positions().len() == order@.len(),
            forall|j: int| 0 <= j < order@.len() ==> #[trigger] ids@[j] == LabelId::spec_from_index(j as usize),
            forall|j: int|
                0 <= j < order@.len() ==> #[trigger] b.spec_positions()[j] == opt_index(def_line(lv, order@[j], k as nat)),
            forall|j: int| 0 <= j < order@.len() ==> #[trigger] def_off@[j] == opt_offset(lv, def_line(lv, order@[j], k as nat)),
            forall|j: int| 0 <= j < order@.len() ==> #[trigger] ref_off@[j] == opt_offset(lv, jump_line(lv, order@[j], k as nat)),
            b.spec_items() =~= Seq::new(k as nat, |j: int| item_of(lv, j)),
            forall|j: int|
                0 <= j < k && (#[trigger] b.spec_items()[j] is Jump) ==> b.spec_items()[j]->label.spec_index() < order@.len(),
            forall|j: nat| j < k ==> #[trigger] line_error(lv, j) is None,
        decreases lines@.len() - k,
    {
        let ghost old_order = order@;
        let ghost old_items = b.spec_items();
        let ghost old_positions = b.spec_positions();
        let ghost old_def = def_off@;
        let ghost old_ref = ref_off@;
        proof {
            lemma_seen_distinct(lv, k as nat);
            assert(lv[k as int] == lines@[k as int]@);
        }
        match &lines[k] {
            AsmLine::LabelDef { label, offset } => {
                let label = *label;
                proof {
                    assert(line_label(lv[k as int]) == Some(label));
                    lemma_def_seen(lv, label, k as nat);
                }
                let j = label_slot(&mut b, &mut order, &mut ids, &mut def_off, &mut ref_off, label);
                proof {
                    assert(order@ == labels_seen(lv, (k + 1) as nat));
                }
                match def_off[j] {
                    Some(prev) => {
                        proof {
                            assert(old_order.contains(label));
                            assert(old_order[j as int] == label);
                            lemma_first_error_skip(lv, k as nat);
                        }
                        return Err(AssembleError::DuplicateLabel { label, offset: prev, len: label_width(label) });
                    },
                    None => {},
                }
                proof {
                    if old_order.contains(label) {
                        assert(old_order[j as int] == label);
                    }
                    assert(def_line(lv, label, k as nat) is None);
                    assert(b.spec_positions()[j as int] is None);
                    lemma_index_stable(lv, (k + 1) as nat, j as int);
                    ids@[j as int].lemma_from_index(j);
                }
                b.place(ids[j]);
                def_off.set(j, Some(*offset));
                proof {
                    assert forall|i: int| 0 <= i < order@.len() implies #[trigger] b.spec_positions()[i] == opt_index(
                        def_line(lv, order@[i], (k + 1) as nat),
                    ) && def_off@[i] == opt_offset(lv, def_line(lv, order@[i], (k + 1) as nat)) && ref_off@[i]
                        == opt_offset(lv, jump_line(lv, order@[i], (k + 1) as nat)) by {
                        if i != j {
                            assert(order@[i] != label);
                            if i < old_order.len() {
                                assert(order@[i] == old_order[i]);
                            }
                        }
                    }
                    assert(line_error(lv, k as nat) is None);
                }
            },
            AsmLine::Instruction(i) => {
                match instr_step(i) {
                    Err(e) => {
                        proof {
                            lemma_first_error_skip(lv, k as nat);
                        }
                        return Err(e);
                    },
                    Ok(Step::Jump { conditional, label }) => {
                        proof {
                            assert(line_label(lv[k as int]) == Some(label));
                            lemma_def_seen(lv, label, k as nat);
                        }
                        let j = label_slot(&mut b, &mut order, &mut ids, &mut def_off, &mut ref_off, label);
                        proof {
                            assert(order@ == labels_seen(lv, (k + 1) as nat));
                            if old_order.contains(label) {
                                assert(old_order[j as int] == label);
                            }
                            lemma_index_stable(lv, (k + 1) as nat, j as int);
                            ids@[j as int].lemma_from_index(j);
                        }
                        if ref_off[j].is_none() {
                            ref_off.set(j, Some(i.offset));
                        }
                        if conditional {
                            b.jump_if(ids[j]);
                        } else {
                            b.jump(ids[j]);
                        }
                        proof {
                            assert forall|q: int| 0 <= q < order@.len() implies #[trigger] b.spec_positions()[q] == opt_index(
                                def_line(lv, order@[q], (k + 1) as nat),
                            ) && def_off@[q] == opt_offset(lv, def_line(lv, order@[q], (k + 1) as nat)) && ref_off@[q]
                                == opt_offset(lv, jump_line(lv, order@[q], (k + 1) as nat)) by {
                                if q != j {
                                    assert(order@[q] != label);
                                    if q < old_order.len() {
                                        assert(order@[q] == old_order[q]);
                                    }
                                }
                            }
                        }
                    },
                    Ok(Step::Push(v)) => {
                        b.push(v);
                        proof {
                            assert(line_label(lv[k as int]) is None);
                            assert forall|q: int| 0 <= q < order@.len() implies #[trigger] b.spec_positions()[q] == opt_index(
                                def_line(lv, order@[q], (k + 1) as nat),
                            ) && def_off@[q] == opt_offset(lv, def_line(lv, order@[q], (k + 1) as nat)) && ref_off@[q]
                                == opt_offset(lv, jump_line(lv, order@[q], (k + 1) as nat)) by {
                            }
                        }
                    },
                    Ok(Step::Emit(x)) => {
                        b.emit(x);
                        proof {
                            assert(line_label(lv[k as int]) is None);
                            assert forall|q: int| 0 <= q < order@.len() implies #[trigger] b.spec_positions()[q] == opt_index(
                                def_line(lv, order@[q], (k + 1) as nat),
                            ) && def_off@[q] == opt_offset(lv, def_line(lv, order@[q], (k + 1) as nat)) && ref_off@[q]
                                == opt_offset(lv, jump_line(lv, order@[q], (k + 1) as nat)) by {
                            }
                        }
                    },
                }
            },
        }
        k += 1;
    }
    proof {
        lemma_first_error_skip(lv, lines@.len());
        assert(b.spec_items() =~= items_of(lv));
        assert(b.spec_positions() =~= positions_of(lv));
        lemma_first_unplaced_bound(b.spec_items(), b.spec_positions(), 0, order@.len());
        lemma_first_unused_bound(b.spec_items(), b.spec_positions(), 0);
        assert forall|j: int| 0 <= j < lv.len() implies line_offset(#[trigger] lv[j]) <= usize::MAX by {
            assert(lv[j] == lines@[j]@);
        }
    }
    match b.build() {
        Ok(p) => {
            Ok(p)
        },
        Err(builder::Error::UnplacedLabel { id }) => {
            let l = order[id];
            proof {
                lemma_def_seen(lv, l, lv.len());
            }
            let offset = match ref_off[id] {
                Some(o) => o,
                None => 0,
            };
            Err(AssembleError::UndefinedLabel { label: l, offset, len: label_width(l) })
        },
        Err(builder::Error::UnusedLabel { id }) => {
            let l = order[id];
            proof {
                lemma_def_seen(lv, l, lv.len());
            }
            let offset = match def_off[id] {
                Some(o) => o,
                None => 0,
            };
            Err(AssembleError::UnusedLabel { label: l, offset, len: label_width(l) })
        },
        Err(builder::Error::TooManyTargets { count }) => Err(AssembleError::TooManyTargets { count }),
    }
}

} // verus!
