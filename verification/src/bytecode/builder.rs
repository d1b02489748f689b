//! Fluent bytecode assembler with first-class label support.
//!
//! [`InstructionBuilder`] emits XQVM instructions one at a time through a
//! chained API. Labels are opaque handles created with
//! [`label`](InstructionBuilder::label) and anchored with
//! [`place`](InstructionBuilder::place), which emits an inline `TARGET`.
//! `JUMP`/`JUMPI` instructions refer to labels; [`build`](InstructionBuilder::build)
//! resolves every label to the sequential id of its `TARGET` in stream
//! order, picks the narrow one-byte-label form of each jump when that id
//! fits in a byte and the wide two-byte form otherwise, and returns the
//! assembled [`Program`].
//!
//! Forward and backward references both work: a label may be jumped to
//! before or after it is placed.

use vstd::prelude::*;
use vstd::string::StringExecFns;

use crate::text::decimal::{push_decimal, spec_decimal};

use super::codec;
use super::immediate::{
    be_signed, be_unsigned, fits_bytes, lemma_be_unsigned_bound, lemma_be_unsigned_first, lemma_pow256_mono,
    lemma_pow256_values, pow256, pow256_u64, push_bytes, push_value, push_width, push_instruction, lemma_push_instruction,
};
use super::instruction::{Instruction, Register};
use crate::xqvm::checker;
use crate::xqvm::program::Program;

verus! {

/// Error returned by [`InstructionBuilder::build`].
#[derive(Debug, Clone, PartialEq, Eq, Structural)]
pub enum Error {
    /// The program places more than `u16::MAX + 1` labels, exceeding the
    /// wire-format limit on sequential `TARGET` ids.
    TooManyTargets {
        /// Total number of placed labels in the program.
        count: usize,
    },
    /// A label was used in a `JUMP`/`JUMPI` but never placed.
    UnplacedLabel {
        /// Index of the unplaced label.
        id: usize,
    },
    /// A label was placed but never referenced by any jump instruction.
    UnusedLabel {
        /// Index of the unused label.
        id: usize,
    },
}

/// The message of a build error.
pub open spec fn spec_error_message(e: Error) -> Seq<char> {
    match e {
        Error::TooManyTargets { count } => "too many TARGETs: "@ + spec_decimal(count as nat) + " (max 65536)"@,
        Error::UnplacedLabel { id } => "label "@ + spec_decimal(id as nat) + " was used but never placed"@,
        Error::UnusedLabel { id } => "label "@ + spec_decimal(id as nat)
            + " was placed but never referenced by a jump"@,
    }
}

impl Error {
    /// The error's message.
    pub fn message(&self) -> (s: String)
        ensures
            s@ == spec_error_message(*self),
    {
        let mut out = String::new();
        match *self {
            Error::TooManyTargets { count } => {
                out.append("too many TARGETs: ");
                push_decimal(&mut out, count);
                out.append(" (max 65536)");
            },
            Error::UnplacedLabel { id } => {
                out.append("label ");
                push_decimal(&mut out, id);
                out.append(" was used but never placed");
            },
            Error::UnusedLabel { id } => {
                out.append("label ");
                push_decimal(&mut out, id);
                out.append(" was placed but never referenced by a jump");
            },
        }
        proof {
            assert(out@ =~= spec_error_message(*self));
        }
        out
    }
}

/// An opaque handle to a bytecode label created by
/// [`InstructionBuilder::label`]. Labels are numbered in creation order.
#[derive(Debug, Clone, Copy, PartialEq, Eq, Hash, Structural)]
pub struct LabelId(usize);

impl LabelId {
    /// The creation-order index of this label.
    pub closed spec fn spec_index(self) -> usize {
        self.0
    }

    /// The label with creation-order index `i`.
    pub closed spec fn spec_from_index(i: usize) -> LabelId {
        LabelId(i)
    }

    /// A label is the one with its index.
    pub proof fn lemma_from_index(self, i: usize)
        ensures
            LabelId::spec_from_index(i).spec_index() == i,
            (self.spec_index() == i) == (self == LabelId::spec_from_index(i)),
    {
    }
}

/// One element of a builder's content, in emission order.
#[derive(Debug, Clone, Copy)]
pub enum BuilderItem {
    /// An instruction emitted as is.
    Instr(Instruction),
    /// The inline `TARGET` emitted where a label is placed.
    Place(LabelId),
    /// A jump to a label, resolved at build time; `conditional` for `JUMPI`.
    Jump { conditional: bool, label: LabelId },
}

/// Number of labels placed among the first `k` items.
pub open spec fn count_places(items: Seq<BuilderItem>, k: nat) -> nat
    decreases k,
{
    if k == 0 || k > items.len() {
        0
    } else {
        count_places(items, (k - 1) as nat) + if items[k - 1] is Place {
            1nat
        } else {
            0nat
        }
    }
}

/// Whether label `l` is placed.
pub open spec fn is_placed(positions: Seq<Option<usize>>, l: usize) -> bool {
    l < positions.len() && positions[l as int] is Some
}

/// The sequential id of placed label `l`: the number of labels placed
/// before it in emission order, which is the position of its `TARGET` among
/// all placed `TARGET`s.
pub open spec fn seq_id(items: Seq<BuilderItem>, positions: Seq<Option<usize>>, l: usize) -> nat {
    count_places(items, positions[l as int].unwrap() as nat)
}

/// The jump instruction emitted for a jump to sequential id `s`: the
/// one-byte-label form when `s` fits in a byte, the two-byte form otherwise.
pub open spec fn jump_instruction(conditional: bool, s: nat) -> Instruction {
    if s <= 255 {
        if conditional {
            Instruction::JumpI1 { label: s as u8 }
        } else {
            Instruction::Jump1 { label: s as u8 }
        }
    } else {
        if conditional {
            Instruction::JumpI2 { label: s as u16 }
        } else {
            Instruction::Jump2 { label: s as u16 }
        }
    }
}

/// The instruction an item becomes in the built program.
pub open spec fn resolve(items: Seq<BuilderItem>, positions: Seq<Option<usize>>, it: BuilderItem) -> Instruction {
    match it {
        BuilderItem::Instr(i) => i,
        BuilderItem::Place(_) => Instruction::Target {  },
        BuilderItem::Jump { conditional, label } => jump_instruction(conditional, seq_id(items, positions, label.spec_index())),
    }
}

/// The bytes of the first `k` items, resolved and encoded in order.
pub open spec fn code_upto(items: Seq<BuilderItem>, positions: Seq<Option<usize>>, k: nat) -> Seq<u8>
    decreases k,
{
    if k == 0 || k > items.len() {
        seq![]
    } else {
        code_upto(items, positions, (k - 1) as nat) + resolve(items, positions, items[k - 1]).spec_encode()
    }
}

/// Whether `it` is a jump to label `l`.
pub open spec fn jumps_to(it: BuilderItem, l: usize) -> bool {
    match it {
        BuilderItem::Jump { label, .. } => label.spec_index() == l,
        _ => false,
    }
}

/// Whether some jump among `items` refers to label `l`.
pub open spec fn is_referenced(items: Seq<BuilderItem>, l: usize) -> bool {
    exists|k: int| 0 <= k < items.len() && jumps_to(#[trigger] items[k], l)
}

/// The first jump, from item `k` on, whose label is not placed.
pub open spec fn first_unplaced(items: Seq<BuilderItem>, positions: Seq<Option<usize>>, k: nat) -> Option<usize>
    decreases items.len() - k,
{
    if k >= items.len() {
        None
    } else {
        match items[k as int] {
            BuilderItem::Jump { label, .. } => if !is_placed(positions, label.spec_index()) {
                Some(label.spec_index())
            } else {
                first_unplaced(items, positions, k + 1)
            },
            _ => first_unplaced(items, positions, k + 1),
        }
    }
}

/// The first label, from index `l` on, that is placed after the first
/// emitted byte but never jumped to. A label placed before anything else
/// marks the entry point and is exempt.
pub open spec fn first_unused(items: Seq<BuilderItem>, positions: Seq<Option<usize>>, l: nat) -> Option<usize>
    decreases positions.len() - l,
{
    if l >= positions.len() {
        None
    } else if positions[l as int] matches Some(p) && p != 0 && !is_referenced(items, l as usize) {
        Some(l as usize)
    } else {
        first_unused(items, positions, l + 1)
    }
}

/// What [`InstructionBuilder::build`] produces from `items` and the label
/// positions: the first unplaced jump label, else the first unused label,
/// else too many labels, else the encoded, resolved items.
pub open spec fn spec_build(items: Seq<BuilderItem>, positions: Seq<Option<usize>>) -> Result<Seq<u8>, Error> {
    match first_unplaced(items, positions, 0) {
        Some(id) => Err(Error::UnplacedLabel { id }),
        None => match first_unused(items, positions, 0) {
            Some(id) => Err(Error::UnusedLabel { id }),
            None => if count_places(items, items.len()) > 65536 {
                Err(Error::TooManyTargets { count: count_places(items, items.len()) as usize })
            } else {
                Ok(code_upto(items, positions, items.len()))
            },
        },
    }
}

/// Fluent XQVM bytecode assembler.
#[derive(Debug)]
pub struct InstructionBuilder {
    items: Vec<BuilderItem>,
    /// `None` means allocated but not yet placed; `Some(k)` is the index of
    /// the item that places the label.
    label_positions: Vec<Option<usize>>,
}

impl InstructionBuilder {
    /// The items emitted so far.
    pub closed spec fn spec_items(&self) -> Seq<BuilderItem> {
        self.items@
    }

    /// The placement of each allocated label, by creation index.
    pub closed spec fn spec_positions(&self) -> Seq<Option<usize>> {
        self.label_positions@
    }

    /// Well-formedness: each placed label points at the one item that
    /// places it, and every placing item is recorded.
    pub open spec fn wf(&self) -> bool {
        let items = self.spec_items();
        let positions = self.spec_positions();
        &&& forall|l: int|
            0 <= l < positions.len() && #[trigger] positions[l] is Some ==> positions[l].unwrap() < items.len()
                && items[positions[l].unwrap() as int] is Place && items[positions[l].unwrap() as int]->Place_0.spec_index()
                == l
        &&& forall|k: int|
            0 <= k < items.len() && #[trigger] items[k] is Place ==> items[k]->Place_0.spec_index() < positions.len()
                && positions[items[k]->Place_0.spec_index() as int] == Some(k as usize)
    }

    /// Create an empty builder.
    pub fn new() -> (b: Self)
        ensures
            b.wf(),
            b.spec_items() == Seq::<BuilderItem>::empty(),
            b.spec_positions() == Seq::<Option<usize>>::empty(),
    {
        InstructionBuilder { items: Vec::new(), label_positions: Vec::new() }
    }

    /// Allocate a new, unplaced label.
    pub fn label(&mut self) -> (id: LabelId)
        requires
            old(self).wf(),
        ensures
            final(self).wf(),
            id.spec_index() == old(self).spec_positions().len(),
            final(self).spec_positions() == old(self).spec_positions().push(None),
            final(self).spec_items() == old(self).spec_items(),
    {
        let id = self.label_positions.len();
        self.label_positions.push(None);
        LabelId(id)
    }

    /// Anchor `label` at the current position and emit an inline `TARGET`
    /// there. Each label created by this builder is placed at most once.
    pub fn place(&mut self, label: LabelId) -> (r: &mut Self)
        requires
            old(self).wf(),
            label.spec_index() < old(self).spec_positions().len(),
            old(self).spec_positions()[label.spec_index() as int] is None,
        ensures
            r.wf(),
            r.spec_items() == old(self).spec_items().push(BuilderItem::Place(label)),
            r.spec_positions() == old(self).spec_positions().update(
                label.spec_index() as int,
                Some(old(self).spec_items().len() as usize),
            ),
            *final(self) == *final(r),
    {
        let k = self.items.len();
        self.label_positions.set(label.0, Some(k));
        self.items.push(BuilderItem::Place(label));
        self
    }

    /// Append any instruction.
    pub fn emit(&mut self, instr: Instruction) -> (r: &mut Self)
        requires
            old(self).wf(),
        ensures
            r.wf(),
            r.spec_items() == old(self).spec_items().push(BuilderItem::Instr(instr)),
            r.spec_positions() == old(self).spec_positions(),
            *final(self) == *final(r),
    {
        self.items.push(BuilderItem::Instr(instr));
        self
    }

    /// Emit an unconditional jump to `label`.
    pub fn jump(&mut self, label: LabelId) -> (r: &mut Self)
        requires
            old(self).wf(),
        ensures
            r.wf(),
            r.spec_items() == old(self).spec_items().push(BuilderItem::Jump { conditional: false, label }),
            r.spec_positions() == old(self).spec_positions(),
            *final(self) == *final(r),
    {
        self.items.push(BuilderItem::Jump { conditional: false, label });
        self
    }

    /// Emit a conditional jump to `label`: pops the top of the stack and
    /// jumps if it is non-zero.
    pub fn jump_if(&mut self, label: LabelId) -> (r: &mut Self)
        requires
            old(self).wf(),
        ensures
            r.wf(),
            r.spec_items() == old(self).spec_items().push(BuilderItem::Jump { conditional: true, label }),
            r.spec_positions() == old(self).spec_positions(),
            *final(self) == *final(r),
    {
        self.items.push(BuilderItem::Jump { conditional: true, label });
        self
    }

    /// Emit `NOP`: no operation.
    pub fn nop(&mut self) -> (r: &mut Self)
        requires
            old(self).wf(),
        ensures
            r.wf(),
            r.spec_items() == old(self).spec_items().push(BuilderItem::Instr(Instruction::Nop {  })),
            r.spec_positions() == old(self).spec_positions(),
            *final(self) == *final(r),
    {
        self.emit(Instruction::Nop {  })
    }

    /// Emit `TARGET`: mark a valid jump destination.
    pub fn target(&mut self) -> (r: &mut Self)
        requires
            old(self).wf(),
        ensures
            r.wf(),
            r.spec_items() == old(self).spec_items().push(BuilderItem::Instr(Instruction::Target {  })),
            r.spec_positions() == old(self).spec_positions(),
            *final(self) == *final(r),
    {
        self.emit(Instruction::Target {  })
    }

    /// Emit `NEXT`: advance the loop index; jump back or exit the current loop.
    pub fn next(&mut self) -> (r: &mut Self)
        requires
            old(self).wf(),
        ensures
            r.wf(),
            r.spec_items() == old(self).spec_items().push(BuilderItem::Instr(Instruction::Next {  })),
            r.spec_positions() == old(self).spec_positions(),
            *final(self) == *final(r),
    {
        self.emit(Instruction::Next {  })
    }

    /// Emit `LVAL`: copy the current loop value into a register.
    pub fn l_val(&mut self, reg: Register) -> (r: &mut Self)
        requires
            old(self).wf(),
        ensures
            r.wf(),
            r.spec_items() == old(self).spec_items().push(BuilderItem::Instr(Instruction::LVal { reg })),
            r.spec_positions() == old(self).spec_positions(),
            *final(self) == *final(r),
    {
        self.emit(Instruction::LVal { reg })
    }

    /// Emit `RANGE`: pop count then start; start a range loop over [start, start + count).
    pub fn range(&mut self) -> (r: &mut Self)
        requires
            old(self).wf(),
        ensures
            r.wf(),
            r.spec_items() == old(self).spec_items().push(BuilderItem::Instr(Instruction::Range {  })),
            r.spec_positions() == old(self).spec_positions(),
            *final(self) == *final(r),
    {
        self.emit(Instruction::Range {  })
    }

    /// Emit `ITER`: pop count then start; start a vec iteration over a slice of a register's vec.
    pub fn iter(&mut self, reg: Register) -> (r: &mut Self)
        requires
            old(self).wf(),
        ensures
            r.wf(),
            r.spec_items() == old(self).spec_items().push(BuilderItem::Instr(Instruction::Iter { reg })),
            r.spec_positions() == old(self).spec_positions(),
            *final(self) == *final(r),
    {
        self.emit(Instruction::Iter { reg })
    }

    /// Emit `HALT`: stop execution.
    pub fn halt(&mut self) -> (r: &mut Self)
        requires
            old(self).wf(),
        ensures
            r.wf(),
            r.spec_items() == old(self).spec_items().push(BuilderItem::Instr(Instruction::Halt {  })),
            r.spec_positions() == old(self).spec_positions(),
            *final(self) == *final(r),
    {
        self.emit(Instruction::Halt {  })
    }

    /// Emit `LOAD`: push the value of an int register onto the stack.
    pub fn load(&mut self, reg: Register) -> (r: &mut Self)
        requires
            old(self).wf(),
        ensures
            r.wf(),
            r.spec_items() == old(self).spec_items().push(BuilderItem::Instr(Instruction::Load { reg })),
            r.spec_positions() == old(self).spec_positions(),
            *final(self) == *final(r),
    {
        self.emit(Instruction::Load { reg })
    }

    /// Emit `STOW`: pop the top of the stack into an int register.
    pub fn stow(&mut self, reg: Register) -> (r: &mut Self)
        requires
            old(self).wf(),
        ensures
            r.wf(),
            r.spec_items() == old(self).spec_items().push(BuilderItem::Instr(Instruction::Stow { reg })),
            r.spec_positions() == old(self).spec_positions(),
            *final(self) == *final(r),
    {
        self.emit(Instruction::Stow { reg })
    }

    /// Emit `INPUT`: pop a calldata slot index and load that slot into a register.
    pub fn input(&mut self, reg: Register) -> (r: &mut Self)
        requires
            old(self).wf(),
        ensures
            r.wf(),
            r.spec_items() == old(self).spec_items().push(BuilderItem::Instr(Instruction::Input { reg })),
            r.spec_positions() == old(self).spec_positions(),
            *final(self) == *final(r),
    {
        self.emit(Instruction::Input { reg })
    }

    /// Emit `OUTPUT`: pop an output slot index and write the register to it.
    pub fn output(&mut self, reg: Register) -> (r: &mut Self)
        requires
            old(self).wf(),
        ensures
            r.wf(),
            r.spec_items() == old(self).spec_items().push(BuilderItem::Instr(Instruction::Output { reg })),
            r.spec_positions() == old(self).spec_positions(),
            *final(self) == *final(r),
    {
        self.emit(Instruction::Output { reg })
    }

    /// Emit `POP`: discard the top of the stack.
    pub fn pop(&mut self) -> (r: &mut Self)
        requires
            old(self).wf(),
        ensures
            r.wf(),
            r.spec_items() == old(self).spec_items().push(BuilderItem::Instr(Instruction::Pop {  })),
            r.spec_positions() == old(self).spec_positions(),
            *final(self) == *final(r),
    {
        self.emit(Instruction::Pop {  })
    }

    /// Emit `LIDX`: copy the current loop index into a register.
    pub fn lidx(&mut self, reg: Register) -> (r: &mut Self)
        requires
            old(self).wf(),
        ensures
            r.wf(),
            r.spec_items() == old(self).spec_items().push(BuilderItem::Instr(Instruction::Lidx { reg })),
            r.spec_positions() == old(self).spec_positions(),
            *final(self) == *final(r),
    {
        self.emit(Instruction::Lidx { reg })
    }

    /// Emit `SCLR`: clear the entire value stack.
    pub fn sclr(&mut self) -> (r: &mut Self)
        requires
            old(self).wf(),
        ensures
            r.wf(),
            r.spec_items() == old(self).spec_items().push(BuilderItem::Instr(Instruction::Sclr {  })),
            r.spec_positions() == old(self).spec_positions(),
            *final(self) == *final(r),
    {
        self.emit(Instruction::Sclr {  })
    }

    /// Emit `SWAP`: swap the top two stack elements.
    pub fn swap(&mut self) -> (r: &mut Self)
        requires
            old(self).wf(),
        ensures
            r.wf(),
            r.spec_items() == old(self).spec_items().push(BuilderItem::Instr(Instruction::Swap {  })),
            r.spec_positions() == old(self).spec_positions(),
            *final(self) == *final(r),
    {
        self.emit(Instruction::Swap {  })
    }

    /// Emit `COPY`: duplicate the top of the stack.
    pub fn copy(&mut self) -> (r: &mut Self)
        requires
            old(self).wf(),
        ensures
            r.wf(),
            r.spec_items() == old(self).spec_items().push(BuilderItem::Instr(Instruction::Copy {  })),
            r.spec_positions() == old(self).spec_positions(),
            *final(self) == *final(r),
    {
        self.emit(Instruction::Copy {  })
    }

    /// Emit `ADD`: pop b and a; push a + b.
    pub fn add(&mut self) -> (r: &mut Self)
        requires
            old(self).wf(),
        ensures
            r.wf(),
            r.spec_items() == old(self).spec_items().push(BuilderItem::Instr(Instruction::Add {  })),
            r.spec_positions() == old(self).spec_positions(),
            *final(self) == *final(r),
    {
        self.emit(Instruction::Add {  })
    }

    /// Emit `SUB`: pop b and a; push a - b.
    pub fn sub(&mut self) -> (r: &mut Self)
        requires
            old(self).wf(),
        ensures
            r.wf(),
            r.spec_items() == old(self).spec_items().push(BuilderItem::Instr(Instruction::Sub {  })),
            r.spec_positions() == old(self).spec_positions(),
            *final(self) == *final(r),
    {
        self.emit(Instruction::Sub {  })
    }

    /// Emit `MUL`: pop b and a; push a * b.
    pub fn mul(&mut self) -> (r: &mut Self)
        requires
            old(self).wf(),
        ensures
            r.wf(),
            r.spec_items() == old(self).spec_items().push(BuilderItem::Instr(Instruction::Mul {  })),
            r.spec_positions() == old(self).spec_positions(),
            *final(self) == *final(r),
    {
        self.emit(Instruction::Mul {  })
    }

    /// Emit `DIV`: pop b and a; push a / b (truncating integer division).
    pub fn div(&mut self) -> (r: &mut Self)
        requires
            old(self).wf(),
        ensures
            r.wf(),
            r.spec_items() == old(self).spec_items().push(BuilderItem::Instr(Instruction::Div {  })),
            r.spec_positions() == old(self).spec_positions(),
            *final(self) == *final(r),
    {
        self.emit(Instruction::Div {  })
    }

    /// Emit `MOD`: pop b and a; push a % b.
    pub fn modulo(&mut self) -> (r: &mut Self)
        requires
            old(self).wf(),
        ensures
            r.wf(),
            r.spec_items() == old(self).spec_items().push(BuilderItem::Instr(Instruction::Modulo {  })),
            r.spec_positions() == old(self).spec_positions(),
            *final(self) == *final(r),
    {
        self.emit(Instruction::Modulo {  })
    }

    /// Emit `SQR`: pop a; push a * a.
    pub fn sqr(&mut self) -> (r: &mut Self)
        requires
            old(self).wf(),
        ensures
            r.wf(),
            r.spec_items() == old(self).spec_items().push(BuilderItem::Instr(Instruction::Sqr {  })),
            r.spec_positions() == old(self).spec_positions(),
            *final(self) == *final(r),
    {
        self.emit(Instruction::Sqr {  })
    }

    /// Emit `ABS`: pop a; push |a|.
    pub fn abs(&mut self) -> (r: &mut Self)
        requires
            old(self).wf(),
        ensures
            r.wf(),
            r.spec_items() == old(self).spec_items().push(BuilderItem::Instr(Instruction::Abs {  })),
            r.spec_positions() == old(self).spec_positions(),
            *final(self) == *final(r),
    {
        self.emit(Instruction::Abs {  })
    }

    /// Emit `NEG`: pop a; push -a.
    pub fn neg(&mut self) -> (r: &mut Self)
        requires
            old(self).wf(),
        ensures
            r.wf(),
            r.spec_items() == old(self).spec_items().push(BuilderItem::Instr(Instruction::Neg {  })),
            r.spec_positions() == old(self).spec_positions(),
            *final(self) == *final(r),
    {
        self.emit(Instruction::Neg {  })
    }

    /// Emit `MIN`: pop b and a; push min(a, b).
    pub fn min(&mut self) -> (r: &mut Self)
        requires
            old(self).wf(),
        ensures
            r.wf(),
            r.spec_items() == old(self).spec_items().push(BuilderItem::Instr(Instruction::Min {  })),
            r.spec_positions() == old(self).spec_positions(),
            *final(self) == *final(r),
    {
        self.emit(Instruction::Min {  })
    }

    /// Emit `MAX`: pop b and a; push max(a, b).
    pub fn max(&mut self) -> (r: &mut Self)
        requires
            old(self).wf(),
        ensures
            r.wf(),
            r.spec_items() == old(self).spec_items().push(BuilderItem::Instr(Instruction::Max {  })),
            r.spec_positions() == old(self).spec_positions(),
            *final(self) == *final(r),
    {
        self.emit(Instruction::Max {  })
    }

    /// Emit `INC`: pop a; push a + 1.
    pub fn inc(&mut self) -> (r: &mut Self)
        requires
            old(self).wf(),
        ensures
            r.wf(),
            r.spec_items() == old(self).spec_items().push(BuilderItem::Instr(Instruction::Inc {  })),
            r.spec_positions() == old(self).spec_positions(),
            *final(self) == *final(r),
    {
        self.emit(Instruction::Inc {  })
    }

    /// Emit `DEC`: pop a; push a - 1.
    pub fn dec(&mut self) -> (r: &mut Self)
        requires
            old(self).wf(),
        ensures
            r.wf(),
            r.spec_items() == old(self).spec_items().push(BuilderItem::Instr(Instruction::Dec {  })),
            r.spec_positions() == old(self).spec_positions(),
            *final(self) == *final(r),
    {
        self.emit(Instruction::Dec {  })
    }

    /// Emit `EQ`: pop b and a; push 1 if a == b, else 0.
    pub fn eq(&mut self) -> (r: &mut Self)
        requires
            old(self).wf(),
        ensures
            r.wf(),
            r.spec_items() == old(self).spec_items().push(BuilderItem::Instr(Instruction::Eq {  })),
            r.spec_positions() == old(self).spec_positions(),
            *final(self) == *final(r),
    {
        self.emit(Instruction::Eq {  })
    }

    /// Emit `LT`: pop b and a; push 1 if a < b, else 0.
    pub fn lt(&mut self) -> (r: &mut Self)
        requires
            old(self).wf(),
        ensures
            r.wf(),
            r.spec_items() == old(self).spec_items().push(BuilderItem::Instr(Instruction::Lt {  })),
            r.spec_positions() == old(self).spec_positions(),
            *final(self) == *final(r),
    {
        self.emit(Instruction::Lt {  })
    }

    /// Emit `GT`: pop b and a; push 1 if a > b, else 0.
    pub fn gt(&mut self) -> (r: &mut Self)
        requires
            old(self).wf(),
        ensures
            r.wf(),
            r.spec_items() == old(self).spec_items().push(BuilderItem::Instr(Instruction::Gt {  })),
            r.spec_positions() == old(self).spec_positions(),
            *final(self) == *final(r),
    {
        self.emit(Instruction::Gt {  })
    }

    /// Emit `LTE`: pop b and a; push 1 if a <= b, else 0.
    pub fn lte(&mut self) -> (r: &mut Self)
        requires
            old(self).wf(),
        ensures
            r.wf(),
            r.spec_items() == old(self).spec_items().push(BuilderItem::Instr(Instruction::Lte {  })),
            r.spec_positions() == old(self).spec_positions(),
            *final(self) == *final(r),
    {
        self.emit(Instruction::Lte {  })
    }

    /// Emit `GTE`: pop b and a; push 1 if a >= b, else 0.
    pub fn gte(&mut self) -> (r: &mut Self)
        requires
            old(self).wf(),
        ensures
            r.wf(),
            r.spec_items() == old(self).spec_items().push(BuilderItem::Instr(Instruction::Gte {  })),
            r.spec_positions() == old(self).spec_positions(),
            *final(self) == *final(r),
    {
        self.emit(Instruction::Gte {  })
    }

    /// Emit `NOT`: pop a; push 1 if a == 0, else 0.
    pub fn not(&mut self) -> (r: &mut Self)
        requires
            old(self).wf(),
        ensures
            r.wf(),
            r.spec_items() == old(self).spec_items().push(BuilderItem::Instr(Instruction::Not {  })),
            r.spec_positions() == old(self).spec_positions(),
            *final(self) == *final(r),
    {
        self.emit(Instruction::Not {  })
    }

    /// Emit `AND`: pop b and a; push 1 if both are non-zero, else 0.
    pub fn and(&mut self) -> (r: &mut Self)
        requires
            old(self).wf(),
        ensures
            r.wf(),
            r.spec_items() == old(self).spec_items().push(BuilderItem::Instr(Instruction::And {  })),
            r.spec_positions() == old(self).spec_positions(),
            *final(self) == *final(r),
    {
        self.emit(Instruction::And {  })
    }

    /// Emit `OR`: pop b and a; push 1 if either is non-zero, else 0.
    pub fn or(&mut self) -> (r: &mut Self)
        requires
            old(self).wf(),
        ensures
            r.wf(),
            r.spec_items() == old(self).spec_items().push(BuilderItem::Instr(Instruction::Or {  })),
            r.spec_positions() == old(self).spec_positions(),
            *final(self) == *final(r),
    {
        self.emit(Instruction::Or {  })
    }

    /// Emit `XOR`: pop b and a; push 1 if exactly one is non-zero, else 0.
    pub fn xor(&mut self) -> (r: &mut Self)
        requires
            old(self).wf(),
        ensures
            r.wf(),
            r.spec_items() == old(self).spec_items().push(BuilderItem::Instr(Instruction::Xor {  })),
            r.spec_positions() == old(self).spec_positions(),
            *final(self) == *final(r),
    {
        self.emit(Instruction::Xor {  })
    }

    /// Emit `BAND`: pop b and a; push a & b.
    pub fn b_and(&mut self) -> (r: &mut Self)
        requires
            old(self).wf(),
        ensures
            r.wf(),
            r.spec_items() == old(self).spec_items().push(BuilderItem::Instr(Instruction::BAnd {  })),
            r.spec_positions() == old(self).spec_positions(),
            *final(self) == *final(r),
    {
        self.emit(Instruction::BAnd {  })
    }

    /// Emit `BOR`: pop b and a; push a | b.
    pub fn b_or(&mut self) -> (r: &mut Self)
        requires
            old(self).wf(),
        ensures
            r.wf(),
            r.spec_items() == old(self).spec_items().push(BuilderItem::Instr(Instruction::BOr {  })),
            r.spec_positions() == old(self).spec_positions(),
            *final(self) == *final(r),
    {
        self.emit(Instruction::BOr {  })
    }

    /// Emit `BXOR`: pop b and a; push a ^ b.
    pub fn b_xor(&mut self) -> (r: &mut Self)
        requires
            old(self).wf(),
        ensures
            r.wf(),
            r.spec_items() == old(self).spec_items().push(BuilderItem::Instr(Instruction::BXor {  })),
            r.spec_positions() == old(self).spec_positions(),
            *final(self) == *final(r),
    {
        self.emit(Instruction::BXor {  })
    }

    /// Emit `BNOT`: pop a; push !a.
    pub fn b_not(&mut self) -> (r: &mut Self)
        requires
            old(self).wf(),
        ensures
            r.wf(),
            r.spec_items() == old(self).spec_items().push(BuilderItem::Instr(Instruction::BNot {  })),
            r.spec_positions() == old(self).spec_positions(),
            *final(self) == *final(r),
    {
        self.emit(Instruction::BNot {  })
    }

    /// Emit `SHL`: pop b and a; push a << b.
    pub fn shl(&mut self) -> (r: &mut Self)
        requires
            old(self).wf(),
        ensures
            r.wf(),
            r.spec_items() == old(self).spec_items().push(BuilderItem::Instr(Instruction::Shl {  })),
            r.spec_positions() == old(self).spec_positions(),
            *final(self) == *final(r),
    {
        self.emit(Instruction::Shl {  })
    }

    /// Emit `SHR`: pop b and a; push a >> b (arithmetic right shift, sign-preserving).
    pub fn shr(&mut self) -> (r: &mut Self)
        requires
            old(self).wf(),
        ensures
            r.wf(),
            r.spec_items() == old(self).spec_items().push(BuilderItem::Instr(Instruction::Shr {  })),
            r.spec_positions() == old(self).spec_positions(),
            *final(self) == *final(r),
    {
        self.emit(Instruction::Shr {  })
    }

    /// Emit `BQMX`: pop size; allocate a binary QUBO model ([0, 1] domain) into a register.
    pub fn bqmx(&mut self, reg: Register) -> (r: &mut Self)
        requires
            old(self).wf(),
        ensures
            r.wf(),
            r.spec_items() == old(self).spec_items().push(BuilderItem::Instr(Instruction::Bqmx { reg })),
            r.spec_positions() == old(self).spec_positions(),
            *final(self) == *final(r),
    {
        self.emit(Instruction::Bqmx { reg })
    }

    /// Emit `SQMX`: pop size; allocate a spin Ising model ([-1, 1] domain) into a register.
    pub fn sqmx(&mut self, reg: Register) -> (r: &mut Self)
        requires
            old(self).wf(),
        ensures
            r.wf(),
            r.spec_items() == old(self).spec_items().push(BuilderItem::Instr(Instruction::Sqmx { reg })),
            r.spec_positions() == old(self).spec_positions(),
            *final(self) == *final(r),
    {
        self.emit(Instruction::Sqmx { reg })
    }

    /// Emit `XQMX`: pop k then size; allocate a discrete model with signed centered domain [-k, k-1] into a register.
    pub fn xqmx(&mut self, reg: Register) -> (r: &mut Self)
        requires
            old(self).wf(),
        ensures
            r.wf(),
            r.spec_items() == old(self).spec_items().push(BuilderItem::Instr(Instruction::Xqmx { reg })),
            r.spec_positions() == old(self).spec_positions(),
            *final(self) == *final(r),
    {
        self.emit(Instruction::Xqmx { reg })
    }

    /// Emit `BSMX`: pop size; allocate a binary sample ([0, 1] domain) into a register.
    pub fn bsmx(&mut self, reg: Register) -> (r: &mut Self)
        requires
            old(self).wf(),
        ensures
            r.wf(),
            r.spec_items() == old(self).spec_items().push(BuilderItem::Instr(Instruction::Bsmx { reg })),
            r.spec_positions() == old(self).spec_positions(),
            *final(self) == *final(r),
    {
        self.emit(Instruction::Bsmx { reg })
    }

    /// Emit `SSMX`: pop size; allocate a spin sample ([-1, 1] domain) into a register.
    pub fn ssmx(&mut self, reg: Register) -> (r: &mut Self)
        requires
            old(self).wf(),
        ensures
            r.wf(),
            r.spec_items() == old(self).spec_items().push(BuilderItem::Instr(Instruction::Ssmx { reg })),
            r.spec_positions() == old(self).spec_positions(),
            *final(self) == *final(r),
    {
        self.emit(Instruction::Ssmx { reg })
    }

    /// Emit `XSMX`: pop k then size; allocate a discrete sample with signed centered domain [-k, k-1] into a register.
    pub fn xsmx(&mut self, reg: Register) -> (r: &mut Self)
        requires
            old(self).wf(),
        ensures
            r.wf(),
            r.spec_items() == old(self).spec_items().push(BuilderItem::Instr(Instruction::Xsmx { reg })),
            r.spec_positions() == old(self).spec_positions(),
            *final(self) == *final(r),
    {
        self.emit(Instruction::Xsmx { reg })
    }

    /// Emit `VEC`: create an empty vec (element type inferred on first push) in a register.
    pub fn vec(&mut self, reg: Register) -> (r: &mut Self)
        requires
            old(self).wf(),
        ensures
            r.wf(),
            r.spec_items() == old(self).spec_items().push(BuilderItem::Instr(Instruction::Vec { reg })),
            r.spec_positions() == old(self).spec_positions(),
            *final(self) == *final(r),
    {
        self.emit(Instruction::Vec { reg })
    }

    /// Emit `VECI`: create an empty `vec<int>` in a register.
    pub fn vec_i(&mut self, reg: Register) -> (r: &mut Self)
        requires
            old(self).wf(),
        ensures
            r.wf(),
            r.spec_items() == old(self).spec_items().push(BuilderItem::Instr(Instruction::VecI { reg })),
            r.spec_positions() == old(self).spec_positions(),
            *final(self) == *final(r),
    {
        self.emit(Instruction::VecI { reg })
    }

    /// Emit `VECX`: create an empty `vec<xqmx>` in a register.
    pub fn vec_x(&mut self, reg: Register) -> (r: &mut Self)
        requires
            old(self).wf(),
        ensures
            r.wf(),
            r.spec_items() == old(self).spec_items().push(BuilderItem::Instr(Instruction::VecX { reg })),
            r.spec_positions() == old(self).spec_positions(),
            *final(self) == *final(r),
    {
        self.emit(Instruction::VecX { reg })
    }

    /// Emit `VECPUSH`: pop a value; append it to the register's vec.
    pub fn vec_push(&mut self, reg: Register) -> (r: &mut Self)
        requires
            old(self).wf(),
        ensures
            r.wf(),
            r.spec_items() == old(self).spec_items().push(BuilderItem::Instr(Instruction::VecPush { reg })),
            r.spec_positions() == old(self).spec_positions(),
            *final(self) == *final(r),
    {
        self.emit(Instruction::VecPush { reg })
    }

    /// Emit `VECGET`: pop index; push `vec[index]` from the register's vec.
    pub fn vec_get(&mut self, reg: Register) -> (r: &mut Self)
        requires
            old(self).wf(),
        ensures
            r.wf(),
            r.spec_items() == old(self).spec_items().push(BuilderItem::Instr(Instruction::VecGet { reg })),
            r.spec_positions() == old(self).spec_positions(),
            *final(self) == *final(r),
    {
        self.emit(Instruction::VecGet { reg })
    }

    /// Emit `VECSET`: pop value and index; set `vec[index]` in the register's vec.
    pub fn vec_set(&mut self, reg: Register) -> (r: &mut Self)
        requires
            old(self).wf(),
        ensures
            r.wf(),
            r.spec_items() == old(self).spec_items().push(BuilderItem::Instr(Instruction::VecSet { reg })),
            r.spec_positions() == old(self).spec_positions(),
            *final(self) == *final(r),
    {
        self.emit(Instruction::VecSet { reg })
    }

    /// Emit `VECLEN`: push the length of the register's vec onto the stack.
    pub fn vec_len(&mut self, reg: Register) -> (r: &mut Self)
        requires
            old(self).wf(),
        ensures
            r.wf(),
            r.spec_items() == old(self).spec_items().push(BuilderItem::Instr(Instruction::VecLen { reg })),
            r.spec_positions() == old(self).spec_positions(),
            *final(self) == *final(r),
    {
        self.emit(Instruction::VecLen { reg })
    }

    /// Emit `IDXGRID`: pop cols, col, row; push the flat grid index row * cols + col.
    pub fn idx_grid(&mut self) -> (r: &mut Self)
        requires
            old(self).wf(),
        ensures
            r.wf(),
            r.spec_items() == old(self).spec_items().push(BuilderItem::Instr(Instruction::IdxGrid {  })),
            r.spec_positions() == old(self).spec_positions(),
            *final(self) == *final(r),
    {
        self.emit(Instruction::IdxGrid {  })
    }

    /// Emit `IDXTRIU`: pop j and i (i <= j); push the upper-triangular index for (i, j).
    pub fn idx_triu(&mut self) -> (r: &mut Self)
        requires
            old(self).wf(),
        ensures
            r.wf(),
            r.spec_items() == old(self).spec_items().push(BuilderItem::Instr(Instruction::IdxTriu {  })),
            r.spec_positions() == old(self).spec_positions(),
            *final(self) == *final(r),
    {
        self.emit(Instruction::IdxTriu {  })
    }

    /// Emit `GETLINE`: pop i; push `linear[i]` from the register's model (0 if absent).
    pub fn get_line(&mut self, reg: Register) -> (r: &mut Self)
        requires
            old(self).wf(),
        ensures
            r.wf(),
            r.spec_items() == old(self).spec_items().push(BuilderItem::Instr(Instruction::GetLine { reg })),
            r.spec_positions() == old(self).spec_positions(),
            *final(self) == *final(r),
    {
        self.emit(Instruction::GetLine { reg })
    }

    /// Emit `SETLINE`: pop value and i; set `linear[i]` in the register's model.
    pub fn set_line(&mut self, reg: Register) -> (r: &mut Self)
        requires
            old(self).wf(),
        ensures
            r.wf(),
            r.spec_items() == old(self).spec_items().push(BuilderItem::Instr(Instruction::SetLine { reg })),
            r.spec_positions() == old(self).spec_positions(),
            *final(self) == *final(r),
    {
        self.emit(Instruction::SetLine { reg })
    }

    /// Emit `ADDLINE`: pop delta and i; add delta to `linear[i]` in the register's model.
    pub fn add_line(&mut self, reg: Register) -> (r: &mut Self)
        requires
            old(self).wf(),
        ensures
            r.wf(),
            r.spec_items() == old(self).spec_items().push(BuilderItem::Instr(Instruction::AddLine { reg })),
            r.spec_positions() == old(self).spec_positions(),
            *final(self) == *final(r),
    {
        self.emit(Instruction::AddLine { reg })
    }

    /// Emit `GETQUAD`: pop j and i; push `quadratic[i, j]` from the register's model (0 if absent).
    pub fn get_quad(&mut self, reg: Register) -> (r: &mut Self)
        requires
            old(self).wf(),
        ensures
            r.wf(),
            r.spec_items() == old(self).spec_items().push(BuilderItem::Instr(Instruction::GetQuad { reg })),
            r.spec_positions() == old(self).spec_positions(),
            *final(self) == *final(r),
    {
        self.emit(Instruction::GetQuad { reg })
    }

    /// Emit `SETQUAD`: pop value, j, and i; set `quadratic[i, j]` in the register's model.
    pub fn set_quad(&mut self, reg: Register) -> (r: &mut Self)
        requires
            old(self).wf(),
        ensures
            r.wf(),
            r.spec_items() == old(self).spec_items().push(BuilderItem::Instr(Instruction::SetQuad { reg })),
            r.spec_positions() == old(self).spec_positions(),
            *final(self) == *final(r),
    {
        self.emit(Instruction::SetQuad { reg })
    }

    /// Emit `ADDQUAD`: pop delta, j, and i; add delta to `quadratic[i, j]` in the register's model.
    pub fn add_quad(&mut self, reg: Register) -> (r: &mut Self)
        requires
            old(self).wf(),
        ensures
            r.wf(),
            r.spec_items() == old(self).spec_items().push(BuilderItem::Instr(Instruction::AddQuad { reg })),
            r.spec_positions() == old(self).spec_positions(),
            *final(self) == *final(r),
    {
        self.emit(Instruction::AddQuad { reg })
    }

    /// Emit `RESIZE`: pop cols and rows; set the grid dimensions of the register's model.
    pub fn resize(&mut self, reg: Register) -> (r: &mut Self)
        requires
            old(self).wf(),
        ensures
            r.wf(),
            r.spec_items() == old(self).spec_items().push(BuilderItem::Instr(Instruction::Resize { reg })),
            r.spec_positions() == old(self).spec_positions(),
            *final(self) == *final(r),
    {
        self.emit(Instruction::Resize { reg })
    }

    /// Emit `ROWFIND`: pop value and row; push the first column where the value matches, or -1.
    pub fn row_find(&mut self, reg: Register) -> (r: &mut Self)
        requires
            old(self).wf(),
        ensures
            r.wf(),
            r.spec_items() == old(self).spec_items().push(BuilderItem::Instr(Instruction::RowFind { reg })),
            r.spec_positions() == old(self).spec_positions(),
            *final(self) == *final(r),
    {
        self.emit(Instruction::RowFind { reg })
    }

    /// Emit `COLFIND`: pop value and col; push the first row where the value matches, or -1.
    pub fn col_find(&mut self, reg: Register) -> (r: &mut Self)
        requires
            old(self).wf(),
        ensures
            r.wf(),
            r.spec_items() == old(self).spec_items().push(BuilderItem::Instr(Instruction::ColFind { reg })),
            r.spec_positions() == old(self).spec_positions(),
            *final(self) == *final(r),
    {
        self.emit(Instruction::ColFind { reg })
    }

    /// Emit `ROWSUM`: pop row; push the sum of all linear values in that grid row.
    pub fn row_sum(&mut self, reg: Register) -> (r: &mut Self)
        requires
            old(self).wf(),
        ensures
            r.wf(),
            r.spec_items() == old(self).spec_items().push(BuilderItem::Instr(Instruction::RowSum { reg })),
            r.spec_positions() == old(self).spec_positions(),
            *final(self) == *final(r),
    {
        self.emit(Instruction::RowSum { reg })
    }

    /// Emit `COLSUM`: pop col; push the sum of all linear values in that grid column.
    pub fn col_sum(&mut self, reg: Register) -> (r: &mut Self)
        requires
            old(self).wf(),
        ensures
            r.wf(),
            r.spec_items() == old(self).spec_items().push(BuilderItem::Instr(Instruction::ColSum { reg })),
            r.spec_positions() == old(self).spec_positions(),
            *final(self) == *final(r),
    {
        self.emit(Instruction::ColSum { reg })
    }

    /// Emit `ONEHOTR`: pop penalty and row; add a one-hot constraint over the grid row.
    pub fn one_hot_r(&mut self, reg: Register) -> (r: &mut Self)
        requires
            old(self).wf(),
        ensures
            r.wf(),
            r.spec_items() == old(self).spec_items().push(BuilderItem::Instr(Instruction::OneHotR { reg })),
            r.spec_positions() == old(self).spec_positions(),
            *final(self) == *final(r),
    {
        self.emit(Instruction::OneHotR { reg })
    }

    /// Emit `ONEHOTC`: pop penalty and col; add a one-hot constraint over the grid column.
    pub fn one_hot_c(&mut self, reg: Register) -> (r: &mut Self)
        requires
            old(self).wf(),
        ensures
            r.wf(),
            r.spec_items() == old(self).spec_items().push(BuilderItem::Instr(Instruction::OneHotC { reg })),
            r.spec_positions() == old(self).spec_positions(),
            *final(self) == *final(r),
    {
        self.emit(Instruction::OneHotC { reg })
    }

    /// Emit `EXCLUDE`: pop penalty, j, and i; add a mutual-exclusion constraint between variables i and j.
    pub fn exclude(&mut self, reg: Register) -> (r: &mut Self)
        requires
            old(self).wf(),
        ensures
            r.wf(),
            r.spec_items() == old(self).spec_items().push(BuilderItem::Instr(Instruction::Exclude { reg })),
            r.spec_positions() == old(self).spec_positions(),
            *final(self) == *final(r),
    {
        self.emit(Instruction::Exclude { reg })
    }

    /// Emit `IMPLIES`: pop penalty, j, and i; add an implication constraint from variable i to variable j.
    pub fn implies(&mut self, reg: Register) -> (r: &mut Self)
        requires
            old(self).wf(),
        ensures
            r.wf(),
            r.spec_items() == old(self).spec_items().push(BuilderItem::Instr(Instruction::Implies { reg })),
            r.spec_positions() == old(self).spec_positions(),
            *final(self) == *final(r),
    {
        self.emit(Instruction::Implies { reg })
    }


    /// Emit the smallest `PUSHn` instruction that faithfully represents
    /// `val`: `PUSH1` when it fits in one signed byte, ..., `PUSH8` for any
    /// `i64`.
    pub fn push(&mut self, val: i64) -> (r: &mut Self)
        requires
            old(self).wf(),
        ensures
            r.wf(),
            r.spec_positions() == old(self).spec_positions(),
            r.spec_items() == old(self).spec_items().push(BuilderItem::Instr(push_instruction(val as int))),
            push_value(push_instruction(val as int)) == Some(val as int),
            push_bytes(push_instruction(val as int)) == push_width(val as int),
            *final(self) == *final(r),
    {
        let instr = minimal_push(val);
        proof {
            lemma_push_instruction(instr, val as int);
        }
        self.emit(instr)
    }

    /// Emit a `DROP` instruction, marking the register as unset.
    pub fn drop_reg(&mut self, reg: Register) -> (r: &mut Self)
        requires
            old(self).wf(),
        ensures
            r.wf(),
            r.spec_items() == old(self).spec_items().push(BuilderItem::Instr(Instruction::Drop { reg })),
            r.spec_positions() == old(self).spec_positions(),
            *final(self) == *final(r),
    {
        self.emit(Instruction::Drop { reg })
    }

    /// Emit an `ENERGY` instruction.
    pub fn energy(&mut self, model: Register, sample: Register) -> (r: &mut Self)
        requires
            old(self).wf(),
        ensures
            r.wf(),
            r.spec_items() == old(self).spec_items().push(BuilderItem::Instr(Instruction::Energy { model, sample })),
            r.spec_positions() == old(self).spec_positions(),
            *final(self) == *final(r),
    {
        self.emit(Instruction::Energy { model, sample })
    }

    /// Resolve all labels and return the assembled [`Program`].
    ///
    /// Each label is renumbered to the sequential id of its `TARGET` in
    /// stream order. Each jump becomes `JUMP1`/`JUMPI1` when that id fits in
    /// a byte and `JUMP2`/`JUMPI2` otherwise.
    ///
    /// Fails with [`Error::UnplacedLabel`] for the first jump whose label
    /// was never placed, then with [`Error::UnusedLabel`] for the first label
    /// placed after the first instruction but never jumped to, then with
    /// [`Error::TooManyTargets`] when more than `u16::MAX + 1` labels are
    /// placed.
    pub fn build(self) -> (r: Result<Program, Error>)
        requires
            self.wf(),
        ensures
            match spec_build(self.spec_items(), self.spec_positions()) {
                Ok(code) => r matches Ok(p) && p.spec_code() == code && p.spec_targets() == checker::spec_scan(code).0,
                Err(e) => r == Err::<Program, Error>(e),
            },
    {
        let ghost items = self.items@;
        let ghost positions = self.label_positions@;
        let n_labels = self.label_positions.len();
        let n_items = self.items.len();
        // 1. Every label used by a jump must be placed.
        let mut k: usize = 0;
        while k < n_items
            invariant
                k <= n_items,
                n_items == items.len(),
                n_labels == positions.len(),
                items == self.items@,
                positions == self.label_positions@,
                first_unplaced(items, positions, 0) == first_unplaced(items, positions, k as nat),
            decreases n_items - k,
        {
            match self.items[k] {
                BuilderItem::Jump { label, .. } => {
                    if label.0 >= n_labels || self.label_positions[label.0].is_none() {
                        return Err(Error::UnplacedLabel { id: label.0 });
                    }
                },
                _ => {},
            }
            k = k + 1;
        }
        // 2. Every label placed after the entry point must be jumped to.
        let mut referenced: Vec<bool> = Vec::new();
        let mut l: usize = 0;
        while l < n_labels
            invariant
                l <= n_labels,
                referenced@.len() == l,
                forall|j: int| 0 <= j < l ==> !#[trigger] referenced@[j],
            decreases n_labels - l,
        {
            referenced.push(false);
            l = l + 1;
        }
        let mut k: usize = 0;
        while k < n_items
            invariant
                k <= n_items,
                n_items == items.len(),
                n_labels == positions.len(),
                items == self.items@,
                referenced@.len() == n_labels,
                positions == self.label_positions@,
                first_unplaced(items, positions, 0) is None,
                forall|j: int|
                    0 <= j < n_labels ==> #[trigger] referenced@[j] == exists|m: int|
                        0 <= m < k && jumps_to(#[trigger] items[m], j as usize),
            decreases n_items - k,
        {
            match self.items[k] {
                BuilderItem::Jump { label, .. } => {
                    if label.0 < n_labels {
                        referenced.set(label.0, true);
                    }
                },
                _ => {},
            }
            proof {
                assert forall|j: int| 0 <= j < n_labels implies #[trigger] referenced@[j] == exists|m: int|
                    0 <= m < k + 1 && jumps_to(#[trigger] items[m], j as usize) by {
                    if jumps_to(items[k as int], j as usize) {
                        assert(0 <= k < k + 1);
                    }
                }
            }
            k = k + 1;
        }
        let mut l: usize = 0;
        while l < n_labels
            invariant
                l <= n_labels,
                n_labels == positions.len(),
                positions == self.label_positions@,
                items == self.items@,
                referenced@.len() == n_labels,
                forall|j: int| 0 <= j < n_labels ==> #[trigger] referenced@[j] == is_referenced(items, j as usize),
                first_unused(items, positions, 0) == first_unused(items, positions, l as nat),
                first_unplaced(items, positions, 0) is None,
            decreases n_labels - l,
        {
            match self.label_positions[l] {
                Some(p) => {
                    if p != 0 && !referenced[l] {
                        return Err(Error::UnusedLabel { id: l });
                    }
                },
                None => {},
            }
            l = l + 1;
        }
        // 3. Sequential ids: labels are numbered by the order of their TARGETs.
        let mut alloc_to_seq: Vec<usize> = Vec::new();
        let mut l: usize = 0;
        while l < n_labels
            invariant
                l <= n_labels,
                first_unplaced(items, positions, 0) is None,
                first_unused(items, positions, 0) is None,
                alloc_to_seq@.len() == l,
            decreases n_labels - l,
        {
            alloc_to_seq.push(0);
            l = l + 1;
        }
        let mut placed: usize = 0;
        let mut k: usize = 0;
        while k < n_items
            invariant
                k <= n_items,
                n_items == items.len(),
                n_labels == positions.len(),
                items == self.items@,
                positions == self.label_positions@,
                self.wf(),
                alloc_to_seq@.len() == n_labels,
                first_unplaced(items, positions, 0) is None,
                first_unused(items, positions, 0) is None,
                placed == count_places(items, k as nat),
                placed <= k,
                forall|j: int|
                    0 <= j < n_labels && #[trigger] positions[j] is Some && positions[j].unwrap() < k
                        ==> alloc_to_seq@[j] == count_places(items, positions[j].unwrap() as nat),
            decreases n_items - k,
        {
            match self.items[k] {
                BuilderItem::Place(label) => {
                    alloc_to_seq.set(label.0, placed);
                    placed = placed + 1;
                },
                _ => {},
            }
            k = k + 1;
        }
        if placed > 65536 {
            return Err(Error::TooManyTargets { count: placed });
        }
        // 4. Encode every item, jumps in their resolved form.
        let mut code: Vec<u8> = Vec::new();
        let mut k: usize = 0;
        while k < n_items
            invariant
                k <= n_items,
                n_items == items.len(),
                n_labels == positions.len(),
                items == self.items@,
                positions == self.label_positions@,
                self.wf(),
                first_unplaced(items, positions, 0) is None,
                first_unused(items, positions, 0) is None,
                placed == count_places(items, n_items as nat),
                placed <= 65536,
                alloc_to_seq@.len() == n_labels,
                forall|j: int|
                    0 <= j < n_labels && #[trigger] positions[j] is Some ==> alloc_to_seq@[j] == count_places(
                        items,
                        positions[j].unwrap() as nat,
                    ),
                code@ == code_upto(items, positions, k as nat),
            decreases n_items - k,
        {
            let instr = match self.items[k] {
                BuilderItem::Instr(i) => i,
                BuilderItem::Place(_) => Instruction::Target {  },
                BuilderItem::Jump { conditional, label } => {
                    proof {
                        lemma_jump_placed(items, positions, k as nat);
                        lemma_count_places_bound(items, positions[label.0 as int].unwrap() as nat, n_items as nat);
                    }
                    let s = alloc_to_seq[label.0];
                    if s <= 255 {
                        if conditional {
                            Instruction::JumpI1 { label: s as u8 }
                        } else {
                            Instruction::Jump1 { label: s as u8 }
                        }
                    } else {
                        if conditional {
                            Instruction::JumpI2 { label: s as u16 }
                        } else {
                            Instruction::Jump2 { label: s as u16 }
                        }
                    }
                },
            };
            let mut enc = codec::encode(&instr);
            code.append(&mut enc);
            k = k + 1;
        }
        Ok(Program::new(code))
    }
}

impl Default for InstructionBuilder {
    /// An empty builder.
    fn default() -> (b: Self)
        ensures
            b.wf(),
            b.spec_items() == Seq::<BuilderItem>::empty(),
            b.spec_positions() == Seq::<Option<usize>>::empty(),
    {
        InstructionBuilder::new()
    }
}

/// Whether `val` fits in `n` signed bytes (`1 <= n <= 8`).
fn fits_in(val: i64, n: usize) -> (b: bool)
    requires
        1 <= n <= 8,
    ensures
        b == fits_bytes(val as int, n as nat),
{
    let half: i128 = pow256_u64(n - 1) as i128 * 128;
    0 - half <= val as i128 && (val as i128) < half
}

/// Return the smallest `PUSHn` instruction whose sign-extended immediate
/// is `val`.
fn minimal_push(val: i64) -> (i: Instruction)
    ensures
        push_bytes(i) == push_width(val as int),
        push_value(i) == Some(val as int),
{
    proof {
        lemma_pow256_values();
    }
    let mut n: usize = 1;
    loop
        invariant
            1 <= n <= 8,
            forall|m: nat| 1 <= m < n ==> !#[trigger] fits_bytes(val as int, m),
        ensures
            1 <= n <= 8,
            forall|m: nat| 1 <= m < n ==> !#[trigger] fits_bytes(val as int, m),
            n == 8 || fits_bytes(val as int, n as nat),
        decreases 8 - n,
    {
        if n == 8 || fits_in(val, n) {
            break;
        }
        n = n + 1;
    }
    proof {
        assert(fits_bytes(val as int, 8));
        if n < 8 {
            assert(fits_bytes(val as int, n as nat));
        }
        assert(n == push_width(val as int)) by {
            if n > 1 { assert(!fits_bytes(val as int, 1)); }
            if n > 2 { assert(!fits_bytes(val as int, 2)); }
            if n > 3 { assert(!fits_bytes(val as int, 3)); }
            if n > 4 { assert(!fits_bytes(val as int, 4)); }
            if n > 5 { assert(!fits_bytes(val as int, 5)); }
            if n > 6 { assert(!fits_bytes(val as int, 6)); }
            if n > 7 { assert(!fits_bytes(val as int, 7)); }
        }
        assert(fits_bytes(val as int, n as nat));
        assert(pow256(n as nat) == 256 * pow256((n - 1) as nat));
    }
    let modulus: i128 = pow256_u64(n - 1) as i128 * 256;
    let u0: i128 = if val < 0 {
        val as i128 + modulus
    } else {
        val as i128
    };
    let mut bytes: Vec<u8> = Vec::new();
    let mut k: usize = 0;
    while k < n
        invariant
            k <= n,
            bytes@.len() == k,
        decreases n - k,
    {
        bytes.push(0);
        k = k + 1;
    }
    let mut u: i128 = u0;
    let mut k: usize = n;
    proof {
        assert(bytes@.subrange(n as int, n as int) =~= Seq::<u8>::empty());
        assert(pow256(0) == 1);
    }
    while k > 0
        invariant
            k <= n,
            1 <= n <= 8,
            bytes@.len() == n,
            0 <= u <= u0,
            u0 < pow256(8),
            u0 == u * pow256((n - k) as nat) + be_unsigned(bytes@.subrange(k as int, n as int)),
        decreases k,
    {
        let ghost old_bytes = bytes@;
        let ghost old_u = u;
        k = k - 1;
        bytes.set(k, (u % 256) as u8);
        u = u / 256;
        proof {
            let tail = bytes@.subrange(k as int, n as int);
            assert(tail.drop_first() =~= old_bytes.subrange(k + 1, n as int));
            assert(tail[0] == (old_u % 256) as u8);
            let p = pow256((n - k - 1) as nat);
            assert(pow256((n - k) as nat) == 256 * p);
            lemma_be_unsigned_bound(old_bytes.subrange(k + 1, n as int));
            assert(tail.len() == n - k);
            assert(be_unsigned(tail) == tail[0] * p + be_unsigned(tail.drop_first()));
            let r = old_u % 256;
            let q = old_u / 256;
            assert(old_u == q * 256 + r);
            assert(old_u * p == q * (256 * p) + r * p) by (nonlinear_arith)
                requires
                    old_u == q * 256 + r,
            ;
        }
    }
    proof {
        let p = pow256(n as nat);
        lemma_be_unsigned_bound(bytes@);
        assert(bytes@.subrange(0, n as int) =~= bytes@);
        assert(u0 < p);
        assert(u * p + be_unsigned(bytes@) == u0);
        if u > 0 {
            assert(u * p >= p) by (nonlinear_arith)
                requires
                    u >= 1,
                    p >= 1,
            ;
        }
        assert(u == 0);
        assert(be_unsigned(bytes@) == u0);
        lemma_be_unsigned_first(bytes@);
        assert(be_signed(bytes@) == val as int);
    }
    let i = if n == 1 {
        Instruction::Push1 { val: [bytes[0]] }
    } else if n == 2 {
        Instruction::Push2 { val: [bytes[0], bytes[1]] }
    } else if n == 3 {
        Instruction::Push3 { val: [bytes[0], bytes[1], bytes[2]] }
    } else if n == 4 {
        Instruction::Push4 { val: [bytes[0], bytes[1], bytes[2], bytes[3]] }
    } else if n == 5 {
        Instruction::Push5 { val: [bytes[0], bytes[1], bytes[2], bytes[3], bytes[4]] }
    } else if n == 6 {
        Instruction::Push6 { val: [bytes[0], bytes[1], bytes[2], bytes[3], bytes[4], bytes[5]] }
    } else if n == 7 {
        Instruction::Push7 { val: [bytes[0], bytes[1], bytes[2], bytes[3], bytes[4], bytes[5], bytes[6]] }
    } else {
        Instruction::Push8 { val: [bytes[0], bytes[1], bytes[2], bytes[3], bytes[4], bytes[5], bytes[6], bytes[7]] }
    };
    proof {
        broadcast use vstd::array::group_array_axioms;
        match i {
            Instruction::Push1 { val } => assert(val@ =~= bytes@),
            Instruction::Push2 { val } => assert(val@ =~= bytes@),
            Instruction::Push3 { val } => assert(val@ =~= bytes@),
            Instruction::Push4 { val } => assert(val@ =~= bytes@),
            Instruction::Push5 { val } => assert(val@ =~= bytes@),
            Instruction::Push6 { val } => assert(val@ =~= bytes@),
            Instruction::Push7 { val } => assert(val@ =~= bytes@),
            Instruction::Push8 { val } => assert(val@ =~= bytes@),
            _ => {},
        }
    }
    i
}

/// A jump that passes the placement check refers to a placed label.
proof fn lemma_jump_placed(items: Seq<BuilderItem>, positions: Seq<Option<usize>>, k: nat)
    requires
        k < items.len(),
        first_unplaced(items, positions, 0) is None,
        items[k as int] is Jump,
    ensures
        is_placed(positions, items[k as int]->label.spec_index()),
{
    lemma_first_unplaced_none(items, positions, 0, k);
}

proof fn lemma_first_unplaced_none(items: Seq<BuilderItem>, positions: Seq<Option<usize>>, start: nat, k: nat)
    requires
        start <= k < items.len(),
        first_unplaced(items, positions, start) is None,
    ensures
        items[k as int] matches BuilderItem::Jump { label, .. } ==> is_placed(positions, label.spec_index()),
    decreases k - start,
{
    if start < k {
        lemma_first_unplaced_none(items, positions, start + 1, k);
    }
}

/// A placed label's sequential id is below the number of placed labels.
proof fn lemma_count_places_bound(items: Seq<BuilderItem>, p: nat, n: nat)
    requires
        p < n <= items.len(),
    ensures
        count_places(items, p) < count_places(items, n) || (count_places(items, p) <= count_places(items, n) && !(
        items[p as int] is Place)),
        count_places(items, p) <= count_places(items, n),
    decreases n - p,
{
    if p + 1 < n {
        lemma_count_places_bound(items, p + 1, n);
    }
}

} // verus!
