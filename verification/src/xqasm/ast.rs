//! Abstract syntax of the numbered-label dialect, produced by the parser.
//!
//! No semantic validation (unknown mnemonics, wrong operand counts, etc.)
//! is performed at this stage.

use vstd::prelude::*;

verus! {

/// A single instruction operand after parsing.
#[derive(Debug, Clone, Copy, PartialEq, Eq, Structural)]
pub enum Operand {
    /// A register reference, e.g. `r3`. The inner value is the slot index.
    Register(u8),
    /// A signed integer literal, e.g. `42` or `-99` or `0xFF`.
    Integer(i64),
    /// A numeric label reference, e.g. `.0`, `.1`. Only valid as the
    /// operand of `JUMP` or `JUMPI`.
    LabelRef(u16),
}

/// A fully parsed instruction with its source location.
#[derive(Debug, Clone, PartialEq, Eq)]
pub struct ParsedInstr {
    /// Uppercase mnemonic string, e.g. `"PUSH"`.
    pub mnemonic: String,
    /// Operands in declaration order.
    pub operands: Vec<Operand>,
    /// Byte offset of the mnemonic within the source text.
    pub offset: usize,
}

/// The mathematical form of a [`ParsedInstr`].
pub struct InstrView {
    /// The mnemonic's characters.
    pub mnemonic: Seq<char>,
    /// The operands.
    pub operands: Seq<Operand>,
    /// Byte offset of the mnemonic.
    pub offset: nat,
}

impl View for ParsedInstr {
    type V = InstrView;

    open spec fn view(&self) -> InstrView {
        InstrView { mnemonic: self.mnemonic@, operands: self.operands@, offset: self.offset as nat }
    }
}

/// A single logical line item of assembly source after parsing.
#[derive(Debug, Clone, PartialEq, Eq)]
pub enum AsmLine {
    /// A label definition, e.g. `.0:`, anchored to the next instruction.
    LabelDef {
        /// The numeric label index.
        label: u16,
        /// Byte offset of the label token within the source text.
        offset: usize,
    },
    /// An instruction with zero or more operands.
    Instruction(ParsedInstr),
}

/// The mathematical form of an [`AsmLine`].
pub enum LineView {
    /// A label definition.
    LabelDef { label: u16, offset: nat },
    /// An instruction.
    Instruction(InstrView),
}

impl View for AsmLine {
    type V = LineView;

    open spec fn view(&self) -> LineView {
        match self {
            AsmLine::LabelDef { label, offset } => LineView::LabelDef { label: *label, offset: *offset as nat },
            AsmLine::Instruction(i) => LineView::Instruction(i@),
        }
    }
}

/// The views of a list of lines.
pub open spec fn lines_view(v: Seq<AsmLine>) -> Seq<LineView> {
    Seq::new(v.len(), |i: int| v[i]@)
}

} // verus!
