//! Abstract syntax of the named-label dialect, produced by the parser.

use vstd::prelude::*;

verus! {

/// A single instruction operand after parsing.
#[derive(Debug, Clone, PartialEq, Eq)]
pub enum Operand {
    /// A register reference, e.g. `r3`.
    Register(u8),
    /// A signed integer literal, e.g. `42` or `-99` or `0xFF`.
    Integer(i64),
    /// A label reference by name, e.g. `loop_top`. Only valid as the
    /// operand of `JUMP` or `JUMPI`.
    LabelRef(String),
}

/// The mathematical form of an [`Operand`].
pub enum OperandView {
    Register(u8),
    Integer(i64),
    LabelRef(Seq<char>),
}

impl View for Operand {
    type V = OperandView;

    open spec fn view(&self) -> OperandView {
        match self {
            Operand::Register(r) => OperandView::Register(*r),
            Operand::Integer(v) => OperandView::Integer(*v),
            Operand::LabelRef(n) => OperandView::LabelRef(n@),
        }
    }
}

/// A fully parsed instruction with its source location.
#[derive(Debug, Clone, PartialEq, Eq)]
pub struct ParsedInstr {
    /// Uppercase mnemonic string, e.g. `"PUSH"`.
    pub mnemonic: String,
    /// Operands in declaration order.
    pub operands: Vec<Operand>,
    /// Byte offset of the mnemonic within the source text.
    pub offset: usize,
}

/// The mathematical form of a [`ParsedInstr`].
pub struct InstrView {
    pub mnemonic: Seq<char>,
    pub operands: Seq<OperandView>,
    pub offset: nat,
}

impl View for ParsedInstr {
    type V = InstrView;

    open spec fn view(&self) -> InstrView {
        InstrView {
            mnemonic: self.mnemonic@,
            operands: Seq::new(self.operands@.len(), |i: int| self.operands@[i]@),
            offset: self.offset as nat,
        }
    }
}

/// A single logical line item of assembly source after parsing.
#[derive(Debug, Clone, PartialEq, Eq)]
pub enum AsmLine {
    /// A label definition, e.g. `loop:`, anchored to the next instruction.
    LabelDef {
        /// The label's name.
        name: String,
        /// Byte offset of the label token within the source text.
        offset: usize,
    },
    /// An instruction with zero or more operands.
    Instruction(ParsedInstr),
}

/// The mathematical form of an [`AsmLine`].
pub enum LineView {
    LabelDef { name: Seq<char>, offset: nat },
    Instruction(InstrView),
}

impl View for AsmLine {
    type V = LineView;

    open spec fn view(&self) -> LineView {
        match self {
            AsmLine::LabelDef { name, offset } => LineView::LabelDef { name: name@, offset: *offset as nat },
            AsmLine::Instruction(i) => LineView::Instruction(i@),
        }
    }
}

/// The views of a list of lines.
pub open spec fn lines_view(v: Seq<AsmLine>) -> Seq<LineView> {
    Seq::new(v.len(), |i: int| v[i]@)
}

} // verus!
