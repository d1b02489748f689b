//! Opcode table, decoded instructions and register operands.
//!
//! The opcode table is the single source of truth for the instruction set:
//! every opcode has a wire byte, an uppercase mnemonic, a fixed operand
//! width and a static stack effect. An encoded instruction is the opcode
//! byte followed by its operand fields in declaration order, each at its
//! natural width in big-endian byte order (registers and 8-bit labels are
//! one byte, 16-bit labels two, `PUSHn` constants `n`).

use vstd::prelude::*;

verus! {

/// An 8-bit register slot identifier (`r0`..`r255`).
#[derive(Debug, Clone, Copy, PartialEq, Eq, Hash, Default, Structural)]
pub struct Register(pub u8);

impl Register {
    /// Return the underlying 8-bit slot index.
    pub fn slot(self) -> (s: u8)
        ensures
            s == self.0,
    {
        self.0
    }
}

/// The static effect of an instruction on the depth of the value stack.
#[derive(Debug, Clone, Copy, PartialEq, Eq, Structural)]
pub enum StackEffect {
    /// The depth changes by the given (possibly negative) amount.
    Delta(i8),
    /// The stack is cleared: the depth becomes zero.
    Reset,
}

/// An XQVM opcode: the first byte of every encoded instruction.
#[derive(Debug, Clone, Copy, PartialEq, Eq, Hash, Structural)]
pub enum Opcode {
    /// No operation.
    Nop,
    /// Mark a valid jump destination.
    Target,
    /// Unconditionally jump to the `TARGET` whose sequential id is the 16-bit label.
    Jump2,
    /// Pop a condition; jump to the `TARGET` whose sequential id is the 16-bit label if it is non-zero.
    JumpI2,
    /// Advance the loop index; jump back or exit the current loop.
    Next,
    /// Copy the current loop value into a register.
    LVal,
    /// Pop count then start; start a range loop over [start, start + count).
    Range,
    /// Pop count then start; start a vec iteration over a slice of a register's vec.
    Iter,
    /// Stop execution.
    Halt,
    /// Push the value of an int register onto the stack.
    Load,
    /// Pop the top of the stack into an int register.
    Stow,
    /// Reset a register to the unset state.
    Drop,
    /// Pop a calldata slot index and load that slot into a register.
    Input,
    /// Pop an output slot index and write the register to it.
    Output,
    /// Discard the top of the stack.
    Pop,
    /// Push a 1-byte big-endian signed constant, sign-extended to i64.
    Push1,
    /// Push a 2-byte big-endian signed constant, sign-extended to i64.
    Push2,
    /// Push a 3-byte big-endian signed constant, sign-extended to i64.
    Push3,
    /// Push a 4-byte big-endian signed constant, sign-extended to i64.
    Push4,
    /// Push a 5-byte big-endian signed constant, sign-extended to i64.
    Push5,
    /// Push a 6-byte big-endian signed constant, sign-extended to i64.
    Push6,
    /// Push a 7-byte big-endian signed constant, sign-extended to i64.
    Push7,
    /// Push a full 8-byte big-endian signed constant (i64).
    Push8,
    /// Copy the current loop index into a register.
    Lidx,
    /// Clear the entire value stack.
    Sclr,
    /// Swap the top two stack elements.
    Swap,
    /// Duplicate the top of the stack.
    Copy,
    /// Unconditionally jump to the `TARGET` whose sequential id is the 8-bit label.
    Jump1,
    /// Pop a condition; jump to the `TARGET` whose sequential id is the 8-bit label if it is non-zero.
    JumpI1,
    /// Pop b and a; push a + b.
    Add,
    /// Pop b and a; push a - b.
    Sub,
    /// Pop b and a; push a * b.
    Mul,
    /// Pop b and a; push a / b (truncating integer division).
    Div,
    /// Pop b and a; push a % b.
    Modulo,
    /// Pop a; push a * a.
    Sqr,
    /// Pop a; push |a|.
    Abs,
    /// Pop a; push -a.
    Neg,
    /// Pop b and a; push min(a, b).
    Min,
    /// Pop b and a; push max(a, b).
    Max,
    /// Pop a; push a + 1.
    Inc,
    /// Pop a; push a - 1.
    Dec,
    /// Pop b and a; push 1 if a == b, else 0.
    Eq,
    /// Pop b and a; push 1 if a < b, else 0.
    Lt,
    /// Pop b and a; push 1 if a > b, else 0.
    Gt,
    /// Pop b and a; push 1 if a <= b, else 0.
    Lte,
    /// Pop b and a; push 1 if a >= b, else 0.
    Gte,
    /// Pop a; push 1 if a == 0, else 0.
    Not,
    /// Pop b and a; push 1 if both are non-zero, else 0.
    And,
    /// Pop b and a; push 1 if either is non-zero, else 0.
    Or,
    /// Pop b and a; push 1 if exactly one is non-zero, else 0.
    Xor,
    /// Pop b and a; push a & b.
    BAnd,
    /// Pop b and a; push a | b.
    BOr,
    /// Pop b and a; push a ^ b.
    BXor,
    /// Pop a; push !a.
    BNot,
    /// Pop b and a; push a << b.
    Shl,
    /// Pop b and a; push a >> b (arithmetic right shift, sign-preserving).
    Shr,
    /// Pop size; allocate a binary QUBO model ([0, 1] domain) into a register.
    Bqmx,
    /// Pop size; allocate a spin Ising model ([-1, 1] domain) into a register.
    Sqmx,
    /// Pop k then size; allocate a discrete model with signed centered domain [-k, k-1] into a register.
    Xqmx,
    /// Pop size; allocate a binary sample ([0, 1] domain) into a register.
    Bsmx,
    /// Pop size; allocate a spin sample ([-1, 1] domain) into a register.
    Ssmx,
    /// Pop k then size; allocate a discrete sample with signed centered domain [-k, k-1] into a register.
    Xsmx,
    /// Create an empty vec (element type inferred on first push) in a register.
    Vec,
    /// Create an empty `vec<int>` in a register.
    VecI,
    /// Create an empty `vec<xqmx>` in a register.
    VecX,
    /// Pop a value; append it to the register's vec.
    VecPush,
    /// Pop index; push `vec[index]` from the register's vec.
    VecGet,
    /// Pop value and index; set `vec[index]` in the register's vec.
    VecSet,
    /// Push the length of the register's vec onto the stack.
    VecLen,
    /// Pop cols, col, row; push the flat grid index row * cols + col.
    IdxGrid,
    /// Pop j and i (i <= j); push the upper-triangular index for (i, j).
    IdxTriu,
    /// Pop i; push `linear[i]` from the register's model (0 if absent).
    GetLine,
    /// Pop value and i; set `linear[i]` in the register's model.
    SetLine,
    /// Pop delta and i; add delta to `linear[i]` in the register's model.
    AddLine,
    /// Pop j and i; push `quadratic[i, j]` from the register's model (0 if absent).
    GetQuad,
    /// Pop value, j, and i; set `quadratic[i, j]` in the register's model.
    SetQuad,
    /// Pop delta, j, and i; add delta to `quadratic[i, j]` in the register's model.
    AddQuad,
    /// Pop cols and rows; set the grid dimensions of the register's model.
    Resize,
    /// Pop value and row; push the first column where the value matches, or -1.
    RowFind,
    /// Pop value and col; push the first row where the value matches, or -1.
    ColFind,
    /// Pop row; push the sum of all linear values in that grid row.
    RowSum,
    /// Pop col; push the sum of all linear values in that grid column.
    ColSum,
    /// Pop penalty and row; add a one-hot constraint over the grid row.
    OneHotR,
    /// Pop penalty and col; add a one-hot constraint over the grid column.
    OneHotC,
    /// Pop penalty, j, and i; add a mutual-exclusion constraint between variables i and j.
    Exclude,
    /// Pop penalty, j, and i; add an implication constraint from variable i to variable j.
    Implies,
    /// Compute the Hamiltonian energy of a sample against a model; push the result.
    Energy,
}

/// A fully decoded XQVM instruction with its operands.
///
/// Every variant uses named-field syntax; instructions without operands have
/// an empty field list (`Nop {}`).
#[derive(Debug, Clone, Copy, PartialEq, Eq)]
pub enum Instruction {
    /// No operation.
    Nop {},
    /// Mark a valid jump destination.
    Target {},
    /// Unconditionally jump to the `TARGET` whose sequential id is the 16-bit label.
    Jump2 { label: u16 },
    /// Pop a condition; jump to the `TARGET` whose sequential id is the 16-bit label if it is non-zero.
    JumpI2 { label: u16 },
    /// Advance the loop index; jump back or exit the current loop.
    Next {},
    /// Copy the current loop value into a register.
    LVal { reg: Register },
    /// Pop count then start; start a range loop over [start, start + count).
    Range {},
    /// Pop count then start; start a vec iteration over a slice of a register's vec.
    Iter { reg: Register },
    /// Stop execution.
    Halt {},
    /// Push the value of an int register onto the stack.
    Load { reg: Register },
    /// Pop the top of the stack into an int register.
    Stow { reg: Register },
    /// Reset a register to the unset state.
    Drop { reg: Register },
    /// Pop a calldata slot index and load that slot into a register.
    Input { reg: Register },
    /// Pop an output slot index and write the register to it.
    Output { reg: Register },
    /// Discard the top of the stack.
    Pop {},
    /// Push a 1-byte big-endian signed constant, sign-extended to i64.
    Push1 { val: [u8; 1] },
    /// Push a 2-byte big-endian signed constant, sign-extended to i64.
    Push2 { val: [u8; 2] },
    /// Push a 3-byte big-endian signed constant, sign-extended to i64.
    Push3 { val: [u8; 3] },
    /// Push a 4-byte big-endian signed constant, sign-extended to i64.
    Push4 { val: [u8; 4] },
    /// Push a 5-byte big-endian signed constant, sign-extended to i64.
    Push5 { val: [u8; 5] },
    /// Push a 6-byte big-endian signed constant, sign-extended to i64.
    Push6 { val: [u8; 6] },
    /// Push a 7-byte big-endian signed constant, sign-extended to i64.
    Push7 { val: [u8; 7] },
    /// Push a full 8-byte big-endian signed constant (i64).
    Push8 { val: [u8; 8] },
    /// Copy the current loop index into a register.
    Lidx { reg: Register },
    /// Clear the entire value stack.
    Sclr {},
    /// Swap the top two stack elements.
    Swap {},
    /// Duplicate the top of the stack.
    Copy {},
    /// Unconditionally jump to the `TARGET` whose sequential id is the 8-bit label.
    Jump1 { label: u8 },
    /// Pop a condition; jump to the `TARGET` whose sequential id is the 8-bit label if it is non-zero.
    JumpI1 { label: u8 },
    /// Pop b and a; push a + b.
    Add {},
    /// Pop b and a; push a - b.
    Sub {},
    /// Pop b and a; push a * b.
    Mul {},
    /// Pop b and a; push a / b (truncating integer division).
    Div {},
    /// Pop b and a; push a % b.
    Modulo {},
    /// Pop a; push a * a.
    Sqr {},
    /// Pop a; push |a|.
    Abs {},
    /// Pop a; push -a.
    Neg {},
    /// Pop b and a; push min(a, b).
    Min {},
    /// Pop b and a; push max(a, b).
    Max {},
    /// Pop a; push a + 1.
    Inc {},
    /// Pop a; push a - 1.
    Dec {},
    /// Pop b and a; push 1 if a == b, else 0.
    Eq {},
    /// Pop b and a; push 1 if a < b, else 0.
    Lt {},
    /// Pop b and a; push 1 if a > b, else 0.
    Gt {},
    /// Pop b and a; push 1 if a <= b, else 0.
    Lte {},
    /// Pop b and a; push 1 if a >= b, else 0.
    Gte {},
    /// Pop a; push 1 if a == 0, else 0.
    Not {},
    /// Pop b and a; push 1 if both are non-zero, else 0.
    And {},
    /// Pop b and a; push 1 if either is non-zero, else 0.
    Or {},
    /// Pop b and a; push 1 if exactly one is non-zero, else 0.
    Xor {},
    /// Pop b and a; push a & b.
    BAnd {},
    /// Pop b and a; push a | b.
    BOr {},
    /// Pop b and a; push a ^ b.
    BXor {},
    /// Pop a; push !a.
    BNot {},
    /// Pop b and a; push a << b.
    Shl {},
    /// Pop b and a; push a >> b (arithmetic right shift, sign-preserving).
    Shr {},
    /// Pop size; allocate a binary QUBO model ([0, 1] domain) into a register.
    Bqmx { reg: Register },
    /// Pop size; allocate a spin Ising model ([-1, 1] domain) into a register.
    Sqmx { reg: Register },
    /// Pop k then size; allocate a discrete model with signed centered domain [-k, k-1] into a register.
    Xqmx { reg: Register },
    /// Pop size; allocate a binary sample ([0, 1] domain) into a register.
    Bsmx { reg: Register },
    /// Pop size; allocate a spin sample ([-1, 1] domain) into a register.
    Ssmx { reg: Register },
    /// Pop k then size; allocate a discrete sample with signed centered domain [-k, k-1] into a register.
    Xsmx { reg: Register },
    /// Create an empty vec (element type inferred on first push) in a register.
    Vec { reg: Register },
    /// Create an empty `vec<int>` in a register.
    VecI { reg: Register },
    /// Create an empty `vec<xqmx>` in a register.
    VecX { reg: Register },
    /// Pop a value; append it to the register's vec.
    VecPush { reg: Register },
    /// Pop index; push `vec[index]` from the register's vec.
    VecGet { reg: Register },
    /// Pop value and index; set `vec[index]` in the register's vec.
    VecSet { reg: Register },
    /// Push the length of the register's vec onto the stack.
    VecLen { reg: Register },
    /// Pop cols, col, row; push the flat grid index row * cols + col.
    IdxGrid {},
    /// Pop j and i (i <= j); push the upper-triangular index for (i, j).
    IdxTriu {},
    /// Pop i; push `linear[i]` from the register's model (0 if absent).
    GetLine { reg: Register },
    /// Pop value and i; set `linear[i]` in the register's model.
    SetLine { reg: Register },
    /// Pop delta and i; add delta to `linear[i]` in the register's model.
    AddLine { reg: Register },
    /// Pop j and i; push `quadratic[i, j]` from the register's model (0 if absent).
    GetQuad { reg: Register },
    /// Pop value, j, and i; set `quadratic[i, j]` in the register's model.
    SetQuad { reg: Register },
    /// Pop delta, j, and i; add delta to `quadratic[i, j]` in the register's model.
    AddQuad { reg: Register },
    /// Pop cols and rows; set the grid dimensions of the register's model.
    Resize { reg: Register },
    /// Pop value and row; push the first column where the value matches, or -1.
    RowFind { reg: Register },
    /// Pop value and col; push the first row where the value matches, or -1.
    ColFind { reg: Register },
    /// Pop row; push the sum of all linear values in that grid row.
    RowSum { reg: Register },
    /// Pop col; push the sum of all linear values in that grid column.
    ColSum { reg: Register },
    /// Pop penalty and row; add a one-hot constraint over the grid row.
    OneHotR { reg: Register },
    /// Pop penalty and col; add a one-hot constraint over the grid column.
    OneHotC { reg: Register },
    /// Pop penalty, j, and i; add a mutual-exclusion constraint between variables i and j.
    Exclude { reg: Register },
    /// Pop penalty, j, and i; add an implication constraint from variable i to variable j.
    Implies { reg: Register },
    /// Compute the Hamiltonian energy of a sample against a model; push the result.
    Energy { model: Register, sample: Register },
}

impl Opcode {
    /// The wire byte of this opcode.
    pub open spec fn spec_byte(self) -> u8 {
        match self {
            Opcode::Nop => 0x00u8,
            Opcode::Target => 0x01u8,
            Opcode::Jump2 => 0x02u8,
            Opcode::JumpI2 => 0x03u8,
            Opcode::Next => 0x04u8,
            Opcode::LVal => 0x05u8,
            Opcode::Range => 0x06u8,
            Opcode::Iter => 0x07u8,
            Opcode::Halt => 0x09u8,
            Opcode::Load => 0x0Au8,
            Opcode::Stow => 0x0Bu8,
            Opcode::Drop => 0x0Cu8,
            Opcode::Input => 0x0Eu8,
            Opcode::Output => 0x0Fu8,
            Opcode::Pop => 0x10u8,
            Opcode::Push1 => 0x11u8,
            Opcode::Push2 => 0x12u8,
            Opcode::Push3 => 0x13u8,
            Opcode::Push4 => 0x14u8,
            Opcode::Push5 => 0x15u8,
            Opcode::Push6 => 0x16u8,
            Opcode::Push7 => 0x17u8,
            Opcode::Push8 => 0x18u8,
            Opcode::Lidx => 0x19u8,
            Opcode::Sclr => 0x1Au8,
            Opcode::Swap => 0x1Bu8,
            Opcode::Copy => 0x1Cu8,
            Opcode::Jump1 => 0x1Du8,
            Opcode::JumpI1 => 0x1Eu8,
            Opcode::Add => 0x20u8,
            Opcode::Sub => 0x21u8,
            Opcode::Mul => 0x22u8,
            Opcode::Div => 0x23u8,
            Opcode::Modulo => 0x24u8,
            Opcode::Sqr => 0x25u8,
            Opcode::Abs => 0x26u8,
            Opcode::Neg => 0x27u8,
            Opcode::Min => 0x28u8,
            Opcode::Max => 0x29u8,
            Opcode::Inc => 0x2Au8,
            Opcode::Dec => 0x2Bu8,
            Opcode::Eq => 0x30u8,
            Opcode::Lt => 0x31u8,
            Opcode::Gt => 0x32u8,
            Opcode::Lte => 0x33u8,
            Opcode::Gte => 0x34u8,
            Opcode::Not => 0x36u8,
            Opcode::And => 0x37u8,
            Opcode::Or => 0x38u8,
            Opcode::Xor => 0x39u8,
            Opcode::BAnd => 0x3Au8,
            Opcode::BOr => 0x3Bu8,
            Opcode::BXor => 0x3Cu8,
            Opcode::BNot => 0x3Du8,
            Opcode::Shl => 0x3Eu8,
            Opcode::Shr => 0x3Fu8,
            Opcode::Bqmx => 0x40u8,
            Opcode::Sqmx => 0x41u8,
            Opcode::Xqmx => 0x42u8,
            Opcode::Bsmx => 0x43u8,
            Opcode::Ssmx => 0x44u8,
            Opcode::Xsmx => 0x45u8,
            Opcode::Vec => 0x4Au8,
            Opcode::VecI => 0x4Bu8,
            Opcode::VecX => 0x4Cu8,
            Opcode::VecPush => 0x50u8,
            Opcode::VecGet => 0x51u8,
            Opcode::VecSet => 0x52u8,
            Opcode::VecLen => 0x53u8,
            Opcode::IdxGrid => 0x5Au8,
            Opcode::IdxTriu => 0x5Bu8,
            Opcode::GetLine => 0x60u8,
            Opcode::SetLine => 0x61u8,
            Opcode::AddLine => 0x62u8,
            Opcode::GetQuad => 0x63u8,
            Opcode::SetQuad => 0x64u8,
            Opcode::AddQuad => 0x65u8,
            Opcode::Resize => 0x66u8,
            Opcode::RowFind => 0x67u8,
            Opcode::ColFind => 0x68u8,
            Opcode::RowSum => 0x69u8,
            Opcode::ColSum => 0x6Au8,
            Opcode::OneHotR => 0x70u8,
            Opcode::OneHotC => 0x71u8,
            Opcode::Exclude => 0x72u8,
            Opcode::Implies => 0x73u8,
            Opcode::Energy => 0x7Fu8,
        }
    }

    /// The opcode encoded by `b`, or `None` for an unassigned byte.
    pub open spec fn spec_from_byte(b: u8) -> Option<Opcode> {
        match b {
            0x00u8 => Some(Opcode::Nop),
            0x01u8 => Some(Opcode::Target),
            0x02u8 => Some(Opcode::Jump2),
            0x03u8 => Some(Opcode::JumpI2),
            0x04u8 => Some(Opcode::Next),
            0x05u8 => Some(Opcode::LVal),
            0x06u8 => Some(Opcode::Range),
            0x07u8 => Some(Opcode::Iter),
            0x09u8 => Some(Opcode::Halt),
            0x0Au8 => Some(Opcode::Load),
            0x0Bu8 => Some(Opcode::Stow),
            0x0Cu8 => Some(Opcode::Drop),
            0x0Eu8 => Some(Opcode::Input),
            0x0Fu8 => Some(Opcode::Output),
            0x10u8 => Some(Opcode::Pop),
            0x11u8 => Some(Opcode::Push1),
            0x12u8 => Some(Opcode::Push2),
            0x13u8 => Some(Opcode::Push3),
            0x14u8 => Some(Opcode::Push4),
            0x15u8 => Some(Opcode::Push5),
            0x16u8 => Some(Opcode::Push6),
            0x17u8 => Some(Opcode::Push7),
            0x18u8 => Some(Opcode::Push8),
            0x19u8 => Some(Opcode::Lidx),
            0x1Au8 => Some(Opcode::Sclr),
            0x1Bu8 => Some(Opcode::Swap),
            0x1Cu8 => Some(Opcode::Copy),
            0x1Du8 => Some(Opcode::Jump1),
            0x1Eu8 => Some(Opcode::JumpI1),
            0x20u8 => Some(Opcode::Add),
            0x21u8 => Some(Opcode::Sub),
            0x22u8 => Some(Opcode::Mul),
            0x23u8 => Some(Opcode::Div),
            0x24u8 => Some(Opcode::Modulo),
            0x25u8 => Some(Opcode::Sqr),
            0x26u8 => Some(Opcode::Abs),
            0x27u8 => Some(Opcode::Neg),
            0x28u8 => Some(Opcode::Min),
            0x29u8 => Some(Opcode::Max),
            0x2Au8 => Some(Opcode::Inc),
            0x2Bu8 => Some(Opcode::Dec),
            0x30u8 => Some(Opcode::Eq),
            0x31u8 => Some(Opcode::Lt),
            0x32u8 => Some(Opcode::Gt),
            0x33u8 => Some(Opcode::Lte),
            0x34u8 => Some(Opcode::Gte),
            0x36u8 => Some(Opcode::Not),
            0x37u8 => Some(Opcode::And),
            0x38u8 => Some(Opcode::Or),
            0x39u8 => Some(Opcode::Xor),
            0x3Au8 => Some(Opcode::BAnd),
            0x3Bu8 => Some(Opcode::BOr),
            0x3Cu8 => Some(Opcode::BXor),
            0x3Du8 => Some(Opcode::BNot),
            0x3Eu8 => Some(Opcode::Shl),
            0x3Fu8 => Some(Opcode::Shr),
            0x40u8 => Some(Opcode::Bqmx),
            0x41u8 => Some(Opcode::Sqmx),
            0x42u8 => Some(Opcode::Xqmx),
            0x43u8 => Some(Opcode::Bsmx),
            0x44u8 => Some(Opcode::Ssmx),
            0x45u8 => Some(Opcode::Xsmx),
            0x4Au8 => Some(Opcode::Vec),
            0x4Bu8 => Some(Opcode::VecI),
            0x4Cu8 => Some(Opcode::VecX),
            0x50u8 => Some(Opcode::VecPush),
            0x51u8 => Some(Opcode::VecGet),
            0x52u8 => Some(Opcode::VecSet),
            0x53u8 => Some(Opcode::VecLen),
            0x5Au8 => Some(Opcode::IdxGrid),
            0x5Bu8 => Some(Opcode::IdxTriu),
            0x60u8 => Some(Opcode::GetLine),
            0x61u8 => Some(Opcode::SetLine),
            0x62u8 => Some(Opcode::AddLine),
            0x63u8 => Some(Opcode::GetQuad),
            0x64u8 => Some(Opcode::SetQuad),
            0x65u8 => Some(Opcode::AddQuad),
            0x66u8 => Some(Opcode::Resize),
            0x67u8 => Some(Opcode::RowFind),
            0x68u8 => Some(Opcode::ColFind),
            0x69u8 => Some(Opcode::RowSum),
            0x6Au8 => Some(Opcode::ColSum),
            0x70u8 => Some(Opcode::OneHotR),
            0x71u8 => Some(Opcode::OneHotC),
            0x72u8 => Some(Opcode::Exclude),
            0x73u8 => Some(Opcode::Implies),
            0x7Fu8 => Some(Opcode::Energy),
            _ => None,
        }
    }

    /// Number of operand bytes that follow the opcode byte.
    pub open spec fn spec_operand_len(self) -> nat {
        match self {
            Opcode::Nop => 0nat,
            Opcode::Target => 0nat,
            Opcode::Jump2 => 2nat,
            Opcode::JumpI2 => 2nat,
            Opcode::Next => 0nat,
            Opcode::LVal => 1nat,
            Opcode::Range => 0nat,
            Opcode::Iter => 1nat,
            Opcode::Halt => 0nat,
            Opcode::Load => 1nat,
            Opcode::Stow => 1nat,
            Opcode::Drop => 1nat,
            Opcode::Input => 1nat,
            Opcode::Output => 1nat,
            Opcode::Pop => 0nat,
            Opcode::Push1 => 1nat,
            Opcode::Push2 => 2nat,
            Opcode::Push3 => 3nat,
            Opcode::Push4 => 4nat,
            Opcode::Push5 => 5nat,
            Opcode::Push6 => 6nat,
            Opcode::Push7 => 7nat,
            Opcode::Push8 => 8nat,
            Opcode::Lidx => 1nat,
            Opcode::Sclr => 0nat,
            Opcode::Swap => 0nat,
            Opcode::Copy => 0nat,
            Opcode::Jump1 => 1nat,
            Opcode::JumpI1 => 1nat,
            Opcode::Add => 0nat,
            Opcode::Sub => 0nat,
            Opcode::Mul => 0nat,
            Opcode::Div => 0nat,
            Opcode::Modulo => 0nat,
            Opcode::Sqr => 0nat,
            Opcode::Abs => 0nat,
            Opcode::Neg => 0nat,
            Opcode::Min => 0nat,
            Opcode::Max => 0nat,
            Opcode::Inc => 0nat,
            Opcode::Dec => 0nat,
            Opcode::Eq => 0nat,
            Opcode::Lt => 0nat,
            Opcode::Gt => 0nat,
            Opcode::Lte => 0nat,
            Opcode::Gte => 0nat,
            Opcode::Not => 0nat,
            Opcode::And => 0nat,
            Opcode::Or => 0nat,
            Opcode::Xor => 0nat,
            Opcode::BAnd => 0nat,
            Opcode::BOr => 0nat,
            Opcode::BXor => 0nat,
            Opcode::BNot => 0nat,
            Opcode::Shl => 0nat,
            Opcode::Shr => 0nat,
            Opcode::Bqmx => 1nat,
            Opcode::Sqmx => 1nat,
            Opcode::Xqmx => 1nat,
            Opcode::Bsmx => 1nat,
            Opcode::Ssmx => 1nat,
            Opcode::Xsmx => 1nat,
            Opcode::Vec => 1nat,
            Opcode::VecI => 1nat,
            Opcode::VecX => 1nat,
            Opcode::VecPush => 1nat,
            Opcode::VecGet => 1nat,
            Opcode::VecSet => 1nat,
            Opcode::VecLen => 1nat,
            Opcode::IdxGrid => 0nat,
            Opcode::IdxTriu => 0nat,
            Opcode::GetLine => 1nat,
            Opcode::SetLine => 1nat,
            Opcode::AddLine => 1nat,
            Opcode::GetQuad => 1nat,
            Opcode::SetQuad => 1nat,
            Opcode::AddQuad => 1nat,
            Opcode::Resize => 1nat,
            Opcode::RowFind => 1nat,
            Opcode::ColFind => 1nat,
            Opcode::RowSum => 1nat,
            Opcode::ColSum => 1nat,
            Opcode::OneHotR => 1nat,
            Opcode::OneHotC => 1nat,
            Opcode::Exclude => 1nat,
            Opcode::Implies => 1nat,
            Opcode::Energy => 2nat,
        }
    }

    /// Total encoded length of an instruction with this opcode.
    pub open spec fn spec_encoded_len(self) -> nat {
        1 + self.spec_operand_len()
    }

    /// The uppercase assembly mnemonic.
    pub open spec fn spec_mnemonic(self) -> Seq<char> {
        match self {
            Opcode::Nop => seq!['N', 'O', 'P'],
            Opcode::Target => seq!['T', 'A', 'R', 'G', 'E', 'T'],
            Opcode::Jump2 => seq!['J', 'U', 'M', 'P', '2'],
            Opcode::JumpI2 => seq!['J', 'U', 'M', 'P', 'I', '2'],
            Opcode::Next => seq!['N', 'E', 'X', 'T'],
            Opcode::LVal => seq!['L', 'V', 'A', 'L'],
            Opcode::Range => seq!['R', 'A', 'N', 'G', 'E'],
            Opcode::Iter => seq!['I', 'T', 'E', 'R'],
            Opcode::Halt => seq!['H', 'A', 'L', 'T'],
            Opcode::Load => seq!['L', 'O', 'A', 'D'],
            Opcode::Stow => seq!['S', 'T', 'O', 'W'],
            Opcode::Drop => seq!['D', 'R', 'O', 'P'],
            Opcode::Input => seq!['I', 'N', 'P', 'U', 'T'],
            Opcode::Output => seq!['O', 'U', 'T', 'P', 'U', 'T'],
            Opcode::Pop => seq!['P', 'O', 'P'],
            Opcode::Push1 => seq!['P', 'U', 'S', 'H', '1'],
            Opcode::Push2 => seq!['P', 'U', 'S', 'H', '2'],
            Opcode::Push3 => seq!['P', 'U', 'S', 'H', '3'],
            Opcode::Push4 => seq!['P', 'U', 'S', 'H', '4'],
            Opcode::Push5 => seq!['P', 'U', 'S', 'H', '5'],
            Opcode::Push6 => seq!['P', 'U', 'S', 'H', '6'],
            Opcode::Push7 => seq!['P', 'U', 'S', 'H', '7'],
            Opcode::Push8 => seq!['P', 'U', 'S', 'H', '8'],
            Opcode::Lidx => seq!['L', 'I', 'D', 'X'],
            Opcode::Sclr => seq!['S', 'C', 'L', 'R'],
            Opcode::Swap => seq!['S', 'W', 'A', 'P'],
            Opcode::Copy => seq!['C', 'O', 'P', 'Y'],
            Opcode::Jump1 => seq!['J', 'U', 'M', 'P', '1'],
            Opcode::JumpI1 => seq!['J', 'U', 'M', 'P', 'I', '1'],
            Opcode::Add => seq!['A', 'D', 'D'],
            Opcode::Sub => seq!['S', 'U', 'B'],
            Opcode::Mul => seq!['M', 'U', 'L'],
            Opcode::Div => seq!['D', 'I', 'V'],
            Opcode::Modulo => seq!['M', 'O', 'D'],
            Opcode::Sqr => seq!['S', 'Q', 'R'],
            Opcode::Abs => seq!['A', 'B', 'S'],
            Opcode::Neg => seq!['N', 'E', 'G'],
            Opcode::Min => seq!['M', 'I', 'N'],
            Opcode::Max => seq!['M', 'A', 'X'],
            Opcode::Inc => seq!['I', 'N', 'C'],
            Opcode::Dec => seq!['D', 'E', 'C'],
            Opcode::Eq => seq!['E', 'Q'],
            Opcode::Lt => seq!['L', 'T'],
            Opcode::Gt => seq!['G', 'T'],
            Opcode::Lte => seq!['L', 'T', 'E'],
            Opcode::Gte => seq!['G', 'T', 'E'],
            Opcode::Not => seq!['N', 'O', 'T'],
            Opcode::And => seq!['A', 'N', 'D'],
            Opcode::Or => seq!['O', 'R'],
            Opcode::Xor => seq!['X', 'O', 'R'],
            Opcode::BAnd => seq!['B', 'A', 'N', 'D'],
            Opcode::BOr => seq!['B', 'O', 'R'],
            Opcode::BXor => seq!['B', 'X', 'O', 'R'],
            Opcode::BNot => seq!['B', 'N', 'O', 'T'],
            Opcode::Shl => seq!['S', 'H', 'L'],
            Opcode::Shr => seq!['S', 'H', 'R'],
            Opcode::Bqmx => seq!['B', 'Q', 'M', 'X'],
            Opcode::Sqmx => seq!['S', 'Q', 'M', 'X'],
            Opcode::Xqmx => seq!['X', 'Q', 'M', 'X'],
            Opcode::Bsmx => seq!['B', 'S', 'M', 'X'],
            Opcode::Ssmx => seq!['S', 'S', 'M', 'X'],
            Opcode::Xsmx => seq!['X', 'S', 'M', 'X'],
            Opcode::Vec => seq!['V', 'E', 'C'],
            Opcode::VecI => seq!['V', 'E', 'C', 'I'],
            Opcode::VecX => seq!['V', 'E', 'C', 'X'],
            Opcode::VecPush => seq!['V', 'E', 'C', 'P', 'U', 'S', 'H'],
            Opcode::VecGet => seq!['V', 'E', 'C', 'G', 'E', 'T'],
            Opcode::VecSet => seq!['V', 'E', 'C', 'S', 'E', 'T'],
            Opcode::VecLen => seq!['V', 'E', 'C', 'L', 'E', 'N'],
            Opcode::IdxGrid => seq!['I', 'D', 'X', 'G', 'R', 'I', 'D'],
            Opcode::IdxTriu => seq!['I', 'D', 'X', 'T', 'R', 'I', 'U'],
            Opcode::GetLine => seq!['G', 'E', 'T', 'L', 'I', 'N', 'E'],
            Opcode::SetLine => seq!['S', 'E', 'T', 'L', 'I', 'N', 'E'],
            Opcode::AddLine => seq!['A', 'D', 'D', 'L', 'I', 'N', 'E'],
            Opcode::GetQuad => seq!['G', 'E', 'T', 'Q', 'U', 'A', 'D'],
            Opcode::SetQuad => seq!['S', 'E', 'T', 'Q', 'U', 'A', 'D'],
            Opcode::AddQuad => seq!['A', 'D', 'D', 'Q', 'U', 'A', 'D'],
            Opcode::Resize => seq!['R', 'E', 'S', 'I', 'Z', 'E'],
            Opcode::RowFind => seq!['R', 'O', 'W', 'F', 'I', 'N', 'D'],
            Opcode::ColFind => seq!['C', 'O', 'L', 'F', 'I', 'N', 'D'],
            Opcode::RowSum => seq!['R', 'O', 'W', 'S', 'U', 'M'],
            Opcode::ColSum => seq!['C', 'O', 'L', 'S', 'U', 'M'],
            Opcode::OneHotR => seq!['O', 'N', 'E', 'H', 'O', 'T', 'R'],
            Opcode::OneHotC => seq!['O', 'N', 'E', 'H', 'O', 'T', 'C'],
            Opcode::Exclude => seq!['E', 'X', 'C', 'L', 'U', 'D', 'E'],
            Opcode::Implies => seq!['I', 'M', 'P', 'L', 'I', 'E', 'S'],
            Opcode::Energy => seq!['E', 'N', 'E', 'R', 'G', 'Y'],
        }
    }

    /// The mnemonic as ASCII bytes.
    pub open spec fn spec_mnemonic_bytes(self) -> Seq<u8> {
        match self {
            Opcode::Nop => seq![78u8, 79u8, 80u8],
            Opcode::Target => seq![84u8, 65u8, 82u8, 71u8, 69u8, 84u8],
            Opcode::Jump2 => seq![74u8, 85u8, 77u8, 80u8, 50u8],
            Opcode::JumpI2 => seq![74u8, 85u8, 77u8, 80u8, 73u8, 50u8],
            Opcode::Next => seq![78u8, 69u8, 88u8, 84u8],
            Opcode::LVal => seq![76u8, 86u8, 65u8, 76u8],
            Opcode::Range => seq![82u8, 65u8, 78u8, 71u8, 69u8],
            Opcode::Iter => seq![73u8, 84u8, 69u8, 82u8],
            Opcode::Halt => seq![72u8, 65u8, 76u8, 84u8],
            Opcode::Load => seq![76u8, 79u8, 65u8, 68u8],
            Opcode::Stow => seq![83u8, 84u8, 79u8, 87u8],
            Opcode::Drop => seq![68u8, 82u8, 79u8, 80u8],
            Opcode::Input => seq![73u8, 78u8, 80u8, 85u8, 84u8],
            Opcode::Output => seq![79u8, 85u8, 84u8, 80u8, 85u8, 84u8],
            Opcode::Pop => seq![80u8, 79u8, 80u8],
            Opcode::Push1 => seq![80u8, 85u8, 83u8, 72u8, 49u8],
            Opcode::Push2 => seq![80u8, 85u8, 83u8, 72u8, 50u8],
            Opcode::Push3 => seq![80u8, 85u8, 83u8, 72u8, 51u8],
            Opcode::Push4 => seq![80u8, 85u8, 83u8, 72u8, 52u8],
            Opcode::Push5 => seq![80u8, 85u8, 83u8, 72u8, 53u8],
            Opcode::Push6 => seq![80u8, 85u8, 83u8, 72u8, 54u8],
            Opcode::Push7 => seq![80u8, 85u8, 83u8, 72u8, 55u8],
            Opcode::Push8 => seq![80u8, 85u8, 83u8, 72u8, 56u8],
            Opcode::Lidx => seq![76u8, 73u8, 68u8, 88u8],
            Opcode::Sclr => seq![83u8, 67u8, 76u8, 82u8],
            Opcode::Swap => seq![83u8, 87u8, 65u8, 80u8],
            Opcode::Copy => seq![67u8, 79u8, 80u8, 89u8],
            Opcode::Jump1 => seq![74u8, 85u8, 77u8, 80u8, 49u8],
            Opcode::JumpI1 => seq![74u8, 85u8, 77u8, 80u8, 73u8, 49u8],
            Opcode::Add => seq![65u8, 68u8, 68u8],
            Opcode::Sub => seq![83u8, 85u8, 66u8],
            Opcode::Mul => seq![77u8, 85u8, 76u8],
            Opcode::Div => seq![68u8, 73u8, 86u8],
            Opcode::Modulo => seq![77u8, 79u8, 68u8],
            Opcode::Sqr => seq![83u8, 81u8, 82u8],
            Opcode::Abs => seq![65u8, 66u8, 83u8],
            Opcode::Neg => seq![78u8, 69u8, 71u8],
            Opcode::Min => seq![77u8, 73u8, 78u8],
            Opcode::Max => seq![77u8, 65u8, 88u8],
            Opcode::Inc => seq![73u8, 78u8, 67u8],
            Opcode::Dec => seq![68u8, 69u8, 67u8],
            Opcode::Eq => seq![69u8, 81u8],
            Opcode::Lt => seq![76u8, 84u8],
            Opcode::Gt => seq![71u8, 84u8],
            Opcode::Lte => seq![76u8, 84u8, 69u8],
            Opcode::Gte => seq![71u8, 84u8, 69u8],
            Opcode::Not => seq![78u8, 79u8, 84u8],
            Opcode::And => seq![65u8, 78u8, 68u8],
            Opcode::Or => seq![79u8, 82u8],
            Opcode::Xor => seq![88u8, 79u8, 82u8],
            Opcode::BAnd => seq![66u8, 65u8, 78u8, 68u8],
            Opcode::BOr => seq![66u8, 79u8, 82u8],
            Opcode::BXor => seq![66u8, 88u8, 79u8, 82u8],
            Opcode::BNot => seq![66u8, 78u8, 79u8, 84u8],
            Opcode::Shl => seq![83u8, 72u8, 76u8],
            Opcode::Shr => seq![83u8, 72u8, 82u8],
            Opcode::Bqmx => seq![66u8, 81u8, 77u8, 88u8],
            Opcode::Sqmx => seq![83u8, 81u8, 77u8, 88u8],
            Opcode::Xqmx => seq![88u8, 81u8, 77u8, 88u8],
            Opcode::Bsmx => seq![66u8, 83u8, 77u8, 88u8],
            Opcode::Ssmx => seq![83u8, 83u8, 77u8, 88u8],
            Opcode::Xsmx => seq![88u8, 83u8, 77u8, 88u8],
            Opcode::Vec => seq![86u8, 69u8, 67u8],
            Opcode::VecI => seq![86u8, 69u8, 67u8, 73u8],
            Opcode::VecX => seq![86u8, 69u8, 67u8, 88u8],
            Opcode::VecPush => seq![86u8, 69u8, 67u8, 80u8, 85u8, 83u8, 72u8],
            Opcode::VecGet => seq![86u8, 69u8, 67u8, 71u8, 69u8, 84u8],
            Opcode::VecSet => seq![86u8, 69u8, 67u8, 83u8, 69u8, 84u8],
            Opcode::VecLen => seq![86u8, 69u8, 67u8, 76u8, 69u8, 78u8],
            Opcode::IdxGrid => seq![73u8, 68u8, 88u8, 71u8, 82u8, 73u8, 68u8],
            Opcode::IdxTriu => seq![73u8, 68u8, 88u8, 84u8, 82u8, 73u8, 85u8],
            Opcode::GetLine => seq![71u8, 69u8, 84u8, 76u8, 73u8, 78u8, 69u8],
            Opcode::SetLine => seq![83u8, 69u8, 84u8, 76u8, 73u8, 78u8, 69u8],
            Opcode::AddLine => seq![65u8, 68u8, 68u8, 76u8, 73u8, 78u8, 69u8],
            Opcode::GetQuad => seq![71u8, 69u8, 84u8, 81u8, 85u8, 65u8, 68u8],
            Opcode::SetQuad => seq![83u8, 69u8, 84u8, 81u8, 85u8, 65u8, 68u8],
            Opcode::AddQuad => seq![65u8, 68u8, 68u8, 81u8, 85u8, 65u8, 68u8],
            Opcode::Resize => seq![82u8, 69u8, 83u8, 73u8, 90u8, 69u8],
            Opcode::RowFind => seq![82u8, 79u8, 87u8, 70u8, 73u8, 78u8, 68u8],
            Opcode::ColFind => seq![67u8, 79u8, 76u8, 70u8, 73u8, 78u8, 68u8],
            Opcode::RowSum => seq![82u8, 79u8, 87u8, 83u8, 85u8, 77u8],
            Opcode::ColSum => seq![67u8, 79u8, 76u8, 83u8, 85u8, 77u8],
            Opcode::OneHotR => seq![79u8, 78u8, 69u8, 72u8, 79u8, 84u8, 82u8],
            Opcode::OneHotC => seq![79u8, 78u8, 69u8, 72u8, 79u8, 84u8, 67u8],
            Opcode::Exclude => seq![69u8, 88u8, 67u8, 76u8, 85u8, 68u8, 69u8],
            Opcode::Implies => seq![73u8, 77u8, 80u8, 76u8, 73u8, 69u8, 83u8],
            Opcode::Energy => seq![69u8, 78u8, 69u8, 82u8, 71u8, 89u8],
        }
    }

    /// The opcode whose mnemonic is spelled by the ASCII bytes `s` (exact, uppercase).
    pub open spec fn spec_from_mnemonic(s: Seq<u8>) -> Option<Opcode> {
        if s.len() == 3 && s[0] == 78u8 && s[1] == 79u8 && s[2] == 80u8 {
            Some(Opcode::Nop)
        }
        else if s.len() == 6 && s[0] == 84u8 && s[1] == 65u8 && s[2] == 82u8 && s[3] == 71u8 && s[4] == 69u8 && s[5] == 84u8 {
            Some(Opcode::Target)
        }
        else if s.len() == 5 && s[0] == 74u8 && s[1] == 85u8 && s[2] == 77u8 && s[3] == 80u8 && s[4] == 50u8 {
            Some(Opcode::Jump2)
        }
        else if s.len() == 6 && s[0] == 74u8 && s[1] == 85u8 && s[2] == 77u8 && s[3] == 80u8 && s[4] == 73u8 && s[5] == 50u8 {
            Some(Opcode::JumpI2)
        }
        else if s.len() == 4 && s[0] == 78u8 && s[1] == 69u8 && s[2] == 88u8 && s[3] == 84u8 {
            Some(Opcode::Next)
        }
        else if s.len() == 4 && s[0] == 76u8 && s[1] == 86u8 && s[2] == 65u8 && s[3] == 76u8 {
            Some(Opcode::LVal)
        }
        else if s.len() == 5 && s[0] == 82u8 && s[1] == 65u8 && s[2] == 78u8 && s[3] == 71u8 && s[4] == 69u8 {
            Some(Opcode::Range)
        }
        else if s.len() == 4 && s[0] == 73u8 && s[1] == 84u8 && s[2] == 69u8 && s[3] == 82u8 {
            Some(Opcode::Iter)
        }
        else if s.len() == 4 && s[0] == 72u8 && s[1] == 65u8 && s[2] == 76u8 && s[3] == 84u8 {
            Some(Opcode::Halt)
        }
        else if s.len() == 4 && s[0] == 76u8 && s[1] == 79u8 && s[2] == 65u8 && s[3] == 68u8 {
            Some(Opcode::Load)
        }
        else if s.len() == 4 && s[0] == 83u8 && s[1] == 84u8 && s[2] == 79u8 && s[3] == 87u8 {
            Some(Opcode::Stow)
        }
        else if s.len() == 4 && s[0] == 68u8 && s[1] == 82u8 && s[2] == 79u8 && s[3] == 80u8 {
            Some(Opcode::Drop)
        }
        else if s.len() == 5 && s[0] == 73u8 && s[1] == 78u8 && s[2] == 80u8 && s[3] == 85u8 && s[4] == 84u8 {
            Some(Opcode::Input)
        }
        else if s.len() == 6 && s[0] == 79u8 && s[1] == 85u8 && s[2] == 84u8 && s[3] == 80u8 && s[4] == 85u8 && s[5] == 84u8 {
            Some(Opcode::Output)
        }
        else if s.len() == 3 && s[0] == 80u8 && s[1] == 79u8 && s[2] == 80u8 {
            Some(Opcode::Pop)
        }
        else if s.len() == 5 && s[0] == 80u8 && s[1] == 85u8 && s[2] == 83u8 && s[3] == 72u8 && s[4] == 49u8 {
            Some(Opcode::Push1)
        }
        else if s.len() == 5 && s[0] == 80u8 && s[1] == 85u8 && s[2] == 83u8 && s[3] == 72u8 && s[4] == 50u8 {
            Some(Opcode::Push2)
        }
        else if s.len() == 5 && s[0] == 80u8 && s[1] == 85u8 && s[2] == 83u8 && s[3] == 72u8 && s[4] == 51u8 {
            Some(Opcode::Push3)
        }
        else if s.len() == 5 && s[0] == 80u8 && s[1] == 85u8 && s[2] == 83u8 && s[3] == 72u8 && s[4] == 52u8 {
            Some(Opcode::Push4)
        }
        else if s.len() == 5 && s[0] == 80u8 && s[1] == 85u8 && s[2] == 83u8 && s[3] == 72u8 && s[4] == 53u8 {
            Some(Opcode::Push5)
        }
        else if s.len() == 5 && s[0] == 80u8 && s[1] == 85u8 && s[2] == 83u8 && s[3] == 72u8 && s[4] == 54u8 {
            Some(Opcode::Push6)
        }
        else if s.len() == 5 && s[0] == 80u8 && s[1] == 85u8 && s[2] == 83u8 && s[3] == 72u8 && s[4] == 55u8 {
            Some(Opcode::Push7)
        }
        else if s.len() == 5 && s[0] == 80u8 && s[1] == 85u8 && s[2] == 83u8 && s[3] == 72u8 && s[4] == 56u8 {
            Some(Opcode::Push8)
        }
        else if s.len() == 4 && s[0] == 76u8 && s[1] == 73u8 && s[2] == 68u8 && s[3] == 88u8 {
            Some(Opcode::Lidx)
        }
        else if s.len() == 4 && s[0] == 83u8 && s[1] == 67u8 && s[2] == 76u8 && s[3] == 82u8 {
            Some(Opcode::Sclr)
        }
        else if s.len() == 4 && s[0] == 83u8 && s[1] == 87u8 && s[2] == 65u8 && s[3] == 80u8 {
            Some(Opcode::Swap)
        }
        else if s.len() == 4 && s[0] == 67u8 && s[1] == 79u8 && s[2] == 80u8 && s[3] == 89u8 {
            Some(Opcode::Copy)
        }
        else if s.len() == 5 && s[0] == 74u8 && s[1] == 85u8 && s[2] == 77u8 && s[3] == 80u8 && s[4] == 49u8 {
            Some(Opcode::Jump1)
        }
        else if s.len() == 6 && s[0] == 74u8 && s[1] == 85u8 && s[2] == 77u8 && s[3] == 80u8 && s[4] == 73u8 && s[5] == 49u8 {
            Some(Opcode::JumpI1)
        }
        else if s.len() == 3 && s[0] == 65u8 && s[1] == 68u8 && s[2] == 68u8 {
            Some(Opcode::Add)
        }
        else if s.len() == 3 && s[0] == 83u8 && s[1] == 85u8 && s[2] == 66u8 {
            Some(Opcode::Sub)
        }
        else if s.len() == 3 && s[0] == 77u8 && s[1] == 85u8 && s[2] == 76u8 {
            Some(Opcode::Mul)
        }
        else if s.len() == 3 && s[0] == 68u8 && s[1] == 73u8 && s[2] == 86u8 {
            Some(Opcode::Div)
        }
        else if s.len() == 3 && s[0] == 77u8 && s[1] == 79u8 && s[2] == 68u8 {
            Some(Opcode::Modulo)
        }
        else if s.len() == 3 && s[0] == 83u8 && s[1] == 81u8 && s[2] == 82u8 {
            Some(Opcode::Sqr)
        }
        else if s.len() == 3 && s[0] == 65u8 && s[1] == 66u8 && s[2] == 83u8 {
            Some(Opcode::Abs)
        }
        else if s.len() == 3 && s[0] == 78u8 && s[1] == 69u8 && s[2] == 71u8 {
            Some(Opcode::Neg)
        }
        else if s.len() == 3 && s[0] == 77u8 && s[1] == 73u8 && s[2] == 78u8 {
            Some(Opcode::Min)
        }
        else if s.len() == 3 && s[0] == 77u8 && s[1] == 65u8 && s[2] == 88u8 {
            Some(Opcode::Max)
        }
        else if s.len() == 3 && s[0] == 73u8 && s[1] == 78u8 && s[2] == 67u8 {
            Some(Opcode::Inc)
        }
        else if s.len() == 3 && s[0] == 68u8 && s[1] == 69u8 && s[2] == 67u8 {
            Some(Opcode::Dec)
        }
        else if s.len() == 2 && s[0] == 69u8 && s[1] == 81u8 {
            Some(Opcode::Eq)
        }
        else if s.len() == 2 && s[0] == 76u8 && s[1] == 84u8 {
            Some(Opcode::Lt)
        }
        else if s.len() == 2 && s[0] == 71u8 && s[1] == 84u8 {
            Some(Opcode::Gt)
        }
        else if s.len() == 3 && s[0] == 76u8 && s[1] == 84u8 && s[2] == 69u8 {
            Some(Opcode::Lte)
        }
        else if s.len() == 3 && s[0] == 71u8 && s[1] == 84u8 && s[2] == 69u8 {
            Some(Opcode::Gte)
        }
        else if s.len() == 3 && s[0] == 78u8 && s[1] == 79u8 && s[2] == 84u8 {
            Some(Opcode::Not)
        }
        else if s.len() == 3 && s[0] == 65u8 && s[1] == 78u8 && s[2] == 68u8 {
            Some(Opcode::And)
        }
        else if s.len() == 2 && s[0] == 79u8 && s[1] == 82u8 {
            Some(Opcode::Or)
        }
        else if s.len() == 3 && s[0] == 88u8 && s[1] == 79u8 && s[2] == 82u8 {
            Some(Opcode::Xor)
        }
        else if s.len() == 4 && s[0] == 66u8 && s[1] == 65u8 && s[2] == 78u8 && s[3] == 68u8 {
            Some(Opcode::BAnd)
        }
        else if s.len() == 3 && s[0] == 66u8 && s[1] == 79u8 && s[2] == 82u8 {
            Some(Opcode::BOr)
        }
        else if s.len() == 4 && s[0] == 66u8 && s[1] == 88u8 && s[2] == 79u8 && s[3] == 82u8 {
            Some(Opcode::BXor)
        }
        else if s.len() == 4 && s[0] == 66u8 && s[1] == 78u8 && s[2] == 79u8 && s[3] == 84u8 {
            Some(Opcode::BNot)
        }
        else if s.len() == 3 && s[0] == 83u8 && s[1] == 72u8 && s[2] == 76u8 {
            Some(Opcode::Shl)
        }
        else if s.len() == 3 && s[0] == 83u8 && s[1] == 72u8 && s[2] == 82u8 {
            Some(Opcode::Shr)
        }
        else if s.len() == 4 && s[0] == 66u8 && s[1] == 81u8 && s[2] == 77u8 && s[3] == 88u8 {
            Some(Opcode::Bqmx)
        }
        else if s.len() == 4 && s[0] == 83u8 && s[1] == 81u8 && s[2] == 77u8 && s[3] == 88u8 {
            Some(Opcode::Sqmx)
        }
        else if s.len() == 4 && s[0] == 88u8 && s[1] == 81u8 && s[2] == 77u8 && s[3] == 88u8 {
            Some(Opcode::Xqmx)
        }
        else if s.len() == 4 && s[0] == 66u8 && s[1] == 83u8 && s[2] == 77u8 && s[3] == 88u8 {
            Some(Opcode::Bsmx)
        }
        else if s.len() == 4 && s[0] == 83u8 && s[1] == 83u8 && s[2] == 77u8 && s[3] == 88u8 {
            Some(Opcode::Ssmx)
        }
        else if s.len() == 4 && s[0] == 88u8 && s[1] == 83u8 && s[2] == 77u8 && s[3] == 88u8 {
            Some(Opcode::Xsmx)
        }
        else if s.len() == 3 && s[0] == 86u8 && s[1] == 69u8 && s[2] == 67u8 {
            Some(Opcode::Vec)
        }
        else if s.len() == 4 && s[0] == 86u8 && s[1] == 69u8 && s[2] == 67u8 && s[3] == 73u8 {
            Some(Opcode::VecI)
        }
        else if s.len() == 4 && s[0] == 86u8 && s[1] == 69u8 && s[2] == 67u8 && s[3] == 88u8 {
            Some(Opcode::VecX)
        }
        else if s.len() == 7 && s[0] == 86u8 && s[1] == 69u8 && s[2] == 67u8 && s[3] == 80u8 && s[4] == 85u8 && s[5] == 83u8 && s[6] == 72u8 {
            Some(Opcode::VecPush)
        }
        else if s.len() == 6 && s[0] == 86u8 && s[1] == 69u8 && s[2] == 67u8 && s[3] == 71u8 && s[4] == 69u8 && s[5] == 84u8 {
            Some(Opcode::VecGet)
        }
        else if s.len() == 6 && s[0] == 86u8 && s[1] == 69u8 && s[2] == 67u8 && s[3] == 83u8 && s[4] == 69u8 && s[5] == 84u8 {
            Some(Opcode::VecSet)
        }
        else if s.len() == 6 && s[0] == 86u8 && s[1] == 69u8 && s[2] == 67u8 && s[3] == 76u8 && s[4] == 69u8 && s[5] == 78u8 {
            Some(Opcode::VecLen)
        }
        else if s.len() == 7 && s[0] == 73u8 && s[1] == 68u8 && s[2] == 88u8 && s[3] == 71u8 && s[4] == 82u8 && s[5] == 73u8 && s[6] == 68u8 {
            Some(Opcode::IdxGrid)
        }
        else if s.len() == 7 && s[0] == 73u8 && s[1] == 68u8 && s[2] == 88u8 && s[3] == 84u8 && s[4] == 82u8 && s[5] == 73u8 && s[6] == 85u8 {
            Some(Opcode::IdxTriu)
        }
        else if s.len() == 7 && s[0] == 71u8 && s[1] == 69u8 && s[2] == 84u8 && s[3] == 76u8 && s[4] == 73u8 && s[5] == 78u8 && s[6] == 69u8 {
            Some(Opcode::GetLine)
        }
        else if s.len() == 7 && s[0] == 83u8 && s[1] == 69u8 && s[2] == 84u8 && s[3] == 76u8 && s[4] == 73u8 && s[5] == 78u8 && s[6] == 69u8 {
            Some(Opcode::SetLine)
        }
        else if s.len() == 7 && s[0] == 65u8 && s[1] == 68u8 && s[2] == 68u8 && s[3] == 76u8 && s[4] == 73u8 && s[5] == 78u8 && s[6] == 69u8 {
            Some(Opcode::AddLine)
        }
        else if s.len() == 7 && s[0] == 71u8 && s[1] == 69u8 && s[2] == 84u8 && s[3] == 81u8 && s[4] == 85u8 && s[5] == 65u8 && s[6] == 68u8 {
            Some(Opcode::GetQuad)
        }
        else if s.len() == 7 && s[0] == 83u8 && s[1] == 69u8 && s[2] == 84u8 && s[3] == 81u8 && s[4] == 85u8 && s[5] == 65u8 && s[6] == 68u8 {
            Some(Opcode::SetQuad)
        }
        else if s.len() == 7 && s[0] == 65u8 && s[1] == 68u8 && s[2] == 68u8 && s[3] == 81u8 && s[4] == 85u8 && s[5] == 65u8 && s[6] == 68u8 {
            Some(Opcode::AddQuad)
        }
        else if s.len() == 6 && s[0] == 82u8 && s[1] == 69u8 && s[2] == 83u8 && s[3] == 73u8 && s[4] == 90u8 && s[5] == 69u8 {
            Some(Opcode::Resize)
        }
        else if s.len() == 7 && s[0] == 82u8 && s[1] == 79u8 && s[2] == 87u8 && s[3] == 70u8 && s[4] == 73u8 && s[5] == 78u8 && s[6] == 68u8 {
            Some(Opcode::RowFind)
        }
        else if s.len() == 7 && s[0] == 67u8 && s[1] == 79u8 && s[2] == 76u8 && s[3] == 70u8 && s[4] == 73u8 && s[5] == 78u8 && s[6] == 68u8 {
            Some(Opcode::ColFind)
        }
        else if s.len() == 6 && s[0] == 82u8 && s[1] == 79u8 && s[2] == 87u8 && s[3] == 83u8 && s[4] == 85u8 && s[5] == 77u8 {
            Some(Opcode::RowSum)
        }
        else if s.len() == 6 && s[0] == 67u8 && s[1] == 79u8 && s[2] == 76u8 && s[3] == 83u8 && s[4] == 85u8 && s[5] == 77u8 {
            Some(Opcode::ColSum)
        }
        else if s.len() == 7 && s[0] == 79u8 && s[1] == 78u8 && s[2] == 69u8 && s[3] == 72u8 && s[4] == 79u8 && s[5] == 84u8 && s[6] == 82u8 {
            Some(Opcode::OneHotR)
        }
        else if s.len() == 7 && s[0] == 79u8 && s[1] == 78u8 && s[2] == 69u8 && s[3] == 72u8 && s[4] == 79u8 && s[5] == 84u8 && s[6] == 67u8 {
            Some(Opcode::OneHotC)
        }
        else if s.len() == 7 && s[0] == 69u8 && s[1] == 88u8 && s[2] == 67u8 && s[3] == 76u8 && s[4] == 85u8 && s[5] == 68u8 && s[6] == 69u8 {
            Some(Opcode::Exclude)
        }
        else if s.len() == 7 && s[0] == 73u8 && s[1] == 77u8 && s[2] == 80u8 && s[3] == 76u8 && s[4] == 73u8 && s[5] == 69u8 && s[6] == 83u8 {
            Some(Opcode::Implies)
        }
        else if s.len() == 6 && s[0] == 69u8 && s[1] == 78u8 && s[2] == 69u8 && s[3] == 82u8 && s[4] == 71u8 && s[5] == 89u8 {
            Some(Opcode::Energy)
        }
        else {
            None
        }
    }

    /// The wire byte of this opcode.
    pub fn byte(self) -> (b: u8)
        ensures
            b == self.spec_byte(),
    {
        match self {
            Opcode::Nop => 0x00u8,
            Opcode::Target => 0x01u8,
            Opcode::Jump2 => 0x02u8,
            Opcode::JumpI2 => 0x03u8,
            Opcode::Next => 0x04u8,
            Opcode::LVal => 0x05u8,
            Opcode::Range => 0x06u8,
            Opcode::Iter => 0x07u8,
            Opcode::Halt => 0x09u8,
            Opcode::Load => 0x0Au8,
            Opcode::Stow => 0x0Bu8,
            Opcode::Drop => 0x0Cu8,
            Opcode::Input => 0x0Eu8,
            Opcode::Output => 0x0Fu8,
            Opcode::Pop => 0x10u8,
            Opcode::Push1 => 0x11u8,
            Opcode::Push2 => 0x12u8,
            Opcode::Push3 => 0x13u8,
            Opcode::Push4 => 0x14u8,
            Opcode::Push5 => 0x15u8,
            Opcode::Push6 => 0x16u8,
            Opcode::Push7 => 0x17u8,
            Opcode::Push8 => 0x18u8,
            Opcode::Lidx => 0x19u8,
            Opcode::Sclr => 0x1Au8,
            Opcode::Swap => 0x1Bu8,
            Opcode::Copy => 0x1Cu8,
            Opcode::Jump1 => 0x1Du8,
            Opcode::JumpI1 => 0x1Eu8,
            Opcode::Add => 0x20u8,
            Opcode::Sub => 0x21u8,
            Opcode::Mul => 0x22u8,
            Opcode::Div => 0x23u8,
            Opcode::Modulo => 0x24u8,
            Opcode::Sqr => 0x25u8,
            Opcode::Abs => 0x26u8,
            Opcode::Neg => 0x27u8,
            Opcode::Min => 0x28u8,
            Opcode::Max => 0x29u8,
            Opcode::Inc => 0x2Au8,
            Opcode::Dec => 0x2Bu8,
            Opcode::Eq => 0x30u8,
            Opcode::Lt => 0x31u8,
            Opcode::Gt => 0x32u8,
            Opcode::Lte => 0x33u8,
            Opcode::Gte => 0x34u8,
            Opcode::Not => 0x36u8,
            Opcode::And => 0x37u8,
            Opcode::Or => 0x38u8,
            Opcode::Xor => 0x39u8,
            Opcode::BAnd => 0x3Au8,
            Opcode::BOr => 0x3Bu8,
            Opcode::BXor => 0x3Cu8,
            Opcode::BNot => 0x3Du8,
            Opcode::Shl => 0x3Eu8,
            Opcode::Shr => 0x3Fu8,
            Opcode::Bqmx => 0x40u8,
            Opcode::Sqmx => 0x41u8,
            Opcode::Xqmx => 0x42u8,
            Opcode::Bsmx => 0x43u8,
            Opcode::Ssmx => 0x44u8,
            Opcode::Xsmx => 0x45u8,
            Opcode::Vec => 0x4Au8,
            Opcode::VecI => 0x4Bu8,
            Opcode::VecX => 0x4Cu8,
            Opcode::VecPush => 0x50u8,
            Opcode::VecGet => 0x51u8,
            Opcode::VecSet => 0x52u8,
            Opcode::VecLen => 0x53u8,
            Opcode::IdxGrid => 0x5Au8,
            Opcode::IdxTriu => 0x5Bu8,
            Opcode::GetLine => 0x60u8,
            Opcode::SetLine => 0x61u8,
            Opcode::AddLine => 0x62u8,
            Opcode::GetQuad => 0x63u8,
            Opcode::SetQuad => 0x64u8,
            Opcode::AddQuad => 0x65u8,
            Opcode::Resize => 0x66u8,
            Opcode::RowFind => 0x67u8,
            Opcode::ColFind => 0x68u8,
            Opcode::RowSum => 0x69u8,
            Opcode::ColSum => 0x6Au8,
            Opcode::OneHotR => 0x70u8,
            Opcode::OneHotC => 0x71u8,
            Opcode::Exclude => 0x72u8,
            Opcode::Implies => 0x73u8,
            Opcode::Energy => 0x7Fu8,
        }
    }

    /// Decode an opcode byte; `None` for an unassigned byte.
    pub fn from_byte(b: u8) -> (r: Option<Opcode>)
        ensures
            r == Self::spec_from_byte(b),
    {
        match b {
            0x00u8 => Some(Opcode::Nop),
            0x01u8 => Some(Opcode::Target),
            0x02u8 => Some(Opcode::Jump2),
            0x03u8 => Some(Opcode::JumpI2),
            0x04u8 => Some(Opcode::Next),
            0x05u8 => Some(Opcode::LVal),
            0x06u8 => Some(Opcode::Range),
            0x07u8 => Some(Opcode::Iter),
            0x09u8 => Some(Opcode::Halt),
            0x0Au8 => Some(Opcode::Load),
            0x0Bu8 => Some(Opcode::Stow),
            0x0Cu8 => Some(Opcode::Drop),
            0x0Eu8 => Some(Opcode::Input),
            0x0Fu8 => Some(Opcode::Output),
            0x10u8 => Some(Opcode::Pop),
            0x11u8 => Some(Opcode::Push1),
            0x12u8 => Some(Opcode::Push2),
            0x13u8 => Some(Opcode::Push3),
            0x14u8 => Some(Opcode::Push4),
            0x15u8 => Some(Opcode::Push5),
            0x16u8 => Some(Opcode::Push6),
            0x17u8 => Some(Opcode::Push7),
            0x18u8 => Some(Opcode::Push8),
            0x19u8 => Some(Opcode::Lidx),
            0x1Au8 => Some(Opcode::Sclr),
            0x1Bu8 => Some(Opcode::Swap),
            0x1Cu8 => Some(Opcode::Copy),
            0x1Du8 => Some(Opcode::Jump1),
            0x1Eu8 => Some(Opcode::JumpI1),
            0x20u8 => Some(Opcode::Add),
            0x21u8 => Some(Opcode::Sub),
            0x22u8 => Some(Opcode::Mul),
            0x23u8 => Some(Opcode::Div),
            0x24u8 => Some(Opcode::Modulo),
            0x25u8 => Some(Opcode::Sqr),
            0x26u8 => Some(Opcode::Abs),
            0x27u8 => Some(Opcode::Neg),
            0x28u8 => Some(Opcode::Min),
            0x29u8 => Some(Opcode::Max),
            0x2Au8 => Some(Opcode::Inc),
            0x2Bu8 => Some(Opcode::Dec),
            0x30u8 => Some(Opcode::Eq),
            0x31u8 => Some(Opcode::Lt),
            0x32u8 => Some(Opcode::Gt),
            0x33u8 => Some(Opcode::Lte),
            0x34u8 => Some(Opcode::Gte),
            0x36u8 => Some(Opcode::Not),
            0x37u8 => Some(Opcode::And),
            0x38u8 => Some(Opcode::Or),
            0x39u8 => Some(Opcode::Xor),
            0x3Au8 => Some(Opcode::BAnd),
            0x3Bu8 => Some(Opcode::BOr),
            0x3Cu8 => Some(Opcode::BXor),
            0x3Du8 => Some(Opcode::BNot),
            0x3Eu8 => Some(Opcode::Shl),
            0x3Fu8 => Some(Opcode::Shr),
            0x40u8 => Some(Opcode::Bqmx),
            0x41u8 => Some(Opcode::Sqmx),
            0x42u8 => Some(Opcode::Xqmx),
            0x43u8 => Some(Opcode::Bsmx),
            0x44u8 => Some(Opcode::Ssmx),
            0x45u8 => Some(Opcode::Xsmx),
            0x4Au8 => Some(Opcode::Vec),
            0x4Bu8 => Some(Opcode::VecI),
            0x4Cu8 => Some(Opcode::VecX),
            0x50u8 => Some(Opcode::VecPush),
            0x51u8 => Some(Opcode::VecGet),
            0x52u8 => Some(Opcode::VecSet),
            0x53u8 => Some(Opcode::VecLen),
            0x5Au8 => Some(Opcode::IdxGrid),
            0x5Bu8 => Some(Opcode::IdxTriu),
            0x60u8 => Some(Opcode::GetLine),
            0x61u8 => Some(Opcode::SetLine),
            0x62u8 => Some(Opcode::AddLine),
            0x63u8 => Some(Opcode::GetQuad),
            0x64u8 => Some(Opcode::SetQuad),
            0x65u8 => Some(Opcode::AddQuad),
            0x66u8 => Some(Opcode::Resize),
            0x67u8 => Some(Opcode::RowFind),
            0x68u8 => Some(Opcode::ColFind),
            0x69u8 => Some(Opcode::RowSum),
            0x6Au8 => Some(Opcode::ColSum),
            0x70u8 => Some(Opcode::OneHotR),
            0x71u8 => Some(Opcode::OneHotC),
            0x72u8 => Some(Opcode::Exclude),
            0x73u8 => Some(Opcode::Implies),
            0x7Fu8 => Some(Opcode::Energy),
            _ => None,
        }
    }

    /// Number of operand bytes that follow the opcode byte.
    pub fn operand_len(self) -> (n: usize)
        ensures
            n == self.spec_operand_len(),
    {
        match self {
            Opcode::Nop => 0,
            Opcode::Target => 0,
            Opcode::Jump2 => 2,
            Opcode::JumpI2 => 2,
            Opcode::Next => 0,
            Opcode::LVal => 1,
            Opcode::Range => 0,
            Opcode::Iter => 1,
            Opcode::Halt => 0,
            Opcode::Load => 1,
            Opcode::Stow => 1,
            Opcode::Drop => 1,
            Opcode::Input => 1,
            Opcode::Output => 1,
            Opcode::Pop => 0,
            Opcode::Push1 => 1,
            Opcode::Push2 => 2,
            Opcode::Push3 => 3,
            Opcode::Push4 => 4,
            Opcode::Push5 => 5,
            Opcode::Push6 => 6,
            Opcode::Push7 => 7,
            Opcode::Push8 => 8,
            Opcode::Lidx => 1,
            Opcode::Sclr => 0,
            Opcode::Swap => 0,
            Opcode::Copy => 0,
            Opcode::Jump1 => 1,
            Opcode::JumpI1 => 1,
            Opcode::Add => 0,
            Opcode::Sub => 0,
            Opcode::Mul => 0,
            Opcode::Div => 0,
            Opcode::Modulo => 0,
            Opcode::Sqr => 0,
            Opcode::Abs => 0,
            Opcode::Neg => 0,
            Opcode::Min => 0,
            Opcode::Max => 0,
            Opcode::Inc => 0,
            Opcode::Dec => 0,
            Opcode::Eq => 0,
            Opcode::Lt => 0,
            Opcode::Gt => 0,
            Opcode::Lte => 0,
            Opcode::Gte => 0,
            Opcode::Not => 0,
            Opcode::And => 0,
            Opcode::Or => 0,
            Opcode::Xor => 0,
            Opcode::BAnd => 0,
            Opcode::BOr => 0,
            Opcode::BXor => 0,
            Opcode::BNot => 0,
            Opcode::Shl => 0,
            Opcode::Shr => 0,
            Opcode::Bqmx => 1,
            Opcode::Sqmx => 1,
            Opcode::Xqmx => 1,
            Opcode::Bsmx => 1,
            Opcode::Ssmx => 1,
            Opcode::Xsmx => 1,
            Opcode::Vec => 1,
            Opcode::VecI => 1,
            Opcode::VecX => 1,
            Opcode::VecPush => 1,
            Opcode::VecGet => 1,
            Opcode::VecSet => 1,
            Opcode::VecLen => 1,
            Opcode::IdxGrid => 0,
            Opcode::IdxTriu => 0,
            Opcode::GetLine => 1,
            Opcode::SetLine => 1,
            Opcode::AddLine => 1,
            Opcode::GetQuad => 1,
            Opcode::SetQuad => 1,
            Opcode::AddQuad => 1,
            Opcode::Resize => 1,
            Opcode::RowFind => 1,
            Opcode::ColFind => 1,
            Opcode::RowSum => 1,
            Opcode::ColSum => 1,
            Opcode::OneHotR => 1,
            Opcode::OneHotC => 1,
            Opcode::Exclude => 1,
            Opcode::Implies => 1,
            Opcode::Energy => 2,
        }
    }

    /// The uppercase assembly mnemonic.
    pub fn mnemonic(self) -> (m: &'static str)
        ensures
            m@ == self.spec_mnemonic(),
    {
        match self {
            Opcode::Nop => {
                proof {
                    reveal_strlit("NOP");
                }
                "NOP"
            },
            Opcode::Target => {
                proof {
                    reveal_strlit("TARGET");
                }
                "TARGET"
            },
            Opcode::Jump2 => {
                proof {
                    reveal_strlit("JUMP2");
                }
                "JUMP2"
            },
            Opcode::JumpI2 => {
                proof {
                    reveal_strlit("JUMPI2");
                }
                "JUMPI2"
            },
            Opcode::Next => {
                proof {
                    reveal_strlit("NEXT");
                }
                "NEXT"
            },
            Opcode::LVal => {
                proof {
                    reveal_strlit("LVAL");
                }
                "LVAL"
            },
            Opcode::Range => {
                proof {
                    reveal_strlit("RANGE");
                }
                "RANGE"
            },
            Opcode::Iter => {
                proof {
                    reveal_strlit("ITER");
                }
                "ITER"
            },
            Opcode::Halt => {
                proof {
                    reveal_strlit("HALT");
                }
                "HALT"
            },
            Opcode::Load => {
                proof {
                    reveal_strlit("LOAD");
                }
                "LOAD"
            },
            Opcode::Stow => {
                proof {
                    reveal_strlit("STOW");
                }
                "STOW"
            },
            Opcode::Drop => {
                proof {
                    reveal_strlit("DROP");
                }
                "DROP"
            },
            Opcode::Input => {
                proof {
                    reveal_strlit("INPUT");
                }
                "INPUT"
            },
            Opcode::Output => {
                proof {
                    reveal_strlit("OUTPUT");
                }
                "OUTPUT"
            },
            Opcode::Pop => {
                proof {
                    reveal_strlit("POP");
                }
                "POP"
            },
            Opcode::Push1 => {
                proof {
                    reveal_strlit("PUSH1");
                }
                "PUSH1"
            },
            Opcode::Push2 => {
                proof {
                    reveal_strlit("PUSH2");
                }
                "PUSH2"
            },
            Opcode::Push3 => {
                proof {
                    reveal_strlit("PUSH3");
                }
                "PUSH3"
            },
            Opcode::Push4 => {
                proof {
                    reveal_strlit("PUSH4");
                }
                "PUSH4"
            },
            Opcode::Push5 => {
                proof {
                    reveal_strlit("PUSH5");
                }
                "PUSH5"
            },
            Opcode::Push6 => {
                proof {
                    reveal_strlit("PUSH6");
                }
                "PUSH6"
            },
            Opcode::Push7 => {
                proof {
                    reveal_strlit("PUSH7");
                }
                "PUSH7"
            },
            Opcode::Push8 => {
                proof {
                    reveal_strlit("PUSH8");
                }
                "PUSH8"
            },
            Opcode::Lidx => {
                proof {
                    reveal_strlit("LIDX");
                }
                "LIDX"
            },
            Opcode::Sclr => {
                proof {
                    reveal_strlit("SCLR");
                }
                "SCLR"
            },
            Opcode::Swap => {
                proof {
                    reveal_strlit("SWAP");
                }
                "SWAP"
            },
            Opcode::Copy => {
                proof {
                    reveal_strlit("COPY");
                }
                "COPY"
            },
            Opcode::Jump1 => {
                proof {
                    reveal_strlit("JUMP1");
                }
                "JUMP1"
            },
            Opcode::JumpI1 => {
                proof {
                    reveal_strlit("JUMPI1");
                }
                "JUMPI1"
            },
            Opcode::Add => {
                proof {
                    reveal_strlit("ADD");
                }
                "ADD"
            },
            Opcode::Sub => {
                proof {
                    reveal_strlit("SUB");
                }
                "SUB"
            },
            Opcode::Mul => {
                proof {
                    reveal_strlit("MUL");
                }
                "MUL"
            },
            Opcode::Div => {
                proof {
                    reveal_strlit("DIV");
                }
                "DIV"
            },
            Opcode::Modulo => {
                proof {
                    reveal_strlit("MOD");
                }
                "MOD"
            },
            Opcode::Sqr => {
                proof {
                    reveal_strlit("SQR");
                }
                "SQR"
            },
            Opcode::Abs => {
                proof {
                    reveal_strlit("ABS");
                }
                "ABS"
            },
            Opcode::Neg => {
                proof {
                    reveal_strlit("NEG");
                }
                "NEG"
            },
            Opcode::Min => {
                proof {
                    reveal_strlit("MIN");
                }
                "MIN"
            },
            Opcode::Max => {
                proof {
                    reveal_strlit("MAX");
                }
                "MAX"
            },
            Opcode::Inc => {
                proof {
                    reveal_strlit("INC");
                }
                "INC"
            },
            Opcode::Dec => {
                proof {
                    reveal_strlit("DEC");
                }
                "DEC"
            },
            Opcode::Eq => {
                proof {
                    reveal_strlit("EQ");
                }
                "EQ"
            },
            Opcode::Lt => {
                proof {
                    reveal_strlit("LT");
                }
                "LT"
            },
            Opcode::Gt => {
                proof {
                    reveal_strlit("GT");
                }
                "GT"
            },
            Opcode::Lte => {
                proof {
                    reveal_strlit("LTE");
                }
                "LTE"
            },
            Opcode::Gte => {
                proof {
                    reveal_strlit("GTE");
                }
                "GTE"
            },
            Opcode::Not => {
                proof {
                    reveal_strlit("NOT");
                }
                "NOT"
            },
            Opcode::And => {
                proof {
                    reveal_strlit("AND");
                }
                "AND"
            },
            Opcode::Or => {
                proof {
                    reveal_strlit("OR");
                }
                "OR"
            },
            Opcode::Xor => {
                proof {
                    reveal_strlit("XOR");
                }
                "XOR"
            },
            Opcode::BAnd => {
                proof {
                    reveal_strlit("BAND");
                }
                "BAND"
            },
            Opcode::BOr => {
                proof {
                    reveal_strlit("BOR");
                }
                "BOR"
            },
            Opcode::BXor => {
                proof {
                    reveal_strlit("BXOR");
                }
                "BXOR"
            },
            Opcode::BNot => {
                proof {
                    reveal_strlit("BNOT");
                }
                "BNOT"
            },
            Opcode::Shl => {
                proof {
                    reveal_strlit("SHL");
                }
                "SHL"
            },
            Opcode::Shr => {
                proof {
                    reveal_strlit("SHR");
                }
                "SHR"
            },
            Opcode::Bqmx => {
                proof {
                    reveal_strlit("BQMX");
                }
                "BQMX"
            },
            Opcode::Sqmx => {
                proof {
                    reveal_strlit("SQMX");
                }
                "SQMX"
            },
            Opcode::Xqmx => {
                proof {
                    reveal_strlit("XQMX");
                }
                "XQMX"
            },
            Opcode::Bsmx => {
                proof {
                    reveal_strlit("BSMX");
                }
                "BSMX"
            },
            Opcode::Ssmx => {
                proof {
                    reveal_strlit("SSMX");
                }
                "SSMX"
            },
            Opcode::Xsmx => {
                proof {
                    reveal_strlit("XSMX");
                }
                "XSMX"
            },
            Opcode::Vec => {
                proof {
                    reveal_strlit("VEC");
                }
                "VEC"
            },
            Opcode::VecI => {
                proof {
                    reveal_strlit("VECI");
                }
                "VECI"
            },
            Opcode::VecX => {
                proof {
                    reveal_strlit("VECX");
                }
                "VECX"
            },
            Opcode::VecPush => {
                proof {
                    reveal_strlit("VECPUSH");
                }
                "VECPUSH"
            },
            Opcode::VecGet => {
                proof {
                    reveal_strlit("VECGET");
                }
                "VECGET"
            },
            Opcode::VecSet => {
                proof {
                    reveal_strlit("VECSET");
                }
                "VECSET"
            },
            Opcode::VecLen => {
                proof {
                    reveal_strlit("VECLEN");
                }
                "VECLEN"
            },
            Opcode::IdxGrid => {
                proof {
                    reveal_strlit("IDXGRID");
                }
                "IDXGRID"
            },
            Opcode::IdxTriu => {
                proof {
                    reveal_strlit("IDXTRIU");
                }
                "IDXTRIU"
            },
            Opcode::GetLine => {
                proof {
                    reveal_strlit("GETLINE");
                }
                "GETLINE"
            },
            Opcode::SetLine => {
                proof {
                    reveal_strlit("SETLINE");
                }
                "SETLINE"
            },
            Opcode::AddLine => {
                proof {
                    reveal_strlit("ADDLINE");
                }
                "ADDLINE"
            },
            Opcode::GetQuad => {
                proof {
                    reveal_strlit("GETQUAD");
                }
                "GETQUAD"
            },
            Opcode::SetQuad => {
                proof {
                    reveal_strlit("SETQUAD");
                }
                "SETQUAD"
            },
            Opcode::AddQuad => {
                proof {
                    reveal_strlit("ADDQUAD");
                }
                "ADDQUAD"
            },
            Opcode::Resize => {
                proof {
                    reveal_strlit("RESIZE");
                }
                "RESIZE"
            },
            Opcode::RowFind => {
                proof {
                    reveal_strlit("ROWFIND");
                }
                "ROWFIND"
            },
            Opcode::ColFind => {
                proof {
                    reveal_strlit("COLFIND");
                }
                "COLFIND"
            },
            Opcode::RowSum => {
                proof {
                    reveal_strlit("ROWSUM");
                }
                "ROWSUM"
            },
            Opcode::ColSum => {
                proof {
                    reveal_strlit("COLSUM");
                }
                "COLSUM"
            },
            Opcode::OneHotR => {
                proof {
                    reveal_strlit("ONEHOTR");
                }
                "ONEHOTR"
            },
            Opcode::OneHotC => {
                proof {
                    reveal_strlit("ONEHOTC");
                }
                "ONEHOTC"
            },
            Opcode::Exclude => {
                proof {
                    reveal_strlit("EXCLUDE");
                }
                "EXCLUDE"
            },
            Opcode::Implies => {
                proof {
                    reveal_strlit("IMPLIES");
                }
                "IMPLIES"
            },
            Opcode::Energy => {
                proof {
                    reveal_strlit("ENERGY");
                }
                "ENERGY"
            },
        }
    }

    /// Look up the opcode whose mnemonic is spelled by the uppercase ASCII bytes `s`.
    pub fn from_mnemonic(s: &[u8]) -> (r: Option<Opcode>)
        ensures
            r == Self::spec_from_mnemonic(s@),
    {
        let n = s.len();
        if n == 3 && s[0] == 78u8 && s[1] == 79u8 && s[2] == 80u8 {
            return Some(Opcode::Nop);
        }
        if n == 6 && s[0] == 84u8 && s[1] == 65u8 && s[2] == 82u8 && s[3] == 71u8 && s[4] == 69u8 && s[5] == 84u8 {
            return Some(Opcode::Target);
        }
        if n == 5 && s[0] == 74u8 && s[1] == 85u8 && s[2] == 77u8 && s[3] == 80u8 && s[4] == 50u8 {
            return Some(Opcode::Jump2);
        }
        if n == 6 && s[0] == 74u8 && s[1] == 85u8 && s[2] == 77u8 && s[3] == 80u8 && s[4] == 73u8 && s[5] == 50u8 {
            return Some(Opcode::JumpI2);
        }
        if n == 4 && s[0] == 78u8 && s[1] == 69u8 && s[2] == 88u8 && s[3] == 84u8 {
            return Some(Opcode::Next);
        }
        if n == 4 && s[0] == 76u8 && s[1] == 86u8 && s[2] == 65u8 && s[3] == 76u8 {
            return Some(Opcode::LVal);
        }
        if n == 5 && s[0] == 82u8 && s[1] == 65u8 && s[2] == 78u8 && s[3] == 71u8 && s[4] == 69u8 {
            return Some(Opcode::Range);
        }
        if n == 4 && s[0] == 73u8 && s[1] == 84u8 && s[2] == 69u8 && s[3] == 82u8 {
            return Some(Opcode::Iter);
        }
        if n == 4 && s[0] == 72u8 && s[1] == 65u8 && s[2] == 76u8 && s[3] == 84u8 {
            return Some(Opcode::Halt);
        }
        if n == 4 && s[0] == 76u8 && s[1] == 79u8 && s[2] == 65u8 && s[3] == 68u8 {
            return Some(Opcode::Load);
        }
        if n == 4 && s[0] == 83u8 && s[1] == 84u8 && s[2] == 79u8 && s[3] == 87u8 {
            return Some(Opcode::Stow);
        }
        if n == 4 && s[0] == 68u8 && s[1] == 82u8 && s[2] == 79u8 && s[3] == 80u8 {
            return Some(Opcode::Drop);
        }
        if n == 5 && s[0] == 73u8 && s[1] == 78u8 && s[2] == 80u8 && s[3] == 85u8 && s[4] == 84u8 {
            return Some(Opcode::Input);
        }
        if n == 6 && s[0] == 79u8 && s[1] == 85u8 && s[2] == 84u8 && s[3] == 80u8 && s[4] == 85u8 && s[5] == 84u8 {
            return Some(Opcode::Output);
        }
        if n == 3 && s[0] == 80u8 && s[1] == 79u8 && s[2] == 80u8 {
            return Some(Opcode::Pop);
        }
        if n == 5 && s[0] == 80u8 && s[1] == 85u8 && s[2] == 83u8 && s[3] == 72u8 && s[4] == 49u8 {
            return Some(Opcode::Push1);
        }
        if n == 5 && s[0] == 80u8 && s[1] == 85u8 && s[2] == 83u8 && s[3] == 72u8 && s[4] == 50u8 {
            return Some(Opcode::Push2);
        }
        if n == 5 && s[0] == 80u8 && s[1] == 85u8 && s[2] == 83u8 && s[3] == 72u8 && s[4] == 51u8 {
            return Some(Opcode::Push3);
        }
        if n == 5 && s[0] == 80u8 && s[1] == 85u8 && s[2] == 83u8 && s[3] == 72u8 && s[4] == 52u8 {
            return Some(Opcode::Push4);
        }
        if n == 5 && s[0] == 80u8 && s[1] == 85u8 && s[2] == 83u8 && s[3] == 72u8 && s[4] == 53u8 {
            return Some(Opcode::Push5);
        }
        if n == 5 && s[0] == 80u8 && s[1] == 85u8 && s[2] == 83u8 && s[3] == 72u8 && s[4] == 54u8 {
            return Some(Opcode::Push6);
        }
        if n == 5 && s[0] == 80u8 && s[1] == 85u8 && s[2] == 83u8 && s[3] == 72u8 && s[4] == 55u8 {
            return Some(Opcode::Push7);
        }
        if n == 5 && s[0] == 80u8 && s[1] == 85u8 && s[2] == 83u8 && s[3] == 72u8 && s[4] == 56u8 {
            return Some(Opcode::Push8);
        }
        if n == 4 && s[0] == 76u8 && s[1] == 73u8 && s[2] == 68u8 && s[3] == 88u8 {
            return Some(Opcode::Lidx);
        }
        if n == 4 && s[0] == 83u8 && s[1] == 67u8 && s[2] == 76u8 && s[3] == 82u8 {
            return Some(Opcode::Sclr);
        }
        if n == 4 && s[0] == 83u8 && s[1] == 87u8 && s[2] == 65u8 && s[3] == 80u8 {
            return Some(Opcode::Swap);
        }
        if n == 4 && s[0] == 67u8 && s[1] == 79u8 && s[2] == 80u8 && s[3] == 89u8 {
            return Some(Opcode::Copy);
        }
        if n == 5 && s[0] == 74u8 && s[1] == 85u8 && s[2] == 77u8 && s[3] == 80u8 && s[4] == 49u8 {
            return Some(Opcode::Jump1);
        }
        if n == 6 && s[0] == 74u8 && s[1] == 85u8 && s[2] == 77u8 && s[3] == 80u8 && s[4] == 73u8 && s[5] == 49u8 {
            return Some(Opcode::JumpI1);
        }
        if n == 3 && s[0] == 65u8 && s[1] == 68u8 && s[2] == 68u8 {
            return Some(Opcode::Add);
        }
        if n == 3 && s[0] == 83u8 && s[1] == 85u8 && s[2] == 66u8 {
            return Some(Opcode::Sub);
        }
        if n == 3 && s[0] == 77u8 && s[1] == 85u8 && s[2] == 76u8 {
            return Some(Opcode::Mul);
        }
        if n == 3 && s[0] == 68u8 && s[1] == 73u8 && s[2] == 86u8 {
            return Some(Opcode::Div);
        }
        if n == 3 && s[0] == 77u8 && s[1] == 79u8 && s[2] == 68u8 {
            return Some(Opcode::Modulo);
        }
        if n == 3 && s[0] == 83u8 && s[1] == 81u8 && s[2] == 82u8 {
            return Some(Opcode::Sqr);
        }
        if n == 3 && s[0] == 65u8 && s[1] == 66u8 && s[2] == 83u8 {
            return Some(Opcode::Abs);
        }
        if n == 3 && s[0] == 78u8 && s[1] == 69u8 && s[2] == 71u8 {
            return Some(Opcode::Neg);
        }
        if n == 3 && s[0] == 77u8 && s[1] == 73u8 && s[2] == 78u8 {
            return Some(Opcode::Min);
        }
        if n == 3 && s[0] == 77u8 && s[1] == 65u8 && s[2] == 88u8 {
            return Some(Opcode::Max);
        }
        if n == 3 && s[0] == 73u8 && s[1] == 78u8 && s[2] == 67u8 {
            return Some(Opcode::Inc);
        }
        if n == 3 && s[0] == 68u8 && s[1] == 69u8 && s[2] == 67u8 {
            return Some(Opcode::Dec);
        }
        if n == 2 && s[0] == 69u8 && s[1] == 81u8 {
            return Some(Opcode::Eq);
        }
        if n == 2 && s[0] == 76u8 && s[1] == 84u8 {
            return Some(Opcode::Lt);
        }
        if n == 2 && s[0] == 71u8 && s[1] == 84u8 {
            return Some(Opcode::Gt);
        }
        if n == 3 && s[0] == 76u8 && s[1] == 84u8 && s[2] == 69u8 {
            return Some(Opcode::Lte);
        }
        if n == 3 && s[0] == 71u8 && s[1] == 84u8 && s[2] == 69u8 {
            return Some(Opcode::Gte);
        }
        if n == 3 && s[0] == 78u8 && s[1] == 79u8 && s[2] == 84u8 {
            return Some(Opcode::Not);
        }
        if n == 3 && s[0] == 65u8 && s[1] == 78u8 && s[2] == 68u8 {
            return Some(Opcode::And);
        }
        if n == 2 && s[0] == 79u8 && s[1] == 82u8 {
            return Some(Opcode::Or);
        }
        if n == 3 && s[0] == 88u8 && s[1] == 79u8 && s[2] == 82u8 {
            return Some(Opcode::Xor);
        }
        if n == 4 && s[0] == 66u8 && s[1] == 65u8 && s[2] == 78u8 && s[3] == 68u8 {
            return Some(Opcode::BAnd);
        }
        if n == 3 && s[0] == 66u8 && s[1] == 79u8 && s[2] == 82u8 {
            return Some(Opcode::BOr);
        }
        if n == 4 && s[0] == 66u8 && s[1] == 88u8 && s[2] == 79u8 && s[3] == 82u8 {
            return Some(Opcode::BXor);
        }
        if n == 4 && s[0] == 66u8 && s[1] == 78u8 && s[2] == 79u8 && s[3] == 84u8 {
            return Some(Opcode::BNot);
        }
        if n == 3 && s[0] == 83u8 && s[1] == 72u8 && s[2] == 76u8 {
            return Some(Opcode::Shl);
        }
        if n == 3 && s[0] == 83u8 && s[1] == 72u8 && s[2] == 82u8 {
            return Some(Opcode::Shr);
        }
        if n == 4 && s[0] == 66u8 && s[1] == 81u8 && s[2] == 77u8 && s[3] == 88u8 {
            return Some(Opcode::Bqmx);
        }
        if n == 4 && s[0] == 83u8 && s[1] == 81u8 && s[2] == 77u8 && s[3] == 88u8 {
            return Some(Opcode::Sqmx);
        }
        if n == 4 && s[0] == 88u8 && s[1] == 81u8 && s[2] == 77u8 && s[3] == 88u8 {
            return Some(Opcode::Xqmx);
        }
        if n == 4 && s[0] == 66u8 && s[1] == 83u8 && s[2] == 77u8 && s[3] == 88u8 {
            return Some(Opcode::Bsmx);
        }
        if n == 4 && s[0] == 83u8 && s[1] == 83u8 && s[2] == 77u8 && s[3] == 88u8 {
            return Some(Opcode::Ssmx);
        }
        if n == 4 && s[0] == 88u8 && s[1] == 83u8 && s[2] == 77u8 && s[3] == 88u8 {
            return Some(Opcode::Xsmx);
        }
        if n == 3 && s[0] == 86u8 && s[1] == 69u8 && s[2] == 67u8 {
            return Some(Opcode::Vec);
        }
        if n == 4 && s[0] == 86u8 && s[1] == 69u8 && s[2] == 67u8 && s[3] == 73u8 {
            return Some(Opcode::VecI);
        }
        if n == 4 && s[0] == 86u8 && s[1] == 69u8 && s[2] == 67u8 && s[3] == 88u8 {
            return Some(Opcode::VecX);
        }
        if n == 7 && s[0] == 86u8 && s[1] == 69u8 && s[2] == 67u8 && s[3] == 80u8 && s[4] == 85u8 && s[5] == 83u8 && s[6] == 72u8 {
            return Some(Opcode::VecPush);
        }
        if n == 6 && s[0] == 86u8 && s[1] == 69u8 && s[2] == 67u8 && s[3] == 71u8 && s[4] == 69u8 && s[5] == 84u8 {
            return Some(Opcode::VecGet);
        }
        if n == 6 && s[0] == 86u8 && s[1] == 69u8 && s[2] == 67u8 && s[3] == 83u8 && s[4] == 69u8 && s[5] == 84u8 {
            return Some(Opcode::VecSet);
        }
        if n == 6 && s[0] == 86u8 && s[1] == 69u8 && s[2] == 67u8 && s[3] == 76u8 && s[4] == 69u8 && s[5] == 78u8 {
            return Some(Opcode::VecLen);
        }
        if n == 7 && s[0] == 73u8 && s[1] == 68u8 && s[2] == 88u8 && s[3] == 71u8 && s[4] == 82u8 && s[5] == 73u8 && s[6] == 68u8 {
            return Some(Opcode::IdxGrid);
        }
        if n == 7 && s[0] == 73u8 && s[1] == 68u8 && s[2] == 88u8 && s[3] == 84u8 && s[4] == 82u8 && s[5] == 73u8 && s[6] == 85u8 {
            return Some(Opcode::IdxTriu);
        }
        if n == 7 && s[0] == 71u8 && s[1] == 69u8 && s[2] == 84u8 && s[3] == 76u8 && s[4] == 73u8 && s[5] == 78u8 && s[6] == 69u8 {
            return Some(Opcode::GetLine);
        }
        if n == 7 && s[0] == 83u8 && s[1] == 69u8 && s[2] == 84u8 && s[3] == 76u8 && s[4] == 73u8 && s[5] == 78u8 && s[6] == 69u8 {
            return Some(Opcode::SetLine);
        }
        if n == 7 && s[0] == 65u8 && s[1] == 68u8 && s[2] == 68u8 && s[3] == 76u8 && s[4] == 73u8 && s[5] == 78u8 && s[6] == 69u8 {
            return Some(Opcode::AddLine);
        }
        if n == 7 && s[0] == 71u8 && s[1] == 69u8 && s[2] == 84u8 && s[3] == 81u8 && s[4] == 85u8 && s[5] == 65u8 && s[6] == 68u8 {
            return Some(Opcode::GetQuad);
        }
        if n == 7 && s[0] == 83u8 && s[1] == 69u8 && s[2] == 84u8 && s[3] == 81u8 && s[4] == 85u8 && s[5] == 65u8 && s[6] == 68u8 {
            return Some(Opcode::SetQuad);
        }
        if n == 7 && s[0] == 65u8 && s[1] == 68u8 && s[2] == 68u8 && s[3] == 81u8 && s[4] == 85u8 && s[5] == 65u8 && s[6] == 68u8 {
            return Some(Opcode::AddQuad);
        }
        if n == 6 && s[0] == 82u8 && s[1] == 69u8 && s[2] == 83u8 && s[3] == 73u8 && s[4] == 90u8 && s[5] == 69u8 {
            return Some(Opcode::Resize);
        }
        if n == 7 && s[0] == 82u8 && s[1] == 79u8 && s[2] == 87u8 && s[3] == 70u8 && s[4] == 73u8 && s[5] == 78u8 && s[6] == 68u8 {
            return Some(Opcode::RowFind);
        }
        if n == 7 && s[0] == 67u8 && s[1] == 79u8 && s[2] == 76u8 && s[3] == 70u8 && s[4] == 73u8 && s[5] == 78u8 && s[6] == 68u8 {
            return Some(Opcode::ColFind);
        }
        if n == 6 && s[0] == 82u8 && s[1] == 79u8 && s[2] == 87u8 && s[3] == 83u8 && s[4] == 85u8 && s[5] == 77u8 {
            return Some(Opcode::RowSum);
        }
        if n == 6 && s[0] == 67u8 && s[1] == 79u8 && s[2] == 76u8 && s[3] == 83u8 && s[4] == 85u8 && s[5] == 77u8 {
            return Some(Opcode::ColSum);
        }
        if n == 7 && s[0] == 79u8 && s[1] == 78u8 && s[2] == 69u8 && s[3] == 72u8 && s[4] == 79u8 && s[5] == 84u8 && s[6] == 82u8 {
            return Some(Opcode::OneHotR);
        }
        if n == 7 && s[0] == 79u8 && s[1] == 78u8 && s[2] == 69u8 && s[3] == 72u8 && s[4] == 79u8 && s[5] == 84u8 && s[6] == 67u8 {
            return Some(Opcode::OneHotC);
        }
        if n == 7 && s[0] == 69u8 && s[1] == 88u8 && s[2] == 67u8 && s[3] == 76u8 && s[4] == 85u8 && s[5] == 68u8 && s[6] == 69u8 {
            return Some(Opcode::Exclude);
        }
        if n == 7 && s[0] == 73u8 && s[1] == 77u8 && s[2] == 80u8 && s[3] == 76u8 && s[4] == 73u8 && s[5] == 69u8 && s[6] == 83u8 {
            return Some(Opcode::Implies);
        }
        if n == 6 && s[0] == 69u8 && s[1] == 78u8 && s[2] == 69u8 && s[3] == 82u8 && s[4] == 71u8 && s[5] == 89u8 {
            return Some(Opcode::Energy);
        }
        None
    }

    /// Decoding the wire byte of an opcode gives the opcode back.
    pub proof fn lemma_byte_roundtrip(self)
        ensures
            Self::spec_from_byte(self.spec_byte()) == Some(self),
    {
    }

    /// A byte that decodes to an opcode is that opcode's wire byte.
    pub proof fn lemma_from_byte_inverse(b: u8)
        ensures
            Self::spec_from_byte(b) matches Some(op) ==> op.spec_byte() == b,
    {
    }

    /// Looking up the mnemonic of an opcode finds that opcode.
    #[verifier::rlimit(100)]
    #[verifier::spinoff_prover]
    pub proof fn lemma_mnemonic_roundtrip(self)
        ensures
            Self::spec_from_mnemonic(self.spec_mnemonic_bytes()) == Some(self),
    {
        match self {
            Opcode::Nop => {
                assert(Self::spec_from_mnemonic(seq![78u8, 79u8, 80u8]) == Some(Opcode::Nop));
            },
            Opcode::Target => {
                assert(Self::spec_from_mnemonic(seq![84u8, 65u8, 82u8, 71u8, 69u8, 84u8]) == Some(Opcode::Target));
            },
            Opcode::Jump2 => {
                assert(Self::spec_from_mnemonic(seq![74u8, 85u8, 77u8, 80u8, 50u8]) == Some(Opcode::Jump2));
            },
            Opcode::JumpI2 => {
                assert(Self::spec_from_mnemonic(seq![74u8, 85u8, 77u8, 80u8, 73u8, 50u8]) == Some(Opcode::JumpI2));
            },
            Opcode::Next => {
                assert(Self::spec_from_mnemonic(seq![78u8, 69u8, 88u8, 84u8]) == Some(Opcode::Next));
            },
            Opcode::LVal => {
                assert(Self::spec_from_mnemonic(seq![76u8, 86u8, 65u8, 76u8]) == Some(Opcode::LVal));
            },
            Opcode::Range => {
                assert(Self::spec_from_mnemonic(seq![82u8, 65u8, 78u8, 71u8, 69u8]) == Some(Opcode::Range));
            },
            Opcode::Iter => {
                assert(Self::spec_from_mnemonic(seq![73u8, 84u8, 69u8, 82u8]) == Some(Opcode::Iter));
            },
            Opcode::Halt => {
                assert(Self::spec_from_mnemonic(seq![72u8, 65u8, 76u8, 84u8]) == Some(Opcode::Halt));
            },
            Opcode::Load => {
                assert(Self::spec_from_mnemonic(seq![76u8, 79u8, 65u8, 68u8]) == Some(Opcode::Load));
            },
            Opcode::Stow => {
                assert(Self::spec_from_mnemonic(seq![83u8, 84u8, 79u8, 87u8]) == Some(Opcode::Stow));
            },
            Opcode::Drop => {
                assert(Self::spec_from_mnemonic(seq![68u8, 82u8, 79u8, 80u8]) == Some(Opcode::Drop));
            },
            Opcode::Input => {
                assert(Self::spec_from_mnemonic(seq![73u8, 78u8, 80u8, 85u8, 84u8]) == Some(Opcode::Input));
            },
            Opcode::Output => {
                assert(Self::spec_from_mnemonic(seq![79u8, 85u8, 84u8, 80u8, 85u8, 84u8]) == Some(Opcode::Output));
            },
            Opcode::Pop => {
                assert(Self::spec_from_mnemonic(seq![80u8, 79u8, 80u8]) == Some(Opcode::Pop));
            },
            Opcode::Push1 => {
                assert(Self::spec_from_mnemonic(seq![80u8, 85u8, 83u8, 72u8, 49u8]) == Some(Opcode::Push1));
            },
            Opcode::Push2 => {
                assert(Self::spec_from_mnemonic(seq![80u8, 85u8, 83u8, 72u8, 50u8]) == Some(Opcode::Push2));
            },
            Opcode::Push3 => {
                assert(Self::spec_from_mnemonic(seq![80u8, 85u8, 83u8, 72u8, 51u8]) == Some(Opcode::Push3));
            },
            Opcode::Push4 => {
                assert(Self::spec_from_mnemonic(seq![80u8, 85u8, 83u8, 72u8, 52u8]) == Some(Opcode::Push4));
            },
            Opcode::Push5 => {
                assert(Self::spec_from_mnemonic(seq![80u8, 85u8, 83u8, 72u8, 53u8]) == Some(Opcode::Push5));
            },
            Opcode::Push6 => {
                assert(Self::spec_from_mnemonic(seq![80u8, 85u8, 83u8, 72u8, 54u8]) == Some(Opcode::Push6));
            },
            Opcode::Push7 => {
                assert(Self::spec_from_mnemonic(seq![80u8, 85u8, 83u8, 72u8, 55u8]) == Some(Opcode::Push7));
            },
            Opcode::Push8 => {
                assert(Self::spec_from_mnemonic(seq![80u8, 85u8, 83u8, 72u8, 56u8]) == Some(Opcode::Push8));
            },
            Opcode::Lidx => {
                assert(Self::spec_from_mnemonic(seq![76u8, 73u8, 68u8, 88u8]) == Some(Opcode::Lidx));
            },
            Opcode::Sclr => {
                assert(Self::spec_from_mnemonic(seq![83u8, 67u8, 76u8, 82u8]) == Some(Opcode::Sclr));
            },
            Opcode::Swap => {
                assert(Self::spec_from_mnemonic(seq![83u8, 87u8, 65u8, 80u8]) == Some(Opcode::Swap));
            },
            Opcode::Copy => {
                assert(Self::spec_from_mnemonic(seq![67u8, 79u8, 80u8, 89u8]) == Some(Opcode::Copy));
            },
            Opcode::Jump1 => {
                assert(Self::spec_from_mnemonic(seq![74u8, 85u8, 77u8, 80u8, 49u8]) == Some(Opcode::Jump1));
            },
            Opcode::JumpI1 => {
                assert(Self::spec_from_mnemonic(seq![74u8, 85u8, 77u8, 80u8, 73u8, 49u8]) == Some(Opcode::JumpI1));
            },
            Opcode::Add => {
                assert(Self::spec_from_mnemonic(seq![65u8, 68u8, 68u8]) == Some(Opcode::Add));
            },
            Opcode::Sub => {
                assert(Self::spec_from_mnemonic(seq![83u8, 85u8, 66u8]) == Some(Opcode::Sub));
            },
            Opcode::Mul => {
                assert(Self::spec_from_mnemonic(seq![77u8, 85u8, 76u8]) == Some(Opcode::Mul));
            },
            Opcode::Div => {
                assert(Self::spec_from_mnemonic(seq![68u8, 73u8, 86u8]) == Some(Opcode::Div));
            },
            Opcode::Modulo => {
                assert(Self::spec_from_mnemonic(seq![77u8, 79u8, 68u8]) == Some(Opcode::Modulo));
            },
            Opcode::Sqr => {
                assert(Self::spec_from_mnemonic(seq![83u8, 81u8, 82u8]) == Some(Opcode::Sqr));
            },
            Opcode::Abs => {
                assert(Self::spec_from_mnemonic(seq![65u8, 66u8, 83u8]) == Some(Opcode::Abs));
            },
            Opcode::Neg => {
                assert(Self::spec_from_mnemonic(seq![78u8, 69u8, 71u8]) == Some(Opcode::Neg));
            },
            Opcode::Min => {
                assert(Self::spec_from_mnemonic(seq![77u8, 73u8, 78u8]) == Some(Opcode::Min));
            },
            Opcode::Max => {
                assert(Self::spec_from_mnemonic(seq![77u8, 65u8, 88u8]) == Some(Opcode::Max));
            },
            Opcode::Inc => {
                assert(Self::spec_from_mnemonic(seq![73u8, 78u8, 67u8]) == Some(Opcode::Inc));
            },
            Opcode::Dec => {
                assert(Self::spec_from_mnemonic(seq![68u8, 69u8, 67u8]) == Some(Opcode::Dec));
            },
            Opcode::Eq => {
                assert(Self::spec_from_mnemonic(seq![69u8, 81u8]) == Some(Opcode::Eq));
            },
            Opcode::Lt => {
                assert(Self::spec_from_mnemonic(seq![76u8, 84u8]) == Some(Opcode::Lt));
            },
            Opcode::Gt => {
                assert(Self::spec_from_mnemonic(seq![71u8, 84u8]) == Some(Opcode::Gt));
            },
            Opcode::Lte => {
                assert(Self::spec_from_mnemonic(seq![76u8, 84u8, 69u8]) == Some(Opcode::Lte));
            },
            Opcode::Gte => {
                assert(Self::spec_from_mnemonic(seq![71u8, 84u8, 69u8]) == Some(Opcode::Gte));
            },
            Opcode::Not => {
                assert(Self::spec_from_mnemonic(seq![78u8, 79u8, 84u8]) == Some(Opcode::Not));
            },
            Opcode::And => {
                assert(Self::spec_from_mnemonic(seq![65u8, 78u8, 68u8]) == Some(Opcode::And));
            },
            Opcode::Or => {
                assert(Self::spec_from_mnemonic(seq![79u8, 82u8]) == Some(Opcode::Or));
            },
            Opcode::Xor => {
                assert(Self::spec_from_mnemonic(seq![88u8, 79u8, 82u8]) == Some(Opcode::Xor));
            },
            Opcode::BAnd => {
                assert(Self::spec_from_mnemonic(seq![66u8, 65u8, 78u8, 68u8]) == Some(Opcode::BAnd));
            },
            Opcode::BOr => {
                assert(Self::spec_from_mnemonic(seq![66u8, 79u8, 82u8]) == Some(Opcode::BOr));
            },
            Opcode::BXor => {
                assert(Self::spec_from_mnemonic(seq![66u8, 88u8, 79u8, 82u8]) == Some(Opcode::BXor));
            },
            Opcode::BNot => {
                assert(Self::spec_from_mnemonic(seq![66u8, 78u8, 79u8, 84u8]) == Some(Opcode::BNot));
            },
            Opcode::Shl => {
                assert(Self::spec_from_mnemonic(seq![83u8, 72u8, 76u8]) == Some(Opcode::Shl));
            },
            Opcode::Shr => {
                assert(Self::spec_from_mnemonic(seq![83u8, 72u8, 82u8]) == Some(Opcode::Shr));
            },
            Opcode::Bqmx => {
                assert(Self::spec_from_mnemonic(seq![66u8, 81u8, 77u8, 88u8]) == Some(Opcode::Bqmx));
            },
            Opcode::Sqmx => {
                assert(Self::spec_from_mnemonic(seq![83u8, 81u8, 77u8, 88u8]) == Some(Opcode::Sqmx));
            },
            Opcode::Xqmx => {
                assert(Self::spec_from_mnemonic(seq![88u8, 81u8, 77u8, 88u8]) == Some(Opcode::Xqmx));
            },
            Opcode::Bsmx => {
                assert(Self::spec_from_mnemonic(seq![66u8, 83u8, 77u8, 88u8]) == Some(Opcode::Bsmx));
            },
            Opcode::Ssmx => {
                assert(Self::spec_from_mnemonic(seq![83u8, 83u8, 77u8, 88u8]) == Some(Opcode::Ssmx));
            },
            Opcode::Xsmx => {
                assert(Self::spec_from_mnemonic(seq![88u8, 83u8, 77u8, 88u8]) == Some(Opcode::Xsmx));
            },
            Opcode::Vec => {
                assert(Self::spec_from_mnemonic(seq![86u8, 69u8, 67u8]) == Some(Opcode::Vec));
            },
            Opcode::VecI => {
                assert(Self::spec_from_mnemonic(seq![86u8, 69u8, 67u8, 73u8]) == Some(Opcode::VecI));
            },
            Opcode::VecX => {
                assert(Self::spec_from_mnemonic(seq![86u8, 69u8, 67u8, 88u8]) == Some(Opcode::VecX));
            },
            Opcode::VecPush => {
                assert(Self::spec_from_mnemonic(seq![86u8, 69u8, 67u8, 80u8, 85u8, 83u8, 72u8]) == Some(Opcode::VecPush));
            },
            Opcode::VecGet => {
                assert(Self::spec_from_mnemonic(seq![86u8, 69u8, 67u8, 71u8, 69u8, 84u8]) == Some(Opcode::VecGet));
            },
            Opcode::VecSet => {
                assert(Self::spec_from_mnemonic(seq![86u8, 69u8, 67u8, 83u8, 69u8, 84u8]) == Some(Opcode::VecSet));
            },
            Opcode::VecLen => {
                assert(Self::spec_from_mnemonic(seq![86u8, 69u8, 67u8, 76u8, 69u8, 78u8]) == Some(Opcode::VecLen));
            },
            Opcode::IdxGrid => {
                assert(Self::spec_from_mnemonic(seq![73u8, 68u8, 88u8, 71u8, 82u8, 73u8, 68u8]) == Some(Opcode::IdxGrid));
            },
            Opcode::IdxTriu => {
                assert(Self::spec_from_mnemonic(seq![73u8, 68u8, 88u8, 84u8, 82u8, 73u8, 85u8]) == Some(Opcode::IdxTriu));
            },
            Opcode::GetLine => {
                assert(Self::spec_from_mnemonic(seq![71u8, 69u8, 84u8, 76u8, 73u8, 78u8, 69u8]) == Some(Opcode::GetLine));
            },
            Opcode::SetLine => {
                assert(Self::spec_from_mnemonic(seq![83u8, 69u8, 84u8, 76u8, 73u8, 78u8, 69u8]) == Some(Opcode::SetLine));
            },
            Opcode::AddLine => {
                assert(Self::spec_from_mnemonic(seq![65u8, 68u8, 68u8, 76u8, 73u8, 78u8, 69u8]) == Some(Opcode::AddLine));
            },
            Opcode::GetQuad => {
                assert(Self::spec_from_mnemonic(seq![71u8, 69u8, 84u8, 81u8, 85u8, 65u8, 68u8]) == Some(Opcode::GetQuad));
            },
            Opcode::SetQuad => {
                assert(Self::spec_from_mnemonic(seq![83u8, 69u8, 84u8, 81u8, 85u8, 65u8, 68u8]) == Some(Opcode::SetQuad));
            },
            Opcode::AddQuad => {
                assert(Self::spec_from_mnemonic(seq![65u8, 68u8, 68u8, 81u8, 85u8, 65u8, 68u8]) == Some(Opcode::AddQuad));
            },
            Opcode::Resize => {
                assert(Self::spec_from_mnemonic(seq![82u8, 69u8, 83u8, 73u8, 90u8, 69u8]) == Some(Opcode::Resize));
            },
            Opcode::RowFind => {
                assert(Self::spec_from_mnemonic(seq![82u8, 79u8, 87u8, 70u8, 73u8, 78u8, 68u8]) == Some(Opcode::RowFind));
            },
            Opcode::ColFind => {
                assert(Self::spec_from_mnemonic(seq![67u8, 79u8, 76u8, 70u8, 73u8, 78u8, 68u8]) == Some(Opcode::ColFind));
            },
            Opcode::RowSum => {
                assert(Self::spec_from_mnemonic(seq![82u8, 79u8, 87u8, 83u8, 85u8, 77u8]) == Some(Opcode::RowSum));
            },
            Opcode::ColSum => {
                assert(Self::spec_from_mnemonic(seq![67u8, 79u8, 76u8, 83u8, 85u8, 77u8]) == Some(Opcode::ColSum));
            },
            Opcode::OneHotR => {
                assert(Self::spec_from_mnemonic(seq![79u8, 78u8, 69u8, 72u8, 79u8, 84u8, 82u8]) == Some(Opcode::OneHotR));
            },
            Opcode::OneHotC => {
                assert(Self::spec_from_mnemonic(seq![79u8, 78u8, 69u8, 72u8, 79u8, 84u8, 67u8]) == Some(Opcode::OneHotC));
            },
            Opcode::Exclude => {
                assert(Self::spec_from_mnemonic(seq![69u8, 88u8, 67u8, 76u8, 85u8, 68u8, 69u8]) == Some(Opcode::Exclude));
            },
            Opcode::Implies => {
                assert(Self::spec_from_mnemonic(seq![73u8, 77u8, 80u8, 76u8, 73u8, 69u8, 83u8]) == Some(Opcode::Implies));
            },
            Opcode::Energy => {
                assert(Self::spec_from_mnemonic(seq![69u8, 78u8, 69u8, 82u8, 71u8, 89u8]) == Some(Opcode::Energy));
            },
        }
    }
}

impl Instruction {
    /// The opcode of this instruction.
    pub open spec fn spec_opcode(self) -> Opcode {
        match self {
            Instruction::Nop { .. } => Opcode::Nop,
            Instruction::Target { .. } => Opcode::Target,
            Instruction::Jump2 { .. } => Opcode::Jump2,
            Instruction::JumpI2 { .. } => Opcode::JumpI2,
            Instruction::Next { .. } => Opcode::Next,
            Instruction::LVal { .. } => Opcode::LVal,
            Instruction::Range { .. } => Opcode::Range,
            Instruction::Iter { .. } => Opcode::Iter,
            Instruction::Halt { .. } => Opcode::Halt,
            Instruction::Load { .. } => Opcode::Load,
            Instruction::Stow { .. } => Opcode::Stow,
            Instruction::Drop { .. } => Opcode::Drop,
            Instruction::Input { .. } => Opcode::Input,
            Instruction::Output { .. } => Opcode::Output,
            Instruction::Pop { .. } => Opcode::Pop,
            Instruction::Push1 { .. } => Opcode::Push1,
            Instruction::Push2 { .. } => Opcode::Push2,
            Instruction::Push3 { .. } => Opcode::Push3,
            Instruction::Push4 { .. } => Opcode::Push4,
            Instruction::Push5 { .. } => Opcode::Push5,
            Instruction::Push6 { .. } => Opcode::Push6,
            Instruction::Push7 { .. } => Opcode::Push7,
            Instruction::Push8 { .. } => Opcode::Push8,
            Instruction::Lidx { .. } => Opcode::Lidx,
            Instruction::Sclr { .. } => Opcode::Sclr,
            Instruction::Swap { .. } => Opcode::Swap,
            Instruction::Copy { .. } => Opcode::Copy,
            Instruction::Jump1 { .. } => Opcode::Jump1,
            Instruction::JumpI1 { .. } => Opcode::JumpI1,
            Instruction::Add { .. } => Opcode::Add,
            Instruction::Sub { .. } => Opcode::Sub,
            Instruction::Mul { .. } => Opcode::Mul,
            Instruction::Div { .. } => Opcode::Div,
            Instruction::Modulo { .. } => Opcode::Modulo,
            Instruction::Sqr { .. } => Opcode::Sqr,
            Instruction::Abs { .. } => Opcode::Abs,
            Instruction::Neg { .. } => Opcode::Neg,
            Instruction::Min { .. } => Opcode::Min,
            Instruction::Max { .. } => Opcode::Max,
            Instruction::Inc { .. } => Opcode::Inc,
            Instruction::Dec { .. } => Opcode::Dec,
            Instruction::Eq { .. } => Opcode::Eq,
            Instruction::Lt { .. } => Opcode::Lt,
            Instruction::Gt { .. } => Opcode::Gt,
            Instruction::Lte { .. } => Opcode::Lte,
            Instruction::Gte { .. } => Opcode::Gte,
            Instruction::Not { .. } => Opcode::Not,
            Instruction::And { .. } => Opcode::And,
            Instruction::Or { .. } => Opcode::Or,
            Instruction::Xor { .. } => Opcode::Xor,
            Instruction::BAnd { .. } => Opcode::BAnd,
            Instruction::BOr { .. } => Opcode::BOr,
            Instruction::BXor { .. } => Opcode::BXor,
            Instruction::BNot { .. } => Opcode::BNot,
            Instruction::Shl { .. } => Opcode::Shl,
            Instruction::Shr { .. } => Opcode::Shr,
            Instruction::Bqmx { .. } => Opcode::Bqmx,
            Instruction::Sqmx { .. } => Opcode::Sqmx,
            Instruction::Xqmx { .. } => Opcode::Xqmx,
            Instruction::Bsmx { .. } => Opcode::Bsmx,
            Instruction::Ssmx { .. } => Opcode::Ssmx,
            Instruction::Xsmx { .. } => Opcode::Xsmx,
            Instruction::Vec { .. } => Opcode::Vec,
            Instruction::VecI { .. } => Opcode::VecI,
            Instruction::VecX { .. } => Opcode::VecX,
            Instruction::VecPush { .. } => Opcode::VecPush,
            Instruction::VecGet { .. } => Opcode::VecGet,
            Instruction::VecSet { .. } => Opcode::VecSet,
            Instruction::VecLen { .. } => Opcode::VecLen,
            Instruction::IdxGrid { .. } => Opcode::IdxGrid,
            Instruction::IdxTriu { .. } => Opcode::IdxTriu,
            Instruction::GetLine { .. } => Opcode::GetLine,
            Instruction::SetLine { .. } => Opcode::SetLine,
            Instruction::AddLine { .. } => Opcode::AddLine,
            Instruction::GetQuad { .. } => Opcode::GetQuad,
            Instruction::SetQuad { .. } => Opcode::SetQuad,
            Instruction::AddQuad { .. } => Opcode::AddQuad,
            Instruction::Resize { .. } => Opcode::Resize,
            Instruction::RowFind { .. } => Opcode::RowFind,
            Instruction::ColFind { .. } => Opcode::ColFind,
            Instruction::RowSum { .. } => Opcode::RowSum,
            Instruction::ColSum { .. } => Opcode::ColSum,
            Instruction::OneHotR { .. } => Opcode::OneHotR,
            Instruction::OneHotC { .. } => Opcode::OneHotC,
            Instruction::Exclude { .. } => Opcode::Exclude,
            Instruction::Implies { .. } => Opcode::Implies,
            Instruction::Energy { .. } => Opcode::Energy,
        }
    }

    /// The operand bytes of this instruction, in wire order.
    pub open spec fn spec_operands(self) -> Seq<u8> {
        match self {
            Instruction::Nop {} => seq![],
            Instruction::Target {} => seq![],
            Instruction::Jump2 { label } => seq![(label / 256) as u8, (label % 256) as u8],
            Instruction::JumpI2 { label } => seq![(label / 256) as u8, (label % 256) as u8],
            Instruction::Next {} => seq![],
            Instruction::LVal { reg } => seq![reg.0],
            Instruction::Range {} => seq![],
            Instruction::Iter { reg } => seq![reg.0],
            Instruction::Halt {} => seq![],
            Instruction::Load { reg } => seq![reg.0],
            Instruction::Stow { reg } => seq![reg.0],
            Instruction::Drop { reg } => seq![reg.0],
            Instruction::Input { reg } => seq![reg.0],
            Instruction::Output { reg } => seq![reg.0],
            Instruction::Pop {} => seq![],
            Instruction::Push1 { val } => seq![val[0]],
            Instruction::Push2 { val } => seq![val[0], val[1]],
            Instruction::Push3 { val } => seq![val[0], val[1], val[2]],
            Instruction::Push4 { val } => seq![val[0], val[1], val[2], val[3]],
            Instruction::Push5 { val } => seq![val[0], val[1], val[2], val[3], val[4]],
            Instruction::Push6 { val } => seq![val[0], val[1], val[2], val[3], val[4], val[5]],
            Instruction::Push7 { val } => seq![val[0], val[1], val[2], val[3], val[4], val[5], val[6]],
            Instruction::Push8 { val } => seq![val[0], val[1], val[2], val[3], val[4], val[5], val[6], val[7]],
            Instruction::Lidx { reg } => seq![reg.0],
            Instruction::Sclr {} => seq![],
            Instruction::Swap {} => seq![],
            Instruction::Copy {} => seq![],
            Instruction::Jump1 { label } => seq![label],
            Instruction::JumpI1 { label } => seq![label],
            Instruction::Add {} => seq![],
            Instruction::Sub {} => seq![],
            Instruction::Mul {} => seq![],
            Instruction::Div {} => seq![],
            Instruction::Modulo {} => seq![],
            Instruction::Sqr {} => seq![],
            Instruction::Abs {} => seq![],
            Instruction::Neg {} => seq![],
            Instruction::Min {} => seq![],
            Instruction::Max {} => seq![],
            Instruction::Inc {} => seq![],
            Instruction::Dec {} => seq![],
            Instruction::Eq {} => seq![],
            Instruction::Lt {} => seq![],
            Instruction::Gt {} => seq![],
            Instruction::Lte {} => seq![],
            Instruction::Gte {} => seq![],
            Instruction::Not {} => seq![],
            Instruction::And {} => seq![],
            Instruction::Or {} => seq![],
            Instruction::Xor {} => seq![],
            Instruction::BAnd {} => seq![],
            Instruction::BOr {} => seq![],
            Instruction::BXor {} => seq![],
            Instruction::BNot {} => seq![],
            Instruction::Shl {} => seq![],
            Instruction::Shr {} => seq![],
            Instruction::Bqmx { reg } => seq![reg.0],
            Instruction::Sqmx { reg } => seq![reg.0],
            Instruction::Xqmx { reg } => seq![reg.0],
            Instruction::Bsmx { reg } => seq![reg.0],
            Instruction::Ssmx { reg } => seq![reg.0],
            Instruction::Xsmx { reg } => seq![reg.0],
            Instruction::Vec { reg } => seq![reg.0],
            Instruction::VecI { reg } => seq![reg.0],
            Instruction::VecX { reg } => seq![reg.0],
            Instruction::VecPush { reg } => seq![reg.0],
            Instruction::VecGet { reg } => seq![reg.0],
            Instruction::VecSet { reg } => seq![reg.0],
            Instruction::VecLen { reg } => seq![reg.0],
            Instruction::IdxGrid {} => seq![],
            Instruction::IdxTriu {} => seq![],
            Instruction::GetLine { reg } => seq![reg.0],
            Instruction::SetLine { reg } => seq![reg.0],
            Instruction::AddLine { reg } => seq![reg.0],
            Instruction::GetQuad { reg } => seq![reg.0],
            Instruction::SetQuad { reg } => seq![reg.0],
            Instruction::AddQuad { reg } => seq![reg.0],
            Instruction::Resize { reg } => seq![reg.0],
            Instruction::RowFind { reg } => seq![reg.0],
            Instruction::ColFind { reg } => seq![reg.0],
            Instruction::RowSum { reg } => seq![reg.0],
            Instruction::ColSum { reg } => seq![reg.0],
            Instruction::OneHotR { reg } => seq![reg.0],
            Instruction::OneHotC { reg } => seq![reg.0],
            Instruction::Exclude { reg } => seq![reg.0],
            Instruction::Implies { reg } => seq![reg.0],
            Instruction::Energy { model, sample } => seq![model.0, sample.0],
        }
    }

    /// The wire encoding: the opcode byte followed by the operand bytes.
    pub open spec fn spec_encode(self) -> Seq<u8> {
        seq![self.spec_opcode().spec_byte()] + self.spec_operands()
    }

    /// The instruction with opcode `op` whose operand bytes are `s`.
    pub open spec fn spec_from_parts(op: Opcode, s: Seq<u8>) -> Instruction {
        match op {
            Opcode::Nop => Instruction::Nop {},
            Opcode::Target => Instruction::Target {},
            Opcode::Jump2 => Instruction::Jump2 { label: ((s[0] as int) * 256 + s[1] as int) as u16 },
            Opcode::JumpI2 => Instruction::JumpI2 { label: ((s[0] as int) * 256 + s[1] as int) as u16 },
            Opcode::Next => Instruction::Next {},
            Opcode::LVal => Instruction::LVal { reg: Register(s[0]) },
            Opcode::Range => Instruction::Range {},
            Opcode::Iter => Instruction::Iter { reg: Register(s[0]) },
            Opcode::Halt => Instruction::Halt {},
            Opcode::Load => Instruction::Load { reg: Register(s[0]) },
            Opcode::Stow => Instruction::Stow { reg: Register(s[0]) },
            Opcode::Drop => Instruction::Drop { reg: Register(s[0]) },
            Opcode::Input => Instruction::Input { reg: Register(s[0]) },
            Opcode::Output => Instruction::Output { reg: Register(s[0]) },
            Opcode::Pop => Instruction::Pop {},
            Opcode::Push1 => Instruction::Push1 { val: [s[0]] },
            Opcode::Push2 => Instruction::Push2 { val: [s[0], s[1]] },
            Opcode::Push3 => Instruction::Push3 { val: [s[0], s[1], s[2]] },
            Opcode::Push4 => Instruction::Push4 { val: [s[0], s[1], s[2], s[3]] },
            Opcode::Push5 => Instruction::Push5 { val: [s[0], s[1], s[2], s[3], s[4]] },
            Opcode::Push6 => Instruction::Push6 { val: [s[0], s[1], s[2], s[3], s[4], s[5]] },
            Opcode::Push7 => Instruction::Push7 { val: [s[0], s[1], s[2], s[3], s[4], s[5], s[6]] },
            Opcode::Push8 => Instruction::Push8 { val: [s[0], s[1], s[2], s[3], s[4], s[5], s[6], s[7]] },
            Opcode::Lidx => Instruction::Lidx { reg: Register(s[0]) },
            Opcode::Sclr => Instruction::Sclr {},
            Opcode::Swap => Instruction::Swap {},
            Opcode::Copy => Instruction::Copy {},
            Opcode::Jump1 => Instruction::Jump1 { label: s[0] },
            Opcode::JumpI1 => Instruction::JumpI1 { label: s[0] },
            Opcode::Add => Instruction::Add {},
            Opcode::Sub => Instruction::Sub {},
            Opcode::Mul => Instruction::Mul {},
            Opcode::Div => Instruction::Div {},
            Opcode::Modulo => Instruction::Modulo {},
            Opcode::Sqr => Instruction::Sqr {},
            Opcode::Abs => Instruction::Abs {},
            Opcode::Neg => Instruction::Neg {},
            Opcode::Min => Instruction::Min {},
            Opcode::Max => Instruction::Max {},
            Opcode::Inc => Instruction::Inc {},
            Opcode::Dec => Instruction::Dec {},
            Opcode::Eq => Instruction::Eq {},
            Opcode::Lt => Instruction::Lt {},
            Opcode::Gt => Instruction::Gt {},
            Opcode::Lte => Instruction::Lte {},
            Opcode::Gte => Instruction::Gte {},
            Opcode::Not => Instruction::Not {},
            Opcode::And => Instruction::And {},
            Opcode::Or => Instruction::Or {},
            Opcode::Xor => Instruction::Xor {},
            Opcode::BAnd => Instruction::BAnd {},
            Opcode::BOr => Instruction::BOr {},
            Opcode::BXor => Instruction::BXor {},
            Opcode::BNot => Instruction::BNot {},
            Opcode::Shl => Instruction::Shl {},
            Opcode::Shr => Instruction::Shr {},
            Opcode::Bqmx => Instruction::Bqmx { reg: Register(s[0]) },
            Opcode::Sqmx => Instruction::Sqmx { reg: Register(s[0]) },
            Opcode::Xqmx => Instruction::Xqmx { reg: Register(s[0]) },
            Opcode::Bsmx => Instruction::Bsmx { reg: Register(s[0]) },
            Opcode::Ssmx => Instruction::Ssmx { reg: Register(s[0]) },
            Opcode::Xsmx => Instruction::Xsmx { reg: Register(s[0]) },
            Opcode::Vec => Instruction::Vec { reg: Register(s[0]) },
            Opcode::VecI => Instruction::VecI { reg: Register(s[0]) },
            Opcode::VecX => Instruction::VecX { reg: Register(s[0]) },
            Opcode::VecPush => Instruction::VecPush { reg: Register(s[0]) },
            Opcode::VecGet => Instruction::VecGet { reg: Register(s[0]) },
            Opcode::VecSet => Instruction::VecSet { reg: Register(s[0]) },
            Opcode::VecLen => Instruction::VecLen { reg: Register(s[0]) },
            Opcode::IdxGrid => Instruction::IdxGrid {},
            Opcode::IdxTriu => Instruction::IdxTriu {},
            Opcode::GetLine => Instruction::GetLine { reg: Register(s[0]) },
            Opcode::SetLine => Instruction::SetLine { reg: Register(s[0]) },
            Opcode::AddLine => Instruction::AddLine { reg: Register(s[0]) },
            Opcode::GetQuad => Instruction::GetQuad { reg: Register(s[0]) },
            Opcode::SetQuad => Instruction::SetQuad { reg: Register(s[0]) },
            Opcode::AddQuad => Instruction::AddQuad { reg: Register(s[0]) },
            Opcode::Resize => Instruction::Resize { reg: Register(s[0]) },
            Opcode::RowFind => Instruction::RowFind { reg: Register(s[0]) },
            Opcode::ColFind => Instruction::ColFind { reg: Register(s[0]) },
            Opcode::RowSum => Instruction::RowSum { reg: Register(s[0]) },
            Opcode::ColSum => Instruction::ColSum { reg: Register(s[0]) },
            Opcode::OneHotR => Instruction::OneHotR { reg: Register(s[0]) },
            Opcode::OneHotC => Instruction::OneHotC { reg: Register(s[0]) },
            Opcode::Exclude => Instruction::Exclude { reg: Register(s[0]) },
            Opcode::Implies => Instruction::Implies { reg: Register(s[0]) },
            Opcode::Energy => Instruction::Energy { model: Register(s[0]), sample: Register(s[1]) },
        }
    }

    /// The static effect of this instruction on the stack depth.
    pub open spec fn spec_stack_effect(self) -> StackEffect {
        match self {
            Instruction::Nop { .. } => StackEffect::Delta(0i8),
            Instruction::Target { .. } => StackEffect::Delta(0i8),
            Instruction::Jump2 { .. } => StackEffect::Delta(0i8),
            Instruction::JumpI2 { .. } => StackEffect::Delta(-1i8),
            Instruction::Next { .. } => StackEffect::Delta(0i8),
            Instruction::LVal { .. } => StackEffect::Delta(0i8),
            Instruction::Range { .. } => StackEffect::Delta(-2i8),
            Instruction::Iter { .. } => StackEffect::Delta(-2i8),
            Instruction::Halt { .. } => StackEffect::Delta(0i8),
            Instruction::Load { .. } => StackEffect::Delta(1i8),
            Instruction::Stow { .. } => StackEffect::Delta(-1i8),
            Instruction::Drop { .. } => StackEffect::Delta(0i8),
            Instruction::Input { .. } => StackEffect::Delta(-1i8),
            Instruction::Output { .. } => StackEffect::Delta(-1i8),
            Instruction::Pop { .. } => StackEffect::Delta(-1i8),
            Instruction::Push1 { .. } => StackEffect::Delta(1i8),
            Instruction::Push2 { .. } => StackEffect::Delta(1i8),
            Instruction::Push3 { .. } => StackEffect::Delta(1i8),
            Instruction::Push4 { .. } => StackEffect::Delta(1i8),
            Instruction::Push5 { .. } => StackEffect::Delta(1i8),
            Instruction::Push6 { .. } => StackEffect::Delta(1i8),
            Instruction::Push7 { .. } => StackEffect::Delta(1i8),
            Instruction::Push8 { .. } => StackEffect::Delta(1i8),
            Instruction::Lidx { .. } => StackEffect::Delta(0i8),
            Instruction::Sclr { .. } => StackEffect::Reset,
            Instruction::Swap { .. } => StackEffect::Delta(0i8),
            Instruction::Copy { .. } => StackEffect::Delta(1i8),
            Instruction::Jump1 { .. } => StackEffect::Delta(0i8),
            Instruction::JumpI1 { .. } => StackEffect::Delta(-1i8),
            Instruction::Add { .. } => StackEffect::Delta(-1i8),
            Instruction::Sub { .. } => StackEffect::Delta(-1i8),
            Instruction::Mul { .. } => StackEffect::Delta(-1i8),
            Instruction::Div { .. } => StackEffect::Delta(-1i8),
            Instruction::Modulo { .. } => StackEffect::Delta(-1i8),
            Instruction::Sqr { .. } => StackEffect::Delta(0i8),
            Instruction::Abs { .. } => StackEffect::Delta(0i8),
            Instruction::Neg { .. } => StackEffect::Delta(0i8),
            Instruction::Min { .. } => StackEffect::Delta(-1i8),
            Instruction::Max { .. } => StackEffect::Delta(-1i8),
            Instruction::Inc { .. } => StackEffect::Delta(0i8),
            Instruction::Dec { .. } => StackEffect::Delta(0i8),
            Instruction::Eq { .. } => StackEffect::Delta(-1i8),
            Instruction::Lt { .. } => StackEffect::Delta(-1i8),
            Instruction::Gt { .. } => StackEffect::Delta(-1i8),
            Instruction::Lte { .. } => StackEffect::Delta(-1i8),
            Instruction::Gte { .. } => StackEffect::Delta(-1i8),
            Instruction::Not { .. } => StackEffect::Delta(0i8),
            Instruction::And { .. } => StackEffect::Delta(-1i8),
            Instruction::Or { .. } => StackEffect::Delta(-1i8),
            Instruction::Xor { .. } => StackEffect::Delta(-1i8),
            Instruction::BAnd { .. } => StackEffect::Delta(-1i8),
            Instruction::BOr { .. } => StackEffect::Delta(-1i8),
            Instruction::BXor { .. } => StackEffect::Delta(-1i8),
            Instruction::BNot { .. } => StackEffect::Delta(0i8),
            Instruction::Shl { .. } => StackEffect::Delta(-1i8),
            Instruction::Shr { .. } => StackEffect::Delta(-1i8),
            Instruction::Bqmx { .. } => StackEffect::Delta(-1i8),
            Instruction::Sqmx { .. } => StackEffect::Delta(-1i8),
            Instruction::Xqmx { .. } => StackEffect::Delta(-2i8),
            Instruction::Bsmx { .. } => StackEffect::Delta(-1i8),
            Instruction::Ssmx { .. } => StackEffect::Delta(-1i8),
            Instruction::Xsmx { .. } => StackEffect::Delta(-2i8),
            Instruction::Vec { .. } => StackEffect::Delta(0i8),
            Instruction::VecI { .. } => StackEffect::Delta(0i8),
            Instruction::VecX { .. } => StackEffect::Delta(0i8),
            Instruction::VecPush { .. } => StackEffect::Delta(-1i8),
            Instruction::VecGet { .. } => StackEffect::Delta(0i8),
            Instruction::VecSet { .. } => StackEffect::Delta(-2i8),
            Instruction::VecLen { .. } => StackEffect::Delta(1i8),
            Instruction::IdxGrid { .. } => StackEffect::Delta(-2i8),
            Instruction::IdxTriu { .. } => StackEffect::Delta(-1i8),
            Instruction::GetLine { .. } => StackEffect::Delta(0i8),
            Instruction::SetLine { .. } => StackEffect::Delta(-2i8),
            Instruction::AddLine { .. } => StackEffect::Delta(-2i8),
            Instruction::GetQuad { .. } => StackEffect::Delta(-1i8),
            Instruction::SetQuad { .. } => StackEffect::Delta(-3i8),
            Instruction::AddQuad { .. } => StackEffect::Delta(-3i8),
            Instruction::Resize { .. } => StackEffect::Delta(-2i8),
            Instruction::RowFind { .. } => StackEffect::Delta(-1i8),
            Instruction::ColFind { .. } => StackEffect::Delta(-1i8),
            Instruction::RowSum { .. } => StackEffect::Delta(0i8),
            Instruction::ColSum { .. } => StackEffect::Delta(0i8),
            Instruction::OneHotR { .. } => StackEffect::Delta(-2i8),
            Instruction::OneHotC { .. } => StackEffect::Delta(-2i8),
            Instruction::Exclude { .. } => StackEffect::Delta(-3i8),
            Instruction::Implies { .. } => StackEffect::Delta(-3i8),
            Instruction::Energy { .. } => StackEffect::Delta(1i8),
        }
    }

    /// Return the [`Opcode`] of this instruction.
    pub fn opcode(&self) -> (op: Opcode)
        ensures
            op == self.spec_opcode(),
    {
        match self {
            Instruction::Nop { .. } => Opcode::Nop,
            Instruction::Target { .. } => Opcode::Target,
            Instruction::Jump2 { .. } => Opcode::Jump2,
            Instruction::JumpI2 { .. } => Opcode::JumpI2,
            Instruction::Next { .. } => Opcode::Next,
            Instruction::LVal { .. } => Opcode::LVal,
            Instruction::Range { .. } => Opcode::Range,
            Instruction::Iter { .. } => Opcode::Iter,
            Instruction::Halt { .. } => Opcode::Halt,
            Instruction::Load { .. } => Opcode::Load,
            Instruction::Stow { .. } => Opcode::Stow,
            Instruction::Drop { .. } => Opcode::Drop,
            Instruction::Input { .. } => Opcode::Input,
            Instruction::Output { .. } => Opcode::Output,
            Instruction::Pop { .. } => Opcode::Pop,
            Instruction::Push1 { .. } => Opcode::Push1,
            Instruction::Push2 { .. } => Opcode::Push2,
            Instruction::Push3 { .. } => Opcode::Push3,
            Instruction::Push4 { .. } => Opcode::Push4,
            Instruction::Push5 { .. } => Opcode::Push5,
            Instruction::Push6 { .. } => Opcode::Push6,
            Instruction::Push7 { .. } => Opcode::Push7,
            Instruction::Push8 { .. } => Opcode::Push8,
            Instruction::Lidx { .. } => Opcode::Lidx,
            Instruction::Sclr { .. } => Opcode::Sclr,
            Instruction::Swap { .. } => Opcode::Swap,
            Instruction::Copy { .. } => Opcode::Copy,
            Instruction::Jump1 { .. } => Opcode::Jump1,
            Instruction::JumpI1 { .. } => Opcode::JumpI1,
            Instruction::Add { .. } => Opcode::Add,
            Instruction::Sub { .. } => Opcode::Sub,
            Instruction::Mul { .. } => Opcode::Mul,
            Instruction::Div { .. } => Opcode::Div,
            Instruction::Modulo { .. } => Opcode::Modulo,
            Instruction::Sqr { .. } => Opcode::Sqr,
            Instruction::Abs { .. } => Opcode::Abs,
            Instruction::Neg { .. } => Opcode::Neg,
            Instruction::Min { .. } => Opcode::Min,
            Instruction::Max { .. } => Opcode::Max,
            Instruction::Inc { .. } => Opcode::Inc,
            Instruction::Dec { .. } => Opcode::Dec,
            Instruction::Eq { .. } => Opcode::Eq,
            Instruction::Lt { .. } => Opcode::Lt,
            Instruction::Gt { .. } => Opcode::Gt,
            Instruction::Lte { .. } => Opcode::Lte,
            Instruction::Gte { .. } => Opcode::Gte,
            Instruction::Not { .. } => Opcode::Not,
            Instruction::And { .. } => Opcode::And,
            Instruction::Or { .. } => Opcode::Or,
            Instruction::Xor { .. } => Opcode::Xor,
            Instruction::BAnd { .. } => Opcode::BAnd,
            Instruction::BOr { .. } => Opcode::BOr,
            Instruction::BXor { .. } => Opcode::BXor,
            Instruction::BNot { .. } => Opcode::BNot,
            Instruction::Shl { .. } => Opcode::Shl,
            Instruction::Shr { .. } => Opcode::Shr,
            Instruction::Bqmx { .. } => Opcode::Bqmx,
            Instruction::Sqmx { .. } => Opcode::Sqmx,
            Instruction::Xqmx { .. } => Opcode::Xqmx,
            Instruction::Bsmx { .. } => Opcode::Bsmx,
            Instruction::Ssmx { .. } => Opcode::Ssmx,
            Instruction::Xsmx { .. } => Opcode::Xsmx,
            Instruction::Vec { .. } => Opcode::Vec,
            Instruction::VecI { .. } => Opcode::VecI,
            Instruction::VecX { .. } => Opcode::VecX,
            Instruction::VecPush { .. } => Opcode::VecPush,
            Instruction::VecGet { .. } => Opcode::VecGet,
            Instruction::VecSet { .. } => Opcode::VecSet,
            Instruction::VecLen { .. } => Opcode::VecLen,
            Instruction::IdxGrid { .. } => Opcode::IdxGrid,
            Instruction::IdxTriu { .. } => Opcode::IdxTriu,
            Instruction::GetLine { .. } => Opcode::GetLine,
            Instruction::SetLine { .. } => Opcode::SetLine,
            Instruction::AddLine { .. } => Opcode::AddLine,
            Instruction::GetQuad { .. } => Opcode::GetQuad,
            Instruction::SetQuad { .. } => Opcode::SetQuad,
            Instruction::AddQuad { .. } => Opcode::AddQuad,
            Instruction::Resize { .. } => Opcode::Resize,
            Instruction::RowFind { .. } => Opcode::RowFind,
            Instruction::ColFind { .. } => Opcode::ColFind,
            Instruction::RowSum { .. } => Opcode::RowSum,
            Instruction::ColSum { .. } => Opcode::ColSum,
            Instruction::OneHotR { .. } => Opcode::OneHotR,
            Instruction::OneHotC { .. } => Opcode::OneHotC,
            Instruction::Exclude { .. } => Opcode::Exclude,
            Instruction::Implies { .. } => Opcode::Implies,
            Instruction::Energy { .. } => Opcode::Energy,
        }
    }

    /// Return the uppercase assembly mnemonic of this instruction.
    pub fn mnemonic(&self) -> (m: &'static str)
        ensures
            m@ == self.spec_opcode().spec_mnemonic(),
    {
        self.opcode().mnemonic()
    }

    /// Return the static stack effect of this instruction.
    pub fn stack_effect(&self) -> (e: StackEffect)
        ensures
            e == self.spec_stack_effect(),
    {
        match self {
            Instruction::Nop { .. } => StackEffect::Delta(0),
            Instruction::Target { .. } => StackEffect::Delta(0),
            Instruction::Jump2 { .. } => StackEffect::Delta(0),
            Instruction::JumpI2 { .. } => StackEffect::Delta(-1),
            Instruction::Next { .. } => StackEffect::Delta(0),
            Instruction::LVal { .. } => StackEffect::Delta(0),
            Instruction::Range { .. } => StackEffect::Delta(-2),
            Instruction::Iter { .. } => StackEffect::Delta(-2),
            Instruction::Halt { .. } => StackEffect::Delta(0),
            Instruction::Load { .. } => StackEffect::Delta(1),
            Instruction::Stow { .. } => StackEffect::Delta(-1),
            Instruction::Drop { .. } => StackEffect::Delta(0),
            Instruction::Input { .. } => StackEffect::Delta(-1),
            Instruction::Output { .. } => StackEffect::Delta(-1),
            Instruction::Pop { .. } => StackEffect::Delta(-1),
            Instruction::Push1 { .. } => StackEffect::Delta(1),
            Instruction::Push2 { .. } => StackEffect::Delta(1),
            Instruction::Push3 { .. } => StackEffect::Delta(1),
            Instruction::Push4 { .. } => StackEffect::Delta(1),
            Instruction::Push5 { .. } => StackEffect::Delta(1),
            Instruction::Push6 { .. } => StackEffect::Delta(1),
            Instruction::Push7 { .. } => StackEffect::Delta(1),
            Instruction::Push8 { .. } => StackEffect::Delta(1),
            Instruction::Lidx { .. } => StackEffect::Delta(0),
            Instruction::Sclr { .. } => StackEffect::Reset,
            Instruction::Swap { .. } => StackEffect::Delta(0),
            Instruction::Copy { .. } => StackEffect::Delta(1),
            Instruction::Jump1 { .. } => StackEffect::Delta(0),
            Instruction::JumpI1 { .. } => StackEffect::Delta(-1),
            Instruction::Add { .. } => StackEffect::Delta(-1),
            Instruction::Sub { .. } => StackEffect::Delta(-1),
            Instruction::Mul { .. } => StackEffect::Delta(-1),
            Instruction::Div { .. } => StackEffect::Delta(-1),
            Instruction::Modulo { .. } => StackEffect::Delta(-1),
            Instruction::Sqr { .. } => StackEffect::Delta(0),
            Instruction::Abs { .. } => StackEffect::Delta(0),
            Instruction::Neg { .. } => StackEffect::Delta(0),
            Instruction::Min { .. } => StackEffect::Delta(-1),
            Instruction::Max { .. } => StackEffect::Delta(-1),
            Instruction::Inc { .. } => StackEffect::Delta(0),
            Instruction::Dec { .. } => StackEffect::Delta(0),
            Instruction::Eq { .. } => StackEffect::Delta(-1),
            Instruction::Lt { .. } => StackEffect::Delta(-1),
            Instruction::Gt { .. } => StackEffect::Delta(-1),
            Instruction::Lte { .. } => StackEffect::Delta(-1),
            Instruction::Gte { .. } => StackEffect::Delta(-1),
            Instruction::Not { .. } => StackEffect::Delta(0),
            Instruction::And { .. } => StackEffect::Delta(-1),
            Instruction::Or { .. } => StackEffect::Delta(-1),
            Instruction::Xor { .. } => StackEffect::Delta(-1),
            Instruction::BAnd { .. } => StackEffect::Delta(-1),
            Instruction::BOr { .. } => StackEffect::Delta(-1),
            Instruction::BXor { .. } => StackEffect::Delta(-1),
            Instruction::BNot { .. } => StackEffect::Delta(0),
            Instruction::Shl { .. } => StackEffect::Delta(-1),
            Instruction::Shr { .. } => StackEffect::Delta(-1),
            Instruction::Bqmx { .. } => StackEffect::Delta(-1),
            Instruction::Sqmx { .. } => StackEffect::Delta(-1),
            Instruction::Xqmx { .. } => StackEffect::Delta(-2),
            Instruction::Bsmx { .. } => StackEffect::Delta(-1),
            Instruction::Ssmx { .. } => StackEffect::Delta(-1),
            Instruction::Xsmx { .. } => StackEffect::Delta(-2),
            Instruction::Vec { .. } => StackEffect::Delta(0),
            Instruction::VecI { .. } => StackEffect::Delta(0),
            Instruction::VecX { .. } => StackEffect::Delta(0),
            Instruction::VecPush { .. } => StackEffect::Delta(-1),
            Instruction::VecGet { .. } => StackEffect::Delta(0),
            Instruction::VecSet { .. } => StackEffect::Delta(-2),
            Instruction::VecLen { .. } => StackEffect::Delta(1),
            Instruction::IdxGrid { .. } => StackEffect::Delta(-2),
            Instruction::IdxTriu { .. } => StackEffect::Delta(-1),
            Instruction::GetLine { .. } => StackEffect::Delta(0),
            Instruction::SetLine { .. } => StackEffect::Delta(-2),
            Instruction::AddLine { .. } => StackEffect::Delta(-2),
            Instruction::GetQuad { .. } => StackEffect::Delta(-1),
            Instruction::SetQuad { .. } => StackEffect::Delta(-3),
            Instruction::AddQuad { .. } => StackEffect::Delta(-3),
            Instruction::Resize { .. } => StackEffect::Delta(-2),
            Instruction::RowFind { .. } => StackEffect::Delta(-1),
            Instruction::ColFind { .. } => StackEffect::Delta(-1),
            Instruction::RowSum { .. } => StackEffect::Delta(0),
            Instruction::ColSum { .. } => StackEffect::Delta(0),
            Instruction::OneHotR { .. } => StackEffect::Delta(-2),
            Instruction::OneHotC { .. } => StackEffect::Delta(-2),
            Instruction::Exclude { .. } => StackEffect::Delta(-3),
            Instruction::Implies { .. } => StackEffect::Delta(-3),
            Instruction::Energy { .. } => StackEffect::Delta(1),
        }
    }

    /// Encode this instruction into its wire bytes.
    pub fn to_bytes(&self) -> (v: Vec<u8>)
        ensures
            v@ == self.spec_encode(),
    {
        match *self {
            Instruction::Nop {} => vec![0x00u8],
            Instruction::Target {} => vec![0x01u8],
            Instruction::Jump2 { label } => vec![0x02u8, (label / 256) as u8, (label % 256) as u8],
            Instruction::JumpI2 { label } => vec![0x03u8, (label / 256) as u8, (label % 256) as u8],
            Instruction::Next {} => vec![0x04u8],
            Instruction::LVal { reg } => vec![0x05u8, reg.0],
            Instruction::Range {} => vec![0x06u8],
            Instruction::Iter { reg } => vec![0x07u8, reg.0],
            Instruction::Halt {} => vec![0x09u8],
            Instruction::Load { reg } => vec![0x0Au8, reg.0],
            Instruction::Stow { reg } => vec![0x0Bu8, reg.0],
            Instruction::Drop { reg } => vec![0x0Cu8, reg.0],
            Instruction::Input { reg } => vec![0x0Eu8, reg.0],
            Instruction::Output { reg } => vec![0x0Fu8, reg.0],
            Instruction::Pop {} => vec![0x10u8],
            Instruction::Push1 { val } => vec![0x11u8, val[0]],
            Instruction::Push2 { val } => vec![0x12u8, val[0], val[1]],
            Instruction::Push3 { val } => vec![0x13u8, val[0], val[1], val[2]],
            Instruction::Push4 { val } => vec![0x14u8, val[0], val[1], val[2], val[3]],
            Instruction::Push5 { val } => vec![0x15u8, val[0], val[1], val[2], val[3], val[4]],
            Instruction::Push6 { val } => vec![0x16u8, val[0], val[1], val[2], val[3], val[4], val[5]],
            Instruction::Push7 { val } => vec![0x17u8, val[0], val[1], val[2], val[3], val[4], val[5], val[6]],
            Instruction::Push8 { val } => vec![0x18u8, val[0], val[1], val[2], val[3], val[4], val[5], val[6], val[7]],
            Instruction::Lidx { reg } => vec![0x19u8, reg.0],
            Instruction::Sclr {} => vec![0x1Au8],
            Instruction::Swap {} => vec![0x1Bu8],
            Instruction::Copy {} => vec![0x1Cu8],
            Instruction::Jump1 { label } => vec![0x1Du8, label],
            Instruction::JumpI1 { label } => vec![0x1Eu8, label],
            Instruction::Add {} => vec![0x20u8],
            Instruction::Sub {} => vec![0x21u8],
            Instruction::Mul {} => vec![0x22u8],
            Instruction::Div {} => vec![0x23u8],
            Instruction::Modulo {} => vec![0x24u8],
            Instruction::Sqr {} => vec![0x25u8],
            Instruction::Abs {} => vec![0x26u8],
            Instruction::Neg {} => vec![0x27u8],
            Instruction::Min {} => vec![0x28u8],
            Instruction::Max {} => vec![0x29u8],
            Instruction::Inc {} => vec![0x2Au8],
            Instruction::Dec {} => vec![0x2Bu8],
            Instruction::Eq {} => vec![0x30u8],
            Instruction::Lt {} => vec![0x31u8],
            Instruction::Gt {} => vec![0x32u8],
            Instruction::Lte {} => vec![0x33u8],
            Instruction::Gte {} => vec![0x34u8],
            Instruction::Not {} => vec![0x36u8],
            Instruction::And {} => vec![0x37u8],
            Instruction::Or {} => vec![0x38u8],
            Instruction::Xor {} => vec![0x39u8],
            Instruction::BAnd {} => vec![0x3Au8],
            Instruction::BOr {} => vec![0x3Bu8],
            Instruction::BXor {} => vec![0x3Cu8],
            Instruction::BNot {} => vec![0x3Du8],
            Instruction::Shl {} => vec![0x3Eu8],
            Instruction::Shr {} => vec![0x3Fu8],
            Instruction::Bqmx { reg } => vec![0x40u8, reg.0],
            Instruction::Sqmx { reg } => vec![0x41u8, reg.0],
            Instruction::Xqmx { reg } => vec![0x42u8, reg.0],
            Instruction::Bsmx { reg } => vec![0x43u8, reg.0],
            Instruction::Ssmx { reg } => vec![0x44u8, reg.0],
            Instruction::Xsmx { reg } => vec![0x45u8, reg.0],
            Instruction::Vec { reg } => vec![0x4Au8, reg.0],
            Instruction::VecI { reg } => vec![0x4Bu8, reg.0],
            Instruction::VecX { reg } => vec![0x4Cu8, reg.0],
            Instruction::VecPush { reg } => vec![0x50u8, reg.0],
            Instruction::VecGet { reg } => vec![0x51u8, reg.0],
            Instruction::VecSet { reg } => vec![0x52u8, reg.0],
            Instruction::VecLen { reg } => vec![0x53u8, reg.0],
            Instruction::IdxGrid {} => vec![0x5Au8],
            Instruction::IdxTriu {} => vec![0x5Bu8],
            Instruction::GetLine { reg } => vec![0x60u8, reg.0],
            Instruction::SetLine { reg } => vec![0x61u8, reg.0],
            Instruction::AddLine { reg } => vec![0x62u8, reg.0],
            Instruction::GetQuad { reg } => vec![0x63u8, reg.0],
            Instruction::SetQuad { reg } => vec![0x64u8, reg.0],
            Instruction::AddQuad { reg } => vec![0x65u8, reg.0],
            Instruction::Resize { reg } => vec![0x66u8, reg.0],
            Instruction::RowFind { reg } => vec![0x67u8, reg.0],
            Instruction::ColFind { reg } => vec![0x68u8, reg.0],
            Instruction::RowSum { reg } => vec![0x69u8, reg.0],
            Instruction::ColSum { reg } => vec![0x6Au8, reg.0],
            Instruction::OneHotR { reg } => vec![0x70u8, reg.0],
            Instruction::OneHotC { reg } => vec![0x71u8, reg.0],
            Instruction::Exclude { reg } => vec![0x72u8, reg.0],
            Instruction::Implies { reg } => vec![0x73u8, reg.0],
            Instruction::Energy { model, sample } => vec![0x7Fu8, model.0, sample.0],
        }
    }

    /// Build the instruction with opcode `op` from the operand bytes at `bytes[start..]`.
    pub fn from_parts(op: Opcode, bytes: &[u8], start: usize) -> (i: Instruction)
        requires
            start + op.spec_operand_len() <= bytes@.len(),
        ensures
            i == Self::spec_from_parts(op, bytes@.subrange(start as int, start + op.spec_operand_len())),
    {
        match op {
            Opcode::Nop => Instruction::Nop {},
            Opcode::Target => Instruction::Target {},
            Opcode::Jump2 => Instruction::Jump2 { label: (bytes[start] as u16) * 256 + (bytes[start + 1] as u16) },
            Opcode::JumpI2 => Instruction::JumpI2 { label: (bytes[start] as u16) * 256 + (bytes[start + 1] as u16) },
            Opcode::Next => Instruction::Next {},
            Opcode::LVal => Instruction::LVal { reg: Register(bytes[start]) },
            Opcode::Range => Instruction::Range {},
            Opcode::Iter => Instruction::Iter { reg: Register(bytes[start]) },
            Opcode::Halt => Instruction::Halt {},
            Opcode::Load => Instruction::Load { reg: Register(bytes[start]) },
            Opcode::Stow => Instruction::Stow { reg: Register(bytes[start]) },
            Opcode::Drop => Instruction::Drop { reg: Register(bytes[start]) },
            Opcode::Input => Instruction::Input { reg: Register(bytes[start]) },
            Opcode::Output => Instruction::Output { reg: Register(bytes[start]) },
            Opcode::Pop => Instruction::Pop {},
            Opcode::Push1 => Instruction::Push1 { val: [bytes[start]] },
            Opcode::Push2 => Instruction::Push2 { val: [bytes[start], bytes[start + 1]] },
            Opcode::Push3 => Instruction::Push3 { val: [bytes[start], bytes[start + 1], bytes[start + 2]] },
            Opcode::Push4 => Instruction::Push4 { val: [bytes[start], bytes[start + 1], bytes[start + 2], bytes[start + 3]] },
            Opcode::Push5 => Instruction::Push5 { val: [bytes[start], bytes[start + 1], bytes[start + 2], bytes[start + 3], bytes[start + 4]] },
            Opcode::Push6 => Instruction::Push6 { val: [bytes[start], bytes[start + 1], bytes[start + 2], bytes[start + 3], bytes[start + 4], bytes[start + 5]] },
            Opcode::Push7 => Instruction::Push7 { val: [bytes[start], bytes[start + 1], bytes[start + 2], bytes[start + 3], bytes[start + 4], bytes[start + 5], bytes[start + 6]] },
            Opcode::Push8 => Instruction::Push8 { val: [bytes[start], bytes[start + 1], bytes[start + 2], bytes[start + 3], bytes[start + 4], bytes[start + 5], bytes[start + 6], bytes[start + 7]] },
            Opcode::Lidx => Instruction::Lidx { reg: Register(bytes[start]) },
            Opcode::Sclr => Instruction::Sclr {},
            Opcode::Swap => Instruction::Swap {},
            Opcode::Copy => Instruction::Copy {},
            Opcode::Jump1 => Instruction::Jump1 { label: bytes[start] },
            Opcode::JumpI1 => Instruction::JumpI1 { label: bytes[start] },
            Opcode::Add => Instruction::Add {},
            Opcode::Sub => Instruction::Sub {},
            Opcode::Mul => Instruction::Mul {},
            Opcode::Div => Instruction::Div {},
            Opcode::Modulo => Instruction::Modulo {},
            Opcode::Sqr => Instruction::Sqr {},
            Opcode::Abs => Instruction::Abs {},
            Opcode::Neg => Instruction::Neg {},
            Opcode::Min => Instruction::Min {},
            Opcode::Max => Instruction::Max {},
            Opcode::Inc => Instruction::Inc {},
            Opcode::Dec => Instruction::Dec {},
            Opcode::Eq => Instruction::Eq {},
            Opcode::Lt => Instruction::Lt {},
            Opcode::Gt => Instruction::Gt {},
            Opcode::Lte => Instruction::Lte {},
            Opcode::Gte => Instruction::Gte {},
            Opcode::Not => Instruction::Not {},
            Opcode::And => Instruction::And {},
            Opcode::Or => Instruction::Or {},
            Opcode::Xor => Instruction::Xor {},
            Opcode::BAnd => Instruction::BAnd {},
            Opcode::BOr => Instruction::BOr {},
            Opcode::BXor => Instruction::BXor {},
            Opcode::BNot => Instruction::BNot {},
            Opcode::Shl => Instruction::Shl {},
            Opcode::Shr => Instruction::Shr {},
            Opcode::Bqmx => Instruction::Bqmx { reg: Register(bytes[start]) },
            Opcode::Sqmx => Instruction::Sqmx { reg: Register(bytes[start]) },
            Opcode::Xqmx => Instruction::Xqmx { reg: Register(bytes[start]) },
            Opcode::Bsmx => Instruction::Bsmx { reg: Register(bytes[start]) },
            Opcode::Ssmx => Instruction::Ssmx { reg: Register(bytes[start]) },
            Opcode::Xsmx => Instruction::Xsmx { reg: Register(bytes[start]) },
            Opcode::Vec => Instruction::Vec { reg: Register(bytes[start]) },
            Opcode::VecI => Instruction::VecI { reg: Register(bytes[start]) },
            Opcode::VecX => Instruction::VecX { reg: Register(bytes[start]) },
            Opcode::VecPush => Instruction::VecPush { reg: Register(bytes[start]) },
            Opcode::VecGet => Instruction::VecGet { reg: Register(bytes[start]) },
            Opcode::VecSet => Instruction::VecSet { reg: Register(bytes[start]) },
            Opcode::VecLen => Instruction::VecLen { reg: Register(bytes[start]) },
            Opcode::IdxGrid => Instruction::IdxGrid {},
            Opcode::IdxTriu => Instruction::IdxTriu {},
            Opcode::GetLine => Instruction::GetLine { reg: Register(bytes[start]) },
            Opcode::SetLine => Instruction::SetLine { reg: Register(bytes[start]) },
            Opcode::AddLine => Instruction::AddLine { reg: Register(bytes[start]) },
            Opcode::GetQuad => Instruction::GetQuad { reg: Register(bytes[start]) },
            Opcode::SetQuad => Instruction::SetQuad { reg: Register(bytes[start]) },
            Opcode::AddQuad => Instruction::AddQuad { reg: Register(bytes[start]) },
            Opcode::Resize => Instruction::Resize { reg: Register(bytes[start]) },
            Opcode::RowFind => Instruction::RowFind { reg: Register(bytes[start]) },
            Opcode::ColFind => Instruction::ColFind { reg: Register(bytes[start]) },
            Opcode::RowSum => Instruction::RowSum { reg: Register(bytes[start]) },
            Opcode::ColSum => Instruction::ColSum { reg: Register(bytes[start]) },
            Opcode::OneHotR => Instruction::OneHotR { reg: Register(bytes[start]) },
            Opcode::OneHotC => Instruction::OneHotC { reg: Register(bytes[start]) },
            Opcode::Exclude => Instruction::Exclude { reg: Register(bytes[start]) },
            Opcode::Implies => Instruction::Implies { reg: Register(bytes[start]) },
            Opcode::Energy => Instruction::Energy { model: Register(bytes[start]), sample: Register(bytes[start + 1]) },
        }
    }

    /// The operand bytes have the width fixed by the opcode.
    pub proof fn lemma_operands_len(self)
        ensures
            self.spec_operands().len() == self.spec_opcode().spec_operand_len(),
            self.spec_encode().len() == self.spec_opcode().spec_encoded_len(),
    {
    }

    /// Rebuilding an instruction from its opcode and operand bytes gives it back.
    pub proof fn lemma_from_parts_roundtrip(self)
        ensures
            Self::spec_from_parts(self.spec_opcode(), self.spec_operands()) == self,
    {
        broadcast use vstd::array::group_array_axioms;
        let r = Self::spec_from_parts(self.spec_opcode(), self.spec_operands());
        match self {
            Instruction::Push1 { val } => {
                assert(r->Push1_val =~= val);
            },
            Instruction::Push2 { val } => {
                assert(r->Push2_val =~= val);
            },
            Instruction::Push3 { val } => {
                assert(r->Push3_val =~= val);
            },
            Instruction::Push4 { val } => {
                assert(r->Push4_val =~= val);
            },
            Instruction::Push5 { val } => {
                assert(r->Push5_val =~= val);
            },
            Instruction::Push6 { val } => {
                assert(r->Push6_val =~= val);
            },
            Instruction::Push7 { val } => {
                assert(r->Push7_val =~= val);
            },
            Instruction::Push8 { val } => {
                assert(r->Push8_val =~= val);
            },
            _ => {},
        }
    }

    /// Operand bytes of the right width always come from exactly one instruction.
    pub proof fn lemma_from_parts_canonical(op: Opcode, s: Seq<u8>)
        requires
            s.len() == op.spec_operand_len(),
        ensures
            Self::spec_from_parts(op, s).spec_opcode() == op,
            Self::spec_from_parts(op, s).spec_operands() =~= s,
    {
    }
}

} // verus!
