//! Pre-execution bytecode verifier for XQVM programs.
//!
//! Verification is structured as composable [`Phase`]s. Each phase performs
//! one focused check over a [`Program`]. A [`Verifier`] runs phases in
//! order, stopping at the first failure.
//!
//! The [`scan`] function is the shared kernel: one linear pass over the
//! instruction bytes that builds the [`JumpTable`] and finds the first
//! structural, jump-target or loop-nesting violation.
//!
//! | Phase | What it checks |
//! |---|---|
//! | [`StructuralPhase`] | Truncated bytes, unknown opcodes |
//! | [`JumpTargetPhase`] | Jump label not below the target count |
//! | [`LoopNestingPhase`] | Loop open/close balance, loop-context reads |
//! | [`RegisterTypePhase`] | Register read-before-write, type-state mismatches |
//! | [`StackEffectPhase`] | Stack underflow, overflow risk, loop stack balance |
//!
//! All analyses are linear scans: no control-flow graph is built.

use vstd::prelude::*;

use crate::bytecode::instruction::{Instruction, StackEffect};
use crate::bytecode::stream::{
    lemma_items_unfold, spec_items, spec_items_from, spec_step, Error as StreamError, InstructionStream,
};

use super::jump_table::JumpTable;
use super::program::Program;

verus! {

/// Errors produced by the pre-execution bytecode verifier.
///
/// Each variant carries the byte offset of the offending instruction.
#[derive(Debug, Clone, PartialEq, Eq)]
pub enum VerifierError {
    /// A jump instruction references a `TARGET` label id that does not exist
    /// in the program's jump table.
    UndefinedJumpTarget { offset: usize, label: u16, target_count: usize },
    /// `NEXT`, `LVAL`, or `LIDX` was reached with no `RANGE`/`ITER` active.
    NoActiveLoop { offset: usize },
    /// At least one `RANGE` or `ITER` was opened without a matching `NEXT`
    /// before the end of the program; `offset` is the outermost one.
    UnmatchedLoop { offset: usize, depth: usize },
    /// The instruction stream hit a truncated operand sequence.
    TruncatedInstruction { offset: usize },
    /// The instruction stream encountered an unrecognized opcode byte.
    BadOpcode { offset: usize, byte: u8 },
    /// An instruction tried to read a register that has never been written.
    ReadUnsetRegister { offset: usize, reg: u8 },
    /// An instruction found a register holding the wrong type.
    RegisterTypeMismatch { offset: usize, reg: u8, expected: &'static str, got: &'static str },
    /// A stack-consuming instruction was reached with insufficient items.
    StackUnderflow { offset: usize },
    /// The stack depth may exceed the VM limit of 8192 at this instruction.
    StackOverflowRisk { offset: usize, depth: usize },
    /// A loop body's net stack effect is non-zero.
    LoopStackImbalance { opener: usize, entry: usize, exit: usize },
}

impl VerifierError {
    /// The stable tag of each variant.
    pub open spec fn spec_variant_name(self) -> Seq<char> {
        match self {
            VerifierError::UndefinedJumpTarget { .. } => "UndefinedJumpTarget"@,
            VerifierError::NoActiveLoop { .. } => "NoActiveLoop"@,
            VerifierError::UnmatchedLoop { .. } => "UnmatchedLoop"@,
            VerifierError::TruncatedInstruction { .. } => "TruncatedInstruction"@,
            VerifierError::BadOpcode { .. } => "BadOpcode"@,
            VerifierError::ReadUnsetRegister { .. } => "ReadUnsetRegister"@,
            VerifierError::RegisterTypeMismatch { .. } => "RegisterTypeMismatch"@,
            VerifierError::StackUnderflow { .. } => "StackUnderflow"@,
            VerifierError::StackOverflowRisk { .. } => "StackOverflowRisk"@,
            VerifierError::LoopStackImbalance { .. } => "LoopStackImbalance"@,
        }
    }

    /// A stable string tag for each variant, used to match expected errors
    /// without coupling to the display format.
    pub fn variant_name(&self) -> (n: &'static str)
        ensures
            n@ == self.spec_variant_name(),
    {
        match self {
            VerifierError::UndefinedJumpTarget { .. } => "UndefinedJumpTarget",
            VerifierError::NoActiveLoop { .. } => "NoActiveLoop",
            VerifierError::UnmatchedLoop { .. } => "UnmatchedLoop",
            VerifierError::TruncatedInstruction { .. } => "TruncatedInstruction",
            VerifierError::BadOpcode { .. } => "BadOpcode",
            VerifierError::ReadUnsetRegister { .. } => "ReadUnsetRegister",
            VerifierError::RegisterTypeMismatch { .. } => "RegisterTypeMismatch",
            VerifierError::StackUnderflow { .. } => "StackUnderflow",
            VerifierError::StackOverflowRisk { .. } => "StackOverflowRisk",
            VerifierError::LoopStackImbalance { .. } => "LoopStackImbalance",
        }
    }
}

/// The verifier error reported for a stream decode error met during
/// sequential iteration.
pub open spec fn spec_stream_err(e: StreamError) -> VerifierError {
    match e {
        StreamError::TruncatedInstruction { offset } => VerifierError::TruncatedInstruction { offset },
        StreamError::UnknownOpcode { offset, byte } => VerifierError::BadOpcode { offset, byte },
        StreamError::SeekOutOfBounds { target, .. } => VerifierError::TruncatedInstruction { offset: target },
    }
}

/// Convert a stream error into a [`VerifierError`]. `SeekOutOfBounds`
/// cannot come from sequential iteration and maps to `TruncatedInstruction`.
fn stream_err(e: &StreamError) -> (v: VerifierError)
    ensures
        v == spec_stream_err(*e),
{
    match e {
        StreamError::TruncatedInstruction { offset } => VerifierError::TruncatedInstruction { offset: *offset },
        StreamError::UnknownOpcode { offset, byte } => VerifierError::BadOpcode { offset: *offset, byte: *byte },
        StreamError::SeekOutOfBounds { target, .. } => VerifierError::TruncatedInstruction { offset: *target },
    }
}

/// Reading the stream one step further: the next item is the one at index
/// `i` of the whole item sequence.
proof fn lemma_advance(bytes: Seq<u8>, pos: nat, items: Seq<Result<(usize, Instruction), StreamError>>, i: nat)
    requires
        pos < bytes.len(),
        i <= items.len(),
        items.subrange(i as int, items.len() as int) == spec_items_from(bytes, pos),
    ensures
        i < items.len(),
        items[i as int] == spec_step(bytes, pos).0,
        items.subrange((i + 1) as int, items.len() as int) == spec_items_from(bytes, spec_step(bytes, pos).1),
{
    lemma_items_unfold(bytes, pos);
    let rest = spec_items_from(bytes, spec_step(bytes, pos).1);
    let tail = items.subrange(i as int, items.len() as int);
    assert(tail.len() == 1 + rest.len());
    assert(tail[0] == spec_step(bytes, pos).0);
    assert(tail[0] == items[i as int]);
    assert(items.subrange((i + 1) as int, items.len() as int) =~= tail.subrange(1, tail.len() as int));
    assert(tail.subrange(1, tail.len() as int) =~= rest);
}

// ---------------------------------------------------------------------------
// Combined single-pass scan
// ---------------------------------------------------------------------------

/// State of the single-pass scan.
pub struct ScanState {
    /// Offsets of the `TARGET` instructions seen so far.
    pub targets: Seq<usize>,
    /// Offsets of the currently open `RANGE`/`ITER` instructions.
    pub loops: Seq<usize>,
    /// Offsets and labels of the jump instructions seen so far.
    pub jumps: Seq<(usize, u16)>,
    /// The first error found, if any.
    pub err: Option<VerifierError>,
}

/// The scan state after the instruction `instr` at offset `pos`.
pub open spec fn scan_step(st: ScanState, pos: usize, instr: Instruction) -> ScanState {
    match instr {
        Instruction::Target {  } => ScanState { targets: st.targets.push(pos), ..st },
        Instruction::Range {  } => ScanState { loops: st.loops.push(pos), ..st },
        Instruction::Iter { .. } => ScanState { loops: st.loops.push(pos), ..st },
        Instruction::Next {  } => if st.err is None {
            if st.loops.len() == 0 {
                ScanState { err: Some(VerifierError::NoActiveLoop { offset: pos }), ..st }
            } else {
                ScanState { loops: st.loops.drop_last(), ..st }
            }
        } else {
            st
        },
        Instruction::Lidx { .. } => if st.loops.len() == 0 && st.err is None {
            ScanState { err: Some(VerifierError::NoActiveLoop { offset: pos }), ..st }
        } else {
            st
        },
        Instruction::LVal { .. } => if st.loops.len() == 0 && st.err is None {
            ScanState { err: Some(VerifierError::NoActiveLoop { offset: pos }), ..st }
        } else {
            st
        },
        Instruction::Jump1 { label } => ScanState { jumps: st.jumps.push((pos, label as u16)), ..st },
        Instruction::JumpI1 { label } => ScanState { jumps: st.jumps.push((pos, label as u16)), ..st },
        Instruction::Jump2 { label } => ScanState { jumps: st.jumps.push((pos, label)), ..st },
        Instruction::JumpI2 { label } => ScanState { jumps: st.jumps.push((pos, label)), ..st },
        _ => st,
    }
}

/// The first jump, from index `k` on, whose label is not below `count`.
pub open spec fn first_bad_jump(jumps: Seq<(usize, u16)>, count: usize, k: nat) -> Option<VerifierError>
    decreases jumps.len() - k,
{
    if k >= jumps.len() {
        None
    } else if jumps[k as int].1 as usize >= count {
        Some(VerifierError::UndefinedJumpTarget { offset: jumps[k as int].0, label: jumps[k as int].1, target_count: count })
    } else {
        first_bad_jump(jumps, count, k + 1)
    }
}

/// Final checks once the walk is over: unmatched loop openers, then
/// undefined jump targets.
pub open spec fn scan_finish(st: ScanState) -> (Seq<usize>, Option<VerifierError>) {
    let err1 = if st.err is None && st.loops.len() > 0 {
        Some(VerifierError::UnmatchedLoop { offset: st.loops[0], depth: st.loops.len() as usize })
    } else {
        st.err
    };
    let err2 = if err1 is None {
        first_bad_jump(st.jumps, st.targets.len() as usize, 0)
    } else {
        err1
    };
    (st.targets, err2)
}

/// The scan from item `i` on, in state `st`. A decode error stops the walk.
pub open spec fn scan_from(items: Seq<Result<(usize, Instruction), StreamError>>, i: nat, st: ScanState) -> (
    Seq<usize>,
    Option<VerifierError>,
)
    decreases items.len() - i,
{
    if i >= items.len() {
        scan_finish(st)
    } else {
        match items[i as int] {
            Err(e) => scan_finish(
                ScanState { err: if st.err is None { Some(spec_stream_err(e)) } else { st.err }, ..st },
            ),
            Ok((pos, instr)) => scan_from(items, i + 1, scan_step(st, pos, instr)),
        }
    }
}

/// The jump-table targets of `code` and its first structural, loop-nesting
/// or jump-target violation.
pub open spec fn spec_scan(code: Seq<u8>) -> (Seq<usize>, Option<VerifierError>) {
    scan_from(
        spec_items(code),
        0,
        ScanState { targets: seq![], loops: seq![], jumps: seq![], err: None },
    )
}

/// Whether some item of `items` decodes to a `TARGET` at offset `off`.
pub open spec fn has_target_at(items: Seq<Result<(usize, Instruction), StreamError>>, off: usize) -> bool {
    exists|j: int| 0 <= j < items.len() && #[trigger] items[j] == Ok::<(usize, Instruction), StreamError>(
        (off, Instruction::Target {  }),
    )
}

proof fn lemma_scan_from_targets(
    items: Seq<Result<(usize, Instruction), StreamError>>,
    i: nat,
    st: ScanState,
)
    requires
        i <= items.len(),
        forall|k: int| 0 <= k < st.targets.len() ==> has_target_at(items, #[trigger] st.targets[k]),
    ensures
        forall|k: int|
            0 <= k < scan_from(items, i, st).0.len() ==> has_target_at(items, #[trigger] scan_from(items, i, st).0[k]),
    decreases items.len() - i,
{
    if i >= items.len() {
        assert(scan_from(items, i, st).0 == st.targets);
    } else {
        match items[i as int] {
            Err(e) => {
                assert(scan_from(items, i, st).0 == st.targets);
            },
            Ok((pos, instr)) => {
                let next = scan_step(st, pos, instr);
                assert(scan_from(items, i, st) == scan_from(items, i + 1, next));
                assert forall|k: int| 0 <= k < next.targets.len() implies has_target_at(
                    items,
                    #[trigger] next.targets[k],
                ) by {
                    if k == st.targets.len() && instr is Target {
                        assert(items[i as int] == Ok::<(usize, Instruction), StreamError>(
                            (next.targets[k], Instruction::Target {  }),
                        ));
                    } else {
                        assert(next.targets[k] == st.targets[k]);
                    }
                }
                lemma_scan_from_targets(items, i + 1, next);
            },
        }
    }
}

/// Every offset in the jump table that scanning `code` builds is the offset
/// of a `TARGET` instruction decoded from `code`.
pub proof fn lemma_scan_targets_are_target_offsets(code: Seq<u8>)
    ensures
        forall|k: int|
            0 <= k < spec_scan(code).0.len() ==> has_target_at(spec_items(code), #[trigger] spec_scan(code).0[k]),
{
    lemma_scan_from_targets(
        spec_items(code),
        0,
        ScanState { targets: seq![], loops: seq![], jumps: seq![], err: None },
    );
}

/// Build a [`JumpTable`] and detect the first structural, jump-target or
/// loop-nesting violation in one pass over `code`.
///
/// A decode error stops the walk. Loop and jump-target errors are decided
/// after the walk; an earlier error is never replaced by a later one.
pub(crate) fn scan(code: &[u8]) -> (r: (JumpTable, Option<VerifierError>))
    ensures
        r.0.spec_targets() == spec_scan(code@).0,
        r.1 == spec_scan(code@).1,
{
    let mut targets: Vec<usize> = Vec::new();
    let mut loop_offsets: Vec<usize> = Vec::new();
    let mut jump_refs: Vec<(usize, u16)> = Vec::new();
    let mut first_error: Option<VerifierError> = None;
    let ghost items = spec_items(code@);
    let ghost mut i: nat = 0;
    let mut stream = InstructionStream::new(code);
    proof {
        assert(items.subrange(0, items.len() as int) =~= items);
    }
    loop
        invariant_except_break
            i <= items.len(),
            items.subrange(i as int, items.len() as int) == spec_items_from(code@, stream.spec_pos()),
            spec_scan(code@) == scan_from(
                items,
                i,
                ScanState { targets: targets@, loops: loop_offsets@, jumps: jump_refs@, err: first_error },
            ),
        invariant
            stream.spec_bytes() == code@,
            items == spec_items(code@),
        ensures
            spec_scan(code@) == scan_finish(
                ScanState { targets: targets@, loops: loop_offsets@, jumps: jump_refs@, err: first_error },
            ),
        decreases items.len() - i,
    {
        let ghost cur = stream.spec_pos();
        match stream.next_instruction() {
            None => {
                proof {
                    assert(items.subrange(i as int, items.len() as int).len() == 0);
                }
                break;
            },
            Some(Err(e)) => {
                proof {
                    lemma_advance(code@, cur, items, i);
                }
                if first_error.is_none() {
                    first_error = Some(stream_err(&e));
                }
                break;
            },
            Some(Ok((pos, _label, instr))) => {
                proof {
                    lemma_advance(code@, cur, items, i);
                }
                match instr {
                    Instruction::Target {  } => targets.push(pos),
                    Instruction::Range {  } => loop_offsets.push(pos),
                    Instruction::Iter { .. } => loop_offsets.push(pos),
                    Instruction::Next {  } => {
                        if first_error.is_none() {
                            if loop_offsets.len() == 0 {
                                first_error = Some(VerifierError::NoActiveLoop { offset: pos });
                            } else {
                                let _ = loop_offsets.pop();
                            }
                        }
                    },
                    Instruction::Lidx { .. } | Instruction::LVal { .. } => {
                        if loop_offsets.len() == 0 && first_error.is_none() {
                            first_error = Some(VerifierError::NoActiveLoop { offset: pos });
                        }
                    },
                    Instruction::Jump1 { label } | Instruction::JumpI1 { label } => {
                        jump_refs.push((pos, label as u16));
                    },
                    Instruction::Jump2 { label } | Instruction::JumpI2 { label } => {
                        jump_refs.push((pos, label));
                    },
                    _ => {},
                }
                proof {
                    i = i + 1;
                }
            },
        }
    }
    if first_error.is_none() && loop_offsets.len() > 0 {
        first_error = Some(VerifierError::UnmatchedLoop { offset: loop_offsets[0], depth: loop_offsets.len() });
    }
    let target_count = targets.len();
    if first_error.is_none() {
        let mut k: usize = 0;
        while k < jump_refs.len()
            invariant_except_break
                first_error is None,
            invariant
                k <= jump_refs@.len(),
                first_bad_jump(jump_refs@, target_count, 0) == first_bad_jump(jump_refs@, target_count, k as nat),
            ensures
                first_error == first_bad_jump(jump_refs@, target_count, 0),
            decreases jump_refs@.len() - k,
        {
            let (offset, label) = jump_refs[k];
            if label as usize >= target_count {
                first_error = Some(VerifierError::UndefinedJumpTarget { offset, label, target_count });
                break;
            }
            k = k + 1;
        }
    }
    (JumpTable::new(targets), first_error)
}


// ---------------------------------------------------------------------------
// Phase trait and Verifier
// ---------------------------------------------------------------------------

/// A single composable verification pass over a [`Program`].
pub trait Phase {
    /// What running this phase over `program` returns.
    spec fn spec_run(&self, program: Program) -> Result<(), VerifierError>;

    /// Run this phase over `program`, returning the first violation found.
    fn run(&self, program: &Program) -> (r: Result<(), VerifierError>)
        ensures
            r == self.spec_run(*program),
    ;
}

/// The empty phase list: accepts every program.
impl Phase for () {
    open spec fn spec_run(&self, program: Program) -> Result<(), VerifierError> {
        Ok(())
    }

    fn run(&self, program: &Program) -> (r: Result<(), VerifierError>) {
        Ok(())
    }
}

/// Two phases in sequence: the second runs only if the first succeeds.
impl<A: Phase, B: Phase> Phase for (A, B) {
    open spec fn spec_run(&self, program: Program) -> Result<(), VerifierError> {
        match self.0.spec_run(program) {
            Err(e) => Err(e),
            Ok(()) => self.1.spec_run(program),
        }
    }

    fn run(&self, program: &Program) -> (r: Result<(), VerifierError>) {
        match self.0.run(program) {
            Err(e) => Err(e),
            Ok(()) => self.1.run(program),
        }
    }
}

/// A sequenced collection of [`Phase`]s that run over a [`Program`].
///
/// Build a verifier with [`new`](Verifier::new) and the fluent
/// [`with_phase`](Verifier::with_phase); [`Verifier::default`] is the
/// standard verifier with all built-in phases in the recommended order.
/// Phases run in insertion order; the first failure stops the chain.
pub struct Verifier<P> {
    phases: P,
}

impl Verifier<()> {
    /// Create an empty verifier with no phases.
    pub fn new() -> (v: Self)
        ensures
            v.spec_phases() == (),
    {
        Verifier { phases: () }
    }
}

impl<P: Phase> Verifier<P> {
    /// The phases, in order.
    pub closed spec fn spec_phases(&self) -> P {
        self.phases
    }

    /// Append a phase to this verifier.
    pub fn with_phase<Q: Phase>(self, phase: Q) -> (v: Verifier<(P, Q)>)
        ensures
            v.spec_phases() == (self.spec_phases(), phase),
    {
        Verifier { phases: (self.phases, phase) }
    }

    /// Run all phases in insertion order, returning the first error.
    pub fn run(&self, program: &Program) -> (r: Result<(), VerifierError>)
        ensures
            r == self.spec_phases().spec_run(*program),
    {
        self.phases.run(program)
    }
}

impl Default for Verifier<((((), CombinedPhase), RegisterTypePhase), StackEffectPhase)> {
    /// The standard verifier: the combined structural, jump-target and
    /// loop-nesting pass, then register type-state, then stack depth.
    fn default() -> (v: Self)
        ensures
            v.spec_phases() == ((((), CombinedPhase), RegisterTypePhase), StackEffectPhase),
    {
        Verifier::new().with_phase(CombinedPhase).with_phase(RegisterTypePhase).with_phase(StackEffectPhase)
    }
}

/// Runs the structural, jump-target and loop-nesting checks in the single
/// pass of [`scan`].
pub struct CombinedPhase;

impl Phase for CombinedPhase {
    open spec fn spec_run(&self, program: Program) -> Result<(), VerifierError> {
        match spec_scan(program.spec_code()).1 {
            Some(e) => Err(e),
            None => Ok(()),
        }
    }

    fn run(&self, program: &Program) -> (r: Result<(), VerifierError>) {
        let (_table, err) = scan(program.code());
        match err {
            Some(e) => Err(e),
            None => Ok(()),
        }
    }
}

// ---------------------------------------------------------------------------
// StructuralPhase
// ---------------------------------------------------------------------------

/// The first decode error from item `i` on, if any.
pub open spec fn structural_from(items: Seq<Result<(usize, Instruction), StreamError>>, i: nat) -> Result<
    (),
    VerifierError,
>
    decreases items.len() - i,
{
    if i >= items.len() {
        Ok(())
    } else {
        match items[i as int] {
            Err(e) => Err(spec_stream_err(e)),
            Ok(_) => structural_from(items, i + 1),
        }
    }
}

/// Checks that every byte in the instruction stream decodes without error.
pub struct StructuralPhase;

impl Phase for StructuralPhase {
    open spec fn spec_run(&self, program: Program) -> Result<(), VerifierError> {
        structural_from(spec_items(program.spec_code()), 0)
    }

    fn run(&self, program: &Program) -> (r: Result<(), VerifierError>) {
        let ghost items = spec_items(program.spec_code());
        let ghost mut i: nat = 0;
        let mut stream = InstructionStream::new(program.code());
        proof {
            assert(items.subrange(0, items.len() as int) =~= items);
        }
        loop
            invariant
                stream.spec_bytes() == program.spec_code(),
                items == spec_items(program.spec_code()),
                i <= items.len(),
                items.subrange(i as int, items.len() as int) == spec_items_from(program.spec_code(), stream.spec_pos()),
                structural_from(items, 0) == structural_from(items, i),
            decreases items.len() - i,
        {
            let ghost cur = stream.spec_pos();
            match stream.next_instruction() {
                None => {
                    proof {
                        assert(items.subrange(i as int, items.len() as int).len() == 0);
                    }
                    return Ok(());
                },
                Some(Err(e)) => {
                    proof {
                        lemma_advance(program.spec_code(), cur, items, i);
                    }
                    return Err(stream_err(&e));
                },
                Some(Ok(_)) => {
                    proof {
                        lemma_advance(program.spec_code(), cur, items, i);
                        i = i + 1;
                    }
                },
            }
        }
    }
}

// ---------------------------------------------------------------------------
// JumpTargetPhase
// ---------------------------------------------------------------------------

/// The first decode error or jump to a label not below `count`, from item
/// `i` on.
pub open spec fn jump_targets_from(items: Seq<Result<(usize, Instruction), StreamError>>, i: nat, count: usize) -> Result<
    (),
    VerifierError,
>
    decreases items.len() - i,
{
    if i >= items.len() {
        Ok(())
    } else {
        match items[i as int] {
            Err(e) => Err(spec_stream_err(e)),
            Ok((pos, instr)) => {
                let bad = match instr {
                    Instruction::Jump1 { label } => if label as usize >= count {
                        Some(label as u16)
                    } else {
                        None
                    },
                    Instruction::JumpI1 { label } => if label as usize >= count {
                        Some(label as u16)
                    } else {
                        None
                    },
                    Instruction::Jump2 { label } => if label as usize >= count {
                        Some(label)
                    } else {
                        None
                    },
                    Instruction::JumpI2 { label } => if label as usize >= count {
                        Some(label)
                    } else {
                        None
                    },
                    _ => None,
                };
                match bad {
                    Some(label) => Err(VerifierError::UndefinedJumpTarget { offset: pos, label, target_count: count }),
                    None => jump_targets_from(items, i + 1, count),
                }
            },
        }
    }
}

/// Checks that every `JUMP*`/`JUMPI*` instruction references a label id
/// that exists in the program's jump table.
pub struct JumpTargetPhase;

impl Phase for JumpTargetPhase {
    open spec fn spec_run(&self, program: Program) -> Result<(), VerifierError> {
        jump_targets_from(spec_items(program.spec_code()), 0, program.spec_targets().len() as usize)
    }

    fn run(&self, program: &Program) -> (r: Result<(), VerifierError>) {
        let target_count = program.jump_table().len();
        let ghost items = spec_items(program.spec_code());
        let ghost mut i: nat = 0;
        let mut stream = InstructionStream::new(program.code());
        proof {
            assert(items.subrange(0, items.len() as int) =~= items);
        }
        loop
            invariant
                stream.spec_bytes() == program.spec_code(),
                items == spec_items(program.spec_code()),
                target_count == program.spec_targets().len(),
                i <= items.len(),
                items.subrange(i as int, items.len() as int) == spec_items_from(program.spec_code(), stream.spec_pos()),
                jump_targets_from(items, 0, target_count) == jump_targets_from(items, i, target_count),
            decreases items.len() - i,
        {
            let ghost cur = stream.spec_pos();
            match stream.next_instruction() {
                None => {
                    proof {
                        assert(items.subrange(i as int, items.len() as int).len() == 0);
                    }
                    return Ok(());
                },
                Some(Err(e)) => {
                    proof {
                        lemma_advance(program.spec_code(), cur, items, i);
                    }
                    return Err(stream_err(&e));
                },
                Some(Ok((pos, _label, instr))) => {
                    proof {
                        lemma_advance(program.spec_code(), cur, items, i);
                    }
                    match instr {
                        Instruction::Jump1 { label } | Instruction::JumpI1 { label } => {
                            if label as usize >= target_count {
                                return Err(
                                    VerifierError::UndefinedJumpTarget { offset: pos, label: label as u16, target_count },
                                );
                            }
                        },
                        Instruction::Jump2 { label } | Instruction::JumpI2 { label } => {
                            if label as usize >= target_count {
                                return Err(VerifierError::UndefinedJumpTarget { offset: pos, label, target_count });
                            }
                        },
                        _ => {},
                    }
                    proof {
                        i = i + 1;
                    }
                },
            }
        }
    }
}

// ---------------------------------------------------------------------------
// LoopNestingPhase
// ---------------------------------------------------------------------------

/// Loop balance from item `i` on, with the offsets of the open loops in
/// `loops` (outermost first).
pub open spec fn loop_nesting_from(items: Seq<Result<(usize, Instruction), StreamError>>, i: nat, loops: Seq<usize>) -> Result<
    (),
    VerifierError,
>
    decreases items.len() - i,
{
    if i >= items.len() {
        if loops.len() > 0 {
            Err(VerifierError::UnmatchedLoop { offset: loops[0], depth: loops.len() as usize })
        } else {
            Ok(())
        }
    } else {
        match items[i as int] {
            Err(e) => Err(spec_stream_err(e)),
            Ok((pos, instr)) => match instr {
                Instruction::Range {  } => loop_nesting_from(items, i + 1, loops.push(pos)),
                Instruction::Iter { .. } => loop_nesting_from(items, i + 1, loops.push(pos)),
                Instruction::Next {  } => if loops.len() == 0 {
                    Err(VerifierError::NoActiveLoop { offset: pos })
                } else {
                    loop_nesting_from(items, i + 1, loops.drop_last())
                },
                Instruction::Lidx { .. } => if loops.len() == 0 {
                    Err(VerifierError::NoActiveLoop { offset: pos })
                } else {
                    loop_nesting_from(items, i + 1, loops)
                },
                Instruction::LVal { .. } => if loops.len() == 0 {
                    Err(VerifierError::NoActiveLoop { offset: pos })
                } else {
                    loop_nesting_from(items, i + 1, loops)
                },
                _ => loop_nesting_from(items, i + 1, loops),
            },
        }
    }
}

/// Checks that `RANGE`/`ITER` and `NEXT` are properly balanced, and that
/// `LVAL`/`LIDX` are only used inside an active loop.
pub struct LoopNestingPhase;

impl Phase for LoopNestingPhase {
    open spec fn spec_run(&self, program: Program) -> Result<(), VerifierError> {
        loop_nesting_from(spec_items(program.spec_code()), 0, seq![])
    }

    fn run(&self, program: &Program) -> (r: Result<(), VerifierError>) {
        let mut loop_offsets: Vec<usize> = Vec::new();
        let ghost items = spec_items(program.spec_code());
        let ghost mut i: nat = 0;
        let mut stream = InstructionStream::new(program.code());
        proof {
            assert(items.subrange(0, items.len() as int) =~= items);
        }
        loop
            invariant
                stream.spec_bytes() == program.spec_code(),
                items == spec_items(program.spec_code()),
                i <= items.len(),
                items.subrange(i as int, items.len() as int) == spec_items_from(program.spec_code(), stream.spec_pos()),
                loop_nesting_from(items, 0, seq![]) == loop_nesting_from(items, i, loop_offsets@),
            decreases items.len() - i,
        {
            let ghost cur = stream.spec_pos();
            match stream.next_instruction() {
                None => {
                    proof {
                        assert(items.subrange(i as int, items.len() as int).len() == 0);
                    }
                    if loop_offsets.len() > 0 {
                        return Err(VerifierError::UnmatchedLoop { offset: loop_offsets[0], depth: loop_offsets.len() });
                    }
                    return Ok(());
                },
                Some(Err(e)) => {
                    proof {
                        lemma_advance(program.spec_code(), cur, items, i);
                    }
                    return Err(stream_err(&e));
                },
                Some(Ok((pos, _label, instr))) => {
                    proof {
                        lemma_advance(program.spec_code(), cur, items, i);
                    }
                    match instr {
                        Instruction::Range {  } | Instruction::Iter { .. } => {
                            loop_offsets.push(pos);
                        },
                        Instruction::Next {  } => {
                            if loop_offsets.len() == 0 {
                                return Err(VerifierError::NoActiveLoop { offset: pos });
                            }
                            let _ = loop_offsets.pop();
                        },
                        Instruction::Lidx { .. } | Instruction::LVal { .. } => {
                            if loop_offsets.len() == 0 {
                                return Err(VerifierError::NoActiveLoop { offset: pos });
                            }
                        },
                        _ => {},
                    }
                    proof {
                        i = i + 1;
                    }
                },
            }
        }
    }
}


// ---------------------------------------------------------------------------
// The one-pass scan against the three separate checks
// ---------------------------------------------------------------------------

/// Whether every jump in `jumps` names a label below `count`.
pub open spec fn jumps_below(jumps: Seq<(usize, u16)>, count: usize) -> bool {
    forall|k: int| 0 <= k < jumps.len() ==> (((#[trigger] jumps[k]).1 as usize) < count)
}

proof fn lemma_first_bad_jump_none(jumps: Seq<(usize, u16)>, count: usize, k: nat)
    requires
        k <= jumps.len(),
    ensures
        (first_bad_jump(jumps, count, k) is None) <==> (forall|j: int|
            k <= j < jumps.len() ==> (((#[trigger] jumps[j]).1 as usize) < count)),
    decreases jumps.len() - k,
{
    if k < jumps.len() {
        lemma_first_bad_jump_none(jumps, count, k + 1);
    }
}

proof fn lemma_jumps_below_push(jumps: Seq<(usize, u16)>, j: (usize, u16), count: usize)
    ensures
        jumps_below(jumps.push(j), count) <==> (jumps_below(jumps, count) && ((j.1 as usize) < count)),
{
    let next = jumps.push(j);
    if jumps_below(next, count) {
        assert(next[jumps.len() as int] == j);
        assert forall|k: int| 0 <= k < jumps.len() implies (((#[trigger] jumps[k]).1 as usize) < count) by {
            assert(next[k] == jumps[k]);
        }
    }
    if jumps_below(jumps, count) && (j.1 as usize) < count {
        assert forall|k: int| 0 <= k < next.len() implies (((#[trigger] next[k]).1 as usize) < count) by {
            if k < jumps.len() {
                assert(next[k] == jumps[k]);
            }
        }
    }
}

proof fn lemma_scan_error_sticks(items: Seq<Result<(usize, Instruction), StreamError>>, i: nat, st: ScanState)
    requires
        st.err is Some,
    ensures
        scan_from(items, i, st).1 is Some,
    decreases items.len() - i,
{
    if i < items.len() {
        match items[i as int] {
            Err(_) => {},
            Ok((pos, instr)) => {
                assert(scan_step(st, pos, instr).err is Some);
                lemma_scan_error_sticks(items, i + 1, scan_step(st, pos, instr));
            },
        }
    }
}

proof fn lemma_scan_from_phases(
    items: Seq<Result<(usize, Instruction), StreamError>>,
    i: nat,
    st: ScanState,
    count: usize,
)
    requires
        i <= items.len(),
        st.err is None,
        count == scan_from(items, i, st).0.len() as usize,
    ensures
        (scan_from(items, i, st).1 is None) <==> (structural_from(items, i) is Ok && jump_targets_from(
            items,
            i,
            count,
        ) is Ok && loop_nesting_from(items, i, st.loops) is Ok && jumps_below(st.jumps, count)),
    decreases items.len() - i,
{
    if i >= items.len() {
        lemma_first_bad_jump_none(st.jumps, count, 0);
    } else {
        match items[i as int] {
            Err(_) => {},
            Ok((pos, instr)) => {
                let next = scan_step(st, pos, instr);
                assert(scan_from(items, i, st) == scan_from(items, i + 1, next));
                if next.err is Some {
                    lemma_scan_error_sticks(items, i + 1, next);
                } else {
                    lemma_scan_from_phases(items, i + 1, next, count);
                    match instr {
                        Instruction::Jump1 { label } => lemma_jumps_below_push(st.jumps, (pos, label as u16), count),
                        Instruction::JumpI1 { label } => lemma_jumps_below_push(st.jumps, (pos, label as u16), count),
                        Instruction::Jump2 { label } => lemma_jumps_below_push(st.jumps, (pos, label), count),
                        Instruction::JumpI2 { label } => lemma_jumps_below_push(st.jumps, (pos, label), count),
                        _ => {},
                    }
                }
            },
        }
    }
}

/// The one-pass scan accepts exactly the programs that the structural,
/// jump-target and loop-nesting checks all accept, run one after another.
pub proof fn lemma_scan_matches_phases(p: Program)
    requires
        p.spec_targets() == spec_scan(p.spec_code()).0,
    ensures
        (CombinedPhase.spec_run(p) is Ok) <==> (StructuralPhase.spec_run(p) is Ok && JumpTargetPhase.spec_run(p) is Ok
            && LoopNestingPhase.spec_run(p) is Ok),
{
    let items = spec_items(p.spec_code());
    let st = ScanState { targets: seq![], loops: seq![], jumps: seq![], err: None };
    lemma_scan_from_phases(items, 0, st, spec_scan(p.spec_code()).0.len() as usize);
}

// ---------------------------------------------------------------------------
// RegType: static type tag for register contents
// ---------------------------------------------------------------------------

/// Static type tag used during register type-state analysis.
///
/// Mirrors the register value variants without carrying a value, plus
/// [`Any`](Self::Any) for registers that are set to a type that cannot be
/// determined statically (written by `INPUT` or `LVAL`).
#[derive(Debug, Clone, Copy, PartialEq, Eq, Default, Structural)]
pub enum RegType {
    /// Register has never been written (default state).
    #[default]
    Unset,
    /// Holds an `i64` integer.
    Int,
    /// Holds an integer vector.
    VecInt,
    /// Holds a model vector.
    VecXqmx,
    /// Holds a model.
    Model,
    /// Holds a sample.
    Sample,
    /// Set to an unknown type; satisfies any read requirement.
    Any,
}

impl RegType {
    /// Human-readable name used in [`VerifierError`] messages.
    pub open spec fn spec_name(self) -> &'static str {
        match self {
            RegType::Unset => "unset",
            RegType::Int => "int",
            RegType::VecInt => "vec<int>",
            RegType::VecXqmx => "vec<xqmx>",
            RegType::Model => "model",
            RegType::Sample => "sample",
            RegType::Any => "any",
        }
    }

    /// Human-readable name used in [`VerifierError`] messages.
    pub fn name(self) -> (n: &'static str)
        ensures
            n == self.spec_name(),
    {
        match self {
            RegType::Unset => "unset",
            RegType::Int => "int",
            RegType::VecInt => "vec<int>",
            RegType::VecXqmx => "vec<xqmx>",
            RegType::Model => "model",
            RegType::Sample => "sample",
            RegType::Any => "any",
        }
    }

    /// Whether this type satisfies `req`: `Unset` never does, `Any` always
    /// does, every other type meets the requirements it implements.
    pub open spec fn spec_satisfies(self, req: RegTypeReq) -> bool {
        match self {
            RegType::Unset => false,
            RegType::Any => true,
            RegType::Int => req == RegTypeReq::NonUnset || req == RegTypeReq::Int,
            RegType::VecInt => req == RegTypeReq::NonUnset || req == RegTypeReq::VecInt || req == RegTypeReq::AnyVec,
            RegType::VecXqmx => req == RegTypeReq::NonUnset || req == RegTypeReq::AnyVec,
            RegType::Model => req == RegTypeReq::NonUnset || req == RegTypeReq::Model || req == RegTypeReq::Grid,
            RegType::Sample => req == RegTypeReq::NonUnset || req == RegTypeReq::Sample || req == RegTypeReq::Grid,
        }
    }

    /// `Unset` satisfies no requirement, `Any` satisfies every one, and
    /// every set type satisfies the requirement that the register be set.
    pub proof fn lemma_satisfies_bounds(t: RegType, req: RegTypeReq)
        ensures
            !RegType::Unset.spec_satisfies(req),
            RegType::Any.spec_satisfies(req),
            t != RegType::Unset ==> t.spec_satisfies(RegTypeReq::NonUnset),
    {
    }

    fn satisfies(self, req: RegTypeReq) -> (b: bool)
        ensures
            b == self.spec_satisfies(req),
    {
        match self {
            RegType::Unset => false,
            RegType::Any => true,
            RegType::Int => matches!(req, RegTypeReq::NonUnset | RegTypeReq::Int),
            RegType::VecInt => matches!(req, RegTypeReq::NonUnset | RegTypeReq::VecInt | RegTypeReq::AnyVec),
            RegType::VecXqmx => matches!(req, RegTypeReq::NonUnset | RegTypeReq::AnyVec),
            RegType::Model => matches!(req, RegTypeReq::NonUnset | RegTypeReq::Model | RegTypeReq::Grid),
            RegType::Sample => matches!(req, RegTypeReq::NonUnset | RegTypeReq::Sample | RegTypeReq::Grid),
        }
    }
}

/// Type requirement at a register read site.
#[derive(Debug, Clone, Copy, PartialEq, Eq, Structural)]
pub enum RegTypeReq {
    /// Any set value.
    NonUnset,
    /// Specifically `Int`.
    Int,
    /// Specifically `Model`.
    Model,
    /// Specifically `Sample`.
    Sample,
    /// Specifically `VecInt`.
    VecInt,
    /// `VecInt` or `VecXqmx`.
    AnyVec,
    /// `Model` or `Sample` (grid operations).
    Grid,
}

impl RegTypeReq {
    /// Human-readable name of the requirement.
    pub open spec fn spec_name(self) -> &'static str {
        match self {
            RegTypeReq::NonUnset => "any",
            RegTypeReq::Int => "int",
            RegTypeReq::Model => "model",
            RegTypeReq::Sample => "sample",
            RegTypeReq::VecInt => "vec<int>",
            RegTypeReq::AnyVec => "vec",
            RegTypeReq::Grid => "model or sample",
        }
    }

    fn name(self) -> (n: &'static str)
        ensures
            n == self.spec_name(),
    {
        match self {
            RegTypeReq::NonUnset => "any",
            RegTypeReq::Int => "int",
            RegTypeReq::Model => "model",
            RegTypeReq::Sample => "sample",
            RegTypeReq::VecInt => "vec<int>",
            RegTypeReq::AnyVec => "vec",
            RegTypeReq::Grid => "model or sample",
        }
    }
}

/// The outcome of reading register `slot` with requirement `req` at `offset`.
pub open spec fn spec_check_reg(offset: usize, slot: u8, req: RegTypeReq, regs: Seq<RegType>) -> Result<
    (),
    VerifierError,
> {
    let current = regs[slot as int];
    if current == RegType::Unset {
        Err(VerifierError::ReadUnsetRegister { offset, reg: slot })
    } else if !current.spec_satisfies(req) {
        Err(
            VerifierError::RegisterTypeMismatch {
                offset,
                reg: slot,
                expected: req.spec_name(),
                got: current.spec_name(),
            },
        )
    } else {
        Ok(())
    }
}

/// The outcome of the register reads of `instr` at `pos`.
pub open spec fn spec_check_reads(pos: usize, instr: Instruction, regs: Seq<RegType>) -> Result<(), VerifierError> {
    match instr {
        Instruction::Load { reg } => spec_check_reg(pos, reg.0, RegTypeReq::Int, regs),
        Instruction::Output { reg } => spec_check_reg(pos, reg.0, RegTypeReq::NonUnset, regs),
        Instruction::Iter { reg } => spec_check_reg(pos, reg.0, RegTypeReq::AnyVec, regs),
        Instruction::VecLen { reg } => spec_check_reg(pos, reg.0, RegTypeReq::AnyVec, regs),
        Instruction::VecGet { reg } => spec_check_reg(pos, reg.0, RegTypeReq::VecInt, regs),
        Instruction::VecSet { reg } => spec_check_reg(pos, reg.0, RegTypeReq::VecInt, regs),
        Instruction::VecPush { reg } => spec_check_reg(pos, reg.0, RegTypeReq::VecInt, regs),
        Instruction::GetLine { reg } => spec_check_reg(pos, reg.0, RegTypeReq::Model, regs),
        Instruction::SetLine { reg } => spec_check_reg(pos, reg.0, RegTypeReq::Model, regs),
        Instruction::AddLine { reg } => spec_check_reg(pos, reg.0, RegTypeReq::Model, regs),
        Instruction::GetQuad { reg } => spec_check_reg(pos, reg.0, RegTypeReq::Model, regs),
        Instruction::SetQuad { reg } => spec_check_reg(pos, reg.0, RegTypeReq::Model, regs),
        Instruction::AddQuad { reg } => spec_check_reg(pos, reg.0, RegTypeReq::Model, regs),
        Instruction::OneHotR { reg } => spec_check_reg(pos, reg.0, RegTypeReq::Model, regs),
        Instruction::OneHotC { reg } => spec_check_reg(pos, reg.0, RegTypeReq::Model, regs),
        Instruction::Exclude { reg } => spec_check_reg(pos, reg.0, RegTypeReq::Model, regs),
        Instruction::Implies { reg } => spec_check_reg(pos, reg.0, RegTypeReq::Model, regs),
        Instruction::Resize { reg } => spec_check_reg(pos, reg.0, RegTypeReq::Grid, regs),
        Instruction::RowFind { reg } => spec_check_reg(pos, reg.0, RegTypeReq::Grid, regs),
        Instruction::ColFind { reg } => spec_check_reg(pos, reg.0, RegTypeReq::Grid, regs),
        Instruction::RowSum { reg } => spec_check_reg(pos, reg.0, RegTypeReq::Grid, regs),
        Instruction::ColSum { reg } => spec_check_reg(pos, reg.0, RegTypeReq::Grid, regs),
        Instruction::Energy { model, sample } => match spec_check_reg(pos, model.0, RegTypeReq::Model, regs) {
            Err(e) => Err(e),
            Ok(()) => spec_check_reg(pos, sample.0, RegTypeReq::Sample, regs),
        },
        _ => Ok(()),
    }
}

/// The register types after `instr` writes its registers. Only writes that
/// set or change a register's type are tracked.
pub open spec fn spec_apply_writes(instr: Instruction, regs: Seq<RegType>) -> Seq<RegType> {
    match instr {
        Instruction::Stow { reg } => regs.update(reg.0 as int, RegType::Int),
        Instruction::Lidx { reg } => regs.update(reg.0 as int, RegType::Int),
        Instruction::Drop { reg } => regs.update(reg.0 as int, RegType::Unset),
        Instruction::Input { reg } => regs.update(reg.0 as int, RegType::Any),
        Instruction::LVal { reg } => regs.update(reg.0 as int, RegType::Any),
        Instruction::Bqmx { reg } => regs.update(reg.0 as int, RegType::Model),
        Instruction::Sqmx { reg } => regs.update(reg.0 as int, RegType::Model),
        Instruction::Xqmx { reg } => regs.update(reg.0 as int, RegType::Model),
        Instruction::Bsmx { reg } => regs.update(reg.0 as int, RegType::Sample),
        Instruction::Ssmx { reg } => regs.update(reg.0 as int, RegType::Sample),
        Instruction::Xsmx { reg } => regs.update(reg.0 as int, RegType::Sample),
        Instruction::Vec { reg } => regs.update(reg.0 as int, RegType::VecInt),
        Instruction::VecI { reg } => regs.update(reg.0 as int, RegType::VecInt),
        Instruction::VecX { reg } => regs.update(reg.0 as int, RegType::VecXqmx),
        _ => regs,
    }
}

/// Whether the mnemonic of `i` is four letters ending in `a`, `b`, `c`.
pub open spec fn mnemonic_ends(i: Instruction, a: char, b: char, c: char) -> bool {
    let m = i.spec_opcode().spec_mnemonic();
    m.len() == 4 && m[1] == a && m[2] == b && m[3] == c
}

/// The allocators name what they allocate: after `BQMX`, `SQMX` or `XQMX`
/// (`?QMX`, an XQMX model) the register they name holds a model, and after
/// `BSMX`, `SSMX` or `XSMX` (`?SMX`, an XQMX sample) a sample; no other
/// register changes type.
pub proof fn lemma_allocators_set_their_kind(i: Instruction, regs: Seq<RegType>)
    requires
        regs.len() == 256,
    ensures
        mnemonic_ends(i, 'Q', 'M', 'X') ==> spec_apply_writes(i, regs) == regs.update(
            i.spec_operands()[0] as int,
            RegType::Model,
        ),
        mnemonic_ends(i, 'S', 'M', 'X') ==> spec_apply_writes(i, regs) == regs.update(
            i.spec_operands()[0] as int,
            RegType::Sample,
        ),
{
}

/// Check that `slot` satisfies `req`; emit the appropriate error otherwise.
fn check_reg(offset: usize, slot: u8, req: RegTypeReq, regs: &Vec<RegType>) -> (r: Result<(), VerifierError>)
    requires
        regs@.len() == 256,
    ensures
        r == spec_check_reg(offset, slot, req, regs@),
{
    let current = regs[slot as usize];
    if current == RegType::Unset {
        return Err(VerifierError::ReadUnsetRegister { offset, reg: slot });
    }
    if !current.satisfies(req) {
        return Err(
            VerifierError::RegisterTypeMismatch {
                offset,
                reg: slot,
                expected: req.name(),
                got: current.name(),
            },
        );
    }
    Ok(())
}

/// Validate the register type requirements of `instr` at `pos`.
fn check_reads(pos: usize, instr: &Instruction, regs: &Vec<RegType>) -> (r: Result<(), VerifierError>)
    requires
        regs@.len() == 256,
    ensures
        r == spec_check_reads(pos, *instr, regs@),
{
    match instr {
        Instruction::Load { reg } => check_reg(pos, reg.slot(), RegTypeReq::Int, regs),
        Instruction::Output { reg } => check_reg(pos, reg.slot(), RegTypeReq::NonUnset, regs),
        Instruction::Iter { reg } | Instruction::VecLen { reg } => check_reg(pos, reg.slot(), RegTypeReq::AnyVec, regs),
        Instruction::VecGet { reg } | Instruction::VecSet { reg } | Instruction::VecPush { reg } => check_reg(
            pos,
            reg.slot(),
            RegTypeReq::VecInt,
            regs,
        ),
        Instruction::GetLine { reg }
        | Instruction::SetLine { reg }
        | Instruction::AddLine { reg }
        | Instruction::GetQuad { reg }
        | Instruction::SetQuad { reg }
        | Instruction::AddQuad { reg }
        | Instruction::OneHotR { reg }
        | Instruction::OneHotC { reg }
        | Instruction::Exclude { reg }
        | Instruction::Implies { reg } => check_reg(pos, reg.slot(), RegTypeReq::Model, regs),
        Instruction::Resize { reg }
        | Instruction::RowFind { reg }
        | Instruction::ColFind { reg }
        | Instruction::RowSum { reg }
        | Instruction::ColSum { reg } => check_reg(pos, reg.slot(), RegTypeReq::Grid, regs),
        Instruction::Energy { model, sample } => {
            match check_reg(pos, model.slot(), RegTypeReq::Model, regs) {
                Err(e) => Err(e),
                Ok(()) => check_reg(pos, sample.slot(), RegTypeReq::Sample, regs),
            }
        },
        _ => Ok(()),
    }
}

/// Apply the register write effects of `instr` to `regs`.
fn apply_writes(instr: &Instruction, regs: &mut Vec<RegType>)
    requires
        old(regs)@.len() == 256,
    ensures
        final(regs)@ == spec_apply_writes(*instr, old(regs)@),
{
    match instr {
        Instruction::Stow { reg } | Instruction::Lidx { reg } => regs.set(reg.slot() as usize, RegType::Int),
        Instruction::Drop { reg } => regs.set(reg.slot() as usize, RegType::Unset),
        Instruction::Input { reg } | Instruction::LVal { reg } => regs.set(reg.slot() as usize, RegType::Any),
        Instruction::Bqmx { reg } | Instruction::Sqmx { reg } | Instruction::Xqmx { reg } => {
            regs.set(reg.slot() as usize, RegType::Model);
        },
        Instruction::Bsmx { reg } | Instruction::Ssmx { reg } | Instruction::Xsmx { reg } => {
            regs.set(reg.slot() as usize, RegType::Sample);
        },
        Instruction::Vec { reg } | Instruction::VecI { reg } => regs.set(reg.slot() as usize, RegType::VecInt),
        Instruction::VecX { reg } => regs.set(reg.slot() as usize, RegType::VecXqmx),
        _ => {},
    }
}

/// Register type-state from item `i` on, with register types `regs`.
pub open spec fn reg_types_from(items: Seq<Result<(usize, Instruction), StreamError>>, i: nat, regs: Seq<RegType>) -> Result<
    (),
    VerifierError,
>
    decreases items.len() - i,
{
    if i >= items.len() {
        Ok(())
    } else {
        match items[i as int] {
            Err(e) => Err(spec_stream_err(e)),
            Ok((pos, instr)) => match spec_check_reads(pos, instr, regs) {
                Err(e) => Err(e),
                Ok(()) => reg_types_from(items, i + 1, spec_apply_writes(instr, regs)),
            },
        }
    }
}

/// Forward type-state pass: detects register reads before any write and
/// type mismatches.
///
/// Starts with every register `Unset` and, for each instruction in stream
/// order, first checks its register reads, then applies its writes.
/// Branches are not followed, so errors on paths not taken may be missed.
pub struct RegisterTypePhase;

impl Phase for RegisterTypePhase {
    open spec fn spec_run(&self, program: Program) -> Result<(), VerifierError> {
        reg_types_from(spec_items(program.spec_code()), 0, Seq::new(256, |k: int| RegType::Unset))
    }

    fn run(&self, program: &Program) -> (r: Result<(), VerifierError>) {
        let mut regs: Vec<RegType> = Vec::new();
        let mut k: usize = 0;
        while k < 256
            invariant
                k <= 256,
                regs@.len() == k,
                forall|j: int| 0 <= j < k ==> regs@[j] == RegType::Unset,
            decreases 256 - k,
        {
            regs.push(RegType::Unset);
            k = k + 1;
        }
        proof {
            assert(regs@ =~= Seq::new(256, |k: int| RegType::Unset));
        }
        let ghost items = spec_items(program.spec_code());
        let ghost mut i: nat = 0;
        let mut stream = InstructionStream::new(program.code());
        proof {
            assert(items.subrange(0, items.len() as int) =~= items);
        }
        loop
            invariant
                stream.spec_bytes() == program.spec_code(),
                items == spec_items(program.spec_code()),
                regs@.len() == 256,
                i <= items.len(),
                items.subrange(i as int, items.len() as int) == spec_items_from(program.spec_code(), stream.spec_pos()),
                reg_types_from(items, 0, Seq::new(256, |k: int| RegType::Unset)) == reg_types_from(items, i, regs@),
            decreases items.len() - i,
        {
            let ghost cur = stream.spec_pos();
            match stream.next_instruction() {
                None => {
                    proof {
                        assert(items.subrange(i as int, items.len() as int).len() == 0);
                    }
                    return Ok(());
                },
                Some(Err(e)) => {
                    proof {
                        lemma_advance(program.spec_code(), cur, items, i);
                    }
                    return Err(stream_err(&e));
                },
                Some(Ok((pos, _label, instr))) => {
                    proof {
                        lemma_advance(program.spec_code(), cur, items, i);
                    }
                    match check_reads(pos, &instr, &regs) {
                        Err(e) => {
                            return Err(e);
                        },
                        Ok(()) => {},
                    }
                    apply_writes(&instr, &mut regs);
                    proof {
                        i = i + 1;
                    }
                },
            }
        }
    }
}

// ---------------------------------------------------------------------------
// StackEffectPhase
// ---------------------------------------------------------------------------

/// Maximum integer stack depth permitted by the VM.
pub const STACK_LIMIT: usize = 8192;

/// Stack-depth analysis from item `i` on, at depth `depth`, with the open
/// loops in `loops` as `(opener offset, depth at loop body entry)` pairs.
pub open spec fn stack_effects_from(
    items: Seq<Result<(usize, Instruction), StreamError>>,
    i: nat,
    depth: nat,
    loops: Seq<(usize, nat)>,
) -> Result<(), VerifierError>
    decreases items.len() - i,
{
    if i >= items.len() {
        Ok(())
    } else {
        match items[i as int] {
            Err(e) => Err(spec_stream_err(e)),
            Ok((pos, instr)) => {
                let moved: int = match instr.spec_stack_effect() {
                    StackEffect::Reset => 0,
                    StackEffect::Delta(d) => depth + d,
                };
                if moved < 0 {
                    Err(VerifierError::StackUnderflow { offset: pos })
                } else if moved > STACK_LIMIT {
                    Err(VerifierError::StackOverflowRisk { offset: pos, depth: moved as usize })
                } else {
                    let d = moved as nat;
                    match instr {
                        Instruction::Range {  } => stack_effects_from(items, i + 1, d, loops.push((pos, d))),
                        Instruction::Iter { .. } => stack_effects_from(items, i + 1, d, loops.push((pos, d))),
                        Instruction::Next {  } => if loops.len() > 0 && loops.last().1 != d {
                            Err(
                                VerifierError::LoopStackImbalance {
                                    opener: loops.last().0,
                                    entry: loops.last().1 as usize,
                                    exit: d as usize,
                                },
                            )
                        } else if loops.len() > 0 {
                            stack_effects_from(items, i + 1, d, loops.drop_last())
                        } else {
                            stack_effects_from(items, i + 1, d, loops)
                        },
                        _ => stack_effects_from(items, i + 1, d, loops),
                    }
                }
            },
        }
    }
}

/// Forward stack-depth pass: detects stack underflow, potential overflow,
/// and loop bodies whose net stack effect is not zero.
///
/// The depth starts at zero; each instruction's static stack effect is
/// applied in stream order (`SCLR` resets the depth to zero). On `RANGE`
/// and `ITER` the depth after the instruction is recorded; on `NEXT` it must
/// equal the depth recorded by the matching opener. Branches are not
/// followed.
pub struct StackEffectPhase;

impl Phase for StackEffectPhase {
    open spec fn spec_run(&self, program: Program) -> Result<(), VerifierError> {
        stack_effects_from(spec_items(program.spec_code()), 0, 0, seq![])
    }

    fn run(&self, program: &Program) -> (r: Result<(), VerifierError>) {
        let mut depth: usize = 0;
        let mut loop_stack: Vec<(usize, usize)> = Vec::new();
        let ghost items = spec_items(program.spec_code());
        let ghost mut i: nat = 0;
        let mut stream = InstructionStream::new(program.code());
        proof {
            assert(items.subrange(0, items.len() as int) =~= items);
            assert(loop_stack@.map_values(|e: (usize, usize)| (e.0, e.1 as nat)) =~= Seq::<(usize, nat)>::empty());
        }
        loop
            invariant
                stream.spec_bytes() == program.spec_code(),
                items == spec_items(program.spec_code()),
                depth <= STACK_LIMIT,
                i <= items.len(),
                items.subrange(i as int, items.len() as int) == spec_items_from(program.spec_code(), stream.spec_pos()),
                stack_effects_from(items, 0, 0, seq![]) == stack_effects_from(
                    items,
                    i,
                    depth as nat,
                    loop_stack@.map_values(|e: (usize, usize)| (e.0, e.1 as nat)),
                ),
            decreases items.len() - i,
        {
            let ghost cur = stream.spec_pos();
            let ghost loops = loop_stack@.map_values(|e: (usize, usize)| (e.0, e.1 as nat));
            match stream.next_instruction() {
                None => {
                    proof {
                        assert(items.subrange(i as int, items.len() as int).len() == 0);
                    }
                    return Ok(());
                },
                Some(Err(e)) => {
                    proof {
                        lemma_advance(program.spec_code(), cur, items, i);
                    }
                    return Err(stream_err(&e));
                },
                Some(Ok((pos, _label, instr))) => {
                    proof {
                        lemma_advance(program.spec_code(), cur, items, i);
                    }
                    match instr.stack_effect() {
                        StackEffect::Reset => {
                            depth = 0;
                        },
                        StackEffect::Delta(d) => {
                            if d < 0 {
                                let down = (0 - (d as i16)) as usize;
                                if depth < down {
                                    return Err(VerifierError::StackUnderflow { offset: pos });
                                }
                                depth = depth - down;
                            } else {
                                let up = d as usize;
                                if depth + up > STACK_LIMIT {
                                    return Err(VerifierError::StackOverflowRisk { offset: pos, depth: depth + up });
                                }
                                depth = depth + up;
                            }
                        },
                    }
                    match instr {
                        Instruction::Range {  } | Instruction::Iter { .. } => {
                            loop_stack.push((pos, depth));
                            proof {
                                assert(loop_stack@.map_values(|e: (usize, usize)| (e.0, e.1 as nat)) =~= loops.push(
                                    (pos, depth as nat),
                                ));
                            }
                        },
                        Instruction::Next {  } => {
                            if let Some((opener, entry)) = loop_stack.pop() {
                                if depth != entry {
                                    return Err(VerifierError::LoopStackImbalance { opener, entry, exit: depth });
                                }
                                proof {
                                    assert(loop_stack@.map_values(|e: (usize, usize)| (e.0, e.1 as nat))
                                        =~= loops.drop_last());
                                }
                            }
                        },
                        _ => {},
                    }
                    proof {
                        i = i + 1;
                    }
                },
            }
        }
    }
}

// ---------------------------------------------------------------------------
// Convenience entry point
// ---------------------------------------------------------------------------

/// What [`verify`] returns: the combined scan, then register type-state,
/// then stack depth; the first error wins.
pub open spec fn spec_verify(program: Program) -> Result<(), VerifierError> {
    match CombinedPhase.spec_run(program) {
        Err(e) => Err(e),
        Ok(()) => match RegisterTypePhase.spec_run(program) {
            Err(e) => Err(e),
            Ok(()) => StackEffectPhase.spec_run(program),
        },
    }
}

/// Run the standard verifier over `program`, returning the first
/// [`VerifierError`] found.
pub fn verify(program: &Program) -> (r: Result<(), VerifierError>)
    ensures
        r == spec_verify(*program),
{
    Verifier::default().run(program)
}

} // verus!
