//! Human-readable messages of verifier errors.

use vstd::prelude::*;
use vstd::string::StringExecFns;

use crate::text::decimal::{push_decimal, spec_decimal};
use crate::text::layout::{push_hex_prefixed, spec_hex_prefixed};

use super::checker::VerifierError;

verus! {

/// `0xPPPP`: a byte offset as the messages print it.
pub open spec fn offset_text(offset: usize) -> Seq<char> {
    spec_hex_prefixed(offset as nat, 6)
}

/// The message of a verifier error.
pub open spec fn spec_verifier_message(e: VerifierError) -> Seq<char> {
    match e {
        VerifierError::UndefinedJumpTarget { offset, label, target_count } => "jump at byte "@ + offset_text(offset)
            + " references undefined target label "@ + spec_decimal(label as nat) + " (program has "@
            + spec_decimal(target_count as nat) + " targets)"@,
        VerifierError::NoActiveLoop { offset } => "loop instruction at byte "@ + offset_text(offset)
            + " executed outside any active loop"@,
        VerifierError::UnmatchedLoop { offset, depth } => "unmatched loop: RANGE/ITER at byte "@ + offset_text(
            offset,
        ) + " has no corresponding NEXT ("@ + spec_decimal(depth as nat)
            + " loop(s) still open at end of program)"@,
        VerifierError::TruncatedInstruction { offset } => "truncated instruction at byte "@ + offset_text(offset),
        VerifierError::BadOpcode { offset, byte } => "unknown opcode "@ + spec_hex_prefixed(byte as nat, 4)
            + " at byte "@ + offset_text(offset),
        VerifierError::ReadUnsetRegister { offset, reg } => "register r"@ + spec_decimal(reg as nat)
            + " read at byte "@ + offset_text(offset) + " before being written"@,
        VerifierError::RegisterTypeMismatch { offset, reg, expected, got } => "register r"@ + spec_decimal(
            reg as nat,
        ) + " at byte "@ + offset_text(offset) + ": expected "@ + expected@ + ", got "@ + got@,
        VerifierError::StackUnderflow { offset } => "stack underflow at byte "@ + offset_text(offset),
        VerifierError::StackOverflowRisk { offset, depth } => "potential stack overflow at byte "@ + offset_text(
            offset,
        ) + " (depth "@ + spec_decimal(depth as nat) + ")"@,
        VerifierError::LoopStackImbalance { opener, entry, exit } => "loop starting at byte "@ + offset_text(opener)
            + " has non-zero stack effect (entry depth "@ + spec_decimal(entry as nat) + ", exit depth "@
            + spec_decimal(exit as nat) + ")"@,
    }
}

impl VerifierError {
    /// The error's message.
    pub fn message(&self) -> (s: String)
        ensures
            s@ == spec_verifier_message(*self),
    {
        let mut out = String::new();
        match *self {
            VerifierError::UndefinedJumpTarget { offset, label, target_count } => {
                out.append("jump at byte ");
                push_hex_prefixed(&mut out, offset as u64, 6);
                out.append(" references undefined target label ");
                push_decimal(&mut out, label as usize);
                out.append(" (program has ");
                push_decimal(&mut out, target_count);
                out.append(" targets)");
            },
            VerifierError::NoActiveLoop { offset } => {
                out.append("loop instruction at byte ");
                push_hex_prefixed(&mut out, offset as u64, 6);
                out.append(" executed outside any active loop");
            },
            VerifierError::UnmatchedLoop { offset, depth } => {
                out.append("unmatched loop: RANGE/ITER at byte ");
                push_hex_prefixed(&mut out, offset as u64, 6);
                out.append(" has no corresponding NEXT (");
                push_decimal(&mut out, depth);
                out.append(" loop(s) still open at end of program)");
            },
            VerifierError::TruncatedInstruction { offset } => {
                out.append("truncated instruction at byte ");
                push_hex_prefixed(&mut out, offset as u64, 6);
            },
            VerifierError::BadOpcode { offset, byte } => {
                out.append("unknown opcode ");
                push_hex_prefixed(&mut out, byte as u64, 4);
                out.append(" at byte ");
                push_hex_prefixed(&mut out, offset as u64, 6);
            },
            VerifierError::ReadUnsetRegister { offset, reg } => {
                out.append("register r");
                push_decimal(&mut out, reg as usize);
                out.append(" read at byte ");
                push_hex_prefixed(&mut out, offset as u64, 6);
                out.append(" before being written");
            },
            VerifierError::RegisterTypeMismatch { offset, reg, expected, got } => {
                out.append("register r");
                push_decimal(&mut out, reg as usize);
                out.append(" at byte ");
                push_hex_prefixed(&mut out, offset as u64, 6);
                out.append(": expected ");
                out.append(expected);
                out.append(", got ");
                out.append(got);
            },
            VerifierError::StackUnderflow { offset } => {
                out.append("stack underflow at byte ");
                push_hex_prefixed(&mut out, offset as u64, 6);
            },
            VerifierError::StackOverflowRisk { offset, depth } => {
                out.append("potential stack overflow at byte ");
                push_hex_prefixed(&mut out, offset as u64, 6);
                out.append(" (depth ");
                push_decimal(&mut out, depth);
                out.append(")");
            },
            VerifierError::LoopStackImbalance { opener, entry, exit } => {
                out.append("loop starting at byte ");
                push_hex_prefixed(&mut out, opener as u64, 6);
                out.append(" has non-zero stack effect (entry depth ");
                push_decimal(&mut out, entry);
                out.append(", exit depth ");
                push_decimal(&mut out, exit);
                out.append(")");
            },
        }
        proof {
            assert(out@ =~= spec_verifier_message(*self));
        }
        out
    }
}

} // verus!
