//! Error types of the named-label assembler.
//!
//! Every error carries the byte span (`offset`, `len`) of the token that
//! caused it, so a caller holding the source text can point at it.

use vstd::prelude::*;
use vstd::string::{StringExecFns, StringSliceAdditionalSpecFns};

use super::syntax::{spec_parse_error_message, ParseError};
use crate::text::decimal::{push_decimal, spec_decimal};

verus! {

/// A semantic error produced by the assembler.
#[derive(Debug, Clone, PartialEq, Eq)]
pub enum AssembleError {
    /// The mnemonic does not name an instruction that assembly source can
    /// spell.
    UnknownMnemonic {
        /// The unrecognised mnemonic.
        mnemonic: String,
        /// Byte offset of the mnemonic.
        offset: usize,
        /// Byte length of the mnemonic.
        len: usize,
    },
    /// The instruction was given the wrong number of operands.
    WrongOperandCount {
        /// Mnemonic of the failing instruction.
        mnemonic: String,
        /// Number of operands the instruction requires.
        expected: usize,
        /// Number of operands actually supplied.
        got: usize,
        /// Byte offset of the mnemonic.
        offset: usize,
        /// Byte length of the mnemonic.
        len: usize,
    },
    /// An operand was of the wrong kind (e.g. an integer where a register
    /// was expected).
    WrongOperandKind {
        /// Mnemonic of the failing instruction.
        mnemonic: String,
        /// Name of the field that has the wrong kind.
        field: &'static str,
        /// Description of the expected kind.
        expected_kind: &'static str,
        /// Byte offset of the mnemonic.
        offset: usize,
        /// Byte length of the mnemonic.
        len: usize,
    },
    /// A label was referenced by a `JUMP`/`JUMPI` but never defined.
    UndefinedLabel {
        /// The label's name.
        label: String,
        /// Byte offset of the first jump that references it.
        offset: usize,
        /// Byte length of the label's name.
        len: usize,
    },
    /// A label was defined more than once.
    DuplicateLabel {
        /// The label's name.
        label: String,
        /// Byte offset of its first definition.
        offset: usize,
        /// Byte length of the label's name.
        len: usize,
    },
    /// A label was defined after the first instruction but never
    /// referenced by any `JUMP`/`JUMPI`.
    UnusedLabel {
        /// The label's name.
        label: String,
        /// Byte offset of its definition.
        offset: usize,
        /// Byte length of the label's name.
        len: usize,
    },
    /// The program defines more than `u16::MAX + 1` labels, which exceeds
    /// the wire-format limit on sequential target ids.
    TooManyTargets {
        /// Total number of defined labels.
        count: usize,
    },
}

/// The mathematical form of an [`AssembleError`].
pub enum AssembleErrorV {
    UnknownMnemonic { mnemonic: Seq<char>, offset: nat, len: nat },
    WrongOperandCount { mnemonic: Seq<char>, expected: nat, got: nat, offset: nat, len: nat },
    WrongOperandKind { mnemonic: Seq<char>, field: Seq<char>, expected_kind: Seq<char>, offset: nat, len: nat },
    UndefinedLabel { label: Seq<char>, offset: nat, len: nat },
    DuplicateLabel { label: Seq<char>, offset: nat, len: nat },
    UnusedLabel { label: Seq<char>, offset: nat, len: nat },
    TooManyTargets { count: nat },
}

impl View for AssembleError {
    type V = AssembleErrorV;

    open spec fn view(&self) -> AssembleErrorV {
        match self {
            AssembleError::UnknownMnemonic { mnemonic, offset, len } => AssembleErrorV::UnknownMnemonic {
                mnemonic: mnemonic@,
                offset: *offset as nat,
                len: *len as nat,
            },
            AssembleError::WrongOperandCount { mnemonic, expected, got, offset, len } =>
                AssembleErrorV::WrongOperandCount {
                mnemonic: mnemonic@,
                expected: *expected as nat,
                got: *got as nat,
                offset: *offset as nat,
                len: *len as nat,
            },
            AssembleError::WrongOperandKind { mnemonic, field, expected_kind, offset, len } =>
                AssembleErrorV::WrongOperandKind {
                mnemonic: mnemonic@,
                field: field@,
                expected_kind: expected_kind@,
                offset: *offset as nat,
                len: *len as nat,
            },
            AssembleError::UndefinedLabel { label, offset, len } => AssembleErrorV::UndefinedLabel {
                label: label@,
                offset: *offset as nat,
                len: *len as nat,
            },
            AssembleError::DuplicateLabel { label, offset, len } => AssembleErrorV::DuplicateLabel {
                label: label@,
                offset: *offset as nat,
                len: *len as nat,
            },
            AssembleError::UnusedLabel { label, offset, len } => AssembleErrorV::UnusedLabel {
                label: label@,
                offset: *offset as nat,
                len: *len as nat,
            },
            AssembleError::TooManyTargets { count } => AssembleErrorV::TooManyTargets { count: *count as nat },
        }
    }
}

/// Error of [`assemble_source`](super::assemble_source): a syntax error or
/// a semantic one.
#[derive(Debug, Clone, PartialEq, Eq)]
pub enum Error {
    /// A syntax error from the parser.
    Parse(ParseError),
    /// A semantic error from the assembler.
    Assemble(AssembleError),
}

/// The message of an assembler error.
pub open spec fn spec_assemble_message(e: AssembleErrorV) -> Seq<char> {
    match e {
        AssembleErrorV::UnknownMnemonic { mnemonic, .. } => "unknown mnemonic '"@ + mnemonic + "'"@,
        AssembleErrorV::WrongOperandCount { mnemonic, expected, got, .. } => "'"@ + mnemonic + "' expects "@
            + spec_decimal(expected) + " operand(s), got "@ + spec_decimal(got),
        AssembleErrorV::WrongOperandKind { mnemonic, field, expected_kind, .. } => "operand '"@ + field + "' of '"@
            + mnemonic + "' must be a "@ + expected_kind,
        AssembleErrorV::UndefinedLabel { label, .. } => "undefined label '"@ + label + "'"@,
        AssembleErrorV::DuplicateLabel { label, .. } => "label '"@ + label + "' is defined more than once"@,
        AssembleErrorV::UnusedLabel { label, .. } => "label '"@ + label + "' is defined but never used"@,
        AssembleErrorV::TooManyTargets { count } => "too many TARGETs: "@ + spec_decimal(count) + " (max 65536)"@,
    }
}

impl AssembleError {
    /// The error's message.
    pub fn message(&self) -> (s: String)
        ensures
            s@ == spec_assemble_message(self@),
    {
        let mut out = String::new();
        match self {
            AssembleError::UnknownMnemonic { mnemonic, .. } => {
                out.append("unknown mnemonic '");
                out.append(mnemonic.as_str());
                out.append("'");
            },
            AssembleError::WrongOperandCount { mnemonic, expected, got, .. } => {
                out.append("'");
                out.append(mnemonic.as_str());
                out.append("' expects ");
                push_decimal(&mut out, *expected);
                out.append(" operand(s), got ");
                push_decimal(&mut out, *got);
            },
            AssembleError::WrongOperandKind { mnemonic, field, expected_kind, .. } => {
                out.append("operand '");
                out.append(field);
                out.append("' of '");
                out.append(mnemonic.as_str());
                out.append("' must be a ");
                out.append(expected_kind);
            },
            AssembleError::UndefinedLabel { label, .. } => {
                out.append("undefined label '");
                out.append(label.as_str());
                out.append("'");
            },
            AssembleError::DuplicateLabel { label, .. } => {
                out.append("label '");
                out.append(label.as_str());
                out.append("' is defined more than once");
            },
            AssembleError::UnusedLabel { label, .. } => {
                out.append("label '");
                out.append(label.as_str());
                out.append("' is defined but never used");
            },
            AssembleError::TooManyTargets { count } => {
                out.append("too many TARGETs: ");
                push_decimal(&mut out, *count);
                out.append(" (max 65536)");
            },
        }
        proof {
            assert(out@ =~= spec_assemble_message(self@));
        }
        out
    }
}

/// The message of an assembly error; a syntax error is located by line and
/// column in `b`, the text it was found in.
pub open spec fn spec_message(e: Error, b: Seq<u8>) -> Seq<char> {
    match e {
        Error::Parse(p) => spec_parse_error_message(p, b),
        Error::Assemble(a) => spec_assemble_message(a@),
    }
}

impl Error {
    /// The error's message; `src` is the text that was assembled.
    pub fn message(&self, src: &str) -> (s: String)
        requires
            src.spec_bytes().len() < usize::MAX,
        ensures
            s@ == spec_message(*self, src.spec_bytes()),
    {
        match self {
            Error::Parse(p) => p.message(src),
            Error::Assemble(a) => a.message(),
        }
    }
}

} // verus!
