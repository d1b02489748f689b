//! Runtime errors of the stack interpreter.
//!
//! [`Error`] describes every fault that can occur during bytecode
//! execution. For diagnostics, [`Error::byte_pos`] gives the offset of the
//! failing instruction, and [`find_line_span`] finds the line of a
//! disassembly listing that shows it.

use vstd::prelude::*;
use vstd::std_specs::convert::FromSpecImpl;
use vstd::string::{StringExecFns, StringSliceAdditionalSpecFns};
use vstd::utf8::encode_utf8;

use crate::bytecode::stream::{spec_labels_ok, Error as StreamError};
use crate::disasm::display::{spec_listing, Disassembly};
use crate::xqvm::program::Program;
use crate::text::decimal::{push_decimal, push_decimal_u64, push_signed_decimal, spec_decimal, spec_signed_decimal};
use crate::text::layout::{push_hex_prefixed, spec_hex_padded, spec_hex_prefixed};

verus! {

/// Errors that can occur during XQVM bytecode execution.
#[derive(Debug, Clone, Copy, PartialEq, Eq)]
pub enum Error {
    /// The value stack was empty when a pop was attempted.
    StackUnderflow { pos: usize },
    /// A register held the wrong value kind for the operation.
    RegisterType { reg: u8, expected: &'static str, got: &'static str },
    /// Division or modulo by zero.
    DivisionByZero { pos: usize },
    /// Vec index out of bounds.
    IndexOutOfBounds { pos: usize, index: i64, len: usize },
    /// NEXT or LVAL executed outside a loop.
    NoActiveLoop { pos: usize },
    /// Jump target is outside the bytecode buffer.
    BadJumpTarget { pos: usize, target: usize },
    /// The bytecode stream returned a decode error.
    BadOpcode { pos: usize, byte: u8 },
    /// The bytecode stream hit a truncated instruction.
    TruncatedInstruction { pos: usize },
    /// Calldata index out of range.
    CallDataIndex { index: i64, len: usize },
    /// Output index out of range.
    OutputIndex { index: i64, len: usize },
    /// The model and sample sizes do not match.
    SizeMismatch { model_size: usize, sample_len: usize },
    /// Execution exceeded the configured step limit.
    StepLimitExceeded { limit: u64 },
    /// Left shift amount is negative or too large.
    InvalidShift { pos: usize, amount: i64 },
    /// The RESIZE instruction received non-positive dimensions.
    InvalidGridDimensions { pos: usize, rows: i64, cols: i64 },
}

/// ` at byte 0xPPPP`
pub open spec fn at_byte(pos: usize) -> Seq<char> {
    " at byte "@ + spec_hex_prefixed(pos as nat, 6)
}

/// The message of an error.
pub open spec fn spec_message(e: Error) -> Seq<char> {
    match e {
        Error::StackUnderflow { pos } => "stack underflow"@ + at_byte(pos),
        Error::RegisterType { reg, expected, got } => "register r"@ + spec_decimal(reg as nat) + " holds "@ + got@
            + ", expected "@ + expected@,
        Error::DivisionByZero { pos } => "division by zero"@ + at_byte(pos),
        Error::IndexOutOfBounds { pos, index, len } => "vec index "@ + spec_signed_decimal(index as int)
            + " out of bounds (len "@ + spec_decimal(len as nat) + ")"@ + at_byte(pos),
        Error::NoActiveLoop { pos } => "loop instruction"@ + at_byte(pos) + " with no active loop"@,
        Error::BadJumpTarget { pos, target } => "jump from "@ + spec_hex_prefixed(pos as nat, 6) + " to "@
            + spec_hex_prefixed(target as nat, 10) + " is out of bounds"@,
        Error::BadOpcode { pos, byte } => "bad opcode "@ + spec_hex_prefixed(byte as nat, 4) + at_byte(pos),
        Error::TruncatedInstruction { pos } => "truncated instruction"@ + at_byte(pos),
        Error::CallDataIndex { index, len } => "calldata index "@ + spec_signed_decimal(index as int)
            + " out of range (len "@ + spec_decimal(len as nat) + ")"@,
        Error::OutputIndex { index, len } => "output index "@ + spec_signed_decimal(index as int)
            + " out of range (len "@ + spec_decimal(len as nat) + ")"@,
        Error::SizeMismatch { model_size, sample_len } => "model has "@ + spec_decimal(model_size as nat)
            + " variables but sample has "@ + spec_decimal(sample_len as nat),
        Error::StepLimitExceeded { limit } => "step limit of "@ + spec_decimal(limit as nat) + " exceeded"@,
        Error::InvalidShift { pos, amount } => "invalid shift amount "@ + spec_signed_decimal(amount as int)
            + at_byte(pos),
        Error::InvalidGridDimensions { pos, rows, cols } => "invalid grid dimensions "@ + spec_signed_decimal(
            rows as int,
        ) + "x"@ + spec_signed_decimal(cols as int) + at_byte(pos),
    }
}

/// The byte offset an error carries, if any.
pub open spec fn spec_byte_pos(e: Error) -> Option<usize> {
    match e {
        Error::StackUnderflow { pos }
        | Error::DivisionByZero { pos }
        | Error::NoActiveLoop { pos }
        | Error::BadOpcode { pos, .. }
        | Error::TruncatedInstruction { pos }
        | Error::InvalidShift { pos, .. }
        | Error::InvalidGridDimensions { pos, .. }
        | Error::BadJumpTarget { pos, .. }
        | Error::IndexOutOfBounds { pos, .. } => Some(pos),
        _ => None,
    }
}

/// The runtime error a stream error stands for.
pub open spec fn spec_from_stream(e: StreamError) -> Error {
    match e {
        StreamError::UnknownOpcode { offset, byte } => Error::BadOpcode { pos: offset, byte },
        StreamError::TruncatedInstruction { offset } => Error::TruncatedInstruction { pos: offset },
        StreamError::SeekOutOfBounds { target, .. } => Error::BadJumpTarget { pos: 0, target },
    }
}

/// Append ` at byte 0xPPPP`.
fn push_at_byte(out: &mut String, pos: usize)
    ensures
        final(out)@ == old(out)@ + at_byte(pos),
{
    out.append(" at byte ");
    push_hex_prefixed(out, pos as u64, 6);
    proof {
        assert(out@ =~= old(out)@ + at_byte(pos));
    }
}

impl Error {
    /// The byte offset embedded in this error, if any.
    pub fn byte_pos(&self) -> (r: Option<usize>)
        ensures
            r == spec_byte_pos(*self),
    {
        match self {
            Error::StackUnderflow { pos }
            | Error::DivisionByZero { pos }
            | Error::NoActiveLoop { pos }
            | Error::BadOpcode { pos, .. }
            | Error::TruncatedInstruction { pos }
            | Error::InvalidShift { pos, .. }
            | Error::InvalidGridDimensions { pos, .. }
            | Error::BadJumpTarget { pos, .. }
            | Error::IndexOutOfBounds { pos, .. } => Some(*pos),
            _ => None,
        }
    }

    /// The error's message.
    pub fn message(&self) -> (s: String)
        ensures
            s@ == spec_message(*self),
    {
        let mut out = String::new();
        match *self {
            Error::StackUnderflow { pos } => {
                out.append("stack underflow");
                push_at_byte(&mut out, pos);
            },
            Error::RegisterType { reg, expected, got } => {
                out.append("register r");
                push_decimal(&mut out, reg as usize);
                out.append(" holds ");
                out.append(got);
                out.append(", expected ");
                out.append(expected);
            },
            Error::DivisionByZero { pos } => {
                out.append("division by zero");
                push_at_byte(&mut out, pos);
            },
            Error::IndexOutOfBounds { pos, index, len } => {
                out.append("vec index ");
                push_signed_decimal(&mut out, index);
                out.append(" out of bounds (len ");
                push_decimal(&mut out, len);
                out.append(")");
                push_at_byte(&mut out, pos);
            },
            Error::NoActiveLoop { pos } => {
                out.append("loop instruction");
                push_at_byte(&mut out, pos);
                out.append(" with no active loop");
            },
            Error::BadJumpTarget { pos, target } => {
                out.append("jump from ");
                push_hex_prefixed(&mut out, pos as u64, 6);
                out.append(" to ");
                push_hex_prefixed(&mut out, target as u64, 10);
                out.append(" is out of bounds");
            },
            Error::BadOpcode { pos, byte } => {
                out.append("bad opcode ");
                push_hex_prefixed(&mut out, byte as u64, 4);
                push_at_byte(&mut out, pos);
            },
            Error::TruncatedInstruction { pos } => {
                out.append("truncated instruction");
                push_at_byte(&mut out, pos);
            },
            Error::CallDataIndex { index, len } => {
                out.append("calldata index ");
                push_signed_decimal(&mut out, index);
                out.append(" out of range (len ");
                push_decimal(&mut out, len);
                out.append(")");
            },
            Error::OutputIndex { index, len } => {
                out.append("output index ");
                push_signed_decimal(&mut out, index);
                out.append(" out of range (len ");
                push_decimal(&mut out, len);
                out.append(")");
            },
            Error::SizeMismatch { model_size, sample_len } => {
                out.append("model has ");
                push_decimal(&mut out, model_size);
                out.append(" variables but sample has ");
                push_decimal(&mut out, sample_len);
            },
            Error::StepLimitExceeded { limit } => {
                out.append("step limit of ");
                push_decimal_u64(&mut out, limit);
                out.append(" exceeded");
            },
            Error::InvalidShift { pos, amount } => {
                out.append("invalid shift amount ");
                push_signed_decimal(&mut out, amount);
                push_at_byte(&mut out, pos);
            },
            Error::InvalidGridDimensions { pos, rows, cols } => {
                out.append("invalid grid dimensions ");
                push_signed_decimal(&mut out, rows);
                out.append("x");
                push_signed_decimal(&mut out, cols);
                push_at_byte(&mut out, pos);
            },
        }
        proof {
            assert(out@ =~= spec_message(*self));
        }
        out
    }
}

impl From<StreamError> for Error {
    fn from(e: StreamError) -> (r: Error) {
        match e {
            StreamError::UnknownOpcode { offset, byte } => Error::BadOpcode { pos: offset, byte },
            StreamError::TruncatedInstruction { offset } => Error::TruncatedInstruction { pos: offset },
            StreamError::SeekOutOfBounds { target, .. } => Error::BadJumpTarget { pos: 0, target },
        }
    }
}

impl FromSpecImpl<StreamError> for Error {
    open spec fn obeys_from_spec() -> bool {
        true
    }

    open spec fn from_spec(v: StreamError) -> Error {
        spec_from_stream(v)
    }
}

/// The bytes of the needle `0xOOOO:` that marks the disassembly line of
/// the instruction at `pos`.
pub open spec fn needle(pos: usize) -> Seq<u8> {
    seq![0x30u8, 0x78u8] + spec_hex_padded(pos as nat, 4).map_values(|c: char| c as u8) + seq![0x3au8]
}

/// Whether `pat` occurs in `text` at index `i`.
pub open spec fn occurs_at(text: Seq<u8>, pat: Seq<u8>, i: int) -> bool {
    0 <= i && i + pat.len() <= text.len() && text.subrange(i, i + pat.len()) == pat
}

/// The first index at which `pat` occurs in `text` from `i` on.
pub open spec fn first_occurrence(text: Seq<u8>, pat: Seq<u8>, i: int) -> Option<int>
    decreases text.len() + 1 - i,
{
    if i < 0 || i + pat.len() > text.len() {
        None
    } else if occurs_at(text, pat, i) {
        Some(i)
    } else {
        first_occurrence(text, pat, i + 1)
    }
}

/// The start of the line holding index `i`: just after the last `\n`
/// before it, or 0.
pub open spec fn line_start(text: Seq<u8>, i: int) -> int
    decreases i,
{
    if i <= 0 {
        0
    } else if text[i - 1] == 0x0a {
        i
    } else {
        line_start(text, i - 1)
    }
}

/// The end of the line holding index `i`: the first `\n` from it on, or
/// the end of the text.
pub open spec fn line_end(text: Seq<u8>, i: int) -> int
    decreases text.len() - i,
{
    if i >= text.len() {
        text.len() as int
    } else if text[i] == 0x0a {
        i
    } else {
        line_end(text, i + 1)
    }
}

/// The byte span of the disassembly line of the instruction at `pos`: the
/// line holding the first occurrence of `0xOOOO:`.
pub open spec fn spec_line_span(text: Seq<u8>, pos: usize) -> Option<(int, int)> {
    match first_occurrence(text, needle(pos), 0) {
        Some(i) => Some((line_start(text, i), line_end(text, i))),
        None => None,
    }
}

/// Find the byte range of the line of `text` that shows the instruction at
/// `byte_pos`: the line holding the first `0x{byte_pos:04X}:`.
pub fn find_line_span(text: &str, byte_pos: usize) -> (r: Option<(usize, usize)>)
    ensures
        r == match spec_line_span(text.spec_bytes(), byte_pos) {
            Some(span) => Some((span.0 as usize, span.1 as usize)),
            None => None::<(usize, usize)>,
        },
{
    let t = text.as_bytes();
    let pat = needle_bytes(byte_pos);
    let n = t.len();
    let m = pat.len();
    if m > n {
        return None;
    }
    let mut i: usize = 0;
    while i <= n - m
        invariant
            n == t@.len(),
            t@ == text.spec_bytes(),
            m == pat@.len(),
            m <= n,
            pat@ == needle(byte_pos),
            first_occurrence(t@, pat@, 0) == first_occurrence(t@, pat@, i as int),
        decreases n - m + 1 - i,
    {
        if matches_at(t, pat.as_slice(), i) {
            return Some(line_span_at(t, i));
        }
        i += 1;
    }
    None
}

/// The source context of a runtime error raised while running `program`:
/// the disassembly listing of the program, and, when the error carries a
/// byte offset, the span of the listing line that shows the failing
/// instruction.
pub fn diagnostic_context(e: &Error, program: &Program) -> (r: (String, Option<(usize, usize)>))
    ensures
        exists|labels: Map<usize, String>|
            spec_labels_ok(program.spec_code(), labels) && r.0@ == spec_listing(program.spec_code(), labels),
        r.1 == match spec_byte_pos(*e) {
            Some(pos) => match spec_line_span(encode_utf8(r.0@), pos) {
                Some(span) => Some((span.0 as usize, span.1 as usize)),
                None => None::<(usize, usize)>,
            },
            None => None::<(usize, usize)>,
        },
{
    let d = Disassembly::from_program(program);
    let text = d.to_text();
    let span = match e.byte_pos() {
        Some(pos) => find_line_span(text.as_str(), pos),
        None => None,
    };
    (text, span)
}

/// The bounds of the line of `t` holding index `i`.
fn line_span_at(t: &[u8], i: usize) -> (r: (usize, usize))
    requires
        i <= t@.len(),
    ensures
        r == (line_start(t@, i as int) as usize, line_end(t@, i as int) as usize),
{
    let n = t.len();
    let mut a = i;
    while a > 0 && t[a - 1] != 0x0a
        invariant
            a <= i <= n,
            n == t@.len(),
            line_start(t@, i as int) == line_start(t@, a as int),
        decreases a,
    {
        a -= 1;
    }
    let mut b = i;
    while b < n && t[b] != 0x0a
        invariant
            i <= b <= n,
            n == t@.len(),
            line_end(t@, i as int) == line_end(t@, b as int),
        decreases n - b,
    {
        b += 1;
    }
    (a, b)
}

/// Whether `pat` occurs in `t` at `i`.
fn matches_at(t: &[u8], pat: &[u8], i: usize) -> (r: bool)
    requires
        i + pat@.len() <= t@.len(),
    ensures
        r == occurs_at(t@, pat@, i as int),
{
    let n = t.len();
    let mut k: usize = 0;
    while k < pat.len()
        invariant
            k <= pat@.len(),
            n == t@.len(),
            i + pat@.len() <= t@.len(),
            forall|j: int| 0 <= j < k ==> t@[i + j] == pat@[j],
        decreases pat@.len() - k,
    {
        if t[i + k] != pat[k] {
            assert(t@.subrange(i as int, i + pat@.len())[k as int] != pat@[k as int]);
            return false;
        }
        k += 1;
    }
    assert(t@.subrange(i as int, i + pat@.len()) =~= pat@);
    true
}

/// The bytes of `0xOOOO:` for `pos`.
fn needle_bytes(pos: usize) -> (v: Vec<u8>)
    ensures
        v@ == needle(pos),
{
    let mut s = String::new();
    crate::text::layout::push_hex_padded(&mut s, pos, 4);
    let hs = s.as_str();
    let h = hs.as_bytes();
    let mut v: Vec<u8> = vec![0x30u8, 0x78u8];
    let mut k: usize = 0;
    proof {
        lemma_hex_is_ascii(pos as nat, 4);
        vstd::string::is_ascii_spec_bytes(hs);
        assert(h@ =~= Seq::new(hs@.len(), |i: int| hs@[i] as u8));
    }
    while k < h.len()
        invariant
            k <= h@.len(),
            h@.len() == s@.len(),
            s@ == spec_hex_padded(pos as nat, 4),
            forall|j: int| 0 <= j < h@.len() ==> h@[j] == s@[j] as u8,
            v@ =~= seq![0x30u8, 0x78u8] + s@.take(k as int).map_values(|c: char| c as u8),
        decreases h@.len() - k,
    {
        v.push(h[k]);
        proof {
            assert(s@.take(k + 1).map_values(|c: char| c as u8) =~= s@.take(k as int).map_values(|c: char| c as u8).push(
                s@[k as int] as u8,
            ));
        }
        k += 1;
    }
    v.push(0x3a);
    proof {
        assert(s@.take(k as int) =~= s@);
        assert(v@ =~= needle(pos));
    }
    v
}

/// The hex spelling is ASCII.
proof fn lemma_hex_is_ascii(n: nat, width: nat)
    ensures
        vstd::utf8::is_ascii_chars(spec_hex_padded(n, width)),
{
    lemma_hex_digits_ascii(n);
}

proof fn lemma_hex_digits_ascii(n: nat)
    ensures
        vstd::utf8::is_ascii_chars(crate::text::layout::spec_hex(n)),
    decreases n,
{
    if n >= 16 {
        lemma_hex_digits_ascii(n / 16);
    }
}

} // verus!
