//! The lexical layer shared by both assembly dialects.
//!
//! Source text is read as UTF-8 bytes and split at `\n` into lines. On each
//! line everything from the first `;` on is a comment. What remains is split
//! into tokens at separators (space, tab, carriage return, comma). A line is
//!
//! * empty, or
//! * a label definition token (a label followed by `:`), optionally followed
//!   by an instruction, or
//! * an instruction: a mnemonic (an identifier, `[A-Za-z_][A-Za-z0-9_]*`)
//!   followed by operand tokens.
//!
//! An operand token is, in this order of precedence:
//!
//! | Syntax | Meaning |
//! |---|---|
//! | `r` and decimal digits | register slot, at most 255 |
//! | optional sign, then decimal digits or `0x` and hex digits | signed 64-bit integer |
//! | a label | label reference |
//!
//! Labels are spelled `.` and decimal digits (a 16-bit label number) in the
//! numbered dialect, and as identifiers in the named dialect.

use vstd::prelude::*;
use vstd::string::{StringExecFns, StringSliceAdditionalSpecFns};

use crate::text::decimal::{push_decimal, push_decimal_u64, spec_decimal};
use crate::text::position::{line_col, spec_line_col};

verus! {

/// What went wrong at a token.
#[derive(Debug, Clone, Copy, PartialEq, Eq, Structural)]
pub enum ParseErrorKind {
    /// The token matches no rule of the grammar.
    UnexpectedToken,
    /// The digits of a register token do not form a 64-bit number.
    InvalidRegister,
    /// A register index above 255.
    RegisterOutOfRange {
        /// The index as written.
        value: u64,
    },
    /// The digits of an integer literal do not form a 64-bit magnitude.
    InvalidInteger,
    /// A negative integer literal below `i64::MIN`.
    IntegerUnderflow,
    /// A non-negative integer literal above `i64::MAX`.
    IntegerOverflow,
    /// A label number above 65535.
    InvalidLabel,
}

/// A syntax error: what went wrong and the byte span of the offending token.
#[derive(Debug, Clone, Copy, PartialEq, Eq, Structural)]
pub struct ParseError {
    /// What went wrong.
    pub kind: ParseErrorKind,
    /// Byte offset of the offending token within the source text.
    pub offset: usize,
    /// Byte length of the offending token.
    pub len: usize,
}

/// What a syntax error of kind `k` says.
pub open spec fn spec_kind_message(k: ParseErrorKind) -> Seq<char> {
    match k {
        ParseErrorKind::UnexpectedToken => "unexpected token"@,
        ParseErrorKind::InvalidRegister => "invalid register index"@,
        ParseErrorKind::RegisterOutOfRange { value } => "register index "@ + spec_decimal(value as nat)
            + " is out of range [0, 255]"@,
        ParseErrorKind::InvalidInteger => "invalid integer literal"@,
        ParseErrorKind::IntegerUnderflow => "integer literal is below the 64-bit signed range"@,
        ParseErrorKind::IntegerOverflow => "integer literal is above the 64-bit signed range"@,
        ParseErrorKind::InvalidLabel => "label number is out of range [0, 65535]"@,
    }
}

/// The message of a syntax error at byte `offset` of the text `b`:
/// `parse error at line L, col C: ...`.
pub open spec fn spec_parse_error_message(e: ParseError, b: Seq<u8>) -> Seq<char> {
    let n = if e.offset <= b.len() { e.offset as nat } else { b.len() };
    let (l, c) = spec_line_col(b, n);
    "parse error at line "@ + spec_decimal(l) + ", col "@ + spec_decimal(c) + ": "@ + spec_kind_message(e.kind)
}

impl ParseError {
    /// The error's message, locating it by line and column in `src`, the
    /// text it was found in.
    pub fn message(&self, src: &str) -> (s: String)
        requires
            src.spec_bytes().len() < usize::MAX,
        ensures
            s@ == spec_parse_error_message(*self, src.spec_bytes()),
    {
        let (line, col) = line_col(src, self.offset);
        let mut out = String::new();
        out.append("parse error at line ");
        push_decimal(&mut out, line);
        out.append(", col ");
        push_decimal(&mut out, col);
        out.append(": ");
        match self.kind {
            ParseErrorKind::UnexpectedToken => out.append("unexpected token"),
            ParseErrorKind::InvalidRegister => out.append("invalid register index"),
            ParseErrorKind::RegisterOutOfRange { value } => {
                out.append("register index ");
                push_decimal_u64(&mut out, value);
                out.append(" is out of range [0, 255]");
            },
            ParseErrorKind::InvalidInteger => out.append("invalid integer literal"),
            ParseErrorKind::IntegerUnderflow => out.append("integer literal is below the 64-bit signed range"),
            ParseErrorKind::IntegerOverflow => out.append("integer literal is above the 64-bit signed range"),
            ParseErrorKind::InvalidLabel => out.append("label number is out of range [0, 65535]"),
        }
        proof {
            assert(out@ =~= spec_parse_error_message(*self, src.spec_bytes()));
        }
        out
    }
}

/// A label as written: a number in the numbered dialect, the byte span of an
/// identifier in the named dialect.
#[derive(Debug, Clone, Copy, PartialEq, Eq, Structural)]
pub enum LabelTok {
    /// `.N`
    Number(u16),
    /// An identifier at `start..end` of the source bytes.
    Name { start: usize, end: usize },
}

/// One operand token, classified.
#[derive(Debug, Clone, Copy, PartialEq, Eq, Structural)]
pub enum RawOperand {
    /// `rN`
    Register(u8),
    /// An integer literal.
    Integer(i64),
    /// A label reference.
    Label(LabelTok),
}

/// One parsed line item, before dialect-specific conversion.
#[derive(Debug, Clone)]
pub enum RawLine {
    /// A label definition whose token starts at `offset`.
    LabelDef { label: LabelTok, offset: usize },
    /// An instruction whose mnemonic is at `start..end` of the source bytes.
    Instr { start: usize, end: usize, operands: Vec<RawOperand> },
}

/// The mathematical form of a [`RawLine`].
pub enum RawLineV {
    /// A label definition.
    LabelDef { label: LabelTok, offset: nat },
    /// An instruction.
    Instr { start: nat, end: nat, operands: Seq<RawOperand> },
}

impl View for RawLine {
    type V = RawLineV;

    open spec fn view(&self) -> RawLineV {
        match self {
            RawLine::LabelDef { label, offset } => RawLineV::LabelDef { label: *label, offset: *offset as nat },
            RawLine::Instr { start, end, operands } => RawLineV::Instr {
                start: *start as nat,
                end: *end as nat,
                operands: operands@,
            },
        }
    }
}

/// The views of a list of lines.
pub open spec fn raw_lines_view(v: Seq<RawLine>) -> Seq<RawLineV> {
    Seq::new(v.len(), |i: int| v[i]@)
}

// ---------------------------------------------------------------------------
// Byte classes
// ---------------------------------------------------------------------------

/// Token separators: space, tab, carriage return, comma.
pub open spec fn is_sep(b: u8) -> bool {
    b == 0x20 || b == 0x09 || b == 0x0d || b == 0x2c
}

/// `0`..`9`
pub open spec fn is_digit(b: u8) -> bool {
    0x30 <= b <= 0x39
}

/// `0`..`9`, `a`..`f`, `A`..`F`
pub open spec fn is_hex_digit(b: u8) -> bool {
    is_digit(b) || (0x61 <= b <= 0x66) || (0x41 <= b <= 0x46)
}

/// The value of a hex digit.
pub open spec fn hex_digit_value(b: u8) -> int {
    if is_digit(b) {
        b - 0x30
    } else if 0x61 <= b <= 0x66 {
        b - 0x61 + 10
    } else {
        b - 0x41 + 10
    }
}

/// `A`..`Z`, `a`..`z`, `_`
pub open spec fn is_ident_start(b: u8) -> bool {
    (0x41 <= b <= 0x5a) || (0x61 <= b <= 0x7a) || b == 0x5f
}

/// An identifier start or a digit.
pub open spec fn is_ident_char(b: u8) -> bool {
    is_ident_start(b) || is_digit(b)
}

/// `[A-Za-z_][A-Za-z0-9_]*`
pub open spec fn is_ident(t: Seq<u8>) -> bool {
    t.len() > 0 && is_ident_start(t[0]) && forall|i: int| 0 <= i < t.len() ==> is_ident_char(#[trigger] t[i])
}

/// One or more decimal digits.
pub open spec fn is_digits(t: Seq<u8>) -> bool {
    t.len() > 0 && forall|i: int| 0 <= i < t.len() ==> is_digit(#[trigger] t[i])
}

/// One or more hex digits.
pub open spec fn is_hex_digits(t: Seq<u8>) -> bool {
    t.len() > 0 && forall|i: int| 0 <= i < t.len() ==> is_hex_digit(#[trigger] t[i])
}

/// The value of a string of decimal digits.
pub open spec fn dec_value(t: Seq<u8>) -> nat
    decreases t.len(),
{
    if t.len() == 0 {
        0
    } else {
        (dec_value(t.drop_last()) * 10 + (t.last() - 0x30)) as nat
    }
}

/// The value of a string of hex digits.
pub open spec fn hex_value(t: Seq<u8>) -> nat
    decreases t.len(),
{
    if t.len() == 0 {
        0
    } else {
        (hex_value(t.drop_last()) * 16 + hex_digit_value(t.last())) as nat
    }
}

// ---------------------------------------------------------------------------
// Scanning
// ---------------------------------------------------------------------------

/// The first index in `from..to` holding `b`, or `to`.
pub open spec fn find_from(s: Seq<u8>, from: int, to: int, b: u8) -> int
    decreases to - from,
{
    if from >= to {
        to
    } else if s[from] == b {
        from
    } else {
        find_from(s, from + 1, to, b)
    }
}

/// The first index in `from..to` that is not a separator, or `to`.
pub open spec fn skip_seps(s: Seq<u8>, from: int, to: int) -> int
    decreases to - from,
{
    if from >= to {
        to
    } else if is_sep(s[from]) {
        skip_seps(s, from + 1, to)
    } else {
        from
    }
}

/// The first index in `from..to` that is a separator, or `to`.
pub open spec fn token_end(s: Seq<u8>, from: int, to: int) -> int
    decreases to - from,
{
    if from >= to {
        to
    } else if is_sep(s[from]) {
        from
    } else {
        token_end(s, from + 1, to)
    }
}

// ---------------------------------------------------------------------------
// Tokens
// ---------------------------------------------------------------------------

/// A register token `rN`: its slot, or the error it raises.
pub open spec fn spec_register(t: Seq<u8>) -> Result<u8, ParseErrorKind>
    recommends
        t.len() >= 2,
{
    let v = dec_value(t.skip(1));
    if v > u64::MAX {
        Err(ParseErrorKind::InvalidRegister)
    } else if v > 255 {
        Err(ParseErrorKind::RegisterOutOfRange { value: v as u64 })
    } else {
        Ok(v as u8)
    }
}

/// Whether `t` is a register token.
pub open spec fn is_register_tok(t: Seq<u8>) -> bool {
    t.len() >= 2 && t[0] == 0x72 && is_digits(t.skip(1))
}

/// The digits of an integer token after its sign.
pub open spec fn int_body(t: Seq<u8>) -> Seq<u8> {
    if t.len() > 0 && (t[0] == 0x2d || t[0] == 0x2b) {
        t.skip(1)
    } else {
        t
    }
}

/// Whether an integer body is hexadecimal (`0x` and hex digits).
pub open spec fn is_hex_body(b: Seq<u8>) -> bool {
    b.len() >= 3 && b[0] == 0x30 && b[1] == 0x78 && is_hex_digits(b.skip(2))
}

/// Whether `t` is an integer token.
pub open spec fn is_integer_tok(t: Seq<u8>) -> bool {
    is_hex_body(int_body(t)) || is_digits(int_body(t))
}

/// The magnitude written by an integer token.
pub open spec fn int_magnitude(t: Seq<u8>) -> nat {
    let b = int_body(t);
    if is_hex_body(b) {
        hex_value(b.skip(2))
    } else {
        dec_value(b)
    }
}

/// An integer token: its value, or the error it raises.
pub open spec fn spec_integer(t: Seq<u8>) -> Result<i64, ParseErrorKind> {
    let m = int_magnitude(t);
    if m > u64::MAX {
        Err(ParseErrorKind::InvalidInteger)
    } else if t[0] == 0x2d {
        if m > 0x8000_0000_0000_0000 {
            Err(ParseErrorKind::IntegerUnderflow)
        } else {
            Ok((-m) as i64)
        }
    } else {
        if m > 0x7fff_ffff_ffff_ffff {
            Err(ParseErrorKind::IntegerOverflow)
        } else {
            Ok(m as i64)
        }
    }
}

/// Whether `t` is a label in the given dialect.
pub open spec fn is_label_tok(t: Seq<u8>, named: bool) -> bool {
    if named {
        is_ident(t)
    } else {
        t.len() >= 2 && t[0] == 0x2e && is_digits(t.skip(1))
    }
}

/// A label token at `a..b` of `s`: the label, or the error it raises.
pub open spec fn spec_label(s: Seq<u8>, a: int, b: int, named: bool) -> Result<LabelTok, ParseErrorKind> {
    if named {
        Ok(LabelTok::Name { start: a as usize, end: b as usize })
    } else {
        let v = dec_value(s.subrange(a + 1, b));
        if v > 0xffff {
            Err(ParseErrorKind::InvalidLabel)
        } else {
            Ok(LabelTok::Number(v as u16))
        }
    }
}

/// Attach the span `a..b` to an error kind.
pub open spec fn err_at(kind: ParseErrorKind, a: int, b: int) -> ParseError {
    ParseError { kind, offset: a as usize, len: (b - a) as usize }
}

/// The operand token at `a..b` of `s`.
pub open spec fn spec_operand(s: Seq<u8>, a: int, b: int, named: bool) -> Result<RawOperand, ParseError> {
    let t = s.subrange(a, b);
    if is_register_tok(t) {
        match spec_register(t) {
            Ok(r) => Ok(RawOperand::Register(r)),
            Err(k) => Err(err_at(k, a, b)),
        }
    } else if is_integer_tok(t) {
        match spec_integer(t) {
            Ok(v) => Ok(RawOperand::Integer(v)),
            Err(k) => Err(err_at(k, a, b)),
        }
    } else if is_label_tok(t, named) {
        match spec_label(s, a, b, named) {
            Ok(l) => Ok(RawOperand::Label(l)),
            Err(k) => Err(err_at(k, a, b)),
        }
    } else {
        Err(err_at(ParseErrorKind::UnexpectedToken, a, b))
    }
}

/// The operands in `pos..hi` of `s`, one per token, or the first error.
pub open spec fn spec_operands(s: Seq<u8>, pos: int, hi: int, named: bool) -> Result<Seq<RawOperand>, ParseError>
    decreases hi - pos,
{
    let a = skip_seps(s, pos, hi);
    if a >= hi || pos >= hi {
        Ok(Seq::empty())
    } else {
        let b = token_end(s, a, hi);
        if b <= pos || b > hi {
            Ok(Seq::empty())
        } else {
            match spec_operand(s, a, b, named) {
                Err(e) => Err(e),
                Ok(op) => match spec_operands(s, b, hi, named) {
                    Err(e) => Err(e),
                    Ok(rest) => Ok(seq![op] + rest),
                },
            }
        }
    }
}

/// The instruction whose mnemonic token is `a..b`, with operands up to `hi`.
pub open spec fn spec_instr(s: Seq<u8>, a: int, b: int, hi: int, named: bool) -> Result<RawLineV, ParseError> {
    if !is_ident(s.subrange(a, b)) {
        Err(err_at(ParseErrorKind::UnexpectedToken, a, b))
    } else {
        match spec_operands(s, b, hi, named) {
            Err(e) => Err(e),
            Ok(ops) => Ok(RawLineV::Instr { start: a as nat, end: b as nat, operands: ops }),
        }
    }
}

/// The items of the line content `lo..hi` of `s`.
pub open spec fn spec_line(s: Seq<u8>, lo: int, hi: int, named: bool) -> Result<Seq<RawLineV>, ParseError> {
    let a = skip_seps(s, lo, hi);
    if a >= hi {
        Ok(Seq::empty())
    } else {
        let b = token_end(s, a, hi);
        if s[b - 1] == 0x3a {
            if !is_label_tok(s.subrange(a, b - 1), named) {
                Err(err_at(ParseErrorKind::UnexpectedToken, a, b))
            } else {
                match spec_label(s, a, b - 1, named) {
                    Err(k) => Err(err_at(k, a, b)),
                    Ok(label) => {
                        let def = RawLineV::LabelDef { label, offset: a as nat };
                        let c = skip_seps(s, b, hi);
                        if c >= hi {
                            Ok(seq![def])
                        } else {
                            match spec_instr(s, c, token_end(s, c, hi), hi, named) {
                                Err(e) => Err(e),
                                Ok(i) => Ok(seq![def, i]),
                            }
                        }
                    },
                }
            }
        } else {
            match spec_instr(s, a, b, hi, named) {
                Err(e) => Err(e),
                Ok(i) => Ok(seq![i]),
            }
        }
    }
}

/// The items of the lines of `s` from byte `pos` on, or the first error.
pub open spec fn spec_parse_from(s: Seq<u8>, pos: int, named: bool) -> Result<Seq<RawLineV>, ParseError>
    decreases s.len() + 1 - pos,
{
    if pos >= s.len() || pos < 0 {
        Ok(Seq::empty())
    } else {
        let eol = find_from(s, pos, s.len() as int, 0x0a);
        let cend = find_from(s, pos, eol, 0x3b);
        if eol < pos || eol > s.len() {
            Ok(Seq::empty())
        } else {
            match spec_line(s, pos, cend, named) {
                Err(e) => Err(e),
                Ok(items) => match spec_parse_from(s, eol + 1, named) {
                    Err(e) => Err(e),
                    Ok(rest) => Ok(items + rest),
                },
            }
        }
    }
}

/// The items of the source bytes `s`, or the first error in source order.
pub open spec fn spec_parse(s: Seq<u8>, named: bool) -> Result<Seq<RawLineV>, ParseError> {
    spec_parse_from(s, 0, named)
}

/// Put `a` in front of a successful result; pass an error on.
pub open spec fn prepend<T>(a: Seq<T>, r: Result<Seq<T>, ParseError>) -> Result<Seq<T>, ParseError> {
    match r {
        Ok(x) => Ok(a + x),
        Err(e) => Err(e),
    }
}

// ---------------------------------------------------------------------------
// Scanning lemmas
// ---------------------------------------------------------------------------

/// `find_from` stays in range and stops at the first `b`.
pub proof fn lemma_find_from(s: Seq<u8>, from: int, to: int, b: u8)
    requires
        0 <= from <= to <= s.len(),
    ensures
        from <= find_from(s, from, to, b) <= to,
        find_from(s, from, to, b) < to ==> s[find_from(s, from, to, b)] == b,
        forall|i: int| from <= i < find_from(s, from, to, b) ==> s[i] != b,
    decreases to - from,
{
    if from < to && s[from] != b {
        lemma_find_from(s, from + 1, to, b);
    }
}

/// `skip_seps` stays in range and stops at the first non-separator.
pub proof fn lemma_skip_seps(s: Seq<u8>, from: int, to: int)
    requires
        0 <= from <= to <= s.len(),
    ensures
        from <= skip_seps(s, from, to) <= to,
        skip_seps(s, from, to) < to ==> !is_sep(s[skip_seps(s, from, to)]),
    decreases to - from,
{
    if from < to && is_sep(s[from]) {
        lemma_skip_seps(s, from + 1, to);
    }
}

/// `token_end` stays in range and stops at the first separator; it moves
/// past a non-separator.
pub proof fn lemma_token_end(s: Seq<u8>, from: int, to: int)
    requires
        0 <= from <= to <= s.len(),
    ensures
        from <= token_end(s, from, to) <= to,
        from < to && !is_sep(s[from]) ==> from < token_end(s, from, to),
    decreases to - from,
{
    if from < to && !is_sep(s[from]) {
        lemma_token_end(s, from + 1, to);
    }
}

/// A prefix of a digit string has no greater value.
pub proof fn lemma_dec_value_prefix(t: Seq<u8>, k: int)
    requires
        0 <= k <= t.len(),
        forall|i: int| 0 <= i < t.len() ==> is_digit(#[trigger] t[i]),
    ensures
        dec_value(t.take(k)) <= dec_value(t),
    decreases t.len(),
{
    if k < t.len() {
        assert(is_digit(t[t.len() - 1]));
        lemma_dec_value_prefix(t.drop_last(), k);
        assert(t.drop_last().take(k) =~= t.take(k));
    } else {
        assert(t.take(k) =~= t);
    }
}

/// A prefix of a hex digit string has no greater value.
pub proof fn lemma_hex_value_prefix(t: Seq<u8>, k: int)
    requires
        0 <= k <= t.len(),
        forall|i: int| 0 <= i < t.len() ==> is_hex_digit(#[trigger] t[i]),
    ensures
        hex_value(t.take(k)) <= hex_value(t),
    decreases t.len(),
{
    if k < t.len() {
        assert(is_hex_digit(t[t.len() - 1]));
        lemma_hex_value_prefix(t.drop_last(), k);
        assert(t.drop_last().take(k) =~= t.take(k));
    } else {
        assert(t.take(k) =~= t);
    }
}

// ---------------------------------------------------------------------------
// Executable scanning
// ---------------------------------------------------------------------------

/// The first index in `from..to` holding `b`, or `to`.
pub fn find_byte(s: &[u8], from: usize, to: usize, b: u8) -> (r: usize)
    requires
        from <= to <= s@.len(),
    ensures
        r == find_from(s@, from as int, to as int, b),
{
    let mut i = from;
    while i < to
        invariant
            from <= i <= to <= s@.len(),
            find_from(s@, from as int, to as int, b) == find_from(s@, i as int, to as int, b),
        decreases to - i,
    {
        if s[i] == b {
            return i;
        }
        i += 1;
    }
    i
}

/// The first index in `from..to` that is not a separator, or `to`.
pub fn skip_separators(s: &[u8], from: usize, to: usize) -> (r: usize)
    requires
        from <= to <= s@.len(),
    ensures
        r == skip_seps(s@, from as int, to as int),
{
    let mut i = from;
    while i < to
        invariant
            from <= i <= to <= s@.len(),
            skip_seps(s@, from as int, to as int) == skip_seps(s@, i as int, to as int),
        decreases to - i,
    {
        let c = s[i];
        if !(c == 0x20 || c == 0x09 || c == 0x0d || c == 0x2c) {
            return i;
        }
        i += 1;
    }
    i
}

/// The first index in `from..to` that is a separator, or `to`.
pub fn find_token_end(s: &[u8], from: usize, to: usize) -> (r: usize)
    requires
        from <= to <= s@.len(),
    ensures
        r == token_end(s@, from as int, to as int),
{
    let mut i = from;
    while i < to
        invariant
            from <= i <= to <= s@.len(),
            token_end(s@, from as int, to as int) == token_end(s@, i as int, to as int),
        decreases to - i,
    {
        let c = s[i];
        if c == 0x20 || c == 0x09 || c == 0x0d || c == 0x2c {
            return i;
        }
        i += 1;
    }
    i
}

/// Whether `s[a..b]` is one or more decimal digits.
pub fn all_digits(s: &[u8], a: usize, b: usize) -> (r: bool)
    requires
        a <= b <= s@.len(),
    ensures
        r == is_digits(s@.subrange(a as int, b as int)),
{
    if a == b {
        return false;
    }
    let mut i = a;
    while i < b
        invariant
            a <= i <= b <= s@.len(),
            forall|j: int| a <= j < i ==> is_digit(#[trigger] s@[j]),
        decreases b - i,
    {
        if !(0x30 <= s[i] && s[i] <= 0x39) {
            assert(!is_digit(s@.subrange(a as int, b as int)[i - a]));
            return false;
        }
        i += 1;
    }
    assert forall|k: int| 0 <= k < b - a implies is_digit(#[trigger] s@.subrange(a as int, b as int)[k]) by {
        assert(is_digit(s@[a + k]));
    }
    true
}

/// Whether `s[a..b]` is one or more hex digits.
pub fn all_hex_digits(s: &[u8], a: usize, b: usize) -> (r: bool)
    requires
        a <= b <= s@.len(),
    ensures
        r == is_hex_digits(s@.subrange(a as int, b as int)),
{
    if a == b {
        return false;
    }
    let mut i = a;
    while i < b
        invariant
            a <= i <= b <= s@.len(),
            forall|j: int| a <= j < i ==> is_hex_digit(#[trigger] s@[j]),
        decreases b - i,
    {
        let c = s[i];
        if !((0x30 <= c && c <= 0x39) || (0x61 <= c && c <= 0x66) || (0x41 <= c && c <= 0x46)) {
            assert(!is_hex_digit(s@.subrange(a as int, b as int)[i - a]));
            return false;
        }
        i += 1;
    }
    assert forall|k: int| 0 <= k < b - a implies is_hex_digit(#[trigger] s@.subrange(a as int, b as int)[k]) by {
        assert(is_hex_digit(s@[a + k]));
    }
    true
}

/// Whether `s[a..b]` is an identifier.
pub fn identifier(s: &[u8], a: usize, b: usize) -> (r: bool)
    requires
        a <= b <= s@.len(),
    ensures
        r == is_ident(s@.subrange(a as int, b as int)),
{
    if a == b {
        return false;
    }
    let c0 = s[a];
    if !((0x41 <= c0 && c0 <= 0x5a) || (0x61 <= c0 && c0 <= 0x7a) || c0 == 0x5f) {
        return false;
    }
    let mut i = a;
    while i < b
        invariant
            a <= i <= b <= s@.len(),
            forall|j: int| a <= j < i ==> is_ident_char(#[trigger] s@[j]),
        decreases b - i,
    {
        let c = s[i];
        if !((0x41 <= c && c <= 0x5a) || (0x61 <= c && c <= 0x7a) || c == 0x5f || (0x30 <= c && c <= 0x39)) {
            assert(!is_ident_char(s@.subrange(a as int, b as int)[i - a]));
            return false;
        }
        i += 1;
    }
    assert forall|k: int| 0 <= k < b - a implies is_ident_char(#[trigger] s@.subrange(a as int, b as int)[k]) by {
        assert(is_ident_char(s@[a + k]));
    }
    true
}

/// The value of the digit string `s[a..b]`, or `None` when it exceeds
/// `u64::MAX`.
pub fn decimal_value(s: &[u8], a: usize, b: usize) -> (r: Option<u64>)
    requires
        a <= b <= s@.len(),
        forall|j: int| a <= j < b ==> is_digit(#[trigger] s@[j]),
    ensures
        match r {
            Some(v) => v == dec_value(s@.subrange(a as int, b as int)),
            None => dec_value(s@.subrange(a as int, b as int)) > u64::MAX,
        },
{
    let mut acc: u64 = 0;
    let mut i = a;
    while i < b
        invariant
            a <= i <= b <= s@.len(),
            forall|j: int| a <= j < b ==> is_digit(#[trigger] s@[j]),
            acc == dec_value(s@.subrange(a as int, i as int)),
        decreases b - i,
    {
        let d = (s[i] - 0x30) as u64;
        assert(is_digit(s@[i as int]));
        proof {
            assert(s@.subrange(a as int, i + 1).drop_last() =~= s@.subrange(a as int, i as int));
        }
        if acc > (u64::MAX - d) / 10 {
            proof {
                assert(acc * 10 + d > u64::MAX) by (nonlinear_arith)
                    requires
                        acc > (u64::MAX - d) / 10,
                        d <= 9,
                ;
                lemma_dec_value_prefix(s@.subrange(a as int, b as int), i + 1 - a);
                assert(s@.subrange(a as int, b as int).take(i + 1 - a) =~= s@.subrange(a as int, i + 1));
            }
            return None;
        }
        proof {
            assert(acc * 10 + d <= u64::MAX) by (nonlinear_arith)
                requires
                    acc <= (u64::MAX - d) / 10,
                    d <= 9,
            ;
        }
        acc = acc * 10 + d;
        i += 1;
    }
    Some(acc)
}

/// The value of the hex digit string `s[a..b]`, or `None` when it exceeds
/// `u64::MAX`.
pub fn hexadecimal_value(s: &[u8], a: usize, b: usize) -> (r: Option<u64>)
    requires
        a <= b <= s@.len(),
        forall|j: int| a <= j < b ==> is_hex_digit(#[trigger] s@[j]),
    ensures
        match r {
            Some(v) => v == hex_value(s@.subrange(a as int, b as int)),
            None => hex_value(s@.subrange(a as int, b as int)) > u64::MAX,
        },
{
    let mut acc: u64 = 0;
    let mut i = a;
    while i < b
        invariant
            a <= i <= b <= s@.len(),
            forall|j: int| a <= j < b ==> is_hex_digit(#[trigger] s@[j]),
            acc == hex_value(s@.subrange(a as int, i as int)),
        decreases b - i,
    {
        let c = s[i];
        assert(is_hex_digit(s@[i as int]));
        let d: u64 = if 0x30 <= c && c <= 0x39 {
            (c - 0x30) as u64
        } else if 0x61 <= c && c <= 0x66 {
            (c - 0x61 + 10) as u64
        } else {
            (c - 0x41 + 10) as u64
        };
        proof {
            assert(s@.subrange(a as int, i + 1).drop_last() =~= s@.subrange(a as int, i as int));
        }
        if acc > (u64::MAX - d) / 16 {
            proof {
                assert(acc * 16 + d > u64::MAX) by (nonlinear_arith)
                    requires
                        acc > (u64::MAX - d) / 16,
                        d <= 15,
                ;
                lemma_hex_value_prefix(s@.subrange(a as int, b as int), i + 1 - a);
                assert(s@.subrange(a as int, b as int).take(i + 1 - a) =~= s@.subrange(a as int, i + 1));
            }
            return None;
        }
        proof {
            assert(acc * 16 + d <= u64::MAX) by (nonlinear_arith)
                requires
                    acc <= (u64::MAX - d) / 16,
                    d <= 15,
            ;
        }
        acc = acc * 16 + d;
        i += 1;
    }
    Some(acc)
}

/// The error kind at `a..b`, as a value.
fn error_at(kind: ParseErrorKind, a: usize, b: usize) -> (e: ParseError)
    requires
        a <= b,
    ensures
        e == err_at(kind, a as int, b as int),
{
    ParseError { kind, offset: a, len: b - a }
}

/// Classify the label token `s[a..b]`, known to have label syntax.
fn label_at(s: &[u8], a: usize, b: usize, named: bool) -> (r: Result<LabelTok, ParseErrorKind>)
    requires
        a < b <= s@.len(),
        is_label_tok(s@.subrange(a as int, b as int), named),
    ensures
        r == spec_label(s@, a as int, b as int, named),
{
    if named {
        Ok(LabelTok::Name { start: a, end: b })
    } else {
        proof {
            assert(s@.subrange(a as int, b as int).skip(1) =~= s@.subrange(a + 1, b as int));
            assert forall|j: int| a + 1 <= j < b implies is_digit(#[trigger] s@[j]) by {
                assert(is_digit(s@.subrange(a + 1, b as int)[j - a - 1]));
            }
        }
        match decimal_value(s, a + 1, b) {
            None => Err(ParseErrorKind::InvalidLabel),
            Some(v) => {
                if v > 0xffff {
                    Err(ParseErrorKind::InvalidLabel)
                } else {
                    Ok(LabelTok::Number(v as u16))
                }
            },
        }
    }
}

/// Whether `s[a..b]` has label syntax in the given dialect.
fn label_syntax(s: &[u8], a: usize, b: usize, named: bool) -> (r: bool)
    requires
        a <= b <= s@.len(),
    ensures
        r == is_label_tok(s@.subrange(a as int, b as int), named),
{
    if named {
        identifier(s, a, b)
    } else {
        if b - a >= 2 && s[a] == 0x2e {
            proof {
                assert(s@.subrange(a as int, b as int).skip(1) =~= s@.subrange(a + 1, b as int));
            }
            all_digits(s, a + 1, b)
        } else {
            false
        }
    }
}

/// Classify the operand token `s[a..b]`.
pub fn operand_at(s: &[u8], a: usize, b: usize, named: bool) -> (r: Result<RawOperand, ParseError>)
    requires
        a < b <= s@.len(),
    ensures
        r == spec_operand(s@, a as int, b as int, named),
{
    let ghost t = s@.subrange(a as int, b as int);
    if b - a >= 2 && s[a] == 0x72 && all_digits(s, a + 1, b) {
        proof {
            assert(t.skip(1) =~= s@.subrange(a + 1, b as int));
            assert forall|j: int| a + 1 <= j < b implies is_digit(#[trigger] s@[j]) by {
                assert(is_digit(s@.subrange(a + 1, b as int)[j - a - 1]));
            }
        }
        return match decimal_value(s, a + 1, b) {
            None => Err(error_at(ParseErrorKind::InvalidRegister, a, b)),
            Some(v) => {
                if v > 255 {
                    Err(error_at(ParseErrorKind::RegisterOutOfRange { value: v }, a, b))
                } else {
                    Ok(RawOperand::Register(v as u8))
                }
            },
        };
    }
    proof {
        if b - a >= 2 && s@[a as int] == 0x72 {
            assert(t.skip(1) =~= s@.subrange(a + 1, b as int));
        }
    }
    let sign = s[a];
    let body: usize = if sign == 0x2d || sign == 0x2b {
        a + 1
    } else {
        a
    };
    proof {
        assert(int_body(t) =~= s@.subrange(body as int, b as int));
    }
    let hex = b - body >= 3 && s[body] == 0x30 && s[body + 1] == 0x78 && all_hex_digits(s, body + 2, b);
    proof {
        if b - body >= 3 {
            assert(int_body(t).skip(2) =~= s@.subrange(body + 2, b as int));
        }
    }
    if hex || all_digits(s, body, b) {
        let m = if hex {
            proof {
                assert forall|j: int| body + 2 <= j < b implies is_hex_digit(#[trigger] s@[j]) by {
                    assert(is_hex_digit(s@.subrange(body + 2, b as int)[j - body - 2]));
                }
            }
            hexadecimal_value(s, body + 2, b)
        } else {
            proof {
                assert forall|j: int| body <= j < b implies is_digit(#[trigger] s@[j]) by {
                    assert(is_digit(s@.subrange(body as int, b as int)[j - body]));
                }
            }
            decimal_value(s, body, b)
        };
        return match m {
            None => Err(error_at(ParseErrorKind::InvalidInteger, a, b)),
            Some(m) => {
                if sign == 0x2d {
                    if m > 0x8000_0000_0000_0000 {
                        Err(error_at(ParseErrorKind::IntegerUnderflow, a, b))
                    } else if m == 0x8000_0000_0000_0000 {
                        Ok(RawOperand::Integer(i64::MIN))
                    } else {
                        Ok(RawOperand::Integer(-(m as i64)))
                    }
                } else {
                    if m > 0x7fff_ffff_ffff_ffff {
                        Err(error_at(ParseErrorKind::IntegerOverflow, a, b))
                    } else {
                        Ok(RawOperand::Integer(m as i64))
                    }
                }
            },
        };
    }
    if label_syntax(s, a, b, named) {
        return match label_at(s, a, b, named) {
            Err(k) => Err(error_at(k, a, b)),
            Ok(l) => Ok(RawOperand::Label(l)),
        };
    }
    Err(error_at(ParseErrorKind::UnexpectedToken, a, b))
}

/// The operands in `s[pos..hi]`, one per token, or the first error.
fn operands_from(s: &[u8], pos: usize, hi: usize, named: bool) -> (r: Result<Vec<RawOperand>, ParseError>)
    requires
        pos <= hi <= s@.len(),
    ensures
        match r {
            Ok(v) => spec_operands(s@, pos as int, hi as int, named) == Ok::<Seq<RawOperand>, ParseError>(v@),
            Err(e) => spec_operands(s@, pos as int, hi as int, named) == Err::<Seq<RawOperand>, ParseError>(e),
        },
{
    let mut out: Vec<RawOperand> = Vec::new();
    let mut p = pos;
    while p < hi
        invariant
            pos <= p <= hi <= s@.len(),
            spec_operands(s@, pos as int, hi as int, named) == prepend(out@, spec_operands(s@, p as int, hi as int, named)),
        decreases hi - p,
    {
        let a = skip_separators(s, p, hi);
        proof {
            lemma_skip_seps(s@, p as int, hi as int);
        }
        if a >= hi {
            proof {
                assert(out@ + Seq::<RawOperand>::empty() =~= out@);
            }
            return Ok(out);
        }
        let b = find_token_end(s, a, hi);
        proof {
            lemma_token_end(s@, a as int, hi as int);
        }
        match operand_at(s, a, b, named) {
            Err(e) => {
                return Err(e);
            },
            Ok(op) => {
                proof {
                    let rest = spec_operands(s@, b as int, hi as int, named);
                    if let Ok(x) = rest {
                        assert(out@.push(op) + x =~= out@ + (seq![op] + x));
                    }
                }
                out.push(op);
                p = b;
            },
        }
    }
    proof {
        assert(out@ + Seq::<RawOperand>::empty() =~= out@);
    }
    Ok(out)
}

/// The instruction whose mnemonic token is `s[a..b]`, with its operands up
/// to `hi`.
fn instr_at(s: &[u8], a: usize, b: usize, hi: usize, named: bool) -> (r: Result<RawLine, ParseError>)
    requires
        a <= b <= hi <= s@.len(),
    ensures
        match r {
            Ok(l) => spec_instr(s@, a as int, b as int, hi as int, named) == Ok::<RawLineV, ParseError>(l@),
            Err(e) => spec_instr(s@, a as int, b as int, hi as int, named) == Err::<RawLineV, ParseError>(e),
        },
{
    if !identifier(s, a, b) {
        return Err(error_at(ParseErrorKind::UnexpectedToken, a, b));
    }
    match operands_from(s, b, hi, named) {
        Err(e) => Err(e),
        Ok(operands) => Ok(RawLine::Instr { start: a, end: b, operands }),
    }
}

/// The items of the line content `s[lo..hi]`.
pub fn line_items(s: &[u8], lo: usize, hi: usize, named: bool) -> (r: Result<Vec<RawLine>, ParseError>)
    requires
        lo <= hi <= s@.len(),
    ensures
        match r {
            Ok(v) => spec_line(s@, lo as int, hi as int, named) == Ok::<Seq<RawLineV>, ParseError>(raw_lines_view(v@)),
            Err(e) => spec_line(s@, lo as int, hi as int, named) == Err::<Seq<RawLineV>, ParseError>(e),
        },
{
    let mut out: Vec<RawLine> = Vec::new();
    let a = skip_separators(s, lo, hi);
    proof {
        lemma_skip_seps(s@, lo as int, hi as int);
    }
    if a >= hi {
        proof {
            assert(raw_lines_view(out@) =~= Seq::<RawLineV>::empty());
        }
        return Ok(out);
    }
    let b = find_token_end(s, a, hi);
    proof {
        lemma_token_end(s@, a as int, hi as int);
    }
    if s[b - 1] == 0x3a {
        if !label_syntax(s, a, b - 1, named) {
            return Err(error_at(ParseErrorKind::UnexpectedToken, a, b));
        }
        let label = match label_at(s, a, b - 1, named) {
            Err(k) => {
                return Err(error_at(k, a, b));
            },
            Ok(l) => l,
        };
        out.push(RawLine::LabelDef { label, offset: a });
        let c = skip_separators(s, b, hi);
        proof {
            lemma_skip_seps(s@, b as int, hi as int);
        }
        if c >= hi {
            proof {
                assert(raw_lines_view(out@) =~= seq![RawLineV::LabelDef { label, offset: a as nat }]);
            }
            return Ok(out);
        }
        let d = find_token_end(s, c, hi);
        proof {
            lemma_token_end(s@, c as int, hi as int);
        }
        match instr_at(s, c, d, hi, named) {
            Err(e) => Err(e),
            Ok(i) => {
                let ghost iv = i@;
                out.push(i);
                proof {
                    assert(raw_lines_view(out@) =~= seq![RawLineV::LabelDef { label, offset: a as nat }, iv]);
                }
                Ok(out)
            },
        }
    } else {
        match instr_at(s, a, b, hi, named) {
            Err(e) => Err(e),
            Ok(i) => {
                let ghost iv = i@;
                out.push(i);
                proof {
                    assert(raw_lines_view(out@) =~= seq![iv]);
                }
                Ok(out)
            },
        }
    }
}

/// Parse the source bytes `s` into line items.
pub fn parse_raw(s: &[u8], named: bool) -> (r: Result<Vec<RawLine>, ParseError>)
    ensures
        match r {
            Ok(v) => spec_parse(s@, named) == Ok::<Seq<RawLineV>, ParseError>(raw_lines_view(v@)),
            Err(e) => spec_parse(s@, named) == Err::<Seq<RawLineV>, ParseError>(e),
        },
{
    let mut out: Vec<RawLine> = Vec::new();
    let mut pos: usize = 0;
    proof {
        assert(raw_lines_view(out@) =~= Seq::<RawLineV>::empty());
        assert(Seq::<RawLineV>::empty() + spec_parse(s@, named).unwrap() =~= spec_parse(s@, named).unwrap());
    }
    while pos < s.len()
        invariant
            pos <= s@.len(),
            spec_parse(s@, named) == prepend(raw_lines_view(out@), spec_parse_from(s@, pos as int, named)),
        decreases s@.len() - pos,
    {
        let eol = find_byte(s, pos, s.len(), 0x0a);
        proof {
            lemma_find_from(s@, pos as int, s@.len() as int, 0x0a);
        }
        let cend = find_byte(s, pos, eol, 0x3b);
        proof {
            lemma_find_from(s@, pos as int, eol as int, 0x3b);
        }
        match line_items(s, pos, cend, named) {
            Err(e) => {
                return Err(e);
            },
            Ok(mut items) => {
                let ghost before = raw_lines_view(out@);
                let ghost mid = raw_lines_view(items@);
                out.append(&mut items);
                proof {
                    assert(raw_lines_view(out@) =~= before + mid);
                    if let Ok(x) = spec_parse_from(s@, eol + 1, named) {
                        assert(before + (mid + x) =~= (before + mid) + x);
                    }
                }
                if eol >= s.len() {
                    proof {
                        assert(raw_lines_view(out@) + Seq::<RawLineV>::empty() =~= raw_lines_view(out@));
                    }
                    return Ok(out);
                }
                pos = eol + 1;
            },
        }
    }
    proof {
        assert(raw_lines_view(out@) + Seq::<RawLineV>::empty() =~= raw_lines_view(out@));
    }
    Ok(out)
}

/// The character a byte of an identifier stands for, upper-cased when
/// `upper` holds.
pub open spec fn ident_char(b: u8, upper: bool) -> char {
    if upper && 0x61 <= b <= 0x7a {
        ((b - 32) as u8) as char
    } else {
        b as char
    }
}

/// The characters an identifier's bytes stand for.
pub open spec fn ident_chars(t: Seq<u8>, upper: bool) -> Seq<char> {
    Seq::new(t.len(), |i: int| ident_char(t[i], upper))
}

/// The one-character string of an identifier byte.
fn ident_char_str(c: u8) -> (s: &'static str)
    requires
        is_ident_char(c),
    ensures
        s@ == seq![c as char],
{
    proof {
        reveal_strlit("0");
        reveal_strlit("1");
        reveal_strlit("2");
        reveal_strlit("3");
        reveal_strlit("4");
        reveal_strlit("5");
        reveal_strlit("6");
        reveal_strlit("7");
        reveal_strlit("8");
        reveal_strlit("9");
        reveal_strlit("A");
        reveal_strlit("B");
        reveal_strlit("C");
        reveal_strlit("D");
        reveal_strlit("E");
        reveal_strlit("F");
        reveal_strlit("G");
        reveal_strlit("H");
        reveal_strlit("I");
        reveal_strlit("J");
        reveal_strlit("K");
        reveal_strlit("L");
        reveal_strlit("M");
        reveal_strlit("N");
        reveal_strlit("O");
        reveal_strlit("P");
        reveal_strlit("Q");
        reveal_strlit("R");
        reveal_strlit("S");
        reveal_strlit("T");
        reveal_strlit("U");
        reveal_strlit("V");
        reveal_strlit("W");
        reveal_strlit("X");
        reveal_strlit("Y");
        reveal_strlit("Z");
        reveal_strlit("_");
        reveal_strlit("a");
        reveal_strlit("b");
        reveal_strlit("c");
        reveal_strlit("d");
        reveal_strlit("e");
        reveal_strlit("f");
        reveal_strlit("g");
        reveal_strlit("h");
        reveal_strlit("i");
        reveal_strlit("j");
        reveal_strlit("k");
        reveal_strlit("l");
        reveal_strlit("m");
        reveal_strlit("n");
        reveal_strlit("o");
        reveal_strlit("p");
        reveal_strlit("q");
        reveal_strlit("r");
        reveal_strlit("s");
        reveal_strlit("t");
        reveal_strlit("u");
        reveal_strlit("v");
        reveal_strlit("w");
        reveal_strlit("x");
        reveal_strlit("y");
        reveal_strlit("z");
    }
    match c {
        0x30 => "0",
        0x31 => "1",
        0x32 => "2",
        0x33 => "3",
        0x34 => "4",
        0x35 => "5",
        0x36 => "6",
        0x37 => "7",
        0x38 => "8",
        0x39 => "9",
        0x41 => "A",
        0x42 => "B",
        0x43 => "C",
        0x44 => "D",
        0x45 => "E",
        0x46 => "F",
        0x47 => "G",
        0x48 => "H",
        0x49 => "I",
        0x4a => "J",
        0x4b => "K",
        0x4c => "L",
        0x4d => "M",
        0x4e => "N",
        0x4f => "O",
        0x50 => "P",
        0x51 => "Q",
        0x52 => "R",
        0x53 => "S",
        0x54 => "T",
        0x55 => "U",
        0x56 => "V",
        0x57 => "W",
        0x58 => "X",
        0x59 => "Y",
        0x5a => "Z",
        0x5f => "_",
        0x61 => "a",
        0x62 => "b",
        0x63 => "c",
        0x64 => "d",
        0x65 => "e",
        0x66 => "f",
        0x67 => "g",
        0x68 => "h",
        0x69 => "i",
        0x6a => "j",
        0x6b => "k",
        0x6c => "l",
        0x6d => "m",
        0x6e => "n",
        0x6f => "o",
        0x70 => "p",
        0x71 => "q",
        0x72 => "r",
        0x73 => "s",
        0x74 => "t",
        0x75 => "u",
        0x76 => "v",
        0x77 => "w",
        0x78 => "x",
        0x79 => "y",
        0x7a => "z",
        _ => "_",
    }
}

/// Append the characters of the identifier `s[a..b]`, upper-cased when
/// `upper` holds.
pub fn push_ident(out: &mut String, s: &[u8], a: usize, b: usize, upper: bool)
    requires
        a <= b <= s@.len(),
        forall|j: int| a <= j < b ==> is_ident_char(#[trigger] s@[j]),
    ensures
        final(out)@ == old(out)@ + ident_chars(s@.subrange(a as int, b as int), upper),
{
    let mut i = a;
    while i < b
        invariant
            a <= i <= b <= s@.len(),
            forall|j: int| a <= j < b ==> is_ident_char(#[trigger] s@[j]),
            out@ == old(out)@ + ident_chars(s@.subrange(a as int, i as int), upper),
        decreases b - i,
    {
        let c = s[i];
        assert(is_ident_char(s@[i as int]));
        let d = if upper && 0x61 <= c && c <= 0x7a {
            c - 32
        } else {
            c
        };
        let piece = ident_char_str(d);
        let ghost before = out@;
        out.append(piece);
        proof {
            assert(ident_chars(s@.subrange(a as int, i + 1), upper) =~= ident_chars(s@.subrange(a as int, i as int), upper).push(ident_char(c, upper)));
            assert(d as char == ident_char(c, upper));
            assert(out@ =~= old(out)@ + ident_chars(s@.subrange(a as int, i + 1), upper));
        }
        i += 1;
    }
}

/// Whether a label token's span, if it has one, is an identifier of `s`.
pub open spec fn label_spanned(s: Seq<u8>, l: LabelTok) -> bool {
    match l {
        LabelTok::Name { start, end } => start <= end <= s.len() && is_ident(s.subrange(start as int, end as int)),
        LabelTok::Number(_) => true,
    }
}

/// Whether an operand's label span, if any, is an identifier of `s`.
pub open spec fn operand_spanned(s: Seq<u8>, o: RawOperand) -> bool {
    match o {
        RawOperand::Label(l) => label_spanned(s, l),
        _ => true,
    }
}

/// Whether every span in a line item lies in `s` and is an identifier.
pub open spec fn line_spanned(s: Seq<u8>, l: RawLineV) -> bool {
    match l {
        RawLineV::LabelDef { label, .. } => label_spanned(s, label),
        RawLineV::Instr { start, end, operands } => {
            &&& start <= end <= s.len()
            &&& is_ident(s.subrange(start as int, end as int))
            &&& forall|k: int| 0 <= k < operands.len() ==> operand_spanned(s, #[trigger] operands[k])
        },
    }
}

proof fn lemma_operands_spanned(s: Seq<u8>, pos: int, hi: int, named: bool)
    requires
        s.len() <= usize::MAX,
        0 <= pos <= hi <= s.len(),
    ensures
        spec_operands(s, pos, hi, named) matches Ok(v) ==> forall|k: int|
            0 <= k < v.len() ==> operand_spanned(s, #[trigger] v[k]),
    decreases hi - pos,
{
    lemma_skip_seps(s, pos, hi);
    let a = skip_seps(s, pos, hi);
    if a < hi {
        lemma_token_end(s, a, hi);
        let b = token_end(s, a, hi);
        lemma_operands_spanned(s, b, hi, named);
        if let Ok(v) = spec_operands(s, pos, hi, named) {
            let op = spec_operand(s, a, b, named).unwrap();
            let rest = spec_operands(s, b, hi, named).unwrap();
            assert(v == seq![op] + rest);
            assert(operand_spanned(s, op));
            assert forall|k: int| 0 <= k < v.len() implies operand_spanned(s, #[trigger] v[k]) by {
                if k > 0 {
                    assert(v[k] == rest[k - 1]);
                } else {
                    assert(v[0] == op);
                }
            }
        }
    }
}

proof fn lemma_instr_spanned(s: Seq<u8>, a: int, b: int, hi: int, named: bool)
    requires
        s.len() <= usize::MAX,
        0 <= a <= b <= hi <= s.len(),
    ensures
        spec_instr(s, a, b, hi, named) matches Ok(l) ==> line_spanned(s, l),
{
    lemma_operands_spanned(s, b, hi, named);
}

proof fn lemma_line_spanned(s: Seq<u8>, lo: int, hi: int, named: bool)
    requires
        s.len() <= usize::MAX,
        0 <= lo <= hi <= s.len(),
    ensures
        spec_line(s, lo, hi, named) matches Ok(v) ==> forall|k: int| 0 <= k < v.len() ==> line_spanned(s, #[trigger] v[k]),
{
    lemma_skip_seps(s, lo, hi);
    let a = skip_seps(s, lo, hi);
    if a < hi {
        lemma_token_end(s, a, hi);
        let b = token_end(s, a, hi);
        lemma_skip_seps(s, b, hi);
        let c = skip_seps(s, b, hi);
        if c < hi {
            lemma_token_end(s, c, hi);
            lemma_instr_spanned(s, c, token_end(s, c, hi), hi, named);
        }
        lemma_instr_spanned(s, a, b, hi, named);
        if let Ok(v) = spec_line(s, lo, hi, named) {
            if s[b - 1] == 0x3a {
                let label = spec_label(s, a, b - 1, named).unwrap();
                assert(label_spanned(s, label));
                assert(v[0] == RawLineV::LabelDef { label, offset: a as nat });
                if c < hi {
                    let i = spec_instr(s, c, token_end(s, c, hi), hi, named).unwrap();
                    assert(v =~= seq![RawLineV::LabelDef { label, offset: a as nat }, i]);
                    assert(line_spanned(s, v[1]));
                }
            } else {
                assert(line_spanned(s, v[0]));
            }
        }
    }
}

proof fn lemma_parse_from_spanned(s: Seq<u8>, pos: int, named: bool)
    requires
        s.len() <= usize::MAX,
        0 <= pos,
    ensures
        spec_parse_from(s, pos, named) matches Ok(v) ==> forall|k: int|
            0 <= k < v.len() ==> line_spanned(s, #[trigger] v[k]),
    decreases s.len() + 1 - pos,
{
    if pos < s.len() {
        lemma_find_from(s, pos, s.len() as int, 0x0a);
        let eol = find_from(s, pos, s.len() as int, 0x0a);
        lemma_find_from(s, pos, eol, 0x3b);
        let cend = find_from(s, pos, eol, 0x3b);
        lemma_line_spanned(s, pos, cend, named);
        lemma_parse_from_spanned(s, eol + 1, named);
        if let Ok(v) = spec_parse_from(s, pos, named) {
            let items = spec_line(s, pos, cend, named).unwrap();
            let rest = spec_parse_from(s, eol + 1, named).unwrap();
            assert(v == items + rest);
            assert forall|k: int| 0 <= k < v.len() implies line_spanned(s, #[trigger] v[k]) by {
                if k >= items.len() {
                    assert(v[k] == rest[k - items.len()]);
                } else {
                    assert(v[k] == items[k]);
                }
            }
        }
    }
}

/// Every span in a successful parse lies in the source and is an
/// identifier.
pub proof fn lemma_parse_spanned(s: Seq<u8>, named: bool)
    requires
        s.len() <= usize::MAX,
    ensures
        spec_parse(s, named) matches Ok(v) ==> forall|k: int| 0 <= k < v.len() ==> line_spanned(s, #[trigger] v[k]),
{
    lemma_parse_from_spanned(s, 0, named);
}

} // verus!
