//! Parser for the named-label dialect.
//!
//! Converts raw text into a flat list of [`AsmLine`] values. Blank lines and
//! comment-only lines produce no entries. A line that holds both a label
//! definition and an instruction produces two entries: first the
//! [`AsmLine::LabelDef`], then the [`AsmLine::Instruction`]. Mnemonics are
//! upper-cased; label names keep their case.

use vstd::prelude::*;
use vstd::string::StringSliceAdditionalSpecFns;

use super::ast::{AsmLine, InstrView, LineView, Operand, OperandView, ParsedInstr, lines_view};
use super::syntax::{
    self, LabelTok, ParseError, RawLine, RawLineV, RawOperand, ident_chars, is_ident_char, label_spanned,
    lemma_parse_spanned, line_spanned, operand_spanned, push_ident, raw_lines_view,
};

verus! {

/// The name a label token of source `s` spells. The named dialect only
/// yields names; a number would stand for the empty name.
pub open spec fn label_name(s: Seq<u8>, l: LabelTok) -> Seq<char> {
    match l {
        LabelTok::Name { start, end } => ident_chars(s.subrange(start as int, end as int), false),
        LabelTok::Number(_) => Seq::empty(),
    }
}

/// The operand a classified operand token of source `s` becomes.
pub open spec fn operand_of(s: Seq<u8>, o: RawOperand) -> OperandView {
    match o {
        RawOperand::Register(r) => OperandView::Register(r),
        RawOperand::Integer(v) => OperandView::Integer(v),
        RawOperand::Label(l) => OperandView::LabelRef(label_name(s, l)),
    }
}

/// The line a raw line item of source `s` becomes.
pub open spec fn line_of(s: Seq<u8>, l: RawLineV) -> LineView {
    match l {
        RawLineV::LabelDef { label, offset } => LineView::LabelDef { name: label_name(s, label), offset },
        RawLineV::Instr { start, end, operands } => LineView::Instruction(
            InstrView {
                mnemonic: ident_chars(s.subrange(start as int, end as int), true),
                operands: operands.map_values(|o: RawOperand| operand_of(s, o)),
                offset: start,
            },
        ),
    }
}

/// What [`parse`] gives for the source bytes `s`.
pub open spec fn spec_parse(s: Seq<u8>) -> Result<Seq<LineView>, ParseError> {
    match syntax::spec_parse(s, true) {
        Ok(v) => Ok(v.map_values(|l: RawLineV| line_of(s, l))),
        Err(e) => Err(e),
    }
}

/// The name a label token spells, as a string.
fn name_string(s: &[u8], l: LabelTok) -> (r: String)
    requires
        label_spanned(s@, l),
    ensures
        r@ == label_name(s@, l),
{
    let mut out = String::new();
    match l {
        LabelTok::Name { start, end } => {
            proof {
                assert forall|j: int| start <= j < end implies is_ident_char(#[trigger] s@[j]) by {
                    assert(is_ident_char(s@.subrange(start as int, end as int)[j - start]));
                }
            }
            push_ident(&mut out, s, start, end, false);
        },
        LabelTok::Number(_) => {},
    }
    out
}

/// Convert one operand token.
fn convert_operand(s: &[u8], o: RawOperand) -> (r: Operand)
    requires
        operand_spanned(s@, o),
    ensures
        r@ == operand_of(s@, o),
{
    match o {
        RawOperand::Register(r) => Operand::Register(r),
        RawOperand::Integer(v) => Operand::Integer(v),
        RawOperand::Label(l) => Operand::LabelRef(name_string(s, l)),
    }
}

/// Convert one raw line item of `s`.
fn convert_line(s: &[u8], l: &RawLine) -> (r: AsmLine)
    requires
        line_spanned(s@, l@),
    ensures
        r@ == line_of(s@, l@),
{
    match l {
        RawLine::LabelDef { label, offset } => AsmLine::LabelDef { name: name_string(s, *label), offset: *offset },
        RawLine::Instr { start, end, operands } => {
            let mut mnemonic = String::new();
            proof {
                assert forall|j: int| *start <= j < *end implies is_ident_char(#[trigger] s@[j]) by {
                    assert(is_ident_char(s@.subrange(*start as int, *end as int)[j - *start]));
                }
            }
            push_ident(&mut mnemonic, s, *start, *end, true);
            let mut ops: Vec<Operand> = Vec::new();
            let mut k: usize = 0;
            while k < operands.len()
                invariant
                    k <= operands@.len(),
                    forall|q: int| 0 <= q < operands@.len() ==> operand_spanned(s@, #[trigger] operands@[q]),
                    Seq::new(ops@.len(), |q: int| ops@[q]@) =~= operands@.take(k as int).map_values(
                        |o: RawOperand| operand_of(s@, o),
                    ),
                decreases operands@.len() - k,
            {
                assert(operand_spanned(s@, operands@[k as int]));
                let op = convert_operand(s, operands[k]);
                let ghost before = ops@;
                ops.push(op);
                proof {
                    assert(Seq::new(ops@.len(), |q: int| ops@[q]@) =~= Seq::new(before.len(), |q: int| before[q]@).push(
                        op@,
                    ));
                    assert(operands@.take(k + 1).map_values(|o: RawOperand| operand_of(s@, o)) =~= operands@.take(
                        k as int,
                    ).map_values(|o: RawOperand| operand_of(s@, o)).push(operand_of(s@, operands@[k as int])));
                }
                k += 1;
            }
            proof {
                assert(operands@.take(k as int) =~= operands@);
            }
            AsmLine::Instruction(ParsedInstr { mnemonic, operands: ops, offset: *start })
        },
    }
}

/// Parse `source` into a flat list of [`AsmLine`] values.
///
/// `name` is the display name of the source (e.g. `"prog.xqasm"` or
/// `"<input>"`) for diagnostics; errors carry byte spans into `source`.
pub fn parse(source: &str, name: &str) -> (r: Result<Vec<AsmLine>, ParseError>)
    ensures
        match r {
            Ok(v) => spec_parse(source.spec_bytes()) == Ok::<Seq<LineView>, ParseError>(lines_view(v@)),
            Err(e) => spec_parse(source.spec_bytes()) == Err::<Seq<LineView>, ParseError>(e),
        },
{
    let s = source.as_bytes();
    let n = s.len();
    assert(s@.len() <= usize::MAX);
    match syntax::parse_raw(s, true) {
        Err(e) => Err(e),
        Ok(raw) => {
            proof {
                lemma_parse_spanned(s@, true);
            }
            let mut out: Vec<AsmLine> = Vec::new();
            let mut k: usize = 0;
            while k < raw.len()
                invariant
                    k <= raw@.len(),
                    syntax::spec_parse(s@, true) == Ok::<Seq<RawLineV>, ParseError>(raw_lines_view(raw@)),
                    forall|j: int| 0 <= j < raw@.len() ==> line_spanned(s@, #[trigger] raw_lines_view(raw@)[j]),
                    lines_view(out@) =~= raw_lines_view(raw@).take(k as int).map_values(|l: RawLineV| line_of(s@, l)),
                decreases raw@.len() - k,
            {
                assert(line_spanned(s@, raw_lines_view(raw@)[k as int]));
                let line = convert_line(s, &raw[k]);
                let ghost before = out@;
                out.push(line);
                proof {
                    let rv = raw_lines_view(raw@);
                    assert(rv[k as int] == raw@[k as int]@);
                    assert(lines_view(out@) =~= lines_view(before).push(line@));
                    assert(rv.take(k + 1).map_values(|l: RawLineV| line_of(s@, l)) =~= rv.take(k as int).map_values(
                        |l: RawLineV| line_of(s@, l),
                    ).push(line_of(s@, rv[k as int])));
                }
                k += 1;
            }
            proof {
                assert(raw_lines_view(raw@).take(k as int) =~= raw_lines_view(raw@));
            }
            Ok(out)
        },
    }
}

/// The parser of the named-label dialect.
pub struct AsmParser;

impl AsmParser {
    /// Parse `source` into a flat list of [`AsmLine`] values, as [`parse`]
    /// does.
    pub fn parse(source: &str) -> (r: Result<Vec<AsmLine>, ParseError>)
        ensures
            match r {
                Ok(v) => spec_parse(source.spec_bytes()) == Ok::<Seq<LineView>, ParseError>(lines_view(v@)),
                Err(e) => spec_parse(source.spec_bytes()) == Err::<Seq<LineView>, ParseError>(e),
            },
    {
        parse(source, "<input>")
    }
}

} // verus!
