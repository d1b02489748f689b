//! Parser for the numbered-label dialect.
//!
//! Converts raw text into a flat list of [`AsmLine`] values. Blank lines and
//! comment-only lines produce no entries. A line that holds both a label
//! definition and an instruction produces two entries: first the
//! [`AsmLine::LabelDef`], then the [`AsmLine::Instruction`]. Mnemonics are
//! upper-cased.

use vstd::prelude::*;
use vstd::string::StringSliceAdditionalSpecFns;

use super::ast::{AsmLine, InstrView, LineView, Operand, ParsedInstr, lines_view};
use crate::assembly::syntax::{
    self, LabelTok, ParseError, RawLine, RawLineV, RawOperand, ident_chars, lemma_parse_spanned, line_spanned,
    push_ident, raw_lines_view,
};

verus! {

/// The number a label token carries. The numbered dialect only yields
/// numbers; a name would stand for label 0.
pub open spec fn label_number(l: LabelTok) -> u16 {
    match l {
        LabelTok::Number(n) => n,
        LabelTok::Name { .. } => 0,
    }
}

/// The operand a classified operand token becomes.
pub open spec fn operand_of(o: RawOperand) -> Operand {
    match o {
        RawOperand::Register(r) => Operand::Register(r),
        RawOperand::Integer(v) => Operand::Integer(v),
        RawOperand::Label(l) => Operand::LabelRef(label_number(l)),
    }
}

/// The line a raw line item of source `s` becomes.
pub open spec fn line_of(s: Seq<u8>, l: RawLineV) -> LineView {
    match l {
        RawLineV::LabelDef { label, offset } => LineView::LabelDef { label: label_number(label), offset },
        RawLineV::Instr { start, end, operands } => LineView::Instruction(
            InstrView {
                mnemonic: ident_chars(s.subrange(start as int, end as int), true),
                operands: operands.map_values(|o: RawOperand| operand_of(o)),
                offset: start,
            },
        ),
    }
}

/// What [`parse`] gives for the source bytes `s`.
pub open spec fn spec_parse(s: Seq<u8>) -> Result<Seq<LineView>, ParseError> {
    match syntax::spec_parse(s, false) {
        Ok(v) => Ok(v.map_values(|l: RawLineV| line_of(s, l))),
        Err(e) => Err(e),
    }
}

/// Convert one operand token.
fn convert_operand(o: RawOperand) -> (r: Operand)
    ensures
        r == operand_of(o),
{
    match o {
        RawOperand::Register(r) => Operand::Register(r),
        RawOperand::Integer(v) => Operand::Integer(v),
        RawOperand::Label(LabelTok::Number(n)) => Operand::LabelRef(n),
        RawOperand::Label(LabelTok::Name { .. }) => Operand::LabelRef(0),
    }
}

/// Convert one raw line item of `s`.
fn convert_line(s: &[u8], l: &RawLine) -> (r: AsmLine)
    requires
        line_spanned(s@, l@),
    ensures
        r@ == line_of(s@, l@),
{
    match l {
        RawLine::LabelDef { label, offset } => {
            let n = match label {
                LabelTok::Number(n) => *n,
                LabelTok::Name { .. } => 0,
            };
            AsmLine::LabelDef { label: n, offset: *offset }
        },
        RawLine::Instr { start, end, operands } => {
            let mut mnemonic = String::new();
            proof {
                assert forall|j: int| *start <= j < *end implies syntax::is_ident_char(#[trigger] s@[j]) by {
                    assert(syntax::is_ident_char(s@.subrange(*start as int, *end as int)[j - *start]));
                }
            }
            push_ident(&mut mnemonic, s, *start, *end, true);
            let mut ops: Vec<Operand> = Vec::new();
            let mut k: usize = 0;
            while k < operands.len()
                invariant
                    k <= operands@.len(),
                    ops@ =~= operands@.take(k as int).map_values(|o: RawOperand| operand_of(o)),
                decreases operands@.len() - k,
            {
                ops.push(convert_operand(operands[k]));
                k += 1;
            }
            proof {
                assert(operands@.take(k as int) =~= operands@);
            }
            AsmLine::Instruction(ParsedInstr { mnemonic, operands: ops, offset: *start })
        },
    }
}

/// Parse `source` into a flat list of [`AsmLine`] values.
///
/// `name` is the display name of the source (e.g. `"prog.xqasm"` or
/// `"<input>"`) for diagnostics; errors carry byte spans into `source`.
pub fn parse(source: &str, name: &str) -> (r: Result<Vec<AsmLine>, ParseError>)
    ensures
        match r {
            Ok(v) => spec_parse(source.spec_bytes()) == Ok::<Seq<LineView>, ParseError>(lines_view(v@)),
            Err(e) => spec_parse(source.spec_bytes()) == Err::<Seq<LineView>, ParseError>(e),
        },
{
    let s = source.as_bytes();
    let n = s.len();
    assert(s@.len() <= usize::MAX);
    match syntax::parse_raw(s, false) {
        Err(e) => Err(e),
        Ok(raw) => {
            proof {
                lemma_parse_spanned(s@, false);
            }
            let mut out: Vec<AsmLine> = Vec::new();
            let mut k: usize = 0;
            while k < raw.len()
                invariant
                    k <= raw@.len(),
                    syntax::spec_parse(s@, false) == Ok::<Seq<RawLineV>, ParseError>(raw_lines_view(raw@)),
                    forall|j: int| 0 <= j < raw@.len() ==> line_spanned(s@, #[trigger] raw_lines_view(raw@)[j]),
                    lines_view(out@) =~= raw_lines_view(raw@).take(k as int).map_values(|l: RawLineV| line_of(s@, l)),
                decreases raw@.len() - k,
            {
                assert(line_spanned(s@, raw_lines_view(raw@)[k as int]));
                let line = convert_line(s, &raw[k]);
                let ghost before = out@;
                out.push(line);
                proof {
                    let rv = raw_lines_view(raw@);
                    assert(rv[k as int] == raw@[k as int]@);
                    assert(lines_view(out@) =~= lines_view(before).push(line@));
                    assert(rv.take(k + 1).map_values(|l: RawLineV| line_of(s@, l)) =~= rv.take(k as int).map_values(
                        |l: RawLineV| line_of(s@, l),
                    ).push(line_of(s@, rv[k as int])));
                }
                k += 1;
            }
            proof {
                assert(raw_lines_view(raw@).take(k as int) =~= raw_lines_view(raw@));
            }
            Ok(out)
        },
    }
}

} // verus!
