//! XQVM assembly: the lexical layer shared by both dialects, and the
//! assembler for the named-label dialect.
//!
//! In the named dialect, label definitions are written `name:` and
//! referenced by name, where a name is an identifier.

pub mod assembler;
pub mod ast;
pub mod error;
pub mod hex_literals;
pub mod letter_case;
pub mod parser;
pub mod syntax;

use vstd::prelude::*;
use vstd::string::StringSliceAdditionalSpecFns;

use self::assembler::{assemble, spec_assemble};
use self::error::Error;
use self::letter_case::{lemma_parse_mnemonic_case, line_agrees, mnemonic_case_variant, operand_agrees};
use self::parser::{line_of, operand_of, parse, spec_parse};
use self::syntax::{ident_chars, lemma_parse_spanned, LabelTok, RawLineV, RawOperand};
use crate::xqvm::program::Program;

verus! {

/// Parse and assemble named-dialect `source` into a [`Program`] in one
/// step.
pub fn assemble_source(source: &str) -> (r: Result<Program, Error>)
    ensures
        match spec_parse(source.spec_bytes()) {
            Err(e) => r == Err::<Program, Error>(Error::Parse(e)),
            Ok(lines) => match spec_assemble(lines) {
                Ok(code) => r matches Ok(p) && p.spec_code() == code,
                Err(e) => r matches Err(Error::Assemble(x)) && x@ == e,
            },
        },
{
    match parse(source, "<input>") {
        Err(e) => Err(Error::Parse(e)),
        Ok(lines) => match assemble(lines.as_slice(), source, "<input>") {
            Ok(p) => Ok(p),
            Err(e) => Err(Error::Assemble(e)),
        },
    }
}


/// The letter case of mnemonics does not matter: a source text and the
/// same text with the case of letters in its mnemonics changed parse to the
/// same lines (label names keep their spelling), so they assemble to the
/// same code or fail with the same error.
pub proof fn lemma_mnemonic_case_irrelevant(s: Seq<u8>, t: Seq<u8>)
    requires
        s.len() <= usize::MAX,
        mnemonic_case_variant(s, t),
    ensures
        spec_parse(s) == spec_parse(t),
        match (spec_parse(s), spec_parse(t)) {
            (Ok(a), Ok(b)) => spec_assemble(a) == spec_assemble(b),
            (Err(e), Err(f)) => e == f,
            _ => false,
        },
{
    lemma_parse_mnemonic_case(s, t, true);
    lemma_parse_spanned(s, true);
    if let Ok(v) = syntax::spec_parse(s, true) {
        assert forall|k: int| 0 <= k < v.len() implies line_of(s, #[trigger] v[k]) == line_of(t, v[k]) by {
            assert(line_agrees(s, t, v[k]));
            match v[k] {
                RawLineV::LabelDef { label, .. } => {
                    if let LabelTok::Name { start, end } = label {
                        assert(s.subrange(start as int, end as int) =~= t.subrange(start as int, end as int));
                    }
                },
                RawLineV::Instr { start, end, operands } => {
                    let x = s.subrange(start as int, end as int);
                    let y = t.subrange(start as int, end as int);
                    assert forall|i: int| 0 <= i < x.len() implies ident_chars(x, true)[i] == ident_chars(y, true)[i] by {
                        assert(x[i] == s[start + i]);
                        assert(y[i] == t[start + i]);
                    }
                    assert(ident_chars(x, true) =~= ident_chars(y, true));
                    assert forall|j: int| 0 <= j < operands.len() implies operand_of(s, #[trigger] operands[j])
                        == operand_of(t, operands[j]) by {
                        assert(operand_agrees(s, t, operands[j]));
                        if let RawOperand::Label(LabelTok::Name { start: a, end: b }) = operands[j] {
                            assert(s.subrange(a as int, b as int) =~= t.subrange(a as int, b as int));
                        }
                    }
                    assert(operands.map_values(|o: RawOperand| operand_of(s, o)) =~= operands.map_values(
                        |o: RawOperand| operand_of(t, o),
                    ));
                },
            }
        }
        assert(v.map_values(|l: RawLineV| line_of(s, l)) =~= v.map_values(|l: RawLineV| line_of(t, l)));
    }
}

} // verus!
