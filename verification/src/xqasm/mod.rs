//! Assembler for the numbered-label dialect of XQVM assembly.
//!
//! Label definitions are written `.N:` and referenced as `.N`, where `N` is
//! a 16-bit label number. See [`crate::assembly::syntax`] for the lexical
//! rules shared with the named dialect.

pub mod assembler;
pub mod ast;
pub mod error;
pub mod parser;

use vstd::prelude::*;
use vstd::string::StringSliceAdditionalSpecFns;

use self::assembler::{assemble, spec_assemble};
use self::error::Error;
use self::parser::{line_of, parse, spec_parse};
use crate::assembly::letter_case::{lemma_parse_mnemonic_case, mnemonic_case_variant};
use crate::assembly::syntax::{self, ident_chars, lemma_parse_spanned, RawLineV};
use crate::xqvm::program::Program;

verus! {

/// Parse and assemble `source` into a [`Program`] in one step.
pub fn assemble_source(source: &str) -> (r: Result<Program, Error>)
    ensures
        match spec_parse(source.spec_bytes()) {
            Err(e) => r == Err::<Program, Error>(Error::Parse(e)),
            Ok(lines) => match spec_assemble(lines) {
                Ok(code) => r matches Ok(p) && p.spec_code() == code,
                Err(e) => r matches Err(Error::Assemble(x)) && x@ == e,
            },
        },
{
    match parse(source, "<input>") {
        Err(e) => Err(Error::Parse(e)),
        Ok(lines) => match assemble(lines.as_slice(), source, "<input>") {
            Ok(p) => Ok(p),
            Err(e) => Err(Error::Assemble(e)),
        },
    }
}


/// The letter case of mnemonics does not matter: a source text and the
/// same text with the case of letters in its mnemonics changed parse to the
/// same lines, so they assemble to the same code or fail with the same
/// error.
pub proof fn lemma_mnemonic_case_irrelevant(s: Seq<u8>, t: Seq<u8>)
    requires
        s.len() <= usize::MAX,
        mnemonic_case_variant(s, t),
    ensures
        spec_parse(s) == spec_parse(t),
        match (spec_parse(s), spec_parse(t)) {
            (Ok(a), Ok(b)) => spec_assemble(a) == spec_assemble(b),
            (Err(e), Err(f)) => e == f,
            _ => false,
        },
{
    lemma_parse_mnemonic_case(s, t, false);
    lemma_parse_spanned(s, false);
    if let Ok(v) = syntax::spec_parse(s, false) {
        assert forall|k: int| 0 <= k < v.len() implies line_of(s, #[trigger] v[k]) == line_of(t, v[k]) by {
            if let RawLineV::Instr { start, end, .. } = v[k] {
                let x = s.subrange(start as int, end as int);
                let y = t.subrange(start as int, end as int);
                assert forall|i: int| 0 <= i < x.len() implies ident_chars(x, true)[i] == ident_chars(y, true)[i] by {
                    assert(x[i] == s[start + i]);
                    assert(y[i] == t[start + i]);
                }
                assert(ident_chars(x, true) =~= ident_chars(y, true));
            }
        }
        assert(v.map_values(|l: RawLineV| line_of(s, l)) =~= v.map_values(|l: RawLineV| line_of(t, l)));
    }
}

} // verus!
