//! Letter case in mnemonics: mnemonics are read case-insensitively, so
//! changing the case of their letters changes nothing that parsing gives.

use vstd::prelude::*;

use super::syntax::{
    find_from, is_ident, is_label_tok, lemma_find_from, lemma_skip_seps, lemma_token_end, skip_seps, spec_instr,
    spec_label, spec_line, spec_operand, spec_operands, spec_parse, spec_parse_from, token_end, LabelTok, RawLineV,
    RawOperand,
};

verus! {

/// `A`..`Z`, `a`..`z`
pub open spec fn is_letter(b: u8) -> bool {
    (0x41 <= b <= 0x5a) || (0x61 <= b <= 0x7a)
}

/// The upper-case form of a letter; any other byte is left as it is.
pub open spec fn upper_letter(b: u8) -> u8 {
    if 0x61 <= b <= 0x7a {
        (b - 0x20) as u8
    } else {
        b
    }
}

/// Whether `t` is `s` with the case of some letters changed.
pub open spec fn same_but_case(s: Seq<u8>, t: Seq<u8>) -> bool {
    &&& s.len() == t.len()
    &&& forall|i: int|
        #![trigger s[i]]
        #![trigger t[i]]
        0 <= i < s.len() ==> s[i] == t[i] || (is_letter(s[i]) && is_letter(t[i]) && upper_letter(s[i])
            == upper_letter(t[i]))
}

/// The start of the line of `s` that holds byte `i`.
pub open spec fn line_lo(s: Seq<u8>, i: int) -> int
    decreases i,
{
    if i <= 0 {
        0
    } else if s[i - 1] == 0x0a {
        i
    } else {
        line_lo(s, i - 1)
    }
}

/// The span of the mnemonic token of the line content `lo..hi` (after an
/// optional label definition); empty when the line holds no instruction.
pub open spec fn line_mnemonic(s: Seq<u8>, lo: int, hi: int) -> (int, int) {
    let a = skip_seps(s, lo, hi);
    if a >= hi {
        (hi, hi)
    } else {
        let b = token_end(s, a, hi);
        if s[b - 1] == 0x3a {
            let c = skip_seps(s, b, hi);
            (c, token_end(s, c, hi))
        } else {
            (a, b)
        }
    }
}

/// The span of the mnemonic token of the line starting at `lo`: its
/// content ends at the first `;` or the end of the line.
pub open spec fn mnemonic_span(s: Seq<u8>, lo: int) -> (int, int) {
    line_mnemonic(s, lo, find_from(s, lo, find_from(s, lo, s.len() as int, 0x0a), 0x3b))
}

/// Whether byte `i` of `s` belongs to the mnemonic of its line.
pub open spec fn in_mnemonic(s: Seq<u8>, i: int) -> bool {
    let sp = mnemonic_span(s, line_lo(s, i));
    sp.0 <= i < sp.1
}

/// Whether `t` is `s` with the case of some letters of its mnemonics
/// changed, and nothing else.
pub open spec fn mnemonic_case_variant(s: Seq<u8>, t: Seq<u8>) -> bool {
    &&& same_but_case(s, t)
    &&& forall|i: int| 0 <= i < s.len() && s[i] != t[i] ==> #[trigger] in_mnemonic(s, i)
}

/// Whether `s` and `t` hold the same bytes in `a..b`.
pub open spec fn agree_on(s: Seq<u8>, t: Seq<u8>, a: int, b: int) -> bool {
    forall|j: int| a <= j < b ==> s[j] == t[j]
}

/// Whether `s` and `t` spell a label token's name alike.
pub open spec fn label_agrees(s: Seq<u8>, t: Seq<u8>, l: LabelTok) -> bool {
    match l {
        LabelTok::Name { start, end } => agree_on(s, t, start as int, end as int),
        LabelTok::Number(_) => true,
    }
}

/// Whether `s` and `t` spell an operand's label name, if any, alike.
pub open spec fn operand_agrees(s: Seq<u8>, t: Seq<u8>, o: RawOperand) -> bool {
    match o {
        RawOperand::Label(l) => label_agrees(s, t, l),
        _ => true,
    }
}

/// Whether `s` and `t` spell every label name of a line item alike.
pub open spec fn line_agrees(s: Seq<u8>, t: Seq<u8>, l: RawLineV) -> bool {
    match l {
        RawLineV::LabelDef { label, .. } => label_agrees(s, t, label),
        RawLineV::Instr { operands, .. } => forall|k: int|
            0 <= k < operands.len() ==> operand_agrees(s, t, #[trigger] operands[k]),
    }
}

proof fn lemma_find_same(s: Seq<u8>, t: Seq<u8>, from: int, to: int, b: u8)
    requires
        same_but_case(s, t),
        0 <= from,
        to <= s.len(),
        !is_letter(b),
    ensures
        find_from(s, from, to, b) == find_from(t, from, to, b),
    decreases to - from,
{
    if from < to {
        assert(s[from] == b <==> t[from] == b);
        lemma_find_same(s, t, from + 1, to, b);
    }
}

proof fn lemma_skip_same(s: Seq<u8>, t: Seq<u8>, from: int, to: int)
    requires
        same_but_case(s, t),
        0 <= from,
        to <= s.len(),
    ensures
        skip_seps(s, from, to) == skip_seps(t, from, to),
    decreases to - from,
{
    if from < to {
        assert(s[from] == t[from] || (is_letter(s[from]) && is_letter(t[from])));
        lemma_skip_same(s, t, from + 1, to);
    }
}

proof fn lemma_token_end_same(s: Seq<u8>, t: Seq<u8>, from: int, to: int)
    requires
        same_but_case(s, t),
        0 <= from,
        to <= s.len(),
    ensures
        token_end(s, from, to) == token_end(t, from, to),
    decreases to - from,
{
    if from < to {
        assert(s[from] == t[from] || (is_letter(s[from]) && is_letter(t[from])));
        lemma_token_end_same(s, t, from + 1, to);
    }
}

proof fn lemma_ident_same(s: Seq<u8>, t: Seq<u8>, a: int, b: int)
    requires
        same_but_case(s, t),
        0 <= a <= b <= s.len(),
    ensures
        is_ident(s.subrange(a, b)) == is_ident(t.subrange(a, b)),
{
    let x = s.subrange(a, b);
    let y = t.subrange(a, b);
    assert forall|k: int| 0 <= k < x.len() implies (x[k] == y[k] || (is_letter(x[k]) && is_letter(y[k]))) by {
        assert(x[k] == s[a + k]);
        assert(y[k] == t[a + k]);
    }
}

/// Label tokens hold no letters in the numbered dialect, so a change of
/// case never makes or unmakes one; in the named dialect they are
/// identifiers.
proof fn lemma_label_same(s: Seq<u8>, t: Seq<u8>, a: int, b: int, named: bool)
    requires
        same_but_case(s, t),
        0 <= a <= b <= s.len(),
    ensures
        is_label_tok(s.subrange(a, b), named) == is_label_tok(t.subrange(a, b), named),
        !named && is_label_tok(s.subrange(a, b), named) ==> s.subrange(a, b) == t.subrange(a, b),
{
    let x = s.subrange(a, b);
    let y = t.subrange(a, b);
    if named {
        lemma_ident_same(s, t, a, b);
    } else {
        assert forall|k: int| 0 <= k < x.len() implies (x[k] == y[k] || (is_letter(x[k]) && is_letter(y[k]))) by {
            assert(x[k] == s[a + k]);
            assert(y[k] == t[a + k]);
        }
        if is_label_tok(x, false) {
            assert forall|k: int| 0 <= k < x.len() implies x[k] == y[k] by {
                if k > 0 {
                    assert(x.skip(1)[k - 1] == x[k]);
                }
            }
            assert(x =~= y);
        }
        if is_label_tok(y, false) {
            assert forall|k: int| 0 <= k < y.len() implies x[k] == y[k] by {
                if k > 0 {
                    assert(y.skip(1)[k - 1] == y[k]);
                }
            }
            assert(x =~= y);
        }
    }
}

proof fn lemma_operands_same(s: Seq<u8>, t: Seq<u8>, pos: int, hi: int, named: bool)
    requires
        same_but_case(s, t),
        s.len() <= usize::MAX,
        0 <= pos <= hi <= s.len(),
        forall|j: int| pos <= j < hi ==> s[j] == t[j],
    ensures
        spec_operands(s, pos, hi, named) == spec_operands(t, pos, hi, named),
        spec_operands(s, pos, hi, named) matches Ok(v) ==> forall|k: int|
            0 <= k < v.len() ==> operand_agrees(s, t, #[trigger] v[k]),
    decreases hi - pos,
{
    lemma_skip_same(s, t, pos, hi);
    lemma_skip_seps(s, pos, hi);
    let a = skip_seps(s, pos, hi);
    if a < hi && pos < hi {
        lemma_token_end_same(s, t, a, hi);
        lemma_token_end(s, a, hi);
        let b = token_end(s, a, hi);
        if pos < b <= hi {
            assert(s.subrange(a, b) =~= t.subrange(a, b));
            assert(s.subrange(a + 1, b) =~= t.subrange(a + 1, b));
            assert(spec_label(s, a, b, named) == spec_label(t, a, b, named));
            assert(spec_operand(s, a, b, named) == spec_operand(t, a, b, named));
            assert(spec_operand(s, a, b, named) matches Ok(op) ==> operand_agrees(s, t, op));
            lemma_operands_same(s, t, b, hi, named);
            if let Ok(v) = spec_operands(s, pos, hi, named) {
                if let Ok(op) = spec_operand(s, a, b, named) {
                    if let Ok(rest) = spec_operands(s, b, hi, named) {
                        assert(v == seq![op] + rest);
                        assert forall|k: int| 0 <= k < v.len() implies operand_agrees(s, t, #[trigger] v[k]) by {
                            if k > 0 {
                                assert(v[k] == rest[k - 1]);
                            }
                        }
                    }
                }
            }
        }
    }
}

proof fn lemma_instr_same(s: Seq<u8>, t: Seq<u8>, a: int, b: int, hi: int, named: bool)
    requires
        same_but_case(s, t),
        s.len() <= usize::MAX,
        0 <= a <= b <= hi <= s.len(),
        forall|j: int| b <= j < hi ==> s[j] == t[j],
    ensures
        spec_instr(s, a, b, hi, named) == spec_instr(t, a, b, hi, named),
        spec_instr(s, a, b, hi, named) matches Ok(l) ==> line_agrees(s, t, l),
{
    lemma_ident_same(s, t, a, b);
    lemma_operands_same(s, t, b, hi, named);
}

proof fn lemma_line_same(s: Seq<u8>, t: Seq<u8>, lo: int, hi: int, named: bool)
    requires
        same_but_case(s, t),
        s.len() <= usize::MAX,
        0 <= lo <= hi <= s.len(),
        forall|j: int|
            lo <= j < hi && s[j] != t[j] ==> line_mnemonic(s, lo, hi).0 <= j < line_mnemonic(s, lo, hi).1,
    ensures
        spec_line(s, lo, hi, named) == spec_line(t, lo, hi, named),
        spec_line(s, lo, hi, named) matches Ok(v) ==> forall|k: int|
            0 <= k < v.len() ==> line_agrees(s, t, #[trigger] v[k]),
{
    lemma_skip_same(s, t, lo, hi);
    lemma_skip_seps(s, lo, hi);
    let a = skip_seps(s, lo, hi);
    if a < hi {
        lemma_token_end_same(s, t, a, hi);
        lemma_token_end(s, a, hi);
        let b = token_end(s, a, hi);
        assert(s[b - 1] == t[b - 1] || (is_letter(s[b - 1]) && is_letter(t[b - 1])));
        if s[b - 1] == 0x3a {
            lemma_label_same(s, t, a, b - 1, named);
            if !named && is_label_tok(s.subrange(a, b - 1), named) {
                assert(s.subrange(a + 1, b - 1) =~= s.subrange(a, b - 1).skip(1));
                assert(t.subrange(a + 1, b - 1) =~= t.subrange(a, b - 1).skip(1));
            }
            assert(is_label_tok(s.subrange(a, b - 1), named) ==> spec_label(s, a, b - 1, named) == spec_label(
                t,
                a,
                b - 1,
                named,
            ));
            lemma_skip_same(s, t, b, hi);
            lemma_skip_seps(s, b, hi);
            let c = skip_seps(s, b, hi);
            lemma_token_end_same(s, t, c, hi);
            lemma_token_end(s, c, hi);
            lemma_instr_same(s, t, c, token_end(s, c, hi), hi, named);
            if let Ok(label) = spec_label(s, a, b - 1, named) {
                assert(label_agrees(s, t, label));
            }
        } else {
            lemma_instr_same(s, t, a, b, hi, named);
        }
    }
}

proof fn lemma_line_lo(s: Seq<u8>, lo: int, j: int)
    requires
        0 <= lo <= j <= s.len(),
        lo == 0 || s[lo - 1] == 0x0a,
        forall|k: int| lo <= k < j ==> s[k] != 0x0a,
    ensures
        line_lo(s, j) == lo,
    decreases j - lo,
{
    if j > lo {
        lemma_line_lo(s, lo, j - 1);
    }
}

proof fn lemma_parse_from_same(s: Seq<u8>, t: Seq<u8>, pos: int, named: bool)
    requires
        mnemonic_case_variant(s, t),
        s.len() <= usize::MAX,
        0 <= pos <= s.len(),
        pos == 0 || s[pos - 1] == 0x0a,
    ensures
        spec_parse_from(s, pos, named) == spec_parse_from(t, pos, named),
        spec_parse_from(s, pos, named) matches Ok(v) ==> forall|k: int|
            0 <= k < v.len() ==> line_agrees(s, t, #[trigger] v[k]),
    decreases s.len() + 1 - pos,
{
    if pos < s.len() {
        let n = s.len() as int;
        lemma_find_same(s, t, pos, n, 0x0a);
        lemma_find_from(s, pos, n, 0x0a);
        let eol = find_from(s, pos, n, 0x0a);
        lemma_find_same(s, t, pos, eol, 0x3b);
        lemma_find_from(s, pos, eol, 0x3b);
        let cend = find_from(s, pos, eol, 0x3b);
        assert forall|j: int| pos <= j < cend && s[j] != t[j] implies line_mnemonic(s, pos, cend).0 <= j
            < line_mnemonic(s, pos, cend).1 by {
            assert(in_mnemonic(s, j));
            lemma_line_lo(s, pos, j);
        }
        lemma_line_same(s, t, pos, cend, named);
        if eol < n {
            lemma_parse_from_same(s, t, eol + 1, named);
        }
        if let Ok(v) = spec_parse_from(s, pos, named) {
            if let Ok(items) = spec_line(s, pos, cend, named) {
                if let Ok(rest) = spec_parse_from(s, eol + 1, named) {
                    assert(v == items + rest);
                    assert forall|k: int| 0 <= k < v.len() implies line_agrees(s, t, #[trigger] v[k]) by {
                        if k >= items.len() {
                            assert(v[k] == rest[k - items.len()]);
                        } else {
                            assert(v[k] == items[k]);
                        }
                    }
                }
            }
        }
    }
}

/// Changing the case of letters in mnemonics, and nothing else, changes
/// nothing that the lexical layer gives for a source text, and leaves every
/// label name the same.
pub proof fn lemma_parse_mnemonic_case(s: Seq<u8>, t: Seq<u8>, named: bool)
    requires
        s.len() <= usize::MAX,
        mnemonic_case_variant(s, t),
    ensures
        spec_parse(s, named) == spec_parse(t, named),
        spec_parse(s, named) matches Ok(v) ==> forall|k: int| 0 <= k < v.len() ==> line_agrees(s, t, #[trigger] v[k]),
{
    lemma_parse_from_same(s, t, 0, named);
}

} // verus!
