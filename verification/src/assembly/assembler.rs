//! Assembler for the named-label dialect.
//!
//! Label names are numbered in order of first appearance (a definition or
//! a reference, in source order, the operands of a line from left to
//! right), and the numbered program is assembled by
//! [`crate::xqasm::assembler::assemble`]. Errors are restated in terms of
//! the names, and a jump's operand is described as this dialect has it (an
//! offset: an integer or a label reference). A program with more label names
//! than 16-bit ids can number is checked by name, in the same order: line
//! errors, undefined labels, unused labels, then too many defined labels.

use vstd::prelude::*;
use vstd::utf8::encode_utf8;

use super::ast::{AsmLine, InstrView, LineView, Operand, OperandView, lines_view};
use super::error::{AssembleError, AssembleErrorV};
use crate::xqasm::assembler as numbered;
use crate::xqasm::ast as num_ast;
use crate::xqasm::error as num_error;
use crate::xqvm::program::Program;

verus! {

/// Add `n` to the names seen so far unless it is there already.
pub open spec fn add_name(seen: Seq<Seq<char>>, n: Seq<char>) -> Seq<Seq<char>> {
    if seen.contains(n) {
        seen
    } else {
        seen.push(n)
    }
}

/// Add the label names among the first `m` operands.
pub open spec fn operand_names(seen: Seq<Seq<char>>, ops: Seq<OperandView>, m: nat) -> Seq<Seq<char>>
    decreases m,
{
    if m == 0 {
        seen
    } else {
        let s = operand_names(seen, ops, (m - 1) as nat);
        match ops[m - 1] {
            OperandView::LabelRef(n) => add_name(s, n),
            _ => s,
        }
    }
}

/// Add the label names of a line.
pub open spec fn line_names(seen: Seq<Seq<char>>, l: LineView) -> Seq<Seq<char>> {
    match l {
        LineView::LabelDef { name, .. } => add_name(seen, name),
        LineView::Instruction(i) => operand_names(seen, i.operands, i.operands.len()),
    }
}

/// The label names of the first `k` lines, in order of first appearance.
pub open spec fn names_seen(lines: Seq<LineView>, k: nat) -> Seq<Seq<char>>
    decreases k,
{
    if k == 0 {
        Seq::empty()
    } else {
        line_names(names_seen(lines, (k - 1) as nat), lines[k - 1])
    }
}

/// All label names of the program, in order of first appearance.
pub open spec fn name_order(lines: Seq<LineView>) -> Seq<Seq<char>> {
    names_seen(lines, lines.len())
}

/// The number label name `n` gets: its position in the order of first
/// appearance.
pub open spec fn name_number(lines: Seq<LineView>, n: Seq<char>) -> u16 {
    (choose|j: int| 0 <= j < name_order(lines).len() && name_order(lines)[j] == n) as u16
}

/// The numbered operand an operand becomes.
pub open spec fn renamed_operand(lines: Seq<LineView>, o: OperandView) -> num_ast::Operand {
    match o {
        OperandView::Register(r) => num_ast::Operand::Register(r),
        OperandView::Integer(v) => num_ast::Operand::Integer(v),
        OperandView::LabelRef(n) => num_ast::Operand::LabelRef(name_number(lines, n)),
    }
}

/// The numbered instruction an instruction becomes.
pub open spec fn renamed_instr(lines: Seq<LineView>, i: InstrView) -> num_ast::InstrView {
    num_ast::InstrView {
        mnemonic: i.mnemonic,
        operands: i.operands.map_values(|o: OperandView| renamed_operand(lines, o)),
        offset: i.offset,
    }
}

/// The numbered line a line becomes.
pub open spec fn renamed_line(lines: Seq<LineView>, l: LineView) -> num_ast::LineView {
    match l {
        LineView::LabelDef { name, offset } => num_ast::LineView::LabelDef { label: name_number(lines, name), offset },
        LineView::Instruction(i) => num_ast::LineView::Instruction(renamed_instr(lines, i)),
    }
}

/// The numbered program.
pub open spec fn renamed(lines: Seq<LineView>) -> Seq<num_ast::LineView> {
    lines.map_values(|l: LineView| renamed_line(lines, l))
}

/// The name of label number `l`, or the empty name past the last one.
pub open spec fn name_at(lines: Seq<LineView>, l: u16) -> Seq<char> {
    if l < name_order(lines).len() {
        name_order(lines)[l as int]
    } else {
        Seq::empty()
    }
}

/// Whether a mnemonic is `JUMP` or `JUMPI`.
pub open spec fn is_jump_mnemonic(m: Seq<char>) -> bool {
    encode_utf8(m) == numbered::word_jump() || encode_utf8(m) == numbered::word_jumpi()
}

/// A numbered-program error restated in terms of label names; the operand
/// of a jump is described as this dialect has it: an `offset`, which must
/// be an integer or a label reference.
pub open spec fn restated(lines: Seq<LineView>, e: num_error::AssembleErrorV) -> AssembleErrorV {
    match e {
        num_error::AssembleErrorV::UnknownMnemonic { mnemonic, offset, len } => AssembleErrorV::UnknownMnemonic {
            mnemonic,
            offset,
            len,
        },
        num_error::AssembleErrorV::WrongOperandCount { mnemonic, expected, got, offset, len } =>
            AssembleErrorV::WrongOperandCount { mnemonic, expected, got, offset, len },
        num_error::AssembleErrorV::WrongOperandKind { mnemonic, field, expected_kind, offset, len } =>
            if is_jump_mnemonic(mnemonic) {
            AssembleErrorV::WrongOperandKind {
                mnemonic,
                field: "offset"@,
                expected_kind: "integer or label reference"@,
                offset,
                len,
            }
        } else {
            AssembleErrorV::WrongOperandKind { mnemonic, field, expected_kind, offset, len }
        },
        num_error::AssembleErrorV::UndefinedLabel { label, offset, .. } => AssembleErrorV::UndefinedLabel {
            label: name_at(lines, label),
            offset,
            len: (encode_utf8(name_at(lines, label)).len() as usize) as nat,
        },
        num_error::AssembleErrorV::DuplicateLabel { label, offset, .. } => AssembleErrorV::DuplicateLabel {
            label: name_at(lines, label),
            offset,
            len: (encode_utf8(name_at(lines, label)).len() as usize) as nat,
        },
        num_error::AssembleErrorV::UnusedLabel { label, offset, .. } => AssembleErrorV::UnusedLabel {
            label: name_at(lines, label),
            offset,
            len: (encode_utf8(name_at(lines, label)).len() as usize) as nat,
        },
        num_error::AssembleErrorV::TooManyTargets { count } => AssembleErrorV::TooManyTargets { count },
    }
}

// ---------------------------------------------------------------------------
// Checks by name
// ---------------------------------------------------------------------------

/// The byte offset of a line's first token.
pub open spec fn named_offset(l: LineView) -> nat {
    match l {
        LineView::LabelDef { offset, .. } => offset,
        LineView::Instruction(i) => i.offset,
    }
}

/// The byte length of a label name.
pub open spec fn name_len(n: Seq<char>) -> nat {
    (encode_utf8(n).len() as usize) as nat
}

/// Whether a line defines the label `n`.
pub open spec fn defines_name(l: LineView, n: Seq<char>) -> bool {
    match l {
        LineView::LabelDef { name, .. } => name == n,
        _ => false,
    }
}

/// The first line in `j..k` that defines the label `n`.
pub open spec fn def_from(lines: Seq<LineView>, n: Seq<char>, j: nat, k: nat) -> Option<nat>
    decreases k - j,
{
    if j >= k {
        None
    } else if defines_name(lines[j as int], n) {
        Some(j)
    } else {
        def_from(lines, n, j + 1, k)
    }
}

/// The label a line jumps to, if it is a well-formed `JUMP`/`JUMPI`.
pub open spec fn jump_name(lines: Seq<LineView>, l: LineView) -> Option<Seq<char>> {
    match l {
        LineView::Instruction(i) => match numbered::spec_step(renamed_instr(lines, i)) {
            Ok(numbered::Step::Jump { .. }) => match i.operands[0] {
                OperandView::LabelRef(n) => Some(n),
                _ => None,
            },
            _ => None,
        },
        _ => None,
    }
}

/// The error line `k` raises on its own or against the lines before it: a
/// second definition of a label, or a malformed instruction.
pub open spec fn named_line_error(lines: Seq<LineView>, k: nat) -> Option<AssembleErrorV> {
    match lines[k as int] {
        LineView::LabelDef { name, .. } => match def_from(lines, name, 0, k) {
            Some(j) => Some(
                AssembleErrorV::DuplicateLabel { label: name, offset: named_offset(lines[j as int]), len: name_len(name) },
            ),
            None => None,
        },
        LineView::Instruction(i) => match numbered::spec_step(renamed_instr(lines, i)) {
            Err(e) => Some(restated(lines, e)),
            Ok(_) => None,
        },
    }
}

/// The error of the first line, from line `k` on, that is in error.
pub open spec fn named_first_error(lines: Seq<LineView>, k: nat) -> Option<AssembleErrorV>
    decreases lines.len() - k,
{
    if k >= lines.len() {
        None
    } else {
        match named_line_error(lines, k) {
            Some(e) => Some(e),
            None => named_first_error(lines, k + 1),
        }
    }
}

/// The first line, from line `k` on, that jumps to a label no line defines.
pub open spec fn first_undefined(lines: Seq<LineView>, k: nat) -> Option<nat>
    decreases lines.len() - k,
{
    if k >= lines.len() {
        None
    } else {
        match jump_name(lines, lines[k as int]) {
            Some(n) => if def_from(lines, n, 0, lines.len()) is None {
                Some(k)
            } else {
                first_undefined(lines, k + 1)
            },
            None => first_undefined(lines, k + 1),
        }
    }
}

/// Whether some line, from line `k` on, jumps to the label `n`.
pub open spec fn jumped_from(lines: Seq<LineView>, n: Seq<char>, k: nat) -> bool
    decreases lines.len() - k,
{
    if k >= lines.len() {
        false
    } else {
        jump_name(lines, lines[k as int]) == Some(n) || jumped_from(lines, n, k + 1)
    }
}

/// The first label, from position `j` of the order of first appearance
/// on, that is defined after the first line and never jumped to.
pub open spec fn first_unused(lines: Seq<LineView>, j: nat) -> Option<nat>
    decreases name_order(lines).len() - j,
{
    let order = name_order(lines);
    if j >= order.len() {
        None
    } else if (def_from(lines, order[j as int], 0, lines.len()) matches Some(p) && p != 0) && !jumped_from(
        lines,
        order[j as int],
        0,
    ) {
        Some(j)
    } else {
        first_unused(lines, j + 1)
    }
}

/// The number of label definitions from line `k` on.
pub open spec fn def_count(lines: Seq<LineView>, k: nat) -> nat
    decreases lines.len() - k,
{
    if k >= lines.len() {
        0
    } else {
        (if lines[k as int] is LabelDef {
            1nat
        } else {
            0nat
        }) + def_count(lines, k + 1)
    }
}

/// The error of a program with more label names than 16-bit label ids can
/// number, found by name in the order the numbered assembler checks: the
/// first line in error, then the first jump to an undefined label, then
/// the first label defined after the first line and never jumped to, and
/// else too many labels, counting the defined ones.
pub open spec fn spec_assemble_names(lines: Seq<LineView>) -> AssembleErrorV {
    match named_first_error(lines, 0) {
        Some(e) => e,
        None => match first_undefined(lines, 0) {
            Some(k) => {
                let n = jump_name(lines, lines[k as int]).unwrap();
                AssembleErrorV::UndefinedLabel { label: n, offset: named_offset(lines[k as int]), len: name_len(n) }
            },
            None => match first_unused(lines, 0) {
                Some(j) => {
                    let n = name_order(lines)[j as int];
                    let p = def_from(lines, n, 0, lines.len()).unwrap();
                    AssembleErrorV::UnusedLabel { label: n, offset: named_offset(lines[p as int]), len: name_len(n) }
                },
                None => AssembleErrorV::TooManyTargets { count: def_count(lines, 0) },
            },
        },
    }
}

/// What [`assemble`] produces from `lines`: while the label names can be
/// numbered by 16-bit ids, the numbered program's result, its errors
/// restated in terms of label names; beyond that, the same checks made by
/// name.
pub open spec fn spec_assemble(lines: Seq<LineView>) -> Result<Seq<u8>, AssembleErrorV> {
    if name_order(lines).len() > 0x1_0000 {
        Err(spec_assemble_names(lines))
    } else {
        match numbered::spec_assemble(renamed(lines)) {
            Ok(code) => Ok(code),
            Err(e) => Err(restated(lines, e)),
        }
    }
}

// ---------------------------------------------------------------------------
// Lemmas
// ---------------------------------------------------------------------------

/// `a` is a prefix of `b`.
pub open spec fn is_prefix(a: Seq<Seq<char>>, b: Seq<Seq<char>>) -> bool {
    a.len() <= b.len() && forall|i: int| 0 <= i < a.len() ==> #[trigger] b[i] == a[i]
}

proof fn lemma_add_name(seen: Seq<Seq<char>>, n: Seq<char>)
    ensures
        is_prefix(seen, add_name(seen, n)),
        seen.no_duplicates() ==> add_name(seen, n).no_duplicates(),
{
}

proof fn lemma_operand_names(seen: Seq<Seq<char>>, ops: Seq<OperandView>, m1: nat, m2: nat)
    requires
        m1 <= m2,
    ensures
        is_prefix(operand_names(seen, ops, m1), operand_names(seen, ops, m2)),
        is_prefix(seen, operand_names(seen, ops, m2)),
        seen.no_duplicates() ==> operand_names(seen, ops, m2).no_duplicates(),
    decreases m2,
{
    if m2 > 0 {
        lemma_operand_names(seen, ops, if m1 < m2 { m1 } else { (m2 - 1) as nat }, (m2 - 1) as nat);
        lemma_add_name(operand_names(seen, ops, (m2 - 1) as nat), ops[m2 - 1]->LabelRef_0);
    }
}

proof fn lemma_line_names(seen: Seq<Seq<char>>, l: LineView)
    ensures
        is_prefix(seen, line_names(seen, l)),
        seen.no_duplicates() ==> line_names(seen, l).no_duplicates(),
{
    match l {
        LineView::LabelDef { name, .. } => lemma_add_name(seen, name),
        LineView::Instruction(i) => lemma_operand_names(seen, i.operands, 0, i.operands.len()),
    }
}

proof fn lemma_names_seen(lines: Seq<LineView>, k1: nat, k2: nat)
    requires
        k1 <= k2,
    ensures
        is_prefix(names_seen(lines, k1), names_seen(lines, k2)),
        names_seen(lines, k2).no_duplicates(),
    decreases k2,
{
    if k2 > 0 {
        lemma_names_seen(lines, if k1 < k2 { k1 } else { (k2 - 1) as nat }, (k2 - 1) as nat);
        lemma_line_names(names_seen(lines, (k2 - 1) as nat), lines[k2 - 1]);
    }
}

/// A name at position `j` of a prefix of the final order gets number `j`.
proof fn lemma_number_of(lines: Seq<LineView>, prefix: Seq<Seq<char>>, j: int)
    requires
        is_prefix(prefix, name_order(lines)),
        0 <= j < prefix.len(),
    ensures
        name_number(lines, prefix[j]) == j as u16,
{
    lemma_names_seen(lines, lines.len(), lines.len());
    let order = name_order(lines);
    assert(order[j] == prefix[j]);
    let c = choose|c: int| 0 <= c < order.len() && order[c] == prefix[j];
    assert(0 <= c < order.len() && order[c] == prefix[j]);
}

// ---------------------------------------------------------------------------
// Executable
// ---------------------------------------------------------------------------

/// The views of a list of names.
pub open spec fn names_view(v: Seq<String>) -> Seq<Seq<char>> {
    Seq::new(v.len(), |i: int| v[i]@)
}

/// Find `n` among `names`, or append it; return its position.
fn intern_name(names: &mut Vec<String>, n: &String) -> (j: usize)
    ensures
        names_view(final(names)@) == add_name(names_view(old(names)@), n@),
        j < final(names)@.len(),
        final(names)@[j as int]@ == n@,
{
    let mut j: usize = 0;
    while j < names.len()
        invariant
            j <= names@.len(),
            forall|i: int| 0 <= i < j ==> names@[i]@ != n@,
        decreases names@.len() - j,
    {
        if names[j] == *n {
            proof {
                assert(names_view(names@)[j as int] == n@);
            }
            return j;
        }
        j += 1;
    }
    proof {
        assert(!names_view(names@).contains(n@));
    }
    let ghost before = names@;
    names.push(n.clone());
    proof {
        assert(names_view(names@) =~= names_view(before).push(n@));
    }
    names.len() - 1
}

/// Assemble a list of parsed lines into a [`Program`].
///
/// `source` and `name` are the source text and its display name; errors
/// carry byte spans into `source` for diagnostics.
pub fn assemble(lines: &[AsmLine], source: &str, name: &str) -> (r: Result<Program, AssembleError>)
    ensures
        match r {
            Ok(p) => spec_assemble(lines_view(lines@)) == Ok::<Seq<u8>, AssembleErrorV>(p.spec_code()),
            Err(e) => spec_assemble(lines_view(lines@)) == Err::<Seq<u8>, AssembleErrorV>(e@),
        },
{
    let ghost lv = lines_view(lines@);
    let mut names: Vec<String> = Vec::new();
    let mut out: Vec<num_ast::AsmLine> = Vec::new();
    let mut k: usize = 0;
    while k < lines.len()
        invariant
            lv == lines_view(lines@),
            k <= lines@.len(),
            names_view(names@) == names_seen(lv, k as nat),
            out@.len() == k,
            forall|q: int|
                0 <= q < k ==> #[trigger] out@[q]@ == renamed_line(lv, lv[q]),
        decreases lines@.len() - k,
    {
        proof {
            assert(lv[k as int] == lines@[k as int]@);
            lemma_names_seen(lv, (k + 1) as nat, lv.len());
        }
        match &lines[k] {
            AsmLine::LabelDef { name, offset } => {
                let j = intern_name(&mut names, name);
                proof {
                    lemma_number_of(lv, names_seen(lv, (k + 1) as nat), j as int);
                }
                out.push(num_ast::AsmLine::LabelDef { label: j as u16, offset: *offset });
            },
            AsmLine::Instruction(i) => {
                let ops = &i.operands;
                let ghost seen0 = names_view(names@);
                let mut conv: Vec<num_ast::Operand> = Vec::new();
                let mut m: usize = 0;
                while m < ops.len()
                    invariant
                        lv == lines_view(lines@),
                        k < lines@.len(),
                        lv[k as int] == lines@[k as int]@,
                        lines@[k as int] == AsmLine::Instruction(*i),
                        seen0 == names_seen(lv, k as nat),
                        is_prefix(names_seen(lv, (k + 1) as nat), name_order(lv)),
                        ops@ == i.operands@,
                        m <= ops@.len(),
                        names_view(names@) == operand_names(seen0, i@.operands, m as nat),
                        conv@ =~= i@.operands.take(m as int).map_values(|o: OperandView| renamed_operand(lv, o)),
                    decreases ops@.len() - m,
                {
                    let c = match &ops[m] {
                        Operand::Register(r) => num_ast::Operand::Register(*r),
                        Operand::Integer(v) => num_ast::Operand::Integer(*v),
                        Operand::LabelRef(n) => {
                            let j = intern_name(&mut names, n);
                            proof {
                                lemma_operand_names(seen0, i@.operands, (m + 1) as nat, i@.operands.len());
                                assert(names_seen(lv, (k + 1) as nat) == operand_names(
                                    seen0,
                                    i@.operands,
                                    i@.operands.len(),
                                ));
                                assert(is_prefix(names_view(names@), name_order(lv)));
                                lemma_number_of(lv, names_view(names@), j as int);
                            }
                            num_ast::Operand::LabelRef(j as u16)
                        },
                    };
                    proof {
                        assert(i@.operands[m as int] == ops@[m as int]@);
                        assert(i@.operands.take(m + 1) =~= i@.operands.take(m as int).push(i@.operands[m as int]));
                    }
                    conv.push(c);
                    m += 1;
                }
                proof {
                    assert(i@.operands.take(m as int) =~= i@.operands);
                }
                out.push(
                    num_ast::AsmLine::Instruction(
                        num_ast::ParsedInstr { mnemonic: i.mnemonic.clone(), operands: conv, offset: i.offset },
                    ),
                );
            },
        }
        k += 1;
    }
    proof {
        assert(num_ast::lines_view(out@) =~= renamed(lv));
    }
    if names.len() > 0x1_0000 {
        return Err(assemble_by_name(lines, out.as_slice(), &names, Ghost(lv)));
    }
    match numbered::assemble(out.as_slice(), source, name) {
        Ok(p) => Ok(p),
        Err(e) => Err(restate(e, &names, Ghost(lv))),
    }
}

/// The byte offset of a line's first token.
fn line_offset(l: &AsmLine) -> (r: usize)
    ensures
        r as nat == named_offset(l@),
{
    match l {
        AsmLine::LabelDef { offset, .. } => *offset,
        AsmLine::Instruction(i) => i.offset,
    }
}

/// The first line in `lo..hi` that defines the label `n`.
fn find_def(lines: &[AsmLine], n: &String, lo: usize, hi: usize, Ghost(lv): Ghost<Seq<LineView>>) -> (r: Option<
    usize,
>)
    requires
        lv == lines_view(lines@),
        lo <= hi <= lines@.len(),
    ensures
        match r {
            Some(j) => lo <= j < hi && def_from(lv, n@, lo as nat, hi as nat) == Some(j as nat),
            None => def_from(lv, n@, lo as nat, hi as nat) is None,
        },
{
    let mut j = lo;
    while j < hi
        invariant
            lv == lines_view(lines@),
            lo <= j <= hi <= lines@.len(),
            def_from(lv, n@, lo as nat, hi as nat) == def_from(lv, n@, j as nat, hi as nat),
        decreases hi - j,
    {
        proof {
            assert(lv[j as int] == lines@[j as int]@);
        }
        match &lines[j] {
            AsmLine::LabelDef { name, .. } => {
                if *name == *n {
                    return Some(j);
                }
            },
            AsmLine::Instruction(_) => {},
        }
        j += 1;
    }
    None
}

/// The label line `k` jumps to, if it is a well-formed `JUMP`/`JUMPI`.
fn jump_name_at<'a>(
    lines: &'a [AsmLine],
    out: &[num_ast::AsmLine],
    k: usize,
    Ghost(lv): Ghost<Seq<LineView>>,
) -> (r: Option<&'a String>)
    requires
        lv == lines_view(lines@),
        out@.len() == lines@.len(),
        k < lines@.len(),
        out@[k as int]@ == renamed_line(lv, lv[k as int]),
    ensures
        match r {
            Some(n) => jump_name(lv, lv[k as int]) == Some(n@),
            None => jump_name(lv, lv[k as int]) is None,
        },
{
    proof {
        assert(lv[k as int] == lines@[k as int]@);
    }
    match &lines[k] {
        AsmLine::Instruction(i) => match &out[k] {
            num_ast::AsmLine::Instruction(ni) => match numbered::instr_step(ni) {
                Ok(numbered::Step::Jump { .. }) => {
                    proof {
                        assert(ni@ == renamed_instr(lv, i@));
                        assert(i@.operands[0] == i.operands@[0]@);
                    }
                    match &i.operands[0] {
                        Operand::LabelRef(n) => Some(n),
                        _ => None,
                    }
                },
                _ => None,
            },
            _ => None,
        },
        AsmLine::LabelDef { .. } => None,
    }
}

/// Whether some line jumps to the label `n`.
fn is_jumped(lines: &[AsmLine], out: &[num_ast::AsmLine], n: &String, Ghost(lv): Ghost<Seq<LineView>>) -> (r: bool)
    requires
        lv == lines_view(lines@),
        out@.len() == lines@.len(),
        forall|q: int| 0 <= q < lines@.len() ==> #[trigger] out@[q]@ == renamed_line(lv, lv[q]),
    ensures
        r == jumped_from(lv, n@, 0),
{
    let mut k: usize = 0;
    while k < lines.len()
        invariant
            lv == lines_view(lines@),
            out@.len() == lines@.len(),
            forall|q: int| 0 <= q < lines@.len() ==> #[trigger] out@[q]@ == renamed_line(lv, lv[q]),
            k <= lines@.len(),
            jumped_from(lv, n@, 0) == jumped_from(lv, n@, k as nat),
        decreases lines@.len() - k,
    {
        match jump_name_at(lines, out, k, Ghost(lv)) {
            Some(x) => {
                if *x == *n {
                    return true;
                }
            },
            None => {},
        }
        k += 1;
    }
    false
}

/// The number of label definitions.
fn count_defs(lines: &[AsmLine], Ghost(lv): Ghost<Seq<LineView>>) -> (r: usize)
    requires
        lv == lines_view(lines@),
    ensures
        r as nat == def_count(lv, 0),
{
    let mut k = lines.len();
    let mut c: usize = 0;
    while k > 0
        invariant
            lv == lines_view(lines@),
            k <= lines@.len(),
            c as nat == def_count(lv, k as nat),
            c <= lines@.len() - k,
        decreases k,
    {
        k -= 1;
        proof {
            assert(lv[k as int] == lines@[k as int]@);
        }
        match &lines[k] {
            AsmLine::LabelDef { .. } => {
                c += 1;
            },
            AsmLine::Instruction(_) => {},
        }
    }
    c
}

/// The error of a program with more label names than 16-bit ids can
/// number, found by name.
fn assemble_by_name(
    lines: &[AsmLine],
    out: &[num_ast::AsmLine],
    names: &Vec<String>,
    Ghost(lv): Ghost<Seq<LineView>>,
) -> (r: AssembleError)
    requires
        lv == lines_view(lines@),
        out@.len() == lines@.len(),
        forall|q: int| 0 <= q < lines@.len() ==> #[trigger] out@[q]@ == renamed_line(lv, lv[q]),
        names_view(names@) == name_order(lv),
    ensures
        r@ == spec_assemble_names(lv),
{
    let n = lines.len();
    let mut k: usize = 0;
    while k < n
        invariant
            lv == lines_view(lines@),
            n == lines@.len(),
            out@.len() == n,
            forall|q: int| 0 <= q < n ==> #[trigger] out@[q]@ == renamed_line(lv, lv[q]),
            names_view(names@) == name_order(lv),
            k <= n,
            named_first_error(lv, 0) == named_first_error(lv, k as nat),
        decreases n - k,
    {
        proof {
            assert(lv[k as int] == lines@[k as int]@);
            assert(out@[k as int]@ == renamed_line(lv, lv[k as int]));
        }
        match &lines[k] {
            AsmLine::LabelDef { name, .. } => {
                match find_def(lines, name, 0, k, Ghost(lv)) {
                    Some(j) => {
                        proof {
                            assert(lv[j as int] == lines@[j as int]@);
                        }
                        let off = line_offset(&lines[j]);
                        let len = name.as_str().len();
                        return AssembleError::DuplicateLabel { label: name.clone(), offset: off, len };
                    },
                    None => {},
                }
            },
            AsmLine::Instruction(i) => {
                match &out[k] {
                    num_ast::AsmLine::Instruction(ni) => {
                        proof {
                            assert(ni@ == renamed_instr(lv, i@));
                        }
                        match numbered::instr_step(ni) {
                            Err(e) => {
                                return restate(e, names, Ghost(lv));
                            },
                            Ok(_) => {},
                        }
                    },
                    num_ast::AsmLine::LabelDef { .. } => {},
                }
            },
        }
        k += 1;
    }
    let mut k: usize = 0;
    while k < n
        invariant
            lv == lines_view(lines@),
            n == lines@.len(),
            out@.len() == n,
            forall|q: int| 0 <= q < n ==> #[trigger] out@[q]@ == renamed_line(lv, lv[q]),
            k <= n,
            named_first_error(lv, 0) is None,
            first_undefined(lv, 0) == first_undefined(lv, k as nat),
        decreases n - k,
    {
        match jump_name_at(lines, out, k, Ghost(lv)) {
            Some(x) => {
                if find_def(lines, x, 0, n, Ghost(lv)).is_none() {
                    proof {
                        assert(lv[k as int] == lines@[k as int]@);
                    }
                    let off = line_offset(&lines[k]);
                    let len = x.as_str().len();
                    return AssembleError::UndefinedLabel { label: x.clone(), offset: off, len };
                }
            },
            None => {},
        }
        k += 1;
    }
    let mut j: usize = 0;
    while j < names.len()
        invariant
            lv == lines_view(lines@),
            n == lines@.len(),
            out@.len() == n,
            forall|q: int| 0 <= q < n ==> #[trigger] out@[q]@ == renamed_line(lv, lv[q]),
            names_view(names@) == name_order(lv),
            j <= names@.len(),
            named_first_error(lv, 0) is None,
            first_undefined(lv, 0) is None,
            first_unused(lv, 0) == first_unused(lv, j as nat),
        decreases names@.len() - j,
    {
        let nm = &names[j];
        proof {
            assert(name_order(lv)[j as int] == nm@);
        }
        match find_def(lines, nm, 0, n, Ghost(lv)) {
            Some(p) => {
                if p != 0 && !is_jumped(lines, out, nm, Ghost(lv)) {
                    proof {
                        assert(lv[p as int] == lines@[p as int]@);
                    }
                    let off = line_offset(&lines[p]);
                    let len = nm.as_str().len();
                    return AssembleError::UnusedLabel { label: nm.clone(), offset: off, len };
                }
            },
            None => {},
        }
        j += 1;
    }
    AssembleError::TooManyTargets { count: count_defs(lines, Ghost(lv)) }
}

/// The name of label number `l`, or the empty name past the last one.
fn name_of(names: &Vec<String>, l: u16) -> (n: String)
    ensures
        n@ == (if l < names@.len() {
            names@[l as int]@
        } else {
            Seq::<char>::empty()
        }),
{
    if (l as usize) < names.len() {
        names[l as usize].clone()
    } else {
        String::new()
    }
}

/// Restate a numbered-program error in terms of label names.
fn restate(e: num_error::AssembleError, names: &Vec<String>, lines: Ghost<Seq<LineView>>) -> (r: AssembleError)
    requires
        names_view(names@) == name_order(lines@),
    ensures
        r@ == restated(lines@, e@),
{
    match e {
        num_error::AssembleError::UnknownMnemonic { mnemonic, offset, len } => AssembleError::UnknownMnemonic {
            mnemonic,
            offset,
            len,
        },
        num_error::AssembleError::WrongOperandCount { mnemonic, expected, got, offset, len } =>
            AssembleError::WrongOperandCount { mnemonic, expected, got, offset, len },
        num_error::AssembleError::WrongOperandKind { mnemonic, field, expected_kind, offset, len } => {
            let m = mnemonic.as_str().as_bytes();
            if numbered::is_jump_word(m) || numbered::is_jumpi_word(m) {
                AssembleError::WrongOperandKind {
                    mnemonic,
                    field: "offset",
                    expected_kind: "integer or label reference",
                    offset,
                    len,
                }
            } else {
                AssembleError::WrongOperandKind { mnemonic, field, expected_kind, offset, len }
            }
        },
        num_error::AssembleError::UndefinedLabel { label, offset, .. } => {
            let n = name_of(names, label);
            proof {
                if (label as int) < names@.len() {
                    assert(names_view(names@)[label as int] == names@[label as int]@);
                }
            }
            let len = n.as_str().len();
            AssembleError::UndefinedLabel { label: n, offset, len }
        },
        num_error::AssembleError::DuplicateLabel { label, offset, .. } => {
            let n = name_of(names, label);
            proof {
                if (label as int) < names@.len() {
                    assert(names_view(names@)[label as int] == names@[label as int]@);
                }
            }
            let len = n.as_str().len();
            AssembleError::DuplicateLabel { label: n, offset, len }
        },
        num_error::AssembleError::UnusedLabel { label, offset, .. } => {
            let n = name_of(names, label);
            proof {
                if (label as int) < names@.len() {
                    assert(names_view(names@)[label as int] == names@[label as int]@);
                }
            }
            let len = n.as_str().len();
            AssembleError::UnusedLabel { label: n, offset, len }
        },
        num_error::AssembleError::TooManyTargets { count } => AssembleError::TooManyTargets { count },
    }
}

} // verus!
