//! How the code an [`InstructionBuilder`] emits reads back: decoding it
//! gives the resolved items one by one, and the jump table rebuilt from it
//! maps every placed label's sequential id to the offset of its `TARGET`.

use vstd::prelude::*;

use super::builder::{code_upto, count_places, resolve, seq_id, BuilderItem, InstructionBuilder};
use super::codec;
use super::instruction::Instruction;
use super::stream::{lemma_items_unfold, spec_items, spec_items_from, spec_step, Error as StreamError};
use crate::xqvm::checker::{scan_from, scan_step, spec_scan, ScanState};

verus! {

/// Byte offset of item `k` in the code of `items`.
pub open spec fn item_offset(items: Seq<BuilderItem>, positions: Seq<Option<usize>>, k: nat) -> nat {
    code_upto(items, positions, k).len()
}

/// What decoding the code of `items` yields from item `k` on: each item,
/// resolved, at its offset.
pub open spec fn decoded_from(items: Seq<BuilderItem>, positions: Seq<Option<usize>>, k: nat) -> Seq<
    Result<(usize, Instruction), StreamError>,
> {
    Seq::new(
        (items.len() - k) as nat,
        |j: int|
            Ok::<(usize, Instruction), StreamError>(
                (item_offset(items, positions, (k + j) as nat) as usize, resolve(items, positions, items[k + j])),
            ),
    )
}

/// The offsets of the labels placed from item `k` on, in order.
pub open spec fn places_from(items: Seq<BuilderItem>, positions: Seq<Option<usize>>, k: nat) -> Seq<usize>
    decreases items.len() - k,
{
    if k >= items.len() {
        seq![]
    } else {
        (if items[k as int] is Place {
            seq![item_offset(items, positions, k) as usize]
        } else {
            seq![]
        }) + places_from(items, positions, k + 1)
    }
}

proof fn lemma_code_prefix(items: Seq<BuilderItem>, positions: Seq<Option<usize>>, m: nat, k: nat)
    requires
        m <= k <= items.len(),
    ensures
        code_upto(items, positions, k).subrange(0, item_offset(items, positions, m) as int) == code_upto(
            items,
            positions,
            m,
        ),
        item_offset(items, positions, m) <= item_offset(items, positions, k),
    decreases k - m,
{
    if m < k {
        lemma_code_prefix(items, positions, m, (k - 1) as nat);
        let a = code_upto(items, positions, (k - 1) as nat);
        assert(code_upto(items, positions, k).subrange(0, a.len() as int) =~= a);
        assert(code_upto(items, positions, k).subrange(0, item_offset(items, positions, m) as int) =~= a.subrange(
            0,
            item_offset(items, positions, m) as int,
        ));
    } else {
        assert(code_upto(items, positions, k).subrange(0, item_offset(items, positions, m) as int) =~= code_upto(
            items,
            positions,
            m,
        ));
    }
}

proof fn lemma_decoded_from(items: Seq<BuilderItem>, positions: Seq<Option<usize>>, k: nat)
    requires
        k <= items.len(),
        item_offset(items, positions, items.len()) <= usize::MAX,
    ensures
        spec_items_from(code_upto(items, positions, items.len()), item_offset(items, positions, k))
            == decoded_from(items, positions, k),
    decreases items.len() - k,
{
    let n = items.len();
    let code = code_upto(items, positions, n);
    let pos = item_offset(items, positions, k);
    if k == n {
        assert(decoded_from(items, positions, k) =~= seq![]);
    } else {
        let r = resolve(items, positions, items[k as int]);
        let next = item_offset(items, positions, k + 1);
        lemma_code_prefix(items, positions, k + 1, n);
        lemma_code_prefix(items, positions, k, k + 1);
        assert(code_upto(items, positions, k + 1) == code_upto(items, positions, k) + r.spec_encode());
        assert(next == pos + r.spec_encode().len());
        assert(code.skip(pos as int) =~= r.spec_encode() + code.skip(next as int)) by {
            assert forall|t: int| 0 <= t < r.spec_encode().len() implies code.skip(pos as int)[t] == r.spec_encode()[t] by {
                assert(code.subrange(0, next as int)[pos + t] == code_upto(items, positions, k + 1)[pos + t]);
            }
        }
        codec::lemma_decode_encode(r, code.skip(next as int));
        assert(spec_step(code, pos) == (
            Ok::<(usize, Instruction), StreamError>((pos as usize, r)),
            next,
        ));
        lemma_items_unfold(code, pos);
        lemma_decoded_from(items, positions, k + 1);
        assert(seq![spec_step(code, pos).0] + decoded_from(items, positions, k + 1) =~= decoded_from(
            items,
            positions,
            k,
        ));
    }
}

proof fn lemma_scan_places(items: Seq<BuilderItem>, positions: Seq<Option<usize>>, i: nat, st: ScanState)
    requires
        i <= items.len(),
        forall|k: int| 0 <= k < items.len() ==> #[trigger] items[k] != BuilderItem::Instr(Instruction::Target {  }),
    ensures
        scan_from(decoded_from(items, positions, 0), i, st).0 == st.targets + places_from(items, positions, i),
    decreases items.len() - i,
{
    let s = decoded_from(items, positions, 0);
    if i >= items.len() {
        assert(st.targets + places_from(items, positions, i) =~= st.targets);
    } else {
        let r = resolve(items, positions, items[i as int]);
        let off = item_offset(items, positions, i) as usize;
        assert(s[i as int] == Ok::<(usize, Instruction), StreamError>((off, r)));
        let next = scan_step(st, off, r);
        assert(scan_from(s, i, st) == scan_from(s, i + 1, next));
        lemma_scan_places(items, positions, i + 1, next);
        if items[i as int] is Place {
            assert(next.targets == st.targets.push(off));
            assert(st.targets.push(off) + places_from(items, positions, i + 1) =~= st.targets + places_from(
                items,
                positions,
                i,
            ));
        } else {
            assert(!(r is Target));
            assert(next.targets == st.targets);
            assert(places_from(items, positions, i) =~= places_from(items, positions, i + 1));
        }
    }
}

proof fn lemma_places_index(items: Seq<BuilderItem>, positions: Seq<Option<usize>>, i: nat, p: nat)
    requires
        i <= p < items.len(),
        items[p as int] is Place,
    ensures
        places_from(items, positions, i).len() == count_places(items, items.len()) - count_places(items, i),
        count_places(items, i) <= count_places(items, p) < count_places(items, items.len()),
        places_from(items, positions, i)[count_places(items, p) - count_places(items, i)] == item_offset(
            items,
            positions,
            p,
        ) as usize,
    decreases items.len() - i,
{
    lemma_places_len(items, positions, i);
    lemma_count_mono(items, i, p);
    lemma_count_mono(items, p + 1, items.len());
    if i < p {
        lemma_places_index(items, positions, i + 1, p);
    }
}

proof fn lemma_places_len(items: Seq<BuilderItem>, positions: Seq<Option<usize>>, i: nat)
    requires
        i <= items.len(),
    ensures
        places_from(items, positions, i).len() == count_places(items, items.len()) - count_places(items, i),
        count_places(items, i) <= count_places(items, items.len()),
    decreases items.len() - i,
{
    if i < items.len() {
        lemma_places_len(items, positions, i + 1);
    }
}

proof fn lemma_count_mono(items: Seq<BuilderItem>, a: nat, b: nat)
    requires
        a <= b <= items.len(),
    ensures
        count_places(items, a) <= count_places(items, b),
    decreases b - a,
{
    if a < b {
        lemma_count_mono(items, a, (b - 1) as nat);
    }
}

/// The code a builder emits for its items (what [`InstructionBuilder::build`]
/// returns when it succeeds) reads back as written: decoding it yields each
/// item, resolved, at its offset; and, as long as no `TARGET` was emitted
/// directly, the jump table rebuilt by scanning it maps the sequential id of
/// every placed label to the offset of the `TARGET` that places it, so every
/// jump lands on its label.
pub proof fn lemma_built_code_resolves(b: InstructionBuilder)
    requires
        b.wf(),
        item_offset(b.spec_items(), b.spec_positions(), b.spec_items().len()) <= usize::MAX,
        forall|k: int|
            0 <= k < b.spec_items().len() ==> #[trigger] b.spec_items()[k] != BuilderItem::Instr(
                Instruction::Target {  },
            ),
    ensures
        ({
            let items = b.spec_items();
            let positions = b.spec_positions();
            let code = code_upto(items, positions, items.len());
            &&& spec_items(code) == decoded_from(items, positions, 0)
            &&& spec_scan(code).0.len() == count_places(items, items.len())
            &&& forall|l: int|
                0 <= l < positions.len() && #[trigger] positions[l] is Some ==> seq_id(items, positions, l as usize)
                    < spec_scan(code).0.len() && spec_scan(code).0[seq_id(items, positions, l as usize) as int]
                    == item_offset(items, positions, positions[l].unwrap() as nat) as usize
        }),
{
    let items = b.spec_items();
    let positions = b.spec_positions();
    let code = code_upto(items, positions, items.len());
    lemma_decoded_from(items, positions, 0);
    assert(item_offset(items, positions, 0) == 0);
    let init = ScanState { targets: seq![], loops: seq![], jumps: seq![], err: None };
    lemma_scan_places(items, positions, 0, init);
    assert(spec_scan(code).0 =~= places_from(items, positions, 0));
    lemma_places_len(items, positions, 0);
    assert forall|l: int| 0 <= l < positions.len() && #[trigger] positions[l] is Some implies seq_id(
        items,
        positions,
        l as usize,
    ) < spec_scan(code).0.len() && spec_scan(code).0[seq_id(items, positions, l as usize) as int] == item_offset(
        items,
        positions,
        positions[l].unwrap() as nat,
    ) as usize by {
        let p = positions[l].unwrap() as nat;
        lemma_places_index(items, positions, 0, p);
    }
}

} // verus!
