//! Incremental, seekable reader for XQVM bytecode.
//!
//! [`InstructionStream`] wraps a raw byte buffer and decodes one instruction
//! at a time, advancing an internal cursor after each read. Seeking moves the
//! cursor to any absolute byte offset.
//!
//! During construction the stream makes a single pass that collects every
//! `TARGET` referenced by a jump and names it `L0`, `L1`, ... in ascending
//! address order. The label of an address is returned together with the
//! instruction decoded there.
//!
//! On a decode error the cursor advances by one byte, so the stream always
//! makes progress.

use std::collections::BTreeMap;

use vstd::prelude::*;
use vstd::string::StringExecFns;

use super::codec::{self, spec_decode, DecodeError};
use super::instruction::Instruction;
use crate::text::decimal::{push_decimal, spec_decimal};
use crate::text::layout::{push_hex_padded, spec_hex_padded};

verus! {

broadcast use vstd::std_specs::btree::group_btree_axioms;

/// All errors produced by [`InstructionStream`].
#[derive(Debug, Clone, PartialEq, Eq, Structural)]
pub enum Error {
    /// The byte at `offset` is not a recognised XQVM opcode.
    UnknownOpcode {
        /// Absolute byte offset of the bad opcode byte.
        offset: usize,
        /// The unrecognised byte value.
        byte: u8,
    },
    /// The buffer ends before all operand bytes of the instruction at
    /// `offset` have been read.
    TruncatedInstruction {
        /// Absolute byte offset of the opcode whose operands are missing.
        offset: usize,
    },
    /// The seek target exceeds the length of the underlying buffer.
    SeekOutOfBounds {
        /// The requested byte offset.
        target: usize,
        /// Total length of the underlying buffer.
        len: usize,
    },
}

/// The message of a stream error.
pub open spec fn spec_error_message(e: Error) -> Seq<char> {
    match e {
        Error::UnknownOpcode { offset, byte } => "unknown opcode 0x"@ + spec_hex_padded(byte as nat, 2)
            + " at offset 0x"@ + spec_hex_padded(offset as nat, 4),
        Error::TruncatedInstruction { offset } => "truncated instruction at offset 0x"@ + spec_hex_padded(
            offset as nat,
            4,
        ),
        Error::SeekOutOfBounds { target, len } => "seek target "@ + spec_decimal(target as nat)
            + " is out of bounds (buffer length "@ + spec_decimal(len as nat) + ")"@,
    }
}

impl Error {
    /// The error's message.
    pub fn message(&self) -> (s: String)
        ensures
            s@ == spec_error_message(*self),
    {
        let mut out = String::new();
        match *self {
            Error::UnknownOpcode { offset, byte } => {
                out.append("unknown opcode 0x");
                push_hex_padded(&mut out, byte as usize, 2);
                out.append(" at offset 0x");
                push_hex_padded(&mut out, offset, 4);
            },
            Error::TruncatedInstruction { offset } => {
                out.append("truncated instruction at offset 0x");
                push_hex_padded(&mut out, offset, 4);
            },
            Error::SeekOutOfBounds { target, len } => {
                out.append("seek target ");
                push_decimal(&mut out, target);
                out.append(" is out of bounds (buffer length ");
                push_decimal(&mut out, len);
                out.append(")");
            },
        }
        proof {
            assert(out@ =~= spec_error_message(*self));
        }
        out
    }
}

/// One step of the stream at `pos < bytes.len()`: the decoded item (offset
/// and instruction, or the error) and the cursor position after the step.
pub open spec fn spec_step(bytes: Seq<u8>, pos: nat) -> (Result<(usize, Instruction), Error>, nat) {
    match spec_decode(bytes.skip(pos as int)) {
        Ok((i, n)) => (Ok((pos as usize, i)), pos + n),
        Err(DecodeError::UnknownOpcode { byte }) => (
            Err(Error::UnknownOpcode { offset: pos as usize, byte }),
            pos + 1,
        ),
        Err(_) => (Err(Error::TruncatedInstruction { offset: pos as usize }), pos + 1),
    }
}

/// Every item the stream yields when read from `pos` to the end of `bytes`.
pub open spec fn spec_items_from(bytes: Seq<u8>, pos: nat) -> Seq<Result<(usize, Instruction), Error>>
    decreases bytes.len() - pos,
{
    if pos >= bytes.len() {
        seq![]
    } else {
        let (item, next) = spec_step(bytes, pos);
        if next <= pos {
            seq![item]
        } else {
            seq![item] + spec_items_from(bytes, next)
        }
    }
}

/// Every item the stream yields when read from the start of `bytes`.
pub open spec fn spec_items(bytes: Seq<u8>) -> Seq<Result<(usize, Instruction), Error>> {
    spec_items_from(bytes, 0)
}

/// A step always advances the cursor, by the length of the decoded
/// instruction or by one byte after an error, never past the end.
pub proof fn lemma_step_advances(bytes: Seq<u8>, pos: nat)
    requires
        pos < bytes.len(),
    ensures
        pos < spec_step(bytes, pos).1 <= bytes.len(),
        spec_step(bytes, pos).0 matches Ok((p, i)) ==> p == pos as usize && spec_step(bytes, pos).1 == pos + i.spec_encode().len()
            && i.spec_encode() =~= bytes.subrange(pos as int, spec_step(bytes, pos).1 as int),
{
    codec::lemma_encode_decode(bytes.skip(pos as int));
    if let Ok((i, n)) = spec_decode(bytes.skip(pos as int)) {
        assert(bytes.skip(pos as int).subrange(0, n as int) =~= bytes.subrange(pos as int, (pos + n) as int));
    }
}

/// Reading from `pos` yields one step followed by reading from where it ends.
pub proof fn lemma_items_unfold(bytes: Seq<u8>, pos: nat)
    requires
        pos < bytes.len(),
    ensures
        spec_items_from(bytes, pos) == seq![spec_step(bytes, pos).0] + spec_items_from(bytes, spec_step(bytes, pos).1),
{
    lemma_step_advances(bytes, pos);
}

// ---------------------------------------------------------------------------
// Label collection
// ---------------------------------------------------------------------------

/// The offsets of the `TARGET` instructions among `items`, in order: the
/// entry at index `k` is the target with sequential id `k`.
pub open spec fn spec_targets(items: Seq<Result<(usize, Instruction), Error>>) -> Seq<usize>
    decreases items.len(),
{
    if items.len() == 0 {
        seq![]
    } else {
        let rest = spec_targets(items.drop_last());
        match items.last() {
            Ok((p, Instruction::Target {  })) => rest.push(p),
            _ => rest,
        }
    }
}

/// The sequential label ids referenced by jump instructions among `items`.
pub open spec fn spec_jump_labels(items: Seq<Result<(usize, Instruction), Error>>) -> Seq<usize>
    decreases items.len(),
{
    if items.len() == 0 {
        seq![]
    } else {
        let rest = spec_jump_labels(items.drop_last());
        match items.last() {
            Ok((_, Instruction::Jump1 { label })) => rest.push(label as usize),
            Ok((_, Instruction::JumpI1 { label })) => rest.push(label as usize),
            Ok((_, Instruction::Jump2 { label })) => rest.push(label as usize),
            Ok((_, Instruction::JumpI2 { label })) => rest.push(label as usize),
            _ => rest,
        }
    }
}

/// Number of referenced targets among the first `t` targets of `bytes`.
pub open spec fn spec_count_referenced(bytes: Seq<u8>, t: nat) -> nat
    decreases t,
{
    if t == 0 {
        0
    } else {
        spec_count_referenced(bytes, (t - 1) as nat) + if spec_jump_labels(spec_items(bytes)).contains((t - 1) as usize) {
            1nat
        } else {
            0nat
        }
    }
}

/// The name given to the `k`-th referenced target: `L0`, `L1`, ...
pub open spec fn spec_label_name(k: nat) -> Seq<char> {
    seq!['L'] + spec_decimal(k)
}

/// The label map of `bytes`: every `TARGET` that some jump references is
/// named after its rank among the referenced targets, in address order.
pub open spec fn spec_labels_ok(bytes: Seq<u8>, labels: Map<usize, String>) -> bool {
    let targets = spec_targets(spec_items(bytes));
    let refs = spec_jump_labels(spec_items(bytes));
    &&& forall|t: int|
        0 <= t < targets.len() && #[trigger] refs.contains(t as usize) ==> labels.contains_key(targets[t])
            && labels[targets[t]]@ == spec_label_name(spec_count_referenced(bytes, t as nat))
    &&& forall|a: usize|
        #[trigger] labels.contains_key(a) ==> exists|t: int|
            0 <= t < targets.len() && refs.contains(t as usize) && targets[t] == a
}

fn label_name(k: usize) -> (s: String)
    ensures
        s@ == spec_label_name(k as nat),
{
    let mut s = String::from_str("L");
    proof {
        reveal_strlit("L");
    }
    push_decimal(&mut s, k);
    s
}


/// Scan `bytes` once, find every `TARGET` referenced by a jump, and name
/// each one (`L0`, `L1`, ...) in ascending address order.
pub(crate) fn collect_labels(bytes: &[u8]) -> (labels: BTreeMap<usize, String>)
    ensures
        spec_labels_ok(bytes@, labels@),
{
    let mut targets: Vec<usize> = Vec::new();
    let mut jumps: Vec<usize> = Vec::new();
    let mut pos: usize = 0;
    let ghost mut done: Seq<Result<(usize, Instruction), Error>> = seq![];
    while pos < bytes.len()
        invariant
            pos <= bytes@.len(),
            spec_items(bytes@) == done + spec_items_from(bytes@, pos as nat),
            targets@ == spec_targets(done),
            jumps@ == spec_jump_labels(done),
            forall|k: int| 0 <= k < targets@.len() ==> #[trigger] targets@[k] < pos,
            forall|k: int, j: int| 0 <= k < j < targets@.len() ==> targets@[k] < targets@[j],
        decreases bytes@.len() - pos,
    {
        proof {
            lemma_items_unfold(bytes@, pos as nat);
        }
        let ghost item = spec_step(bytes@, pos as nat).0;
        match codec::decode_at(bytes, pos) {
            Ok((instr, n)) => {
                match instr {
                    Instruction::Target {  } => targets.push(pos),
                    Instruction::Jump1 { label } => jumps.push(label as usize),
                    Instruction::JumpI1 { label } => jumps.push(label as usize),
                    Instruction::Jump2 { label } => jumps.push(label as usize),
                    Instruction::JumpI2 { label } => jumps.push(label as usize),
                    _ => {},
                }
                proof {
                    assert(done.push(item).drop_last() =~= done);
                    done = done.push(item);
                }
                pos = pos + n;
            },
            Err(_) => {
                proof {
                    assert(done.push(item).drop_last() =~= done);
                    done = done.push(item);
                }
                pos = pos + 1;
            },
        }
        proof {
            assert(spec_items(bytes@) == done + spec_items_from(bytes@, pos as nat));
        }
    }
    proof {
        assert(done + spec_items_from(bytes@, pos as nat) =~= done);
    }
    let ghost refs = jumps@;
    let n = targets.len();
    let mut marked: Vec<bool> = Vec::new();
    let mut t: usize = 0;
    while t < n
        invariant
            t <= n,
            n == targets@.len(),
            marked@.len() == t,
            forall|k: int| 0 <= k < t ==> !#[trigger] marked@[k],
        decreases n - t,
    {
        marked.push(false);
        t = t + 1;
    }
    let mut j: usize = 0;
    while j < jumps.len()
        invariant
            j <= jumps@.len(),
            n == targets@.len(),
            marked@.len() == n,
            forall|k: int| 0 <= k < n ==> #[trigger] marked@[k] == jumps@.take(j as int).contains(k as usize),
        decreases jumps@.len() - j,
    {
        let l = jumps[j];
        if l < n {
            marked.set(l, true);
        }
        proof {
            assert(jumps@.take(j + 1) =~= jumps@.take(j as int).push(l));
            assert forall|k: int| 0 <= k < n implies #[trigger] marked@[k] == jumps@.take(j + 1).contains(k as usize) by {
                if jumps@.take(j as int).contains(k as usize) {
                    let w = choose|w: int| 0 <= w < j && jumps@.take(j as int)[w] == k as usize;
                    assert(jumps@.take(j + 1)[w] == k as usize);
                }
                if k as usize == l {
                    assert(jumps@.take(j + 1)[j as int] == l);
                }
            }
        }
        j = j + 1;
    }
    proof {
        assert(jumps@.take(jumps@.len() as int) =~= jumps@);
    }
    let mut labels: BTreeMap<usize, String> = BTreeMap::new();
    let mut count: usize = 0;
    let mut t: usize = 0;
    while t < n
        invariant
            t <= n,
            n == targets@.len(),
            marked@.len() == n,
            targets@ == spec_targets(spec_items(bytes@)),
            jumps@ == spec_jump_labels(spec_items(bytes@)),
            forall|k: int| 0 <= k < n ==> #[trigger] marked@[k] == jumps@.contains(k as usize),
            forall|k: int, i: int| 0 <= k < i < targets@.len() ==> targets@[k] < targets@[i],
            count == spec_count_referenced(bytes@, t as nat),
            count <= t,
            forall|k: int|
                0 <= k < t && #[trigger] jumps@.contains(k as usize) ==> labels@.contains_key(targets@[k])
                    && labels@[targets@[k]]@ == spec_label_name(spec_count_referenced(bytes@, k as nat)),
            forall|a: usize|
                #[trigger] labels@.contains_key(a) ==> exists|k: int|
                    0 <= k < t && jumps@.contains(k as usize) && targets@[k] == a,
        decreases n - t,
    {
        if marked[t] {
            let name = label_name(count);
            labels.insert(targets[t], name);
            count = count + 1;
            proof {
                assert forall|k: int| 0 <= k < t && #[trigger] jumps@.contains(k as usize) implies labels@.contains_key(targets@[k])
                    && labels@[targets@[k]]@ == spec_label_name(spec_count_referenced(bytes@, k as nat)) by {
                    assert(targets@[k] < targets@[t as int]);
                }
                assert forall|a: usize| #[trigger] labels@.contains_key(a) implies exists|k: int|
                    0 <= k < t + 1 && jumps@.contains(k as usize) && targets@[k] == a by {
                    if a != targets@[t as int] {
                        let k = choose|k: int| 0 <= k < t && jumps@.contains(k as usize) && targets@[k] == a;
                        assert(0 <= k < t + 1 && jumps@.contains(k as usize) && targets@[k] == a);
                    }
                }
            }
        }
        t = t + 1;
    }
    labels
}


// ---------------------------------------------------------------------------
// InstructionStream
// ---------------------------------------------------------------------------

/// Incremental, seekable reader over a raw XQVM bytecode buffer.
///
/// [`seek`](InstructionStream::seek) moves the cursor to any absolute byte
/// offset in `[0, len]`. Seeking to `len` positions the stream past the end
/// so the next read returns `None`.
#[derive(Debug)]
pub struct InstructionStream<'a> {
    bytes: &'a [u8],
    pos: usize,
    labels: BTreeMap<usize, String>,
}

impl<'a> InstructionStream<'a> {
    #[verifier::type_invariant]
    spec fn inv(self) -> bool {
        self.pos <= self.bytes@.len()
    }

    /// The bytes being read.
    pub closed spec fn spec_bytes(self) -> Seq<u8> {
        self.bytes@
    }

    /// The cursor position.
    pub closed spec fn spec_pos(self) -> nat {
        self.pos as nat
    }

    /// The label map computed at construction.
    pub closed spec fn spec_labels(self) -> Map<usize, String> {
        self.labels@
    }

    /// Create a new stream positioned at the start of `bytes`.
    ///
    /// The constructor scans `bytes` once to name every referenced jump
    /// target before any instruction is returned.
    pub fn new(bytes: &'a [u8]) -> (s: Self)
        ensures
            s.spec_bytes() == bytes@,
            s.spec_pos() == 0,
            spec_labels_ok(bytes@, s.spec_labels()),
    {
        let labels = collect_labels(bytes);
        Self { bytes, pos: 0, labels }
    }

    /// Current cursor position (byte offset into the buffer).
    pub fn pos(&self) -> (p: usize)
        ensures
            p == self.spec_pos(),
            p <= self.spec_bytes().len(),
    {
        proof {
            use_type_invariant(self);
        }
        self.pos
    }

    /// Total length of the underlying byte buffer.
    pub fn len(&self) -> (n: usize)
        ensures
            n == self.spec_bytes().len(),
    {
        self.bytes.len()
    }

    /// Returns `true` if the buffer contains no bytes.
    pub fn is_empty(&self) -> (b: bool)
        ensures
            b == (self.spec_bytes().len() == 0),
    {
        self.bytes.len() == 0
    }

    /// The raw byte slice underlying this stream.
    pub fn bytes(&self) -> (b: &[u8])
        ensures
            b@ == self.spec_bytes(),
    {
        self.bytes
    }

    /// The label map computed during construction: absolute byte offsets of
    /// referenced jump targets, named `L0`, `L1`, ... in address order.
    pub fn labels(&self) -> (m: &BTreeMap<usize, String>)
        ensures
            m@ == self.spec_labels(),
    {
        &self.labels
    }

    /// Seek to absolute byte offset `pos`, anywhere in `[0, len]`.
    ///
    /// Fails with [`Error::SeekOutOfBounds`], leaving the cursor unchanged,
    /// if `pos > len`.
    pub fn seek(&mut self, pos: usize) -> (r: Result<(), Error>)
        ensures
            final(self).spec_bytes() == old(self).spec_bytes(),
            final(self).spec_labels() == old(self).spec_labels(),
            pos <= old(self).spec_bytes().len() ==> r is Ok && final(self).spec_pos() == pos,
            pos > old(self).spec_bytes().len() ==> r == Err::<(), Error>(
                Error::SeekOutOfBounds { target: pos, len: old(self).spec_bytes().len() as usize },
            ) && final(self).spec_pos() == old(self).spec_pos(),
    {
        if pos > self.bytes.len() {
            return Err(Error::SeekOutOfBounds { target: pos, len: self.bytes.len() });
        }
        self.pos = pos;
        Ok(())
    }

    /// Decode and return the next instruction, advancing the cursor.
    ///
    /// Returns `None` at the end of the buffer; `Some(Ok((offset, label,
    /// instruction)))` on a successful decode, where `label` is the name of
    /// the jump target at `offset`, if any; `Some(Err(e))` when the bytes at
    /// the cursor cannot be decoded, in which case the cursor advances by
    /// one byte.
    pub fn next_instruction(&mut self) -> (r: Option<Result<(usize, Option<String>, Instruction), Error>>)
        ensures
            final(self).spec_bytes() == old(self).spec_bytes(),
            final(self).spec_labels() == old(self).spec_labels(),
            old(self).spec_pos() >= old(self).spec_bytes().len() ==> r is None && final(self).spec_pos()
                == old(self).spec_pos(),
            old(self).spec_pos() < old(self).spec_bytes().len() ==> {
                let (item, next) = spec_step(old(self).spec_bytes(), old(self).spec_pos());
                &&& final(self).spec_pos() == next
                &&& r matches Some(res)
                &&& match (res, item) {
                    (Ok((off, lab, i)), Ok((p, j))) => off == p && i == j && match lab {
                        Some(name) => old(self).spec_labels().contains_key(off) && old(self).spec_labels()[off]
                            == name,
                        None => !old(self).spec_labels().contains_key(off),
                    },
                    (Err(e), Err(f)) => e == f,
                    _ => false,
                }
            },
    {
        proof {
            use_type_invariant(&*self);
        }
        if self.pos >= self.bytes.len() {
            return None;
        }
        let offset = self.pos;
        let label = match self.labels.get(&offset) {
            Some(name) => Some(name.clone()),
            None => None,
        };
        match codec::decode_at(self.bytes, offset) {
            Ok((instr, consumed)) => {
                self.pos = offset + consumed;
                Some(Ok((offset, label, instr)))
            },
            Err(e) => {
                self.pos = offset + 1;
                Some(Err(map_decode_error(e, offset)))
            },
        }
    }
}

impl<'a> Clone for InstructionStream<'a> {
    fn clone(&self) -> (c: Self)
        ensures
            c.spec_bytes() == self.spec_bytes(),
            c.spec_pos() == self.spec_pos(),
            c.spec_labels() == self.spec_labels(),
    {
        proof {
            use_type_invariant(self);
        }
        InstructionStream { bytes: self.bytes, pos: self.pos, labels: self.labels.clone() }
    }
}

/// Turn a codec failure at `offset` into a stream error.
fn map_decode_error(e: DecodeError, offset: usize) -> (r: Error)
    ensures
        r == (match e {
            DecodeError::UnknownOpcode { byte } => Error::UnknownOpcode { offset, byte },
            _ => Error::TruncatedInstruction { offset },
        }),
{
    match e {
        DecodeError::UnknownOpcode { byte } => Error::UnknownOpcode { offset, byte },
        _ => Error::TruncatedInstruction { offset },
    }
}

/// The number of items among `items` that decoded to an instruction.
pub open spec fn count_decoded(items: Seq<Result<(usize, Instruction), Error>>) -> nat
    decreases items.len(),
{
    if items.len() == 0 {
        0
    } else {
        count_decoded(items.drop_last()) + if items.last() is Ok {
            1nat
        } else {
            0nat
        }
    }
}

/// The number of instructions that decode in `buf`; bytes that do not
/// decode are skipped one at a time.
pub fn instruction_count(buf: &[u8]) -> (n: usize)
    ensures
        n == count_decoded(spec_items(buf@)),
{
    let mut s = InstructionStream::new(buf);
    let mut count: usize = 0;
    let ghost mut seen: Seq<Result<(usize, Instruction), Error>> = Seq::empty();
    proof {
        assert(spec_items(buf@) == seen + spec_items_from(buf@, 0));
    }
    loop
        invariant
            s.spec_bytes() == buf@,
            s.spec_pos() <= buf@.len(),
            spec_items(buf@) == seen + spec_items_from(buf@, s.spec_pos()),
            count == count_decoded(seen),
            count <= s.spec_pos(),
        ensures
            count == count_decoded(spec_items(buf@)),
        decreases buf@.len() - s.spec_pos(),
    {
        let ghost pos = s.spec_pos();
        match s.next_instruction() {
            None => {
                proof {
                    assert(seen + spec_items_from(buf@, pos) =~= seen);
                }
                break;
            },
            Some(r) => {
                proof {
                    lemma_items_unfold(buf@, pos);
                    lemma_step_advances(buf@, pos);
                    let item = spec_step(buf@, pos).0;
                    assert(seen.push(item) + spec_items_from(buf@, s.spec_pos()) =~= seen + (seq![item]
                        + spec_items_from(buf@, s.spec_pos())));
                    assert(seen.push(item).drop_last() =~= seen);
                    seen = seen.push(item);
                }
                if r.is_ok() {
                    count += 1;
                }
            },
        }
    }
    count
}

} // verus!
