//! Jump table: maps label indices to basic-block byte ranges.
//!
//! A [`JumpTable`] is a sequence of [`JumpEntry`] triples
//! `(label, start, end)` where `start` and `end` are absolute byte offsets
//! into the instruction stream.
//!
//! ## Wire format
//!
//! | Field | Type | Bytes |
//! |---|---|---|
//! | `entry_count` | u16 BE | 2 |
//! | Per entry: `label` | u16 BE | 2 |
//! | Per entry: `start` | u32 BE | 4 |
//! | Per entry: `end` | u32 BE | 4 |
//!
//! Total: `2 + 10 * entry_count` bytes.

use vstd::prelude::*;

use crate::text::decimal::{push_decimal, spec_decimal};

verus! {

/// A single jump-table entry: maps a label index to the byte range
/// `[start, end)` of a basic block.
#[derive(Debug, Clone, Copy, PartialEq, Eq, Structural)]
pub struct JumpEntry {
    /// Zero-based label index.
    pub label: u16,
    /// Start offset (inclusive) of the basic block in the instruction stream.
    pub start: u32,
    /// End offset (exclusive) of the basic block in the instruction stream.
    pub end: u32,
}

/// Byte size of a single wire-encoded entry (2 + 4 + 4).
pub const ENTRY_SIZE: usize = 10;

/// Error returned when decoding a [`JumpTable`] from bytes.
#[derive(Debug, Clone, Copy, PartialEq, Eq, Structural)]
pub enum DecodeError {
    /// The input is too short to contain the entry-count header.
    TruncatedHeader {
        /// Actual byte length available.
        len: usize,
    },
    /// The input is too short for the declared number of entries.
    TruncatedEntries {
        /// Declared entry count.
        count: u16,
        /// Bytes required for the entries.
        expected: usize,
        /// Bytes actually available after the header.
        available: usize,
    },
}

impl DecodeError {
    /// The error's message.
    pub fn message(&self) -> (s: String)
        ensures
            s@ == match *self {
                DecodeError::TruncatedHeader { len } => "jump table truncated: need at least 2 bytes, got "@
                    + spec_decimal(len as nat),
                DecodeError::TruncatedEntries { count, expected, available } =>
                    "jump table truncated: header declares "@ + spec_decimal(count as nat) + " entries ("@
                    + spec_decimal(expected as nat) + " bytes) but only "@ + spec_decimal(available as nat)
                    + " bytes remain"@,
            },
    {
        proof {
            reveal_strlit("jump table truncated: need at least 2 bytes, got ");
            reveal_strlit("jump table truncated: header declares ");
            reveal_strlit(" entries (");
            reveal_strlit(" bytes) but only ");
            reveal_strlit(" bytes remain");
        }
        let mut out = String::new();
        match self {
            DecodeError::TruncatedHeader { len } => {
                out.append("jump table truncated: need at least 2 bytes, got ");
                push_decimal(&mut out, *len);
            },
            DecodeError::TruncatedEntries { count, expected, available } => {
                out.append("jump table truncated: header declares ");
                push_decimal(&mut out, *count as usize);
                out.append(" entries (");
                push_decimal(&mut out, *expected);
                out.append(" bytes) but only ");
                push_decimal(&mut out, *available);
                out.append(" bytes remain");
            },
        }
        out
    }
}

/// Big-endian bytes of a 16-bit value.
pub open spec fn be16(x: u16) -> Seq<u8> {
    seq![(x / 256) as u8, (x % 256) as u8]
}

/// Big-endian bytes of a 32-bit value.
pub open spec fn be32(x: u32) -> Seq<u8> {
    seq![(x / 0x100_0000) as u8, (x / 0x1_0000 % 256) as u8, (x / 256 % 256) as u8, (x % 256) as u8]
}

/// The 16-bit big-endian value stored at `s[p..p + 2]`.
pub open spec fn read_be16(s: Seq<u8>, p: int) -> u16 {
    (s[p] * 256 + s[p + 1]) as u16
}

/// The 32-bit big-endian value stored at `s[p..p + 4]`.
pub open spec fn read_be32(s: Seq<u8>, p: int) -> u32 {
    (s[p] * 0x100_0000 + s[p + 1] * 0x1_0000 + s[p + 2] * 256 + s[p + 3]) as u32
}

/// The wire encoding of one entry.
pub open spec fn entry_bytes(e: JumpEntry) -> Seq<u8> {
    be16(e.label) + be32(e.start) + be32(e.end)
}

/// The wire encoding of a run of entries, one after another.
pub open spec fn entries_bytes(s: Seq<JumpEntry>) -> Seq<u8>
    decreases s.len(),
{
    if s.len() == 0 {
        Seq::empty()
    } else {
        entries_bytes(s.drop_last()) + entry_bytes(s.last())
    }
}

/// The wire encoding of a table with entries `s`. The count header holds
/// the number of entries truncated to 16 bits.
pub open spec fn spec_encode(s: Seq<JumpEntry>) -> Seq<u8> {
    be16((s.len() % 0x1_0000) as u16) + entries_bytes(s)
}

/// The entry stored at `s[p..p + 10]`.
pub open spec fn read_entry(s: Seq<u8>, p: int) -> JumpEntry {
    JumpEntry { label: read_be16(s, p), start: read_be32(s, p + 2), end: read_be32(s, p + 6) }
}

/// The result of decoding a table from the start of `s`: its entries and
/// the number of bytes consumed.
pub open spec fn spec_decode(s: Seq<u8>) -> Result<(Seq<JumpEntry>, nat), DecodeError> {
    if s.len() < 2 {
        Err(DecodeError::TruncatedHeader { len: s.len() as usize })
    } else {
        let count = read_be16(s, 0);
        let expected = count * 10;
        let available = s.len() - 2;
        if available < expected {
            Err(
                DecodeError::TruncatedEntries {
                    count,
                    expected: expected as usize,
                    available: available as usize,
                },
            )
        } else {
            Ok((Seq::new(count as nat, |k: int| read_entry(s, 2 + 10 * k)), (2 + expected) as nat))
        }
    }
}

/// A collection of basic-block descriptors used by `JUMP` / `JUMPI`.
#[derive(Debug, Clone, PartialEq, Eq)]
pub struct JumpTable {
    entries: Vec<JumpEntry>,
}

impl View for JumpTable {
    type V = Seq<JumpEntry>;

    closed spec fn view(&self) -> Seq<JumpEntry> {
        self.entries@
    }
}

impl Default for JumpTable {
    fn default() -> (t: Self)
        ensures
            t@ == Seq::<JumpEntry>::empty(),
    {
        JumpTable { entries: Vec::new() }
    }
}

/// The index of the first entry of `s` whose label is `label`, if any.
pub open spec fn first_with_label(s: Seq<JumpEntry>, label: u16) -> Option<int> {
    if exists|i: int| 0 <= i < s.len() && #[trigger] s[i].label == label {
        Some(choose|i: int| 0 <= i < s.len() && s[i].label == label && (forall|j: int| 0 <= j < i ==> #[trigger] s[j].label != label))
    } else {
        None
    }
}

impl JumpTable {
    /// Create a jump table from a list of entries.
    pub fn new(entries: Vec<JumpEntry>) -> (t: Self)
        ensures
            t@ == entries@,
    {
        JumpTable { entries }
    }

    /// Look up the first entry whose label is `label`.
    pub fn get(&self, label: u16) -> (r: Option<&JumpEntry>)
        ensures
            match r {
                Some(e) => exists|i: int|
                    0 <= i < self@.len() && self@[i] == *e && e.label == label && (forall|j: int|
                        0 <= j < i ==> #[trigger] self@[j].label != label),
                None => forall|i: int| 0 <= i < self@.len() ==> #[trigger] self@[i].label != label,
            },
    {
        let mut i: usize = 0;
        while i < self.entries.len()
            invariant
                i <= self.entries@.len(),
                forall|j: int| 0 <= j < i ==> #[trigger] self.entries@[j].label != label,
            decreases self.entries@.len() - i,
        {
            if self.entries[i].label == label {
                proof {
                    assert(self@[i as int] == self.entries@[i as int]);
                }
                return Some(&self.entries[i]);
            }
            i += 1;
        }
        None
    }

    /// The number of entries.
    pub fn len(&self) -> (n: usize)
        ensures
            n == self@.len(),
    {
        self.entries.len()
    }

    /// Whether the table is empty (no basic blocks).
    pub fn is_empty(&self) -> (b: bool)
        ensures
            b == (self@.len() == 0),
    {
        self.entries.len() == 0
    }

    /// Borrow the entries slice.
    pub fn entries(&self) -> (s: &[JumpEntry])
        ensures
            s@ == self@,
    {
        self.entries.as_slice()
    }

    /// Encode the jump table to bytes (big-endian wire format).
    pub fn encode(&self) -> (bytes: Vec<u8>)
        ensures
            bytes@ == spec_encode(self@),
    {
        let n = self.entries.len();
        let count: u16 = (n % 0x1_0000) as u16;
        let mut buf: Vec<u8> = Vec::new();
        push_be16(&mut buf, count);
        let ghost header = buf@;
        let mut k: usize = 0;
        while k < n
            invariant
                n == self.entries@.len(),
                k <= n,
                header == be16(count),
                buf@ == header + entries_bytes(self.entries@.take(k as int)),
            decreases n - k,
        {
            let e = self.entries[k];
            let ghost before = buf@;
            push_be16(&mut buf, e.label);
            push_be32(&mut buf, e.start);
            push_be32(&mut buf, e.end);
            proof {
                let t = self.entries@.take(k + 1);
                assert(t.drop_last() =~= self.entries@.take(k as int));
                assert(t.last() == e);
                assert(buf@ =~= header + entries_bytes(t));
            }
            k += 1;
        }
        proof {
            assert(self.entries@.take(n as int) =~= self.entries@);
        }
        buf
    }

    /// Decode a jump table from the start of `bytes`.
    ///
    /// Returns the decoded table and the number of bytes consumed.
    pub fn decode(bytes: &[u8]) -> (r: Result<(JumpTable, usize), DecodeError>)
        ensures
            match r {
                Ok((t, n)) => spec_decode(bytes@) == Ok::<(Seq<JumpEntry>, nat), DecodeError>((t@, n as nat)),
                Err(e) => spec_decode(bytes@) == Err::<(Seq<JumpEntry>, nat), DecodeError>(e),
            },
    {
        if bytes.len() < 2 {
            return Err(DecodeError::TruncatedHeader { len: bytes.len() });
        }
        let count: u16 = get_be16(bytes, 0);
        let body_len: usize = (count as usize) * ENTRY_SIZE;
        let available: usize = bytes.len() - 2;
        if available < body_len {
            return Err(DecodeError::TruncatedEntries { count, expected: body_len, available });
        }
        let mut entries: Vec<JumpEntry> = Vec::new();
        let mut pos: usize = 2;
        let mut k: u16 = 0;
        while k < count
            invariant
                count == read_be16(bytes@, 0),
                2 + count * 10 <= bytes@.len(),
                k <= count,
                pos == 2 + 10 * k,
                entries@ =~= Seq::new(k as nat, |j: int| read_entry(bytes@, 2 + 10 * j)),
            decreases count - k,
        {
            let label = get_be16(bytes, pos);
            let start = get_be32(bytes, pos + 2);
            let end = get_be32(bytes, pos + 6);
            entries.push(JumpEntry { label, start, end });
            pos += ENTRY_SIZE;
            k += 1;
        }
        Ok((JumpTable { entries }, pos))
    }
}

/// The length of the encoding of `s` is ten bytes per entry.
pub proof fn lemma_entries_bytes_len(s: Seq<JumpEntry>)
    ensures
        entries_bytes(s).len() == 10 * s.len(),
    decreases s.len(),
{
    if s.len() > 0 {
        lemma_entries_bytes_len(s.drop_last());
    }
}

/// The ten bytes at `10 * k` in the encoding of `s` are the encoding of
/// entry `k`.
pub proof fn lemma_entries_bytes_index(s: Seq<JumpEntry>, k: int)
    requires
        0 <= k < s.len(),
    ensures
        entries_bytes(s).subrange(10 * k, 10 * k + 10) == entry_bytes(s[k]),
    decreases s.len(),
{
    lemma_entries_bytes_len(s.drop_last());
    if k < s.len() - 1 {
        lemma_entries_bytes_index(s.drop_last(), k);
        lemma_entries_bytes_len(s.drop_last().drop_last());
        assert(entries_bytes(s).subrange(10 * k, 10 * k + 10) =~= entries_bytes(s.drop_last()).subrange(
            10 * k,
            10 * k + 10,
        ));
    } else {
        assert(entries_bytes(s).subrange(10 * k, 10 * k + 10) =~= entry_bytes(s[k]));
    }
}

/// Reading back the big-endian bytes of a value gives the value.
pub proof fn lemma_read_be(x: u16, y: u32)
    ensures
        read_be16(be16(x), 0) == x,
        read_be32(be32(y), 0) == y,
{
    assert(((x / 256) as u8) as int == x / 256);
    assert(((x % 256) as u8) as int == x % 256);
    assert(((y / 0x100_0000) as u8) as int == y / 0x100_0000);
    assert(((y / 0x1_0000 % 256) as u8) as int == y / 0x1_0000 % 256);
    assert(((y / 256 % 256) as u8) as int == y / 256 % 256);
    assert(((y % 256) as u8) as int == y % 256);
    assert((y / 0x100_0000) * 0x100_0000 + (y / 0x1_0000 % 256) * 0x1_0000 + (y / 256 % 256) * 256 + y % 256
        == y) by (nonlinear_arith);
}

/// The entry read at `p` is `e` when the ten bytes there encode `e`.
pub proof fn lemma_read_entry(b: Seq<u8>, p: int, e: JumpEntry)
    requires
        0 <= p,
        p + 10 <= b.len(),
        b.subrange(p, p + 10) == entry_bytes(e),
    ensures
        read_entry(b, p) == e,
{
    lemma_read_be(e.label, e.start);
    lemma_read_be(e.label, e.end);
    let w = b.subrange(p, p + 10);
    assert(w[0] == b[p] && w[1] == b[p + 1]);
    assert(w.subrange(0, 2) =~= be16(e.label));
    assert(w.subrange(2, 6) =~= be32(e.start));
    assert(w.subrange(6, 10) =~= be32(e.end));
    assert(read_be16(b, p) == read_be16(be16(e.label), 0));
    assert(read_be32(b, p + 2) == read_be32(be32(e.start), 0));
    assert(read_be32(b, p + 6) == read_be32(be32(e.end), 0));
}

/// Decoding the encoding of a table, followed by any bytes at all, gives
/// the same entries back and consumes `2 + 10 * n` bytes. The count header
/// holds 16 bits, so this holds for tables of at most 65535 entries.
pub proof fn lemma_decode_encode(s: Seq<JumpEntry>, rest: Seq<u8>)
    requires
        s.len() <= 0xffff,
    ensures
        spec_decode(spec_encode(s) + rest) == Ok::<(Seq<JumpEntry>, nat), DecodeError>((s, 2 + 10 * s.len())),
{
    let b = spec_encode(s) + rest;
    lemma_entries_bytes_len(s);
    lemma_read_be(s.len() as u16, 0);
    assert(b.subrange(0, 2) =~= be16(s.len() as u16));
    assert(read_be16(b, 0) == read_be16(be16(s.len() as u16), 0));
    assert(read_be16(b, 0) == s.len());
    let d = Seq::new(s.len(), |k: int| read_entry(b, 2 + 10 * k));
    assert forall|k: int| 0 <= k < s.len() implies d[k] == s[k] by {
        lemma_entries_bytes_index(s, k);
        assert(b.subrange(2 + 10 * k, 2 + 10 * k + 10) =~= entries_bytes(s).subrange(10 * k, 10 * k + 10));
        lemma_read_entry(b, 2 + 10 * k, s[k]);
    }
    assert(d =~= s);
}

/// The encoding of a table is two header bytes plus ten bytes per entry.
pub proof fn lemma_encode_len(s: Seq<JumpEntry>)
    ensures
        spec_encode(s).len() == 2 + 10 * s.len(),
{
    lemma_entries_bytes_len(s);
}

/// Append the big-endian bytes of `x`.
fn push_be16(buf: &mut Vec<u8>, x: u16)
    ensures
        final(buf)@ == old(buf)@ + be16(x),
{
    buf.push((x / 256) as u8);
    buf.push((x % 256) as u8);
    proof {
        assert(final(buf)@ =~= old(buf)@ + be16(x));
    }
}

/// Append the big-endian bytes of `x`.
fn push_be32(buf: &mut Vec<u8>, x: u32)
    ensures
        final(buf)@ == old(buf)@ + be32(x),
{
    buf.push((x / 0x100_0000) as u8);
    buf.push((x / 0x1_0000 % 256) as u8);
    buf.push((x / 256 % 256) as u8);
    buf.push((x % 256) as u8);
    proof {
        assert(final(buf)@ =~= old(buf)@ + be32(x));
    }
}

/// Read the big-endian 16-bit value at `bytes[p..p + 2]`.
fn get_be16(bytes: &[u8], p: usize) -> (x: u16)
    requires
        p + 2 <= bytes@.len(),
    ensures
        x == read_be16(bytes@, p as int),
{
    (bytes[p] as u16) * 256 + (bytes[p + 1] as u16)
}

/// Read the big-endian 32-bit value at `bytes[p..p + 4]`.
fn get_be32(bytes: &[u8], p: usize) -> (x: u32)
    requires
        p + 4 <= bytes@.len(),
    ensures
        x == read_be32(bytes@, p as int),
{
    (bytes[p] as u32) * 0x100_0000 + (bytes[p + 1] as u32) * 0x1_0000 + (bytes[p + 2] as u32) * 256
        + (bytes[p + 3] as u32)
}

} // verus!
