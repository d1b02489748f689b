//! Constant pool for XQVM bytecode.
//!
//! A [`ConstantPool`] stores `i64` values referenced by a `u16` pool index.
//! Values are stored in insertion order and deduplicated: interning the same
//! value twice returns the same index both times without growing the pool.

use std::collections::HashMap;

use vstd::prelude::*;

verus! {

broadcast use vstd::std_specs::hash::group_hash_axioms;

/// Error returned when [`ConstantPool::intern`] is called on a full pool.
///
/// A pool holds at most 65535 distinct entries (the maximum `u16` value).
#[derive(Debug, Clone, Copy, PartialEq, Eq, Structural)]
pub struct PoolOverflow;

impl PoolOverflow {
    /// The error's message.
    pub fn message(&self) -> (s: &'static str)
        ensures
            s@ == "constant pool is full (maximum 65535 distinct entries)"@,
    {
        "constant pool is full (maximum 65535 distinct entries)"
    }
}

/// The most distinct values a pool can hold.
pub const POOL_CAPACITY: usize = 0xffff;

/// A table of interned `i64` constants.
///
/// Its view is the sequence of constants in insertion order; the position of
/// each value is its pool index. No value occurs twice.
#[derive(Debug)]
pub struct ConstantPool {
    entries: Vec<i64>,
    /// Reverse map for constant-time deduplication in `intern`.
    index: HashMap<i64, u16>,
}

/// The entries and the reverse map agree: each entry maps to its position,
/// and each key of the map is the entry at the position it maps to.
spec fn pool_wf(entries: Seq<i64>, index: Map<i64, u16>) -> bool {
    &&& entries.len() <= POOL_CAPACITY
    &&& forall|i: int|
        0 <= i < entries.len() ==> #[trigger] index.contains_key(entries[i]) && index[entries[i]] == i
    &&& forall|k: i64|
        #[trigger] index.contains_key(k) ==> index[k] < entries.len() && entries[index[k] as int] == k
}

/// Entries that agree with a reverse map hold no value twice.
proof fn lemma_pool_distinct(entries: Seq<i64>, index: Map<i64, u16>)
    requires
        pool_wf(entries, index),
    ensures
        entries.no_duplicates(),
{
    assert forall|i: int, j: int|
        0 <= i < entries.len() && 0 <= j < entries.len() && i != j implies entries[i] != entries[j] by {
        assert(index.contains_key(entries[i]));
        assert(index.contains_key(entries[j]));
    }
}

impl View for ConstantPool {
    type V = Seq<i64>;

    closed spec fn view(&self) -> Seq<i64> {
        self.entries@
    }
}

impl ConstantPool {
    #[verifier::type_invariant]
    spec fn wf(self) -> bool {
        pool_wf(self.entries@, self.index@)
    }

    /// Create an empty constant pool.
    pub fn new() -> (p: Self)
        ensures
            p@ == Seq::<i64>::empty(),
    {
        ConstantPool { entries: Vec::new(), index: HashMap::new() }
    }

    /// Intern `value` and return its pool index.
    ///
    /// If `value` is already in the pool, its existing index is returned and
    /// the pool is unchanged. Otherwise a new entry is appended and its index
    /// returned, unless the pool already holds 65535 values.
    pub fn intern(&mut self, value: i64) -> (r: Result<u16, PoolOverflow>)
        ensures
            final(self)@.no_duplicates(),
            old(self)@.contains(value) ==> {
                &&& final(self)@ == old(self)@
                &&& r matches Ok(idx) && idx < old(self)@.len() && old(self)@[idx as int] == value
            },
            !old(self)@.contains(value) && old(self)@.len() >= POOL_CAPACITY ==> {
                &&& final(self)@ == old(self)@
                &&& r == Err::<u16, PoolOverflow>(PoolOverflow)
            },
            !old(self)@.contains(value) && old(self)@.len() < POOL_CAPACITY ==> {
                &&& final(self)@ == old(self)@.push(value)
                &&& r == Ok::<u16, PoolOverflow>(old(self)@.len() as u16)
            },
    {
        proof {
            use_type_invariant(&*self);
            lemma_pool_distinct(self.entries@, self.index@);
        }
        match self.index.get(&value) {
            Some(idx) => {
                let idx: u16 = *idx;
                return Ok(idx);
            },
            None => {},
        }
        proof {
            assert(!self.entries@.contains(value)) by {
                if self.entries@.contains(value) {
                    let i = choose|i: int| 0 <= i < self.entries@.len() && self.entries@[i] == value;
                    assert(self.index@.contains_key(self.entries@[i]));
                }
            }
        }
        if self.entries.len() >= POOL_CAPACITY {
            return Err(PoolOverflow);
        }
        let idx: u16 = self.entries.len() as u16;
        let ghost old_entries = self.entries@;
        let ghost old_index = self.index@;
        let ghost entries = old_entries.push(value);
        let ghost index = old_index.insert(value, idx);
        proof {
            assert forall|i: int| 0 <= i < entries.len() implies #[trigger] index.contains_key(entries[i])
                && index[entries[i]] == i by {
                if i < old_entries.len() {
                    assert(old_index.contains_key(old_entries[i]));
                    assert(old_entries[i] != value);
                }
            }
            assert forall|k: i64| #[trigger] index.contains_key(k) implies index[k] < entries.len()
                && entries[index[k] as int] == k by {
                if k != value {
                    assert(old_index.contains_key(k));
                }
            }
            lemma_pool_distinct(entries, index);
        }
        let mut taken = ConstantPool::new();
        std::mem::swap(self, &mut taken);
        let ConstantPool { entries: mut new_entries, index: mut new_index } = taken;
        new_entries.push(value);
        new_index.insert(value, idx);
        *self = ConstantPool { entries: new_entries, index: new_index };
        Ok(idx)
    }

    /// Return the value stored at `idx`, or `None` if `idx` is out of bounds.
    pub fn get(&self, idx: u16) -> (r: Option<i64>)
        ensures
            r == (if idx < self@.len() {
                Some(self@[idx as int])
            } else {
                None::<i64>
            }),
    {
        if (idx as usize) < self.entries.len() {
            Some(self.entries[idx as usize])
        } else {
            None
        }
    }

    /// Number of distinct constants in the pool.
    pub fn len(&self) -> (n: usize)
        ensures
            n == self@.len(),
    {
        self.entries.len()
    }

    /// Returns `true` if the pool contains no entries.
    pub fn is_empty(&self) -> (b: bool)
        ensures
            b == (self@.len() == 0),
    {
        self.entries.len() == 0
    }

    /// The constants in insertion order; the position of each value is its
    /// pool index.
    pub fn entries(&self) -> (s: &[i64])
        ensures
            s@ == self@,
    {
        self.entries.as_slice()
    }
}

impl Clone for ConstantPool {
    fn clone(&self) -> (p: Self)
        ensures
            p@ == self@,
    {
        proof {
            use_type_invariant(self);
        }
        let entries = self.entries.clone();
        let index = self.index.clone();
        proof {
            assert(entries@ =~= self.entries@);
        }
        ConstantPool { entries, index }
    }
}

impl Default for ConstantPool {
    fn default() -> (p: Self)
        ensures
            p@ == Seq::<i64>::empty(),
    {
        ConstantPool::new()
    }
}

} // verus!
