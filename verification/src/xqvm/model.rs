//! The XQMX register payloads read by the register-value logic: a model and
//! a sample, each addressed as a `rows x cols` grid over a linear surface.

use std::collections::BTreeMap;

use vstd::prelude::*;

verus! {

broadcast use vstd::std_specs::btree::group_btree_axioms;

/// The variable domain of an XQMX model.
#[derive(Debug, Clone, Copy, PartialEq, Eq, Structural)]
pub enum Domain {
    /// Variables in `{0, 1}` (QUBO).
    Binary,
    /// Variables in `{-1, +1}` (Ising).
    Spin,
    /// Variables in `{0, .., k - 1}`.
    Discrete(u64),
}

/// An XQMX model: `size` variables with sparse linear coefficients, laid
/// out as a `rows x cols` grid.
#[derive(Debug, Clone)]
pub struct XqmxModel {
    /// The variable domain.
    pub domain: Domain,
    /// Number of variables.
    pub size: usize,
    /// Grid rows.
    pub rows: usize,
    /// Grid columns.
    pub cols: usize,
    /// Non-zero linear coefficients by variable index.
    pub linear: BTreeMap<usize, i64>,
}

/// The coefficient a sparse map gives variable `idx`: 0 when absent.
pub open spec fn coefficient(linear: Map<usize, i64>, idx: usize) -> i64 {
    if linear.contains_key(idx) {
        linear[idx]
    } else {
        0
    }
}

impl XqmxModel {
    /// A model of `size` variables with no coefficients, as a `1 x size`
    /// grid.
    pub fn new(domain: Domain, size: usize) -> (m: Self)
        ensures
            m.domain == domain,
            m.size == size,
            m.rows == 1,
            m.cols == size,
            m.linear@ == Map::<usize, i64>::empty(),
    {
        XqmxModel { domain, size, rows: 1, cols: size, linear: BTreeMap::new() }
    }

    /// The linear coefficient of variable `idx` (0 when absent).
    pub fn get_linear(&self, idx: usize) -> (v: i64)
        ensures
            v == coefficient(self.linear@, idx),
    {
        match self.linear.get(&idx) {
            Some(v) => *v,
            None => 0,
        }
    }

    /// Set the linear coefficient of variable `idx`; a zero drops the entry.
    pub fn set_linear(&mut self, idx: usize, val: i64)
        ensures
            final(self).domain == old(self).domain,
            final(self).size == old(self).size,
            final(self).rows == old(self).rows,
            final(self).cols == old(self).cols,
            final(self).linear@ == (if val == 0 {
                old(self).linear@.remove(idx)
            } else {
                old(self).linear@.insert(idx, val)
            }),
    {
        if val == 0 {
            self.linear.remove(&idx);
        } else {
            self.linear.insert(idx, val);
        }
    }

    /// Add `delta` to the linear coefficient of variable `idx`.
    pub fn add_linear(&mut self, idx: usize, delta: i64)
        requires
            i64::MIN <= coefficient(old(self).linear@, idx) + delta <= i64::MAX,
        ensures
            final(self).domain == old(self).domain,
            final(self).size == old(self).size,
            final(self).rows == old(self).rows,
            final(self).cols == old(self).cols,
            coefficient(final(self).linear@, idx) == coefficient(old(self).linear@, idx) + delta,
            forall|j: usize| j != idx ==> coefficient(final(self).linear@, j) == coefficient(old(self).linear@, j),
    {
        let v = self.get_linear(idx);
        self.set_linear(idx, v + delta);
    }
}

/// A candidate solution for an XQMX model: one value per variable, laid
/// out as a `rows x cols` grid.
#[derive(Debug, Clone)]
pub struct XqmxSample {
    /// Grid rows.
    pub rows: usize,
    /// Grid columns.
    pub cols: usize,
    /// The value of each variable.
    pub values: Vec<i64>,
}

} // verus!
