//! Register values of the XQVM runtime.

use vstd::prelude::*;

use super::model::{XqmxModel, XqmxSample, coefficient};

verus! {

/// A value that can be stored in an XQVM register.
///
/// Registers begin in the `Unset` state. `STOW`, `INPUT`, `LVAL`, `LIDX`
/// and the allocator instructions (`BQMX`, `VECI`, ...) give a register one
/// of the typed values; `DROP` returns it to `Unset`.
#[derive(Debug, Clone)]
pub enum RegVal {
    /// Register has no value; reading it faults.
    Unset,
    /// Integer. Exchanges values with the stack via `LOAD`/`STOW`.
    Int(i64),
    /// Integer vector, created by `VECI` or `VEC`.
    VecInt(Vec<i64>),
    /// XQMX model vector, created by `VECX`.
    VecXqmx(Vec<XqmxModel>),
    /// XQMX model (QUBO/Ising/discrete), created by `BQMX`/`SQMX`/`XQMX`.
    Model(XqmxModel),
    /// XQMX sample, created by `BSMX`/`SSMX`/`XSMX`.
    Sample(XqmxSample),
}

/// The type name of a register value, as error messages spell it.
pub open spec fn kind_name(v: RegVal) -> Seq<char> {
    match v {
        RegVal::Unset => "unset"@,
        RegVal::Int(_) => "int"@,
        RegVal::VecInt(_) => "vec<int>"@,
        RegVal::VecXqmx(_) => "vec<xqmx>"@,
        RegVal::Model(_) => "model"@,
        RegVal::Sample(_) => "sample"@,
    }
}

impl Default for RegVal {
    /// An uninitialised register.
    fn default() -> (r: Self)
        ensures
            r is Unset,
    {
        RegVal::Unset
    }
}

/// A read-only view of the grid surface of a model or sample register.
pub enum XqmxGridRef<'a> {
    Model(&'a XqmxModel),
    Sample(&'a XqmxSample),
}

impl<'a> XqmxGridRef<'a> {
    /// Grid rows.
    pub fn rows(&self) -> (r: usize)
        ensures
            r == match *self {
                XqmxGridRef::Model(m) => m.rows,
                XqmxGridRef::Sample(s) => s.rows,
            },
    {
        match self {
            XqmxGridRef::Model(m) => m.rows,
            XqmxGridRef::Sample(s) => s.rows,
        }
    }

    /// Grid columns.
    pub fn cols(&self) -> (c: usize)
        ensures
            c == match *self {
                XqmxGridRef::Model(m) => m.cols,
                XqmxGridRef::Sample(s) => s.cols,
            },
    {
        match self {
            XqmxGridRef::Model(m) => m.cols,
            XqmxGridRef::Sample(s) => s.cols,
        }
    }

    /// Number of addressable variables: the model's size, or the number of
    /// sample values.
    pub fn size(&self) -> (n: usize)
        ensures
            n == match *self {
                XqmxGridRef::Model(m) => m.size,
                XqmxGridRef::Sample(s) => s.values@.len() as usize,
            },
    {
        match self {
            XqmxGridRef::Model(m) => m.size,
            XqmxGridRef::Sample(s) => s.values.len(),
        }
    }

    /// `linear[idx]`: a sparse lookup for models (0 when absent), a dense
    /// one for samples (0 when out of bounds).
    pub fn linear(&self, idx: usize) -> (v: i64)
        ensures
            v == match *self {
                XqmxGridRef::Model(m) => coefficient(m.linear@, idx),
                XqmxGridRef::Sample(s) => if idx < s.values@.len() {
                    s.values@[idx as int]
                } else {
                    0
                },
            },
    {
        match self {
            XqmxGridRef::Model(m) => m.get_linear(idx),
            XqmxGridRef::Sample(s) => {
                if idx < s.values.len() {
                    s.values[idx]
                } else {
                    0
                }
            },
        }
    }
}

impl RegVal {
    /// The integer value, or the type name when the register holds
    /// something else.
    pub fn as_int(&self) -> (r: Result<i64, &'static str>)
        ensures
            match *self {
                RegVal::Int(n) => r == Ok::<i64, &'static str>(n),
                _ => r matches Err(s) && s@ == kind_name(*self),
            },
    {
        match self {
            RegVal::Int(n) => Ok(*n),
            _ => Err(self.kind()),
        }
    }

    /// The model, or the type name when the register holds something else.
    pub fn as_model(&self) -> (r: Result<&XqmxModel, &'static str>)
        ensures
            match *self {
                RegVal::Model(m) => r matches Ok(x) && *x == m,
                _ => r matches Err(s) && s@ == kind_name(*self),
            },
    {
        match self {
            RegVal::Model(m) => Ok(m),
            _ => Err(self.kind()),
        }
    }

    /// The integer vector, or the type name when the register holds
    /// something else.
    pub fn as_vec_int(&self) -> (r: Result<&Vec<i64>, &'static str>)
        ensures
            match *self {
                RegVal::VecInt(v) => r matches Ok(x) && *x == v,
                _ => r matches Err(s) && s@ == kind_name(*self),
            },
    {
        match self {
            RegVal::VecInt(v) => Ok(v),
            _ => Err(self.kind()),
        }
    }

    /// Mutable access to the model, or the type name when the register
    /// holds something else.
    pub fn as_model_mut(&mut self) -> (r: Result<&mut XqmxModel, &'static str>)
        ensures
            match *old(self) {
                RegVal::Model(m) => r matches Ok(x) && *x == m && *final(self) == RegVal::Model(*final(x)),
                _ => r matches Err(s) && s@ == kind_name(*old(self)) && *final(self) == *old(self),
            },
    {
        match self {
            RegVal::Model(m) => Ok(m),
            _ => Err(self.kind()),
        }
    }

    /// Mutable access to the integer vector, or the type name when the
    /// register holds something else.
    pub fn as_vec_int_mut(&mut self) -> (r: Result<&mut Vec<i64>, &'static str>)
        ensures
            match *old(self) {
                RegVal::VecInt(v) => r matches Ok(x) && *x == v && *final(self) == RegVal::VecInt(*final(x)),
                _ => r matches Err(s) && s@ == kind_name(*old(self)) && *final(self) == *old(self),
            },
    {
        match self {
            RegVal::VecInt(v) => Ok(v),
            _ => Err(self.kind()),
        }
    }

    /// The type name for error messages.
    pub fn kind(&self) -> (s: &'static str)
        ensures
            s@ == kind_name(*self),
    {
        match self {
            RegVal::Unset => "unset",
            RegVal::Int(_) => "int",
            RegVal::VecInt(_) => "vec<int>",
            RegVal::VecXqmx(_) => "vec<xqmx>",
            RegVal::Model(_) => "model",
            RegVal::Sample(_) => "sample",
        }
    }

    /// A grid view when the register holds a model or a sample, or the type
    /// name.
    pub fn as_xqmx_grid(&self) -> (r: Result<XqmxGridRef<'_>, &'static str>)
        ensures
            match *self {
                RegVal::Model(m) => r matches Ok(XqmxGridRef::Model(x)) && *x == m,
                RegVal::Sample(s) => r matches Ok(XqmxGridRef::Sample(x)) && *x == s,
                _ => r matches Err(s) && s@ == kind_name(*self),
            },
    {
        match self {
            RegVal::Model(m) => Ok(XqmxGridRef::Model(m)),
            RegVal::Sample(s) => Ok(XqmxGridRef::Sample(s)),
            _ => Err(self.kind()),
        }
    }

}


/// A mutable view of the grid surface of a model or sample register.
pub enum XqmxGridRefMut<'a> {
    Model(&'a mut XqmxModel),
    Sample(&'a mut XqmxSample),
}

impl<'a> XqmxGridRefMut<'a> {
    /// Give the grid a `rows x cols` shape.
    pub fn set_grid(&mut self, rows: usize, cols: usize)
        ensures
            match *old(self) {
                XqmxGridRefMut::Model(m) => *final(self) matches XqmxGridRefMut::Model(x) && *x == XqmxModel { rows, cols, ..*m } && *final(x) == *final(m),
                XqmxGridRefMut::Sample(s) => *final(self) matches XqmxGridRefMut::Sample(x) && *x == XqmxSample { rows, cols, ..*s } && *final(x) == *final(s),
            },
    {
        match self {
            XqmxGridRefMut::Model(m) => {
                m.rows = rows;
                m.cols = cols;
            },
            XqmxGridRefMut::Sample(s) => {
                s.rows = rows;
                s.cols = cols;
            },
        }
    }

    /// Number of variables: the model's size, or the sample's length.
    pub fn size(&self) -> (n: usize)
        ensures
            n == match *self {
                XqmxGridRefMut::Model(m) => m.size,
                XqmxGridRefMut::Sample(s) => s.values@.len() as usize,
            },
    {
        match self {
            XqmxGridRefMut::Model(m) => m.size,
            XqmxGridRefMut::Sample(s) => s.values.len(),
        }
    }

    /// `linear[idx] = val`: on a model a zero drops the entry; on a sample
    /// an index out of bounds is ignored.
    pub fn linear_set(&mut self, idx: usize, val: i64)
        ensures
            match *old(self) {
                XqmxGridRefMut::Model(m) => *final(self) matches XqmxGridRefMut::Model(x) && x.domain == m.domain
                    && x.size == m.size && x.rows == m.rows && x.cols == m.cols && x.linear@ == (if val == 0 {
                    m.linear@.remove(idx)
                } else {
                    m.linear@.insert(idx, val)
                }) && *final(x) == *final(m),
                XqmxGridRefMut::Sample(s) => *final(self) matches XqmxGridRefMut::Sample(x) && x.rows == s.rows
                    && x.cols == s.cols && x.values@ == (if idx < s.values@.len() {
                    s.values@.update(idx as int, val)
                } else {
                    s.values@
                }) && *final(x) == *final(s),
            },
    {
        match self {
            XqmxGridRefMut::Model(m) => m.set_linear(idx, val),
            XqmxGridRefMut::Sample(s) => {
                if idx < s.values.len() {
                    s.values.set(idx, val);
                }
            },
        }
    }

    /// `linear[idx] += delta`: on a sample an index out of bounds is
    /// ignored.
    pub fn linear_add(&mut self, idx: usize, delta: i64)
        requires
            match *old(self) {
                XqmxGridRefMut::Model(m) => i64::MIN <= coefficient(m.linear@, idx) + delta <= i64::MAX,
                XqmxGridRefMut::Sample(s) => idx < s.values@.len() ==> i64::MIN <= s.values@[idx as int] + delta
                    <= i64::MAX,
            },
        ensures
            match *old(self) {
                XqmxGridRefMut::Model(m) => *final(self) matches XqmxGridRefMut::Model(x) && x.domain == m.domain
                    && x.size == m.size && x.rows == m.rows && x.cols == m.cols && coefficient(x.linear@, idx)
                    == coefficient(m.linear@, idx) + delta && (forall|j: usize|
                    j != idx ==> coefficient(x.linear@, j) == coefficient(m.linear@, j)) && *final(x) == *final(m),
                XqmxGridRefMut::Sample(s) => *final(self) matches XqmxGridRefMut::Sample(x) && x.rows == s.rows
                    && x.cols == s.cols && x.values@ == (if idx < s.values@.len() {
                    s.values@.update(idx as int, (s.values@[idx as int] + delta) as i64)
                } else {
                    s.values@
                }) && *final(x) == *final(s),
            },
    {
        match self {
            XqmxGridRefMut::Model(m) => m.add_linear(idx, delta),
            XqmxGridRefMut::Sample(s) => {
                if idx < s.values.len() {
                    let v = s.values[idx] + delta;
                    s.values.set(idx, v);
                }
            },
        }
    }
}

impl RegVal {
    /// A mutable grid view when the register holds a model or a sample, or
    /// the type name.
    pub fn as_xqmx_grid_mut(&mut self) -> (r: Result<XqmxGridRefMut<'_>, &'static str>)
        ensures
            match *old(self) {
                RegVal::Model(m) => r matches Ok(XqmxGridRefMut::Model(x)) && *x == m && *final(self) == RegVal::Model(*final(x)),
                RegVal::Sample(s) => r matches Ok(XqmxGridRefMut::Sample(x)) && *x == s && *final(self) == RegVal::Sample(*final(x)),
                _ => r matches Err(s) && s@ == kind_name(*old(self)) && *final(self) == *old(self),
            },
    {
        match self {
            RegVal::Model(m) => Ok(XqmxGridRefMut::Model(m)),
            RegVal::Sample(s) => Ok(XqmxGridRefMut::Sample(s)),
            _ => Err(self.kind()),
        }
    }
}

} // verus!
