//! Register values of the stack interpreter.

use vstd::prelude::*;

use crate::xqvm::model::{XqmxModel, XqmxSample};

verus! {

/// A value that can be stored in a register. All registers default to
/// `Int(0)`; the allocation instruction used (`BQMX`, `VECI`, ...) decides
/// the type.
#[derive(Debug, Clone)]
pub enum RegVal {
    /// Integer (default). Exchanges values with the stack via `LOAD`/`STOW`.
    Int(i64),
    /// Integer vector, created by `VECI` or `VEC`.
    VecInt(Vec<i64>),
    /// XQMX model vector, created by `VECX`.
    VecXqmx(Vec<XqmxModel>),
    /// XQMX model (QUBO/Ising/discrete), created by `BQMX`/`SQMX`/`XQMX`.
    Model(XqmxModel),
    /// XQMX sample, created by `BSMX`/`SSMX`/`XSMX`.
    Sample(XqmxSample),
}

/// The type name of a register value, as error messages spell it.
pub open spec fn kind_name(v: RegVal) -> Seq<char> {
    match v {
        RegVal::Int(_) => "int"@,
        RegVal::VecInt(_) => "vec<int>"@,
        RegVal::VecXqmx(_) => "vec<xqmx>"@,
        RegVal::Model(_) => "model"@,
        RegVal::Sample(_) => "sample"@,
    }
}

impl Default for RegVal {
    fn default() -> (r: Self)
        ensures
            r == RegVal::Int(0),
    {
        RegVal::Int(0)
    }
}

impl RegVal {
    /// The integer value, or the type name when the register holds
    /// something else.
    pub fn as_int(&self) -> (r: Result<i64, &'static str>)
        ensures
            match *self {
                RegVal::Int(n) => r == Ok::<i64, &'static str>(n),
                _ => r matches Err(s) && s@ == kind_name(*self),
            },
    {
        match self {
            RegVal::Int(n) => Ok(*n),
            _ => Err(self.kind()),
        }
    }

    /// The model, or the type name when the register holds something else.
    pub fn as_model(&self) -> (r: Result<&XqmxModel, &'static str>)
        ensures
            match *self {
                RegVal::Model(m) => r matches Ok(x) && *x == m,
                _ => r matches Err(s) && s@ == kind_name(*self),
            },
    {
        match self {
            RegVal::Model(m) => Ok(m),
            _ => Err(self.kind()),
        }
    }

    /// Mutable access to the model, or the type name when the register
    /// holds something else.
    pub fn as_model_mut(&mut self) -> (r: Result<&mut XqmxModel, &'static str>)
        ensures
            match *old(self) {
                RegVal::Model(m) => r matches Ok(x) && *x == m && *final(self) == RegVal::Model(*final(x)),
                _ => r matches Err(s) && s@ == kind_name(*old(self)) && *final(self) == *old(self),
            },
    {
        match self {
            RegVal::Model(m) => Ok(m),
            _ => Err(self.kind()),
        }
    }

    /// Mutable access to the integer vector, or the type name when the
    /// register holds something else.
    pub fn as_vec_int_mut(&mut self) -> (r: Result<&mut Vec<i64>, &'static str>)
        ensures
            match *old(self) {
                RegVal::VecInt(v) => r matches Ok(x) && *x == v && *final(self) == RegVal::VecInt(*final(x)),
                _ => r matches Err(s) && s@ == kind_name(*old(self)) && *final(self) == *old(self),
            },
    {
        match self {
            RegVal::VecInt(v) => Ok(v),
            _ => Err(self.kind()),
        }
    }

    /// The integer vector, or the type name when the register holds
    /// something else.
    pub fn as_vec_int(&self) -> (r: Result<&Vec<i64>, &'static str>)
        ensures
            match *self {
                RegVal::VecInt(v) => r matches Ok(x) && *x == v,
                _ => r matches Err(s) && s@ == kind_name(*self),
            },
    {
        match self {
            RegVal::VecInt(v) => Ok(v),
            _ => Err(self.kind()),
        }
    }

    /// The type name for error messages.
    pub fn kind(&self) -> (s: &'static str)
        ensures
            s@ == kind_name(*self),
    {
        match self {
            RegVal::Int(_) => "int",
            RegVal::VecInt(_) => "vec<int>",
            RegVal::VecXqmx(_) => "vec<xqmx>",
            RegVal::Model(_) => "model",
            RegVal::Sample(_) => "sample",
        }
    }
}

} // verus!
