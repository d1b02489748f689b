//! Program representation and pre-execution verifier of the XQVM runtime.
//!
//! The wire format of a program is its raw instruction stream; the jump
//! table that maps sequential `TARGET` ids to byte offsets is rebuilt by
//! scanning that stream at load time.

pub mod jump_table;
pub mod model;
pub mod program;
pub mod value;
pub mod register_effect;
pub mod tracer;
pub mod checker;
pub mod diagnostic;
pub mod summary;
