//! XQVM bytecode: opcode table, instruction codec and program builders.

pub mod instruction;
pub mod codec;
pub mod stream;
pub mod builder;
pub mod immediate;
pub mod jump_table;
pub mod program;
pub mod resolution;
pub mod pool;
