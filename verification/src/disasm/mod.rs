//! Disassembler for XQVM bytecode: human-readable listings.

pub mod display;
