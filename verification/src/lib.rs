//! Verified toolchain core for the Aglais X-Quadratic Virtual Machine (XQVM).
//!
//! * [`bytecode`]: the instruction set, the binary codec, the instruction
//!   stream reader, the label-resolving builder, and the wire formats of
//!   programs, jump tables and constant pools.
//! * [`xqasm`]: the assembler of the numbered-label dialect (`.0`, `.1`, ...).
//! * [`assembly`]: the lexer and parser shared by both dialects, and the
//!   assembler of the named-label dialect (`loop:`).
//! * [`disasm`]: disassembly listings.
//! * [`xqvm`]: programs with their jump tables, the pre-execution verifier,
//!   register values, models and execution tracing.
//! * [`vm`]: runtime errors and their diagnostics.
//! * [`conformance`]: selection of conformance vectors by filter.
//! * [`text`]: decimal and hexadecimal rendering, padding, line positions.

pub mod assembly;
pub mod bytecode;
pub mod conformance;
pub mod disasm;
pub mod text;
pub mod vm;
pub mod xqasm;
pub mod xqvm;
