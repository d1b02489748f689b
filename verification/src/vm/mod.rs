//! The stack interpreter's register values, runtime errors and tracing
//! interface.

pub mod error;
pub mod value;
