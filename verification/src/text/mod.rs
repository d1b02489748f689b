//! Small text helpers: decimal and hexadecimal rendering of integers, and
//! column padding.

pub mod decimal;
pub mod layout;
pub mod position;
