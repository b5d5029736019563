//! Typed CSS declarations: strongly typed property values, declaration
//! blocks that merge with override semantics, and their canonical text.

pub mod style;
