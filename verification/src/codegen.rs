//! Code generation: from the syntax tree to assembly instructions, and
//! from these to assembly text.

pub mod assembly;
pub mod emission;
