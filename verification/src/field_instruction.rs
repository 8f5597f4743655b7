//! Decoders for instructions: one, an optional one, and a list.

pub mod instruction;
pub mod option_instruction;
pub mod vec_instruction;
