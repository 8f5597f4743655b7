//! Decodes an instruction that may be absent.

use vstd::prelude::*;
use crate::field_instruction::instruction::{
    instruction_of, InstructionError, InstructionFields,
};
use crate::instruction::Instruction;

verus! {

/// Decodes the instruction where the service sent one; `None` stands for a
/// field that was `null`.
pub fn deserialize(fields: Option<&InstructionFields>) -> (r: Result<
    Option<Instruction>,
    InstructionError,
>)
    ensures
        match fields {
            None => r matches Ok(None),
            Some(present) => match instruction_of(*present) {
                Ok(instruction) => r matches Ok(Some(decoded)) && decoded@ == instruction,
                Err(e) => r == Err::<Option<Instruction>, InstructionError>(e),
            },
        },
{
    match fields {
        None => Ok(None),
        Some(present) => match crate::field_instruction::instruction::deserialize(present) {
            Ok(decoded) => Ok(Some(decoded)),
            Err(e) => Err(e),
        },
    }
}

/// The message for an optional instruction that failed with `e`: a sentence
/// that names the field, then the message of `e`.
pub open spec fn error_text(e: InstructionError) -> Seq<char> {
    "Error deserialize optional instruction: "@ + e.text()
}

/// The message for an optional instruction that could not be decoded.
pub fn error_message(e: &InstructionError) -> (s: String)
    ensures
        s@ == error_text(*e),
{
    String::from_str("Error deserialize optional instruction: ").concat(e.to_string().as_str())
}

} // verus!
