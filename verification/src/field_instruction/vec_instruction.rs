//! Decodes a list of instructions.

use vstd::prelude::*;
use crate::collect::{collected, lemma_collected_failure_stays, lemma_collected_next};
use crate::field_instruction::instruction::{
    instruction_of, InstructionError, InstructionFields,
};
use crate::instruction::{instruction_views, Instruction, InstructionView};

verus! {

/// What decoding each instruction of a list gives.
pub open spec fn instructions_each(fields: Seq<InstructionFields>) -> Seq<
    Result<InstructionView, InstructionError>,
> {
    fields.map_values(|f: InstructionFields| instruction_of(f))
}

/// What decoding a list gives: every instruction in order, or the error of
/// the first one that cannot be decoded.
pub open spec fn instructions_of(fields: Seq<InstructionFields>) -> Result<
    Seq<InstructionView>,
    InstructionError,
> {
    collected(instructions_each(fields))
}

/// Decodes each instruction of a list, in order, and stops at the first that
/// cannot be decoded.
pub fn deserialize(values: &Vec<InstructionFields>) -> (r: Result<
    Vec<Instruction>,
    InstructionError,
>)
    ensures
        match instructions_of(values@) {
            Ok(instructions) => r matches Ok(decoded) && instruction_views(decoded@)
                == instructions,
            Err(e) => r == Err::<Vec<Instruction>, InstructionError>(e),
        },
{
    let ghost results = instructions_each(values@);
    let mut instructions: Vec<Instruction> = Vec::new();
    let mut i: usize = 0;
    assert(instruction_views(instructions@) =~= Seq::<InstructionView>::empty());
    while i < values.len()
        invariant
            0 <= i <= values@.len(),
            results == instructions_each(values@),
            collected(results.take(i as int)) == Ok::<Seq<InstructionView>, InstructionError>(
                instruction_views(instructions@),
            ),
        decreases values@.len() - i,
    {
        proof {
            lemma_collected_next(results, i as int);
        }
        match crate::field_instruction::instruction::deserialize(&values[i]) {
            Ok(instruction) => {
                assert(instruction_views(instructions@.push(instruction))
                    =~= instruction_views(instructions@).push(instruction@));
                instructions.push(instruction);
            },
            Err(e) => {
                proof {
                    lemma_collected_failure_stays(results, i + 1);
                }
                return Err(e);
            },
        }
        i = i + 1;
    }
    assert(results.take(i as int) =~= results);
    Ok(instructions)
}

/// The message for a list of instructions that failed with `e`: a sentence
/// that names the field, then the message of `e`.
pub open spec fn error_text(e: InstructionError) -> Seq<char> {
    "Error deserialize vec instruction: "@ + e.text()
}

/// The message for a list of instructions that could not be decoded.
pub fn error_message(e: &InstructionError) -> (s: String)
    ensures
        s@ == error_text(*e),
{
    String::from_str("Error deserialize vec instruction: ").concat(e.to_string().as_str())
}

} // verus!
