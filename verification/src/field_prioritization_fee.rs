//! The wire form of the priority fee of a swap request.

use vstd::prelude::*;
use crate::json::{json_object_of_one, json_object_of_two, json_string, JsonValue};
use crate::swap::PrioritizationFeeLamports;

verus! {

/// Whether `value` is the wire form of `fee`: the string `auto`, a bare
/// number for an exact fee, and for each other kind an object with one
/// member that is named after the kind.
pub open spec fn is_wire_form(fee: PrioritizationFeeLamports, value: JsonValue) -> bool {
    match fee {
        PrioritizationFeeLamports::Auto => value.is_string("auto"@),
        PrioritizationFeeLamports::Exact { lamports } => value == JsonValue::Number(lamports),
        PrioritizationFeeLamports::AutoMultiplier { multiplier } => {
            &&& value.is_object_of_one("autoMultiplier"@)
            &&& value.member(0) == JsonValue::Number(multiplier)
        },
        PrioritizationFeeLamports::JitoTipLamports { lamports } => {
            &&& value.is_object_of_one("jitoTipLamports"@)
            &&& value.member(0) == JsonValue::Number(lamports)
        },
        PrioritizationFeeLamports::PriorityLevelWithMaxLamports { priority_level, max_lamports } => {
            &&& value.is_object_of_one("priorityLevelWithMaxLamports"@)
            &&& value.member(0).is_object_of_two("priorityLevel"@, "maxLamports"@)
            &&& value.member(0).member(0).is_string(priority_level.text())
            &&& value.member(0).member(1) == JsonValue::Number(max_lamports)
        },
    }
}

/// The wire form of the priority fee.
pub fn serialize(prioritization_fee_lamports: &PrioritizationFeeLamports) -> (value: JsonValue)
    ensures
        is_wire_form(*prioritization_fee_lamports, value),
{
    match prioritization_fee_lamports {
        PrioritizationFeeLamports::Auto => json_string("auto"),
        PrioritizationFeeLamports::Exact { lamports } => JsonValue::Number(*lamports),
        PrioritizationFeeLamports::AutoMultiplier { multiplier } => {
            json_object_of_one("autoMultiplier", JsonValue::Number(*multiplier))
        },
        PrioritizationFeeLamports::JitoTipLamports { lamports } => {
            json_object_of_one("jitoTipLamports", JsonValue::Number(*lamports))
        },
        PrioritizationFeeLamports::PriorityLevelWithMaxLamports { priority_level, max_lamports } => {
            json_object_of_one(
                "priorityLevelWithMaxLamports",
                json_object_of_two(
                    "priorityLevel",
                    json_string(priority_level.as_str()),
                    "maxLamports",
                    JsonValue::Number(*max_lamports),
                ),
            )
        },
    }
}

} // verus!
