//! An optional address as a field of its own.

use vstd::prelude::*;
use crate::field_pubkey::option::is_wire_form;
use crate::json::JsonValue;
use crate::pubkey::Pubkey;

verus! {

/// The wire form of an address that may be absent: its base58 text, or
/// `null`.
pub fn serialize(t: &Option<Pubkey>) -> (value: JsonValue)
    ensures
        is_wire_form(*t, value),
{
    match t {
        Some(pubkey) => JsonValue::String(pubkey.to_string()),
        None => JsonValue::Null,
    }
}

} // verus!
