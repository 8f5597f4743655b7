//! An address that may be absent, written as a base58 string or `null`.

use vstd::prelude::*;
use crate::json::JsonValue;
use crate::pubkey::{pubkey_text, Pubkey};

verus! {

/// Whether `value` is the wire form of `t`: the base58 text of the address,
/// or `null` where there is none.
pub open spec fn is_wire_form(t: Option<Pubkey>, value: JsonValue) -> bool {
    match t {
        Some(pubkey) => value.is_string(pubkey_text(pubkey@)),
        None => value is Null,
    }
}

/// The wire form of an address that may be absent.
pub fn serialize(t: &Option<Pubkey>) -> (value: JsonValue)
    ensures
        is_wire_form(*t, value),
{
    match t {
        Some(pubkey) => JsonValue::String(pubkey.to_string()),
        None => JsonValue::Null,
    }
}

} // verus!
