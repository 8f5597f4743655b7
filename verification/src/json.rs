//! The JSON values that the requests are made of.

use vstd::prelude::*;

verus! {

/// A JSON value. Numbers are unsigned integers: the requests hold no other.
#[derive(Debug, PartialEq, Eq)]
pub enum JsonValue {
    Null,
    Bool(bool),
    Number(u64),
    String(String),
    Array(Vec<JsonValue>),
    /// The members of an object, each a name and a value, in order.
    Object(Vec<(String, JsonValue)>),
}

impl JsonValue {
    /// Whether the value is the string `text`.
    pub open spec fn is_string(&self, text: Seq<char>) -> bool {
        self matches JsonValue::String(s) && s@ == text
    }

    /// Whether the value is an object with the one member `name`.
    pub open spec fn is_object_of_one(&self, name: Seq<char>) -> bool {
        self matches JsonValue::Object(members) && members@.len() == 1 && members@[0].0@ == name
    }

    /// Whether the value is an object with the two members `first` and
    /// `second`, in this order.
    pub open spec fn is_object_of_two(&self, first: Seq<char>, second: Seq<char>) -> bool {
        self matches JsonValue::Object(members) && members@.len() == 2 && members@[0].0@ == first
            && members@[1].0@ == second
    }

    /// The value of the member at `index` of an object.
    pub open spec fn member(&self, index: int) -> JsonValue
        recommends
            self is Object,
    {
        self->Object_0@[index].1
    }
}

/// The string `text` as a JSON value.
pub fn json_string(text: &str) -> (value: JsonValue)
    ensures
        value.is_string(text@),
{
    JsonValue::String(String::from_str(text))
}

/// The object with the one member `name`, whose value is `value`.
pub fn json_object_of_one(name: &str, value: JsonValue) -> (object: JsonValue)
    ensures
        object.is_object_of_one(name@),
        object.member(0) == value,
{
    let mut members: Vec<(String, JsonValue)> = Vec::new();
    members.push((String::from_str(name), value));
    JsonValue::Object(members)
}

/// The object with the two members `first` and `second`, in this order.
pub fn json_object_of_two(
    first: &str,
    first_value: JsonValue,
    second: &str,
    second_value: JsonValue,
) -> (object: JsonValue)
    ensures
        object.is_object_of_two(first@, second@),
        object.member(0) == first_value,
        object.member(1) == second_value,
{
    let mut members: Vec<(String, JsonValue)> = Vec::new();
    members.push((String::from_str(first), first_value));
    members.push((String::from_str(second), second_value));
    JsonValue::Object(members)
}

} // verus!
