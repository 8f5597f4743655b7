use jup_ag::json::{json_object_of_one, json_object_of_two, json_string};
use jup_ag::JsonValue;

#[test]
fn json_string_holds_the_text() {
    assert_eq!(json_string("auto"), JsonValue::String("auto".to_string()));
    assert_eq!(json_string(""), JsonValue::String(String::new()));
}

#[test]
fn json_object_of_one_member() {
    assert_eq!(
        json_object_of_one("lamports", JsonValue::Number(1)),
        JsonValue::Object(vec![("lamports".to_string(), JsonValue::Number(1))])
    );
}

#[test]
fn json_object_of_two_members_keeps_their_order() {
    assert_eq!(
        json_object_of_two("b", JsonValue::Bool(true), "a", JsonValue::Null),
        JsonValue::Object(vec![
            ("b".to_string(), JsonValue::Bool(true)),
            ("a".to_string(), JsonValue::Null),
        ])
    );
}
