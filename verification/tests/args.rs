use std::collections::{BTreeMap, HashMap};

use convex::Value;
use convex_kmp::args::{convex_arg, json_arg, parse_arg, parse_entries, parse_json_args};
use convex_kmp::error::ClientError;

#[test]
fn test_boolean_values_in_json_args() {
    let mut m = HashMap::new();
    m.insert(String::from("a"), String::from("false"));

    let result = parse_json_args(m).unwrap();
    assert_eq!(
        result.get(&String::from("a")),
        Some(&Value::Boolean(false))
    );
}

#[test]
fn test_number_values_in_json_args() {
    let mut m = HashMap::new();
    m.insert(String::from("a"), String::from("42"));
    m.insert(String::from("b"), String::from("42.42"));

    let result = parse_json_args(m).unwrap();
    assert_eq!(result.get(&String::from("a")), Some(&Value::Float64(42.0)));
    assert_eq!(result.get(&String::from("b")), Some(&Value::Float64(42.42)));
}

#[test]
fn test_list_values_in_json_args() {
    let mut m = HashMap::new();
    m.insert(String::from("a"), String::from("[1,2,3]"));
    m.insert(String::from("b"), String::from("[\"a\",\"b\",\"c\"]"));

    let result = parse_json_args(m).unwrap();
    assert_eq!(
        result.get(&String::from("a")),
        Some(&Value::Array(vec![
            Value::Float64(1.0),
            Value::Float64(2.0),
            Value::Float64(3.0)
        ]))
    );
    assert_eq!(
        result.get(&String::from("b")),
        Some(&Value::Array(vec![
            Value::String(String::from("a")),
            Value::String(String::from("b")),
            Value::String(String::from("c"))
        ]))
    );
}

#[test]
fn test_object_values_in_json_args() {
    let mut m = HashMap::new();
    m.insert(String::from("a"), String::from("{\"a\":1,\"b\":\"foo\"}"));

    let result = parse_json_args(m).unwrap();
    let mut object = BTreeMap::new();
    object.insert(String::from("a"), Value::Float64(1.0));
    object.insert(String::from("b"), Value::String(String::from("foo")));
    assert_eq!(result.get(&String::from("a")), Some(&Value::Object(object)));
}

#[test]
fn test_invalid_json_handling() {
    let mut m = HashMap::new();
    m.insert(String::from("invalid"), String::from("{invalid json}"));

    let result = parse_json_args(m);
    assert!(result.is_err());
}

#[test]
fn no_arguments_are_no_values() {
    let result = parse_json_args(HashMap::new()).unwrap();
    assert!(result.is_empty());
}

#[test]
fn text_that_is_not_json_is_named_in_the_error() {
    let mut m = HashMap::new();
    m.insert(String::from("invalid"), String::from("{invalid json}"));

    match parse_json_args(m) {
        Err(ClientError::InternalError { msg }) => assert_eq!(
            msg,
            "Invalid JSON for key 'invalid': {invalid json} – key must be a string at line 1 column 2"
        ),
        _ => panic!("expected an internal error"),
    }
}

#[test]
fn json_that_is_no_convex_value_is_named_in_the_error() {
    let mut m = HashMap::new();
    m.insert(String::from("n"), String::from("{\"$integer\":\"AA==\"}"));

    match parse_json_args(m) {
        Err(ClientError::InternalError { msg }) => assert_eq!(
            msg,
            "Invalid Convex value for key 'n': Int64 must be exactly eight bytes"
        ),
        _ => panic!("expected an internal error"),
    }
}

#[test]
fn encoded_integers_are_decoded() {
    let value = parse_arg("n", "{\"$integer\":\"KgAAAAAAAAA=\"}").unwrap();
    assert_eq!(value, Value::Int64(42));
}

#[test]
fn one_bad_argument_among_good_ones_fails_the_call() {
    let mut m = HashMap::new();
    m.insert(String::from("a"), String::from("1"));
    m.insert(String::from("b"), String::from("nope"));
    m.insert(String::from("c"), String::from("null"));

    match parse_json_args(m) {
        Err(ClientError::InternalError { msg }) => {
            assert!(msg.starts_with("Invalid JSON for key 'b': nope – "))
        }
        _ => panic!("expected an internal error"),
    }
}

#[test]
fn the_first_bad_entry_decides() {
    let entries = vec![
        (String::from("a"), String::from("true")),
        (String::from("b"), String::from("{\"$map\":[]}")),
        (String::from("c"), String::from("nope")),
    ];

    match parse_entries(&entries) {
        Err(ClientError::InternalError { msg }) => {
            assert!(msg.starts_with("Invalid Convex value for key 'b': Received a Map"))
        }
        _ => panic!("expected an internal error"),
    }
}

#[test]
fn good_entries_keep_their_order() {
    let entries = vec![
        (String::from("z"), String::from("true")),
        (String::from("a"), String::from("null")),
    ];

    let args = parse_entries(&entries).unwrap();
    assert_eq!(
        args,
        vec![
            (String::from("z"), Value::Boolean(true)),
            (String::from("a"), Value::Null),
        ]
    );
}

#[test]
fn reading_the_same_arguments_again_gives_the_same_values() {
    let mut m = HashMap::new();
    for i in 0..50 {
        m.insert(format!("key{}", i), format!("{}", i));
    }
    let mut n = HashMap::new();
    for i in (0..50).rev() {
        n.insert(format!("key{}", i), format!("{}", i));
    }

    let first = parse_json_args(m).unwrap();
    let second = parse_json_args(n).unwrap();
    assert_eq!(first.len(), 50);
    assert_eq!(first.get("key7"), Some(&Value::Float64(7.0)));
    assert_eq!(first, second);
}

#[test]
fn a_read_value_is_passed_on() {
    let read = json_arg("k", "true", Ok(serde_json::Value::Bool(true))).unwrap();
    assert_eq!(read, serde_json::Value::Bool(true));
    let decoded = convex_arg("k", Ok(Value::Null)).unwrap();
    assert_eq!(decoded, Value::Null);
}

#[test]
fn a_reason_is_put_into_the_error() {
    match json_arg("k", "v", Err(String::from("why"))) {
        Err(ClientError::InternalError { msg }) => {
            assert_eq!(msg, "Invalid JSON for key 'k': v – why")
        }
        _ => panic!("expected an internal error"),
    }
    match convex_arg("k", Err(String::from("why"))) {
        Err(ClientError::InternalError { msg }) => {
            assert_eq!(msg, "Invalid Convex value for key 'k': why")
        }
        _ => panic!("expected an internal error"),
    }
}
