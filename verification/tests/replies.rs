use std::collections::{BTreeMap, HashMap};

use convex::{ConvexError, Value};
use convex_kmp::args::parse_json_args;
use convex_kmp::client::{failed_call, finish_call};
use convex_kmp::error::ClientError;
use convex_kmp::reply::{handle_direct_function_result, json_answer, write_value, FunctionResult};
use convex_kmp::state::CallKind;

fn thrown(message: &str) -> FunctionResult {
    FunctionResult::ConvexError(ConvexError {
        message: String::from(message),
        data: Value::Null,
    })
}

#[test]
fn a_value_is_answered_as_json() {
    let mut object = BTreeMap::new();
    object.insert(String::from("name"), Value::String(String::from("foo")));
    object.insert(String::from("age"), Value::Float64(42.0));
    object.insert(String::from("tags"), Value::Array(vec![Value::Null, Value::Boolean(true)]));

    let answer = handle_direct_function_result(FunctionResult::Value(Value::Object(object)));
    assert_eq!(answer.unwrap(), "{\"age\":42.0,\"name\":\"foo\",\"tags\":[null,true]}");
}

#[test]
fn an_integer_is_answered_in_its_encoding() {
    let answer = handle_direct_function_result(FunctionResult::Value(Value::Int64(42)));
    assert_eq!(answer.unwrap(), "{\"$integer\":\"KgAAAAAAAAA=\"}");
}

#[test]
fn a_value_that_is_no_number_is_answered_too() {
    let answer = handle_direct_function_result(FunctionResult::Value(Value::Float64(f64::NAN)));
    assert!(answer.unwrap().starts_with("{\"$float\":"));
}

#[test]
fn a_failed_function_is_a_server_error() {
    let answer = handle_direct_function_result(FunctionResult::ErrorMessage(String::from("boom")));
    match answer {
        Err(ClientError::ServerError { msg }) => assert_eq!(msg, "boom"),
        _ => panic!("expected a server error"),
    }
}

#[test]
fn an_application_error_is_a_convex_error() {
    match handle_direct_function_result(thrown("say \"no\"")) {
        Err(ClientError::ConvexError { data }) => assert_eq!(data, "\"say \\\"no\\\"\""),
        _ => panic!("expected a convex error"),
    }
}

#[test]
fn a_text_that_could_not_be_written_is_an_internal_error() {
    assert_eq!(json_answer(Ok(String::from("1"))).unwrap(), "1");
    match json_answer(Err(String::from("why"))) {
        Err(ClientError::InternalError { msg }) => {
            assert_eq!(msg, "JSON serialization failed: why")
        }
        _ => panic!("expected an internal error"),
    }
}

#[test]
fn values_are_written_as_json() {
    assert_eq!(write_value(Value::Bytes(vec![1, 2, 3])).unwrap(), "{\"$bytes\":\"AQID\"}");
}

#[test]
fn a_call_that_did_not_reach_the_server_says_what_it_was() {
    let heads = vec![
        (CallKind::Query, "Query execution failed: gone"),
        (CallKind::Subscription, "Subscription creation failed: gone"),
        (CallKind::Mutation, "Mutation execution failed: gone"),
        (CallKind::Action, "Action execution failed: gone"),
    ];
    for (kind, expected) in heads {
        match failed_call(kind, "gone") {
            ClientError::InternalError { msg } => assert_eq!(msg, expected),
            _ => panic!("expected an internal error"),
        }
        match finish_call(kind, Err(String::from("gone"))) {
            Err(ClientError::InternalError { msg }) => assert_eq!(msg, expected),
            _ => panic!("expected an internal error"),
        }
    }
}

#[test]
fn a_call_that_reached_the_server_is_answered_by_it() {
    let answer = finish_call(CallKind::Action, Ok(FunctionResult::Value(Value::Boolean(true))));
    assert_eq!(answer.unwrap(), "true");
    match finish_call(CallKind::Query, Ok(thrown("boom"))) {
        Err(ClientError::ConvexError { data }) => assert_eq!(data, "\"boom\""),
        _ => panic!("expected a convex error"),
    }
}

#[test]
fn an_error_shows_its_kind_and_its_text() {
    let errors = vec![
        (ClientError::InternalError { msg: String::from("x") }, "InternalError: x"),
        (ClientError::ConvexError { data: String::from("x") }, "ConvexError: x"),
        (ClientError::ServerError { msg: String::from("x") }, "ServerError: x"),
        (ClientError::InvalidContext { msg: String::from("x") }, "InvalidContext: x"),
    ];
    for (error, expected) in errors {
        assert_eq!(error.message(), expected);
    }
}

#[test]
fn any_other_error_becomes_an_internal_error() {
    let error = ClientError::from(anyhow::Error::msg("inner").context("outer"));
    match error {
        ClientError::InternalError { msg } => assert_eq!(msg, "outer"),
        _ => panic!("expected an internal error"),
    }
}

fn passed_back(value: Value) -> Result<BTreeMap<String, Value>, ClientError> {
    let text = handle_direct_function_result(FunctionResult::Value(value)).unwrap();
    let mut raw_args = HashMap::new();
    raw_args.insert(String::from("k"), text);
    parse_json_args(raw_args)
}

fn nested(depth: usize) -> Value {
    let mut value = Value::String(String::from("core"));
    for _ in 0..depth {
        value = Value::Array(vec![value, Value::Null]);
    }
    value
}

#[test]
fn a_plain_result_can_be_passed_back() {
    let values = vec![
        Value::Null,
        Value::Boolean(true),
        Value::String(String::from("\"{[9]}\" \\ \u{1}\n \u{e9}\u{1f600}")),
        Value::Array(vec![]),
        Value::Array(vec![
            Value::Array(vec![Value::Boolean(false), Value::String(String::new())]),
            Value::Null,
        ]),
        nested(100),
        nested(127),
    ];
    for value in values {
        let mut expected = BTreeMap::new();
        expected.insert(String::from("k"), value.clone());
        assert_eq!(passed_back(value).unwrap(), expected);
    }
}

#[test]
fn numbers_and_objects_are_passed_back_too_where_the_codecs_allow_it() {
    let mut object = BTreeMap::new();
    object.insert(String::from("a"), Value::Float64(0.1));
    object.insert(String::from("b"), Value::Int64(-3));
    let value = Value::Object(object);
    assert_eq!(passed_back(value.clone()).unwrap().get("k"), Some(&value));

    let mut set = BTreeMap::new();
    set.insert(String::from("$set"), Value::Null);
    assert!(passed_back(Value::Object(set)).is_err());
}

#[test]
fn a_result_nested_too_deep_cannot_be_passed_back() {
    assert!(passed_back(nested(128)).is_err());
}
