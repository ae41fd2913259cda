//! The replies of the server, and what a direct call makes of them.
use vstd::prelude::*;

use crate::error::{ClientError, ErrorView};
use crate::outside::{describe, encode_value, write_json};

verus! {

/// What a Convex function came back with.
pub enum FunctionResult {
    /// The value that the function returned.
    Value(convex::Value),
    /// The message of a function that did not complete.
    ErrorMessage(String),
    /// The application error that the function threw.
    ConvexError(convex::ConvexError),
}

/// The JSON text of a Convex value.
pub open spec fn value_text(value: convex::Value) -> Seq<char> {
    crate::outside::json_text(crate::outside::encoded_value(value))
}

/// Whether the JSON text of `value`, read as JSON and decoded, is `value` again.
pub open spec fn reads_back(value: convex::Value) -> bool {
    match crate::outside::parsed_json(value_text(value)) {
        Ok(json) => crate::outside::decoded_value(json) == Ok::<convex::Value, Seq<char>>(value),
        Err(_) => false,
    }
}

/// A textual result, with both sides taken by their views.
pub open spec fn viewed_text(result: Result<String, ClientError>) -> Result<Seq<char>, ErrorView> {
    match result {
        Ok(text) => Ok(text@),
        Err(error) => Err(error@),
    }
}

impl FunctionResult {
    /// What a direct call answers for this result.
    pub open spec fn answer(self) -> Result<Seq<char>, ErrorView> {
        match self {
            FunctionResult::Value(value) => Ok(value_text(value)),
            FunctionResult::ErrorMessage(msg) => Err(ErrorView::ServerError { msg: msg@ }),
            FunctionResult::ConvexError(error) => Err(
                ErrorView::ConvexError { data: crate::outside::debug_text(error) },
            ),
        }
    }

    /// Whether this result, if it is a value with a plain text, is read from that text again.
    pub open spec fn can_be_passed_back(self) -> bool {
        self matches FunctionResult::Value(value) ==> crate::outside::is_plain(value_text(value))
            ==> reads_back(value)
    }
}

/// Writes a Convex value as JSON text; the error side is the line that the writer's error shows.
pub fn write_value(value: convex::Value) -> (written: Result<String, String>)
    ensures
        written is Ok,
        written->Ok_0@ == value_text(value),
        written->Ok_0@ == crate::outside::json_text(crate::outside::encoded_value(value)),
        crate::outside::is_plain(written->Ok_0@) ==> reads_back(value),
{
    let json = encode_value(value);
    match write_json(&json) {
        Ok(text) => Ok(text),
        Err(error) => Err(error.to_string()),
    }
}

/// What a direct call answers once its value has, or has not, been written as JSON text.
pub fn json_answer(written: Result<String, String>) -> (answer: Result<String, ClientError>)
    ensures
        viewed_text(answer) == match written {
            Ok(text) => Ok::<Seq<char>, ErrorView>(text@),
            Err(reason) => Err(
                ErrorView::InternalError { msg: "JSON serialization failed: "@ + reason@ },
            ),
        },
        match written {
            Ok(text) => answer == Ok::<String, ClientError>(text),
            Err(reason) => answer matches Err(ClientError::InternalError { msg }) && msg@
                == "JSON serialization failed: "@ + reason@,
        },
{
    match written {
        Ok(text) => Ok(text),
        Err(reason) => Err(ClientError::internal("JSON serialization failed: ", reason.as_str())),
    }
}

/// Turns the result of a function into the answer of a direct call: the JSON text of its value, or
/// the error that it ended in.
pub fn handle_direct_function_result(result: FunctionResult) -> (answer: Result<
    String,
    ClientError,
>)
    ensures
        viewed_text(answer) == result.answer(),
        match result {
            FunctionResult::Value(value) => answer matches Ok(text) && text@
                == crate::outside::json_text(crate::outside::encoded_value(value)),
            FunctionResult::ErrorMessage(message) => answer matches Err(
                ClientError::ServerError { msg },
            ) && msg == message,
            FunctionResult::ConvexError(error) => answer matches Err(
                ClientError::ConvexError { data },
            ) && data@ == crate::outside::debug_text(error),
        },
        result.can_be_passed_back(),
{
    match result {
        FunctionResult::Value(value) => json_answer(write_value(value)),
        FunctionResult::ErrorMessage(msg) => Err(ClientError::ServerError { msg }),
        FunctionResult::ConvexError(error) => Err(
            ClientError::ConvexError { data: describe(&error) },
        ),
    }
}

} // verus!
