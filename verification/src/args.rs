//! The arguments of a call: JSON text by name on the host's side, Convex values by name on the
//! server's.
use std::collections::{BTreeMap, HashMap};

use vstd::prelude::*;

use crate::error::{joined, ClientError, ErrorView};
#[allow(unused_imports)]
use crate::error::viewed;
use crate::outside::{decode_value, entries_of, map_of, read_json};
#[allow(unused_imports)]
use crate::outside::{decoded_value, distinct_keys, parsed_json};

verus! {

/// The error for an argument whose text is not JSON.
pub open spec fn not_json(key: Seq<char>, text: Seq<char>, reason: Seq<char>) -> ErrorView {
    ErrorView::InternalError {
        msg: "Invalid JSON for key '"@ + key + "': "@ + text + " – "@ + reason,
    }
}

/// The error for an argument whose JSON encodes no Convex value.
pub open spec fn not_convex(key: Seq<char>, reason: Seq<char>) -> ErrorView {
    ErrorView::InternalError { msg: "Invalid Convex value for key '"@ + key + "': "@ + reason }
}

/// What the argument `key` with the JSON text `text` stands for.
pub open spec fn arg_outcome(key: Seq<char>, text: Seq<char>) -> Result<convex::Value, ErrorView> {
    match parsed_json(text) {
        Err(reason) => Err(not_json(key, text, reason)),
        Ok(json) => match decoded_value(json) {
            Err(reason) => Err(not_convex(key, reason)),
            Ok(value) => Ok(value),
        },
    }
}

/// Whether `text` is JSON that encodes a Convex value.
pub open spec fn is_convex_json(text: Seq<char>) -> bool {
    parsed_json(text) matches Ok(json) && decoded_value(json) is Ok
}

/// Names the argument in the error that reading its JSON gave.
pub fn json_arg(key: &str, text: &str, read: Result<serde_json::Value, String>) -> (arg: Result<
    serde_json::Value,
    ClientError,
>)
    ensures
        viewed(arg) == match read {
            Ok(json) => Ok::<serde_json::Value, ErrorView>(json),
            Err(reason) => Err(not_json(key@, text@, reason@)),
        },
        match read {
            Ok(json) => arg == Ok::<serde_json::Value, ClientError>(json),
            Err(reason) => arg matches Err(ClientError::InternalError { msg }) && msg@
                == "Invalid JSON for key '"@ + key@ + "': "@ + text@ + " – "@ + reason@,
        },
{
    match read {
        Ok(json) => Ok(json),
        Err(reason) => {
            let mut msg = joined("Invalid JSON for key '", key);
            msg.append("': ");
            msg.append(text);
            msg.append(" – ");
            msg.append(reason.as_str());
            Err(ClientError::InternalError { msg })
        },
    }
}

/// Names the argument in the error that decoding its Convex value gave.
pub fn convex_arg(key: &str, decoded: Result<convex::Value, String>) -> (arg: Result<
    convex::Value,
    ClientError,
>)
    ensures
        viewed(arg) == match decoded {
            Ok(value) => Ok::<convex::Value, ErrorView>(value),
            Err(reason) => Err(not_convex(key@, reason@)),
        },
        match decoded {
            Ok(value) => arg == Ok::<convex::Value, ClientError>(value),
            Err(reason) => arg matches Err(ClientError::InternalError { msg }) && msg@
                == "Invalid Convex value for key '"@ + key@ + "': "@ + reason@,
        },
{
    match decoded {
        Ok(value) => Ok(value),
        Err(reason) => {
            let mut msg = joined("Invalid Convex value for key '", key);
            msg.append("': ");
            msg.append(reason.as_str());
            Err(ClientError::InternalError { msg })
        },
    }
}

/// Reads one argument.
pub fn parse_arg(key: &str, text: &str) -> (arg: Result<convex::Value, ClientError>)
    ensures
        viewed(arg) == arg_outcome(key@, text@),
        match parsed_json(text@) {
            Err(reason) => arg matches Err(ClientError::InternalError { msg }) && msg@
                == "Invalid JSON for key '"@ + key@ + "': "@ + text@ + " – "@ + reason,
            Ok(json) => match decoded_value(json) {
                Err(reason) => arg matches Err(ClientError::InternalError { msg }) && msg@
                    == "Invalid Convex value for key '"@ + key@ + "': "@ + reason,
                Ok(value) => arg == Ok::<convex::Value, ClientError>(value),
            },
        },
{
    let read = match read_json(text) {
        Ok(json) => Ok(json),
        Err(error) => Err(error.to_string()),
    };
    match json_arg(key, text, read) {
        Err(error) => Err(error),
        Ok(json) => {
            let decoded = match decode_value(json) {
                Ok(value) => Ok(value),
                Err(error) => Err(error.to_string()),
            };
            convex_arg(key, decoded)
        },
    }
}

/// Reads arguments one after the other, up to the first that cannot be read.
pub fn parse_entries(entries: &Vec<(String, String)>) -> (args: Result<
    Vec<(String, convex::Value)>,
    ClientError,
>)
    ensures
        match args {
            Ok(args) => {
                &&& args@.len() == entries@.len()
                &&& forall|i: int|
                    0 <= i < entries@.len() ==> (#[trigger] args@[i]).0 == entries@[i].0
                        && arg_outcome(entries@[i].0@, entries@[i].1@) == Ok::<
                        convex::Value,
                        ErrorView,
                    >(args@[i].1)
            },
            Err(error) => exists|i: int|
                0 <= i < entries@.len() && arg_outcome(
                    (#[trigger] entries@[i]).0@,
                    entries@[i].1@,
                ) == Err::<convex::Value, ErrorView>(error@) && forall|j: int|
                    0 <= j < i ==> is_convex_json((#[trigger] entries@[j]).1@),
        },
        args matches Ok(values) ==> forall|i: int|
            0 <= i < entries@.len() ==> {
                &&& parsed_json((#[trigger] entries@[i]).1@) is Ok
                &&& decoded_value(parsed_json(entries@[i].1@)->Ok_0) is Ok
                &&& decoded_value(parsed_json(entries@[i].1@)->Ok_0)->Ok_0 == values@[i].1
            },
        args is Err ==> exists|i: int|
            0 <= i < entries@.len() && (parsed_json((#[trigger] entries@[i]).1@) matches Ok(json)
                ==> decoded_value(json) is Err),
{
    let mut args: Vec<(String, convex::Value)> = Vec::new();
    let mut i: usize = 0;
    while i < entries.len()
        invariant
            i <= entries@.len(),
            args@.len() == i,
            forall|j: int|
                0 <= j < i ==> (#[trigger] args@[j]).0 == entries@[j].0 && arg_outcome(
                    entries@[j].0@,
                    entries@[j].1@,
                ) == Ok::<convex::Value, ErrorView>(args@[j].1),
        decreases entries@.len() - i,
    {
        match parse_arg(entries[i].0.as_str(), entries[i].1.as_str()) {
            Ok(value) => args.push((entries[i].0.clone(), value)),
            Err(error) => {
                assert forall|j: int| 0 <= j < i implies is_convex_json(
                    (#[trigger] entries@[j]).1@,
                ) by {
                    assert(args@[j].0 == entries@[j].0);
                }
                assert(arg_outcome(entries@[i as int].0@, entries@[i as int].1@) == Err::<
                    convex::Value,
                    ErrorView,
                >(error@));
                return Err(error);
            },
        }
        i += 1;
    }
    assert forall|j: int| 0 <= j < entries@.len() implies arg_outcome(
        (#[trigger] entries@[j]).0@,
        entries@[j].1@,
    ) == Ok::<convex::Value, ErrorView>(args@[j].1) by {
        assert(args@[j].0 == entries@[j].0);
    }
    Ok(args)
}

/// Whether `args` is what the arguments `raw` stand for.
pub open spec fn args_agree(
    raw: Map<String, String>,
    args: Result<BTreeMap<String, convex::Value>, ClientError>,
) -> bool {
    &&& args is Ok <==> forall|key: String| #[trigger]
        raw.contains_key(key) ==> is_convex_json(raw[key]@)
    &&& match args {
        Ok(args) => {
            &&& args@.dom() == raw.dom()
            &&& forall|key: String| #[trigger]
                raw.contains_key(key) ==> arg_outcome(key@, raw[key]@) == Ok::<
                    convex::Value,
                    ErrorView,
                >(args@[key])
        },
        Err(error) => exists|key: String| #[trigger]
            raw.contains_key(key) && arg_outcome(key@, raw[key]@) == Err::<
                convex::Value,
                ErrorView,
            >(error@),
    }
}

/// Reads the arguments of a call.
///
/// Where every text is JSON that encodes a Convex value, the result has the same names and, for
/// each, the value that its text encodes. Otherwise the error is that of an argument that cannot
/// be read; which one is not fixed if there are several.
pub fn parse_json_args(raw_args: HashMap<String, String>) -> (args: Result<
    BTreeMap<String, convex::Value>,
    ClientError,
>)
    ensures
        args_agree(raw_args@, args),
        args matches Ok(values) ==> forall|key: String|
            #![trigger raw_args@.contains_key(key)]
            #![trigger values@.contains_key(key)]
            values@.contains_key(key) == raw_args@.contains_key(key),
        args matches Ok(values) ==> forall|key: String| #[trigger]
            raw_args@.contains_key(key) ==> (parsed_json(raw_args@[key]@) matches Ok(json)
                && decoded_value(json) == Ok::<convex::Value, Seq<char>>(values@[key])),
        args matches Err(error) ==> exists|key: String| #[trigger]
            raw_args@.contains_key(key) && (error matches ClientError::InternalError { msg }
                && match parsed_json(raw_args@[key]@) {
                Err(reason) => msg@ == "Invalid JSON for key '"@ + key@ + "': "@ + raw_args@[key]@
                    + " – "@ + reason,
                Ok(json) => decoded_value(json) is Err && msg@
                    == "Invalid Convex value for key '"@ + key@ + "': "@ + decoded_value(
                    json,
                )->Err_0,
            }),
{
    let ghost raw = raw_args@;
    let entries = entries_of(raw_args);
    match parse_entries(&entries) {
        Err(error) => {
            proof {
                let i = choose|i: int|
                    0 <= i < entries@.len() && arg_outcome(
                        (#[trigger] entries@[i]).0@,
                        entries@[i].1@,
                    ) == Err::<convex::Value, ErrorView>(error@);
                assert(raw.contains_key(entries@[i].0));
            }
            Err(error)
        },
        Ok(values) => {
            assert(distinct_keys(values@)) by {
                assert forall|i: int, j: int| 0 <= i < j < values@.len() implies (
                #[trigger] values@[i]).0@ != (#[trigger] values@[j]).0@ by {
                    assert(entries@[i].0@ != entries@[j].0@);
                }
            }
            let args = map_of(values);
            proof {
                assert forall|key: String| #[trigger] raw.contains_key(key) implies args@.contains_key(
                    key,
                ) && arg_outcome(key@, raw[key]@) == Ok::<convex::Value, ErrorView>(
                    args@[key],
                ) by {
                    let i = choose|i: int|
                        0 <= i < entries@.len() && (#[trigger] entries@[i]).0 == key;
                    assert(values@[i].0 == key);
                }
                assert forall|key: String| #[trigger] args@.contains_key(key) implies raw.contains_key(
                    key,
                ) by {
                    let i = choose|i: int|
                        0 <= i < values@.len() && (#[trigger] values@[i]).0 == key;
                    assert(entries@[i].0 == key);
                }
                assert(args@.dom() =~= raw.dom());
            }
            Ok(args)
        },
    }
}

} // verus!
