//! What this crate asks of other crates, and what it takes them to do.
use std::collections::{BTreeMap, HashMap};

use futures::channel::oneshot::Sender;
use tokio::runtime::Runtime;
use tokio::task::JoinHandle;
use vstd::prelude::*;

verus! {

/// An error of any kind, with its context.
#[verifier::external_type_specification]
#[verifier::external_body]
pub struct ExAnyhowError(anyhow::Error);

/// A JSON value.
#[verifier::external_type_specification]
#[verifier::external_body]
pub struct ExJsonValue(serde_json::Value);

/// Why a text is not JSON, or a value has no JSON text.
#[verifier::external_type_specification]
#[verifier::external_body]
pub struct ExJsonError(serde_json::Error);

/// A value that Convex functions take and return.
#[verifier::external_type_specification]
#[verifier::external_body]
pub struct ExConvexValue(convex::Value);

/// An application error that a Convex function threw.
#[verifier::external_type_specification]
#[verifier::external_body]
pub struct ExConvexError(convex::ConvexError);

/// The sending half of a one-shot channel.
#[verifier::external_type_specification]
#[verifier::external_body]
#[verifier::reject_recursive_types(T)]
pub struct ExSender<T>(Sender<T>);

/// The owner's hold on a spawned task.
#[verifier::external_type_specification]
#[verifier::external_body]
#[verifier::reject_recursive_types(T)]
pub struct ExJoinHandle<T>(JoinHandle<T>);

/// Why a spawned task gave no result.
#[verifier::external_type_specification]
#[verifier::external_body]
pub struct ExJoinError(tokio::task::JoinError);

/// The threads that asynchronous work runs on.
#[verifier::external_type_specification]
#[verifier::external_body]
pub struct ExRuntime(Runtime);

/// What the operating system refused.
#[verifier::external_type_specification]
#[verifier::external_body]
pub struct ExIoError(std::io::Error);

/// What `serde_json::from_str` makes of `text`: the value that it writes, or the line that says
/// why it writes none.
pub uninterp spec fn parsed_json(text: Seq<char>) -> Result<serde_json::Value, Seq<char>>;

/// Whether every text that `Display` gives for `error` is `text`.
pub open spec fn shown_as<E: core::fmt::Display>(error: E, text: Seq<char>) -> bool {
    forall|s: String|
        #[trigger] vstd::string::to_string_from_display_ensures::<E>(&error, s) ==> s@ == text
}

/// Calls `serde_json::from_str`. Taken of it: the value, or the line that its error shows, depends
/// on the characters of `text` alone.
#[verifier::external_body]
pub(crate) fn read_json(text: &str) -> (read: Result<serde_json::Value, serde_json::Error>)
    ensures
        match read {
            Ok(json) => parsed_json(text@) == Ok::<serde_json::Value, Seq<char>>(json),
            Err(error) => parsed_json(text@) is Err && shown_as(error, parsed_json(text@)->Err_0),
        },
{
    serde_json::from_str::<serde_json::Value>(text)
}

/// What `convex::Value::try_from` makes of `json`: the Convex value that it encodes, or the line
/// that says why it encodes none.
pub uninterp spec fn decoded_value(json: serde_json::Value) -> Result<convex::Value, Seq<char>>;

/// Calls `convex::Value::try_from`. Taken of it: the value, or the line that its error shows,
/// depends on `json` alone.
#[verifier::external_body]
pub(crate) fn decode_value(json: serde_json::Value) -> (read: Result<convex::Value, anyhow::Error>)
    ensures
        match read {
            Ok(value) => decoded_value(json) == Ok::<convex::Value, Seq<char>>(value),
            Err(error) => decoded_value(json) is Err && shown_as(
                error,
                decoded_value(json)->Err_0,
            ),
        },
{
    convex::Value::try_from(json)
}

/// Whether the JSON text `text`, which begins inside a string literal if `in_string` and inside
/// `depth` arrays, has no object and no number in it and nests arrays at most 127 deep.
pub open spec fn is_plain_from(text: Seq<char>, in_string: bool, depth: int) -> bool
    decreases text.len(),
{
    if text.len() == 0 {
        true
    } else if in_string {
        if text[0] == '\\' {
            is_plain_from(text.skip(if text.len() > 1 { 2 } else { 1 }), true, depth)
        } else {
            is_plain_from(text.skip(1), text[0] != '"', depth)
        }
    } else if text[0] == '"' {
        is_plain_from(text.skip(1), true, depth)
    } else if text[0] == '[' {
        depth < 127 && is_plain_from(text.skip(1), false, depth + 1)
    } else if text[0] == ']' {
        is_plain_from(text.skip(1), false, depth - 1)
    } else {
        text[0] != '{' && !('0' <= text[0] <= '9') && is_plain_from(text.skip(1), false, depth)
    }
}

/// Whether a JSON text is made of `null`, booleans, strings and arrays only, and nests no deeper
/// than a JSON reader follows.
pub open spec fn is_plain(text: Seq<char>) -> bool {
    is_plain_from(text, false, 0)
}

/// The JSON value that `serde_json::Value::from` encodes `value` as.
pub uninterp spec fn encoded_value(value: convex::Value) -> serde_json::Value;

/// Calls `serde_json::Value::from` on a Convex value. Taken of it: the encoding depends on `value`
/// alone; and where its text is plain, `convex::Value::try_from` decodes it as `value` again.
/// Nothing of the kind is taken of other values: an object with the one key `$set`, for one, is
/// encoded as something that cannot be decoded.
#[verifier::external_body]
pub(crate) fn encode_value(value: convex::Value) -> (json: serde_json::Value)
    ensures
        json == encoded_value(value),
        is_plain(json_text(json)) ==> decoded_value(json) is Ok,
        is_plain(json_text(json)) ==> decoded_value(json)->Ok_0 == value,
{
    serde_json::Value::from(value)
}

/// The text that `serde_json::to_string` writes `json` as.
pub uninterp spec fn json_text(json: serde_json::Value) -> Seq<char>;

/// Calls `serde_json::to_string` on a JSON value. Taken of it: there is always a text, because the
/// keys of a JSON object are strings, no part of a JSON value refuses to be written and memory
/// takes every byte; the text depends on `json` alone; and where it is plain,
/// `serde_json::from_str` reads it as `json` again.
#[verifier::external_body]
pub(crate) fn write_json(json: &serde_json::Value) -> (written: Result<String, serde_json::Error>)
    ensures
        written is Ok,
        written->Ok_0@ == json_text(*json),
        is_plain(written->Ok_0@) ==> parsed_json(written->Ok_0@) is Ok,
        is_plain(written->Ok_0@) ==> parsed_json(written->Ok_0@)->Ok_0 == *json,
{
    serde_json::to_string(json)
}

/// The text that `Debug` gives for a Convex application error.
pub uninterp spec fn debug_text(error: convex::ConvexError) -> Seq<char>;

/// Calls the `Debug` of `convex::ConvexError`. Taken of it: the text depends on `error` alone.
#[verifier::external_body]
pub(crate) fn describe(error: &convex::ConvexError) -> (text: String)
    ensures
        text@ == debug_text(*error),
{
    format!("{:?}", error)
}

/// Whether no two of `entries` have the same key.
pub open spec fn distinct_keys<V>(entries: Seq<(String, V)>) -> bool {
    forall|i: int, j: int|
        0 <= i < j < entries.len() ==> (#[trigger] entries[i]).0@ != (#[trigger] entries[j]).0@
}

/// Whether `map` holds exactly `entries`.
pub open spec fn holds_exactly<V>(map: Map<String, V>, entries: Seq<(String, V)>) -> bool {
    &&& forall|i: int|
        0 <= i < entries.len() ==> map.contains_key((#[trigger] entries[i]).0)
            && map[entries[i].0] == entries[i].1
    &&& forall|key: String| #[trigger]
        map.contains_key(key) ==> exists|i: int|
            0 <= i < entries.len() && (#[trigger] entries[i]).0 == key
}

/// Calls `Vec::from_iter` on a `HashMap`. Taken of it: every entry of the map comes out once, in no
/// order that can be relied on.
#[verifier::external_body]
pub(crate) fn entries_of(map: HashMap<String, String>) -> (entries: Vec<(String, String)>)
    ensures
        distinct_keys(entries@),
        holds_exactly(map@, entries@),
{
    Vec::from_iter(map)
}

/// Calls `BTreeMap::from_iter` on a `Vec`. Taken of it: where no key occurs twice, the map holds
/// exactly the entries.
#[verifier::external_body]
pub(crate) fn map_of(entries: Vec<(String, convex::Value)>) -> (map: BTreeMap<
    String,
    convex::Value,
>)
    requires
        distinct_keys(entries@),
    ensures
        holds_exactly(map@, entries@),
{
    BTreeMap::from_iter(entries)
}

/// Whether `sent` is what `Sender::send` gave when the signal went into `sender`.
pub uninterp spec fn send_gave(sender: Sender<()>, sent: Result<(), ()>) -> bool;

/// Calls `Sender::send` of a one-shot channel. Taken of it: no more than that it was called on
/// `sender` and gave `sent`; which of the two results it is depends on whether the receiver is
/// still there.
#[verifier::external_body]
pub(crate) fn send_signal(sender: Sender<()>) -> (sent: Result<(), ()>)
    ensures
        send_gave(sender, sent),
{
    sender.send(())
}

/// Whether `done` is what `JoinHandle::abort` gave for `task`.
pub uninterp spec fn abort_gave(task: JoinHandle<()>, done: ()) -> bool;

/// Calls `JoinHandle::abort`. Taken of it: no more than that it was called on `task`; when the task
/// stops is up to the runtime.
#[verifier::external_body]
pub(crate) fn abort_task(task: JoinHandle<()>) -> (done: ())
    ensures
        abort_gave(task, done),
{
    task.abort()
}

/// Whether `tokio::runtime::Handle::try_current` gave a runtime (`inside`) or an error.
pub uninterp spec fn try_current_gave(inside: bool) -> bool;

/// Calls `tokio::runtime::Handle::try_current`: whether the calling thread is inside a runtime.
/// Taken of it: no more than that it was called and gave this answer, which depends on the thread
/// and the time.
#[verifier::external_body]
pub(crate) fn in_async_context() -> (inside: bool)
    ensures
        try_current_gave(inside),
{
    tokio::runtime::Handle::try_current().is_ok()
}

/// Whether `built` is what `tokio::runtime::Builder::build` gave for a runtime with `worker_threads`
/// threads called `thread_name`.
pub uninterp spec fn build_gave(
    thread_name: Seq<char>,
    worker_threads: usize,
    built: Result<Runtime, std::io::Error>,
) -> bool;

/// Calls `tokio::runtime::Builder::build` for a multi-threaded runtime with `worker_threads` threads
/// called `thread_name` and with every driver enabled. Taken of it: no more than that it was called
/// for these two and gave `built`; whether there is a runtime is up to the operating system. The
/// bounds leave out the arguments on which the builder panics.
#[verifier::external_body]
pub(crate) fn build_runtime(thread_name: &str, worker_threads: usize) -> (built: Result<
    Runtime,
    std::io::Error,
>)
    requires
        0 < worker_threads <= 0xffff,
        !thread_name@.contains('\0'),
    ensures
        build_gave(thread_name@, worker_threads, built),
{
    tokio::runtime::Builder::new_multi_thread()
        .enable_all()
        .thread_name(thread_name)
        .worker_threads(worker_threads)
        .build()
}

} // verus!
