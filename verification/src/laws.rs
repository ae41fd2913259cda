//! What holds of a client over any run of steps, and of what its callers are told.
use std::collections::BTreeMap;

use vstd::prelude::*;

#[allow(unused_imports)]
use crate::client::{auth_agrees, call_agrees, not_connected, not_started};
use crate::client::{PendingAuth, PendingCall};
use crate::error::{ClientError, ErrorView};
#[allow(unused_imports)]
use crate::outside::{debug_text, decoded_value, encoded_value, json_text, parsed_json};
use crate::reply::FunctionResult;
use crate::state::{CallKind, ClientState, ClientStep, EntryPoint};
#[allow(unused_imports)]
use crate::subscription::{action_for, progress};
use crate::subscription::{ActionView, SubscriptionAction, SubscriptionEvent};

verus! {

/// How many of `steps` start a subscription.
pub open spec fn subscribes(steps: Seq<ClientStep>) -> nat
    decreases steps.len(),
{
    if steps.len() == 0 {
        0
    } else {
        subscribes(steps.drop_last()) + if steps.last() is Subscribe {
            1nat
        } else {
            0nat
        }
    }
}

/// Whether step `i` of `steps`, taken from `start` on, starts the subscription `id`.
pub open spec fn starts(start: ClientState, steps: Seq<ClientStep>, i: int, id: u64) -> bool {
    &&& 0 <= i < steps.len()
    &&& steps[i] is Subscribe
    &&& start.after_all(steps.take(i)).next_id == id
}

/// Whether a step behind step `i` of `steps` ends the subscription `id`.
pub open spec fn ends_later(steps: Seq<ClientStep>, i: int, id: u64) -> bool {
    exists|j: int| i < j < steps.len() && #[trigger] steps[j] == (ClientStep::End { id })
}

/// A client is connected exactly if some attempt to connect succeeded. So a new client is not, and
/// neither failed attempts nor anything else that happens to a client connects it or loses the
/// connection.
pub proof fn connected_by_connecting(url: Seq<char>, client_id: Seq<char>, steps: Seq<ClientStep>)
    ensures
        ClientState::fresh(url, client_id).after_all(steps).initialized <==> exists|i: int|
            0 <= i < steps.len() && #[trigger] steps[i] == (ClientStep::Connect {
                connected: true,
            }),
    decreases steps.len(),
{
    if steps.len() > 0 {
        let rest = steps.drop_last();
        connected_by_connecting(url, client_id, rest);
        let here = ClientStep::Connect { connected: true };
        if exists|i: int| 0 <= i < rest.len() && #[trigger] rest[i] == here {
            let i = choose|i: int| 0 <= i < rest.len() && #[trigger] rest[i] == here;
            assert(steps[i] == here);
        }
        if exists|i: int| 0 <= i < steps.len() && #[trigger] steps[i] == here {
            let i = choose|i: int| 0 <= i < steps.len() && #[trigger] steps[i] == here;
            if i < rest.len() {
                assert(rest[i] == here);
            }
        }
    }
}

/// An attempt to connect that failed leaves the client as it was, free to try again.
pub proof fn failed_connection_changes_nothing(state: ClientState)
    ensures
        state.after_connect(false) == state,
{
}

/// A client is shutting down exactly if it was told to.
pub proof fn shutting_down_if_told(url: Seq<char>, client_id: Seq<char>, steps: Seq<ClientStep>)
    ensures
        ClientState::fresh(url, client_id).after_all(steps).shutting_down <==> exists|i: int|
            0 <= i < steps.len() && #[trigger] steps[i] is Shutdown,
    decreases steps.len(),
{
    if steps.len() > 0 {
        let rest = steps.drop_last();
        shutting_down_if_told(url, client_id, rest);
        if exists|i: int| 0 <= i < rest.len() && #[trigger] rest[i] is Shutdown {
            let i = choose|i: int| 0 <= i < rest.len() && #[trigger] rest[i] is Shutdown;
            assert(steps[i] is Shutdown);
        }
        if exists|i: int| 0 <= i < steps.len() && #[trigger] steps[i] is Shutdown {
            let i = choose|i: int| 0 <= i < steps.len() && #[trigger] steps[i] is Shutdown;
            if i < rest.len() {
                assert(rest[i] is Shutdown);
            }
        }
    }
}

/// Once told to shut down, a client refuses every query, subscription, mutation and action for
/// good, whatever else happens to it.
pub proof fn shutdown_is_for_good(state: ClientState, steps: Seq<ClientStep>, entry: EntryPoint)
    requires
        entry != EntryPoint::SetAuth,
    ensures
        state.after_shutdown().after_all(steps).shutting_down,
        state.after_shutdown().after_all(steps).refusal(entry, false) == Some(
            ErrorView::InternalError { msg: "Client is shutting down"@ },
        ),
    decreases steps.len(),
{
    if steps.len() > 0 {
        shutdown_is_for_good(state, steps.drop_last(), entry);
    }
}

/// Before that, it refuses nothing to synchronous code.
pub proof fn nothing_refused_before_shutdown(state: ClientState, entry: EntryPoint)
    requires
        !state.shutting_down,
    ensures
        state.refusal(entry, false) is None,
{
}

/// A change of the authentication is never refused to synchronous code.
pub proof fn auth_is_never_refused(state: ClientState)
    ensures
        state.refusal(EntryPoint::SetAuth, false) is None,
{
}

/// Asynchronous code is refused every synchronous entry point, and is told so whether or not the
/// client is shutting down.
pub proof fn async_context_comes_first(state: ClientState, entry: EntryPoint)
    ensures
        state.refusal(entry, true) == Some(
            ErrorView::InvalidContext { msg: entry.context_text() },
        ),
{
}

/// The address of the server and the name of the host never change.
pub proof fn identity_is_kept(state: ClientState, steps: Seq<ClientStep>)
    ensures
        state.after_all(steps).deployment_url == state.deployment_url,
        state.after_all(steps).client_id == state.client_id,
    decreases steps.len(),
{
    if steps.len() > 0 {
        identity_is_kept(state, steps.drop_last());
    }
}

/// A subscription is alive exactly if it was started and has not ended since.
pub proof fn alive_from_start_to_end(
    url: Seq<char>,
    client_id: Seq<char>,
    steps: Seq<ClientStep>,
    id: u64,
)
    ensures
        ClientState::fresh(url, client_id).after_all(steps).active.contains(id) <==> exists|i: int|
            #[trigger] starts(ClientState::fresh(url, client_id), steps, i, id) && !ends_later(
                steps,
                i,
                id,
            ),
    decreases steps.len(),
{
    let start = ClientState::fresh(url, client_id);
    let alive = start.after_all(steps).active.contains(id);
    if steps.len() > 0 {
        let n = steps.len() - 1;
        let rest = steps.drop_last();
        let end = ClientStep::End { id };
        alive_from_start_to_end(url, client_id, rest, id);
        assert(steps.take(n) =~= rest);
        if alive {
            if steps[n] is Subscribe && start.after_all(rest).next_id == id {
                assert(starts(start, steps, n, id));
                assert(!ends_later(steps, n, id));
            } else {
                assert(start.after_all(rest).active.contains(id));
                let i = choose|i: int| #[trigger]
                    starts(start, rest, i, id) && !ends_later(rest, i, id);
                assert(steps.take(i) =~= rest.take(i));
                assert(starts(start, steps, i, id));
                assert forall|j: int| i < j < steps.len() implies #[trigger] steps[j] != end by {
                    if j < n {
                        assert(rest[j] == steps[j]);
                    }
                }
            }
        }
        if exists|i: int| #[trigger] starts(start, steps, i, id) && !ends_later(steps, i, id) {
            let i = choose|i: int| #[trigger]
                starts(start, steps, i, id) && !ends_later(steps, i, id);
            if i < n {
                assert(steps.take(i) =~= rest.take(i));
                assert(starts(start, rest, i, id));
                assert forall|j: int| i < j < rest.len() implies #[trigger] rest[j] != end by {
                    assert(rest[j] == steps[j]);
                }
                assert(steps[n] != end);
            }
        }
    }
}

/// As long as the numbers last, the next subscription gets one that no subscription had before:
/// the number of subscriptions so far.
pub proof fn numbers_are_fresh(url: Seq<char>, client_id: Seq<char>, steps: Seq<ClientStep>)
    requires
        subscribes(steps) <= u64::MAX,
    ensures
        ({
            let state = ClientState::fresh(url, client_id).after_all(steps);
            &&& state.next_id == subscribes(steps)
            &&& !state.active.contains(state.next_id)
            &&& forall|id: u64| #[trigger] state.active.contains(id) ==> id < state.next_id
        }),
    decreases steps.len(),
{
    if steps.len() > 0 {
        numbers_are_fresh(url, client_id, steps.drop_last());
    }
}

/// As long as the numbers last, no two subscriptions have the same one.
pub proof fn numbers_are_unique(
    url: Seq<char>,
    client_id: Seq<char>,
    steps: Seq<ClientStep>,
    i: int,
    j: int,
    id: u64,
)
    requires
        subscribes(steps) <= u64::MAX,
        starts(ClientState::fresh(url, client_id), steps, i, id),
        starts(ClientState::fresh(url, client_id), steps, j, id),
    ensures
        i == j,
{
    if i < j {
        later_number_is_larger(url, client_id, steps, i, j);
    } else if j < i {
        later_number_is_larger(url, client_id, steps, j, i);
    }
}

proof fn later_number_is_larger(
    url: Seq<char>,
    client_id: Seq<char>,
    steps: Seq<ClientStep>,
    i: int,
    j: int,
)
    requires
        subscribes(steps) <= u64::MAX,
        0 <= i < j < steps.len(),
        steps[i] is Subscribe,
    ensures
        ClientState::fresh(url, client_id).after_all(steps.take(i)).next_id < ClientState::fresh(
            url,
            client_id,
        ).after_all(steps.take(j)).next_id,
{
    subscribes_grows(steps, i, i + 1);
    subscribes_grows(steps, i + 1, j);
    subscribes_grows(steps, j, steps.len() as int);
    assert(steps.take(steps.len() as int) =~= steps);
    assert(steps.take(i + 1).drop_last() =~= steps.take(i));
    numbers_are_fresh(url, client_id, steps.take(i));
    numbers_are_fresh(url, client_id, steps.take(j));
}

proof fn subscribes_grows(steps: Seq<ClientStep>, i: int, j: int)
    requires
        0 <= i <= j <= steps.len(),
    ensures
        subscribes(steps.take(i)) <= subscribes(steps.take(j)),
    decreases j - i,
{
    if i < j {
        subscribes_grows(steps, i, j - 1);
        assert(steps.take(j).drop_last() =~= steps.take(j - 1));
    }
}

/// Only finitely many subscriptions are alive at any time.
pub proof fn finitely_many_alive(url: Seq<char>, client_id: Seq<char>, steps: Seq<ClientStep>)
    ensures
        ClientState::fresh(url, client_id).after_all(steps).active.finite(),
    decreases steps.len(),
{
    if steps.len() > 0 {
        finitely_many_alive(url, client_id, steps.drop_last());
    }
}

/// As long as no subscription has ended and the numbers last, as many are alive as were started.
pub proof fn all_started_are_counted(url: Seq<char>, client_id: Seq<char>, steps: Seq<ClientStep>)
    requires
        subscribes(steps) <= u64::MAX,
        forall|i: int| 0 <= i < steps.len() ==> !(#[trigger] steps[i] is End),
    ensures
        ClientState::fresh(url, client_id).after_all(steps).active.len() == subscribes(steps),
    decreases steps.len(),
{
    if steps.len() > 0 {
        let rest = steps.drop_last();
        assert forall|i: int| 0 <= i < rest.len() implies !(#[trigger] rest[i] is End) by {
            assert(rest[i] == steps[i]);
        }
        assert(!(steps[steps.len() - 1] is End));
        all_started_are_counted(url, client_id, rest);
        numbers_are_fresh(url, client_id, rest);
        finitely_many_alive(url, client_id, rest);
    }
}

/// Ending a subscription that was just started leaves the same subscriptions alive as before, and
/// in between there is one more of them.
pub proof fn end_undoes_start(state: ClientState)
    requires
        !state.active.contains(state.next_id),
        state.active.finite(),
    ensures
        state.after_subscribe().after_end(state.next_id).active == state.active,
        state.after_subscribe().active.len() == state.active.len() + 1,
{
    assert(state.active.insert(state.next_id).remove(state.next_id) =~= state.active);
}

/// Connecting and shutting down leave the subscriptions that are alive as they are; a shutdown
/// waits for them exactly if there are any.
pub proof fn subscriptions_outlive_shutdown(state: ClientState, connected: bool)
    requires
        state.active.finite(),
    ensures
        state.after_connect(connected).active == state.active,
        state.after_shutdown().active == state.active,
        state.grace() is Some <==> exists|id: u64| state.active.contains(id),
{
    if state.active.len() > 0 {
        if forall|id: u64| !state.active.contains(id) {
            assert(state.active =~= Set::empty());
        }
    } else {
        assert(state.active =~= Set::empty());
    }
}

/// What a call's arguments stand for does not hang on the order in which they are read: either
/// every reading fails, or every reading gives the same values.
pub proof fn arguments_are_determined(
    raw: Map<String, String>,
    first: Result<BTreeMap<String, convex::Value>, ClientError>,
    second: Result<BTreeMap<String, convex::Value>, ClientError>,
)
    requires
        crate::args::args_agree(raw, first),
        crate::args::args_agree(raw, second),
    ensures
        first is Ok <==> second is Ok,
        first is Ok ==> first->Ok_0@ == second->Ok_0@,
{
    if first is Ok {
        assert(first->Ok_0@ =~= second->Ok_0@);
    }
}

/// The JSON text of a result, passed back as an argument, is read as the same value exactly if the
/// codecs read it back; and arguments that hold only such a text under `key` are read as the values
/// that hold only the result under `key`.
pub proof fn results_can_be_passed_back(
    value: convex::Value,
    key: String,
    text: String,
    raw: Map<String, String>,
    args: Result<BTreeMap<String, convex::Value>, ClientError>,
)
    requires
        FunctionResult::Value(value).answer() == Ok::<Seq<char>, ErrorView>(text@),
        raw == Map::<String, String>::empty().insert(key, text),
        crate::args::args_agree(raw, args),
    ensures
        crate::args::arg_outcome(key@, text@) == Ok::<convex::Value, ErrorView>(value)
            <==> crate::reply::reads_back(value),
        crate::reply::reads_back(value) ==> args is Ok,
        crate::reply::reads_back(value) ==> args->Ok_0@ == Map::<String, convex::Value>::empty().insert(
            key,
            value,
        ),
{
    assert(raw.contains_key(key));
    if crate::reply::reads_back(value) {
        assert forall|k: String| #[trigger] raw.contains_key(
            k,
        ) implies crate::args::is_convex_json(raw[k]@) by {
            assert(k == key);
        }
        assert(args->Ok_0@ =~= Map::<String, convex::Value>::empty().insert(key, value));
    }
}

/// A result made of `null`, booleans, strings and arrays, nested no deeper than a JSON reader
/// follows, can always be passed back: once a direct call has answered with its text, arguments that
/// hold only this text under `key` are read as the values that hold only the result under `key`.
/// `can_be_passed_back` is what `handle_direct_function_result` and `finish_call` leave behind.
pub proof fn plain_results_can_be_passed_back(
    value: convex::Value,
    key: String,
    text: String,
    raw: Map<String, String>,
    args: Result<BTreeMap<String, convex::Value>, ClientError>,
)
    requires
        FunctionResult::Value(value).answer() == Ok::<Seq<char>, ErrorView>(text@),
        FunctionResult::Value(value).can_be_passed_back(),
        crate::outside::is_plain(text@),
        raw == Map::<String, String>::empty().insert(key, text),
        crate::args::args_agree(raw, args),
    ensures
        args is Ok,
        args->Ok_0@ == Map::<String, convex::Value>::empty().insert(key, value),
{
    results_can_be_passed_back(value, key, text, raw, args);
}

/// Next to whatever other arguments, the JSON text of a result is read as the same value where the
/// codecs read it back.
pub proof fn results_can_be_passed_back_among_others(
    value: convex::Value,
    key: String,
    raw: Map<String, String>,
    args: BTreeMap<String, convex::Value>,
)
    requires
        crate::reply::reads_back(value),
        raw.contains_key(key),
        raw[key]@ == crate::reply::value_text(value),
        crate::args::args_agree(raw, Ok(args)),
    ensures
        args@.contains_key(key),
        args@[key] == value,
{
}

/// A direct call succeeds exactly if the function returned a value.
pub proof fn answered_exactly_by_values(result: FunctionResult)
    ensures
        result.answer() is Ok <==> result is Value,
{
}

/// A subscriber is updated with what a direct call would have answered, and is told of an error
/// where a direct call would have failed.
pub proof fn subscribers_see_what_callers_see(result: FunctionResult)
    ensures
        result.news() is Update <==> result.answer() is Ok,
        result.news() is Update ==> result.answer() == Ok::<Seq<char>, ErrorView>(
            result.news()->Update_0,
        ),
        result.news() is Fail <==> result.answer() is Err,
{
}

/// A subscriber is told of `text` alone exactly where a direct call would have failed with the
/// server error `text`, and of a `ConvexError` with the detail `text` exactly where a direct call
/// would have failed with the application error `text`.
pub proof fn subscribers_hear_the_same_errors(result: FunctionResult, text: Seq<char>)
    ensures
        result.answer() == Err::<Seq<char>, ErrorView>(ErrorView::ServerError { msg: text })
            <==> result.news() == (ActionView::Fail { message: text, value: None }),
        result.answer() == Err::<Seq<char>, ErrorView>(ErrorView::ConvexError { data: text })
            <==> result.news() == (ActionView::Fail {
            message: "ConvexError"@,
            value: Some(text),
        }),
{
}

/// A subscription goes on through every result, errors too, and ends exactly when its stream ends
/// or it is cancelled.
pub proof fn subscription_ends_only_when_asked(event: SubscriptionEvent)
    ensures
        crate::subscription::action_for(false, event) is Stop <==> (event is Cancelled || event
            == SubscriptionEvent::Next(None)),
{
}

/// The events of a stream that gives `results`.
pub open spec fn items(results: Seq<FunctionResult>) -> Seq<SubscriptionEvent> {
    results.map_values(|result: FunctionResult| SubscriptionEvent::Next(Some(result)))
}

/// As long as a stream gives results, its subscriber is told of each with exactly one call, in
/// order, and the subscription goes on.
pub proof fn one_call_per_result(results: Seq<FunctionResult>)
    ensures
        progress(false, items(results)).told == results.map_values(
            |result: FunctionResult| result.news(),
        ),
        progress(false, items(results)).listening,
    decreases results.len(),
{
    if results.len() > 0 {
        one_call_per_result(results.drop_last());
        assert(items(results).drop_last() =~= items(results.drop_last()));
        assert(progress(false, items(results)).told =~= results.map_values(
            |result: FunctionResult| result.news(),
        ));
    }
}

/// When the stream ends or the subscription is cancelled, the subscriber is told nothing of it, and
/// nothing more whatever comes after.
pub proof fn no_call_from_the_end_on(
    results: Seq<FunctionResult>,
    end: SubscriptionEvent,
    more: Seq<SubscriptionEvent>,
)
    requires
        end is Cancelled || end == SubscriptionEvent::Next(None),
    ensures
        progress(false, items(results).push(end) + more).told == results.map_values(
            |result: FunctionResult| result.news(),
        ),
        !progress(false, items(results).push(end) + more).listening,
    decreases more.len(),
{
    let events = items(results).push(end);
    if more.len() == 0 {
        one_call_per_result(results);
        assert(events + more =~= events);
        assert(events.drop_last() =~= items(results));
    } else {
        no_call_from_the_end_on(results, end, more.drop_last());
        assert((events + more).drop_last() =~= events + more.drop_last());
    }
}

/// An argument is read as the value that the codecs make of its text, whatever its name and
/// whatever the text; it fails exactly where one of the codecs fails, as an internal error that
/// names the argument and ends in what the codec said.
pub proof fn arguments_are_what_the_codecs_say(
    key: String,
    text: String,
    arg: Result<convex::Value, ClientError>,
)
    requires
        crate::error::viewed(arg) == crate::args::arg_outcome(key@, text@),
    ensures
        arg is Ok <==> parsed_json(text@) is Ok && decoded_value(parsed_json(text@)->Ok_0) is Ok,
        arg is Ok ==> arg->Ok_0 == decoded_value(parsed_json(text@)->Ok_0)->Ok_0,
        arg is Err && parsed_json(text@) is Err ==> (arg->Err_0 matches ClientError::InternalError {
            msg,
        } && msg@ == "Invalid JSON for key '"@ + key@ + "': "@ + text@ + " – "@ + parsed_json(
            text@,
        )->Err_0),
        arg is Err && parsed_json(text@) is Ok ==> (arg->Err_0 matches ClientError::InternalError {
            msg,
        } && msg@ == "Invalid Convex value for key '"@ + key@ + "': "@ + decoded_value(
            parsed_json(text@)->Ok_0,
        )->Err_0),
{
}

/// The name of an argument has no say in its value: the same text under two names, in whatever two
/// calls, is read as one value.
pub proof fn names_do_not_change_values(
    first: Map<String, String>,
    second: Map<String, String>,
    first_key: String,
    second_key: String,
    first_args: BTreeMap<String, convex::Value>,
    second_args: BTreeMap<String, convex::Value>,
)
    requires
        crate::args::args_agree(first, Ok(first_args)),
        crate::args::args_agree(second, Ok(second_args)),
        first.contains_key(first_key),
        second.contains_key(second_key),
        first[first_key]@ == second[second_key]@,
    ensures
        first_args@[first_key] == second_args@[second_key],
{
}

/// If the text under `key` is JSON and this JSON encodes `value`, then `value` is what a call sends
/// under `key`, whatever else it sends; and nothing is sent that was not passed.
pub proof fn arguments_are_sent_as_decoded(
    raw: Map<String, String>,
    args: BTreeMap<String, convex::Value>,
    key: String,
    json: serde_json::Value,
    value: convex::Value,
)
    requires
        crate::args::args_agree(raw, Ok(args)),
        raw.contains_key(key),
        parsed_json(raw[key]@) == Ok::<serde_json::Value, Seq<char>>(json),
        decoded_value(json) == Ok::<convex::Value, Seq<char>>(value),
    ensures
        args@.contains_key(key),
        args@[key] == value,
        forall|other: String| #[trigger] args@.contains_key(other) ==> raw.contains_key(other),
{
}

/// The arguments of a call are refused exactly if one of them is not the JSON of a Convex value,
/// and the error is the one of such an argument.
pub proof fn arguments_are_refused_for_a_reason(
    raw: Map<String, String>,
    args: Result<BTreeMap<String, convex::Value>, ClientError>,
)
    requires
        crate::args::args_agree(raw, args),
    ensures
        args is Err <==> exists|key: String| #[trigger]
            raw.contains_key(key) && (parsed_json(raw[key]@) is Err || decoded_value(
                parsed_json(raw[key]@)->Ok_0,
            ) is Err),
        args matches Err(error) ==> exists|key: String| #[trigger]
            raw.contains_key(key) && (error matches ClientError::InternalError { msg } && match (
            parsed_json(raw[key]@)) {
                Err(reason) => msg@ == "Invalid JSON for key '"@ + key@ + "': "@ + raw[key]@
                    + " – "@ + reason,
                Ok(json) => decoded_value(json) is Err && msg@
                    == "Invalid Convex value for key '"@ + key@ + "': "@ + decoded_value(
                    json,
                )->Err_0,
            }),
{
    if args is Ok {
        assert forall|key: String| #[trigger] raw.contains_key(key) implies !(parsed_json(
            raw[key]@,
        ) is Err || decoded_value(parsed_json(raw[key]@)->Ok_0) is Err) by {
            assert(crate::args::is_convex_json(raw[key]@));
        }
    } else {
        let key = choose|key: String| #[trigger]
            raw.contains_key(key) && !crate::args::is_convex_json(raw[key]@);
        assert(raw.contains_key(key));
        let named = choose|key: String| #[trigger]
            raw.contains_key(key) && crate::args::arg_outcome(key@, raw[key]@) == Err::<
                convex::Value,
                ErrorView,
            >(args->Err_0@);
        assert(raw.contains_key(named));
    }
}

/// An admitted call keeps what it was made with up to the moment it is sent: its kind, its name,
/// and under each argument's name the value that its text decodes to.
pub proof fn admitted_calls_are_sent_unchanged(
    state: ClientState,
    kind: CallKind,
    name: String,
    raw: Map<String, String>,
    call: PendingCall,
    args: BTreeMap<String, convex::Value>,
    key: String,
)
    requires
        call_agrees(state, kind, false, name, raw, Ok(call)),
        crate::args::args_agree(call.args(), Ok(args)),
    ensures
        call.kind() == kind,
        call.name() == name,
        args@.contains_key(key) <==> raw.contains_key(key),
        raw.contains_key(key) ==> decoded_value(parsed_json(raw[key]@)->Ok_0) == Ok::<
            convex::Value,
            Seq<char>,
        >(args@[key]),
{
    if raw.contains_key(key) {
        assert(call.args().contains_key(key));
    }
    assert(args@.dom() == raw.dom());
}

/// A call is admitted exactly if it is not made from asynchronous code and the client is not
/// shutting down. Asynchronous code is told that its context is wrong, others that the client is
/// shutting down.
pub proof fn calls_are_refused_for_a_reason(
    state: ClientState,
    kind: CallKind,
    inside: bool,
    name: String,
    args: Map<String, String>,
    call: Result<PendingCall, ClientError>,
)
    requires
        call_agrees(state, kind, inside, name, args, call),
    ensures
        call is Ok <==> !inside && !state.shutting_down,
        call is Err && call->Err_0 is InvalidContext <==> inside,
        inside ==> (call matches Err(ClientError::InvalidContext { msg }) && msg@
            == kind.entry_point().context_text()),
        !inside && state.shutting_down ==> (call matches Err(ClientError::InternalError { msg })
            && msg@ == "Client is shutting down"@),
        call matches Ok(c) ==> c.kind() == kind && c.name() == name && c.args() == args,
{
}

/// A change of the authentication is admitted exactly if it is not made from asynchronous code, and
/// with the token that was passed.
pub proof fn tokens_are_passed_on(
    state: ClientState,
    inside: bool,
    token: Option<String>,
    call: Result<PendingAuth, ClientError>,
)
    requires
        auth_agrees(state, inside, token, call),
    ensures
        call is Ok <==> !inside,
        inside ==> (call matches Err(ClientError::InvalidContext { msg }) && msg@
            == EntryPoint::SetAuth.context_text()),
        call matches Ok(c) ==> c.token() == token,
{
}

/// A direct call answers a value with the text that the codecs give it, whatever the value; a
/// message of the server comes back as a server error that holds this message, and an application
/// error as an application error that holds its description. Neither turns into the other.
pub proof fn answers_keep_their_kind(result: FunctionResult, answer: Result<String, ClientError>)
    requires
        crate::reply::viewed_text(answer) == result.answer(),
    ensures
        result is Value <==> answer is Ok,
        result is ErrorMessage <==> answer is Err && answer->Err_0 is ServerError,
        result is ConvexError <==> answer is Err && answer->Err_0 is ConvexError,
        result matches FunctionResult::Value(value) ==> answer->Ok_0@ == json_text(
            encoded_value(value),
        ),
        result matches FunctionResult::ErrorMessage(message) ==> (
        answer matches Err(ClientError::ServerError { msg }) && msg@ == message@),
        result matches FunctionResult::ConvexError(error) ==> (
        answer matches Err(ClientError::ConvexError { data }) && data@ == debug_text(error)),
{
}

/// A subscriber is updated with the text that the codecs give a value, whatever the value; it is
/// told of a message of the server with this message and no detail, and of an application error
/// with its description as the detail.
pub proof fn news_keep_their_kind(result: FunctionResult, action: SubscriptionAction)
    requires
        action@ == result.news(),
    ensures
        result is Value <==> action is Update,
        result is ErrorMessage <==> (action matches SubscriptionAction::Fail { message, value }
            && value is None),
        result is ConvexError <==> (action matches SubscriptionAction::Fail { message, value }
            && value is Some),
        result matches FunctionResult::Value(value) ==> (action matches SubscriptionAction::Update(
            text,
        ) && text@ == json_text(encoded_value(value))),
        result matches FunctionResult::ErrorMessage(said) ==> (
        action matches SubscriptionAction::Fail { message, value } && message@ == said@),
        result matches FunctionResult::ConvexError(error) ==> (
        action matches SubscriptionAction::Fail { message, value } && message@ == "ConvexError"@
            && value->Some_0@ == debug_text(error)),
{
}

/// Whatever a stream gives, call after call: if each result finds the record as the last one left
/// it and adds to it what the subscription does about this result, then the record holds one entry
/// for each result, in order. The entry of a value is an update with the text that the codecs give it;
/// the entry of a message or an application error is a failure that holds it.
pub proof fn records_follow_the_stream(
    results: Seq<FunctionResult>,
    records: Seq<Seq<ActionView>>,
    i: int,
)
    requires
        records.len() == results.len() + 1,
        records[0] == Seq::<ActionView>::empty(),
        forall|k: int|
            0 <= k < results.len() ==> #[trigger] records[k + 1] == records[k].push(
                action_for(false, SubscriptionEvent::Next(Some(results[k]))),
            ),
        0 <= i < results.len(),
    ensures
        records.last().len() == results.len(),
        match results[i] {
            FunctionResult::Value(value) => records.last()[i] == ActionView::Update(
                json_text(encoded_value(value)),
            ),
            FunctionResult::ErrorMessage(said) => records.last()[i] == (ActionView::Fail {
                message: said@,
                value: None,
            }),
            FunctionResult::ConvexError(error) => records.last()[i] == (ActionView::Fail {
                message: "ConvexError"@,
                value: Some(debug_text(error)),
            }),
        },
    decreases results.len(),
{
    let n = results.len() as int;
    let before = results.drop_last();
    let shorter = records.drop_last();
    assert(records[(n - 1) + 1] == records[n - 1].push(
        action_for(false, SubscriptionEvent::Next(Some(results[n - 1]))),
    ));
    if n > 1 {
        assert forall|k: int| 0 <= k < before.len() implies #[trigger] shorter[k + 1]
            == shorter[k].push(action_for(false, SubscriptionEvent::Next(Some(before[k])))) by {
            assert(records[k + 1] == records[k].push(
                action_for(false, SubscriptionEvent::Next(Some(results[k]))),
            ));
        }
        if i < n - 1 {
            records_follow_the_stream(before, shorter, i);
        } else {
            records_follow_the_stream(before, shorter, 0);
        }
    }
}

/// A shutdown leaves a tenth of a second wherever a subscription is alive, and nothing where none
/// is: how many are alive, and what else the client has been through, makes no difference.
pub proof fn shutdown_waits_alike(url: Seq<char>, client_id: Seq<char>, steps: Seq<ClientStep>)
    ensures
        ({
            let state = ClientState::fresh(url, client_id).after_all(steps);
            &&& (exists|id: u64| state.active.contains(id)) ==> state.grace() == Some(100u64)
            &&& (forall|id: u64| !state.active.contains(id)) ==> state.grace() is None
        }),
{
    let state = ClientState::fresh(url, client_id).after_all(steps);
    finitely_many_alive(url, client_id, steps);
    subscriptions_outlive_shutdown(state, true);
}

/// Starting one more subscription, or as many more as there are, does not make a shutdown wait
/// longer.
pub proof fn more_subscriptions_wait_no_longer(state: ClientState)
    requires
        state.active.finite(),
    ensures
        state.after_subscribe().grace() == Some(100u64),
        state.active.len() > 0 ==> state.grace() == state.after_subscribe().grace(),
{
    assert(state.after_subscribe().active.contains(state.next_id));
    if state.after_subscribe().active.len() == 0 {
        assert(state.after_subscribe().active =~= Set::empty());
    }
}

/// A new client is at the address that it was given, for the host that it was given.
pub proof fn new_clients_are_where_they_were_told(url: Seq<char>, client_id: Seq<char>)
    ensures
        ClientState::fresh(url, client_id).deployment_url == url,
        ClientState::fresh(url, client_id).client_id == client_id,
        ClientState::fresh(url, client_id).active == Set::<u64>::empty(),
{
}

/// What a step does to a client, seen from each part of it: only an attempt to connect can connect,
/// only a shutdown shuts down, only a subscription that the server took uses up a number, and a
/// subscription other than the one that starts or ends stays as it is.
pub proof fn steps_touch_only_their_own(state: ClientState, step: ClientStep, id: u64)
    ensures
        state.after(step).initialized <==> state.initialized || step == (ClientStep::Connect {
            connected: true,
        }),
        state.after(step).shutting_down <==> state.shutting_down || step is Shutdown,
        step !is Subscribe ==> state.after(step).next_id == state.next_id,
        step is Subscribe ==> state.after(step).next_id == (state.next_id + 1) % (u64::MAX + 1),
        state.after(step).active.contains(id) <==> (step is Subscribe && id == state.next_id) || (
        state.active.contains(id) && step != (ClientStep::End { id })),
{
}

/// The line of an error tells which error it is: two errors with one line are of one kind and have
/// one text.
pub proof fn lines_tell_errors_apart(first: ClientError, second: ClientError)
    requires
        first@.line() == second@.line(),
    ensures
        first@ == second@,
{
    reveal_strlit("InternalError: ");
    reveal_strlit("ConvexError: ");
    reveal_strlit("ServerError: ");
    reveal_strlit("InvalidContext: ");
    let line = first@.line();
    let other = second@.line();
    assert forall|error: ErrorView| #[trigger] error.line().len() >= 13 && match error {
        ErrorView::InternalError { msg } => error.line()[0] == 'I' && error.line()[2] == 't',
        ErrorView::ConvexError { data } => error.line()[0] == 'C',
        ErrorView::ServerError { msg } => error.line()[0] == 'S',
        ErrorView::InvalidContext { msg } => error.line()[0] == 'I' && error.line()[2] == 'v',
    } by {}
    assert(line.len() >= 13 && other.len() >= 13);
    match (first@, second@) {
        (ErrorView::InternalError { msg: a }, ErrorView::InternalError { msg: b }) => {
            assert(line.skip(15) =~= a && other.skip(15) =~= b);
        },
        (ErrorView::ConvexError { data: a }, ErrorView::ConvexError { data: b }) => {
            assert(line.skip(13) =~= a && other.skip(13) =~= b);
        },
        (ErrorView::ServerError { msg: a }, ErrorView::ServerError { msg: b }) => {
            assert(line.skip(13) =~= a && other.skip(13) =~= b);
        },
        (ErrorView::InvalidContext { msg: a }, ErrorView::InvalidContext { msg: b }) => {
            assert(line.skip(16) =~= a && other.skip(16) =~= b);
        },
        _ => {},
    }
}

/// The line of an error is the name of its kind, a colon and its text.
pub proof fn lines_name_the_kind(error: ClientError, line: String)
    requires
        line@ == error@.line(),
    ensures
        error matches ClientError::InternalError { msg } ==> line@ == "InternalError: "@ + msg@,
        error matches ClientError::ConvexError { data } ==> line@ == "ConvexError: "@ + data@,
        error matches ClientError::ServerError { msg } ==> line@ == "ServerError: "@ + msg@,
        error matches ClientError::InvalidContext { msg } ==> line@ == "InvalidContext: "@ + msg@,
{
}

/// What goes wrong on the way to the server is told as an internal error that ends in what was said
/// of it: the reason is passed on whole, whatever the call and whatever the reason.
pub proof fn reasons_are_passed_on(kind: CallKind, first: Seq<char>, second: Seq<char>)
    ensures
        kind.failure_head() + first == kind.failure_head() + second <==> first == second,
        not_connected(first) == not_connected(second) <==> first == second,
        not_started(first) == not_started(second) <==> first == second,
{
    let heads = seq![
        kind.failure_head(),
        "Failed to build client: "@,
        "Failed to create runtime: "@,
    ];
    assert forall|k: int| 0 <= k < 3 implies (#[trigger] heads[k] + first).skip(
        heads[k].len() as int,
    ) == first && (heads[k] + second).skip(heads[k].len() as int) == second by {
        assert((heads[k] + first).skip(heads[k].len() as int) =~= first);
        assert((heads[k] + second).skip(heads[k].len() as int) =~= second);
    }
    assert(heads[0] == kind.failure_head());
    assert(heads[1] == "Failed to build client: "@);
    assert(heads[2] == "Failed to create runtime: "@);
}

} // verus!
