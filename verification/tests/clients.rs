use std::collections::HashMap;

use convex::Value;
use convex_kmp::client::{check_context, MobileConvexClient, PendingCall};
use convex_kmp::error::ClientError;
use convex_kmp::state::{CallKind, EntryPoint, GRACE_MILLIS};
use convex_kmp::subscription::SubscriptionTask;
use tokio::runtime::Runtime;

fn client() -> MobileConvexClient {
    MobileConvexClient::new(
        "https://test.convex.cloud".to_string(),
        "TestApp/1.0.0".to_string(),
    )
    .unwrap()
}

fn text(result: Result<PendingCall, ClientError>) -> String {
    match result {
        Ok(_) => String::from("admitted"),
        Err(error) => error.message(),
    }
}

fn open(client: &mut MobileConvexClient) -> SubscriptionTask {
    client.subscribed(Ok(())).unwrap().1
}

#[test]
fn test_client_creation() {
    let client = MobileConvexClient::new(
        "https://test.convex.cloud".to_string(),
        "TestApp/1.0.0".to_string(),
    );
    assert!(client.is_ok());

    let client = client.unwrap();
    assert!(!client.is_initialized());
}

#[test]
fn test_runtime_context_safety() {
    let mut client = MobileConvexClient::new(
        "https://test.convex.cloud".to_string(),
        "TestApp/1.0.0".to_string(),
    )
    .unwrap();

    // Not in async context, so the call is let through; it then fails for connection reasons.
    let result = client
        .querySync("test".to_string(), HashMap::new())
        .and_then(|call| client.prepare::<()>(call, Err(String::from("unreachable"))));
    assert!(matches!(result, Err(ClientError::InternalError { .. })));
}

#[test]
fn a_new_client_is_idle() {
    let client = client();
    assert_eq!(client.active_subscription_count(), 0);
    assert!(!client.is_shutting_down());
    assert_eq!(client.deployment_url(), "https://test.convex.cloud");
}

#[test]
fn a_client_has_two_worker_threads() {
    let mut client = client();
    let rt = client.take_runtime().unwrap();
    assert!(client.take_runtime().is_none());
    assert_eq!(rt.metrics().num_workers(), 2);
}

#[test]
fn a_runtime_that_could_not_be_built_is_an_internal_error() {
    let built = MobileConvexClient::with_runtime(
        String::from("url"),
        String::from("id"),
        Err(String::from("why")),
    );
    match built {
        Err(ClientError::InternalError { msg }) => {
            assert_eq!(msg, "Failed to create runtime: why")
        }
        _ => panic!("expected an internal error"),
    }
}

#[test]
fn a_given_runtime_is_used() {
    let rt = Runtime::new().unwrap();
    let mut client =
        MobileConvexClient::with_runtime(String::from("url"), String::from("id"), Ok(rt)).unwrap();
    assert_eq!(client.deployment_url(), "url");
    assert!(client.take_runtime().is_some());
}

#[test]
fn async_code_is_refused_every_entry_point() {
    let rt = Runtime::new().unwrap();
    let mut client = client();
    let texts = rt.block_on(async {
        let name = String::from("f");
        vec![
            text(client.querySync(name.clone(), HashMap::new())),
            text(client.subscribeSync(name.clone(), HashMap::new())),
            text(client.mutationSync(name.clone(), HashMap::new())),
            text(client.actionSync(name.clone(), HashMap::new())),
            match client.set_authSync(None) {
                Ok(_) => String::from("admitted"),
                Err(error) => error.message(),
            },
        ]
    });
    assert_eq!(
        texts,
        vec![
            "InvalidContext: Cannot call querySync from within async context. Use queryAsync instead.",
            "InvalidContext: Cannot call subscribeSync from within async context. Use subscribeAsync instead.",
            "InvalidContext: Cannot call mutationSync from within async context. Use mutationAsync instead.",
            "InvalidContext: Cannot call actionSync from within async context. Use actionAsync instead.",
            "InvalidContext: Cannot call set_authSync from within async context. Use set_authAsync instead.",
        ]
    );

    // Also while the client is shutting down.
    client.shutdown();
    let told = rt.block_on(async { text(client.querySync(String::from("f"), HashMap::new())) });
    assert!(told.starts_with("InvalidContext: "));
}

#[test]
fn the_context_is_checked_for_the_entry_point_used() {
    assert!(check_context(EntryPoint::Action, false).is_ok());
    match check_context(EntryPoint::Action, true) {
        Err(ClientError::InvalidContext { msg }) => assert_eq!(
            msg,
            "Cannot call actionSync from within async context. Use actionAsync instead."
        ),
        _ => panic!("expected an invalid context"),
    }
}

#[test]
fn a_client_that_shuts_down_takes_no_new_work() {
    let mut client = client();
    assert_eq!(text(client.querySync(String::from("f"), HashMap::new())), "admitted");
    assert_eq!(client.shutdown(), None);
    assert!(client.is_shutting_down());

    let refused = "InternalError: Client is shutting down";
    assert_eq!(text(client.querySync(String::from("f"), HashMap::new())), refused);
    assert_eq!(text(client.subscribeSync(String::from("f"), HashMap::new())), refused);
    assert_eq!(text(client.mutationSync(String::from("f"), HashMap::new())), refused);
    assert_eq!(text(client.actionSync(String::from("f"), HashMap::new())), refused);

    client.connected_client(Ok(())).unwrap();
    let task = open(&mut client);
    client.ended(task);
    assert_eq!(text(client.internal_query(String::from("f"), HashMap::new())), refused);
}

#[test]
fn a_client_that_shuts_down_still_changes_its_token() {
    let mut client = client();
    client.shutdown();
    let call = client.set_authSync(Some(String::from("token"))).unwrap();
    let (connection, token) = client.prepare_auth(call, Ok(7)).unwrap();
    assert_eq!(connection, 7);
    assert_eq!(token, Some(String::from("token")));
    assert!(client.is_initialized());
}

#[test]
fn a_failed_connection_can_be_tried_again() {
    let mut client = client();
    match client.connected_client::<()>(Err(String::from("why"))) {
        Err(ClientError::InternalError { msg }) => {
            assert_eq!(msg, "Failed to build client: why")
        }
        _ => panic!("expected an internal error"),
    }
    assert!(!client.is_initialized());
    assert_eq!(client.connected_client(Ok(5)).unwrap(), 5);
    assert!(client.is_initialized());
    assert!(client.connected_client::<()>(Err(String::from("why"))).is_err());
    assert!(client.is_initialized());
}

#[test]
fn an_admitted_call_is_read_once_connected() {
    let mut client = client();
    let mut args = HashMap::new();
    args.insert(String::from("on"), String::from("true"));
    let call = client.mutationSync(String::from("lights:set"), args).unwrap();
    assert!(!client.is_initialized());

    let (connection, ready) = client.prepare(call, Ok("connection")).unwrap();
    assert!(client.is_initialized());
    assert_eq!(connection, "connection");
    assert_eq!(ready.kind, CallKind::Mutation);
    assert_eq!(ready.name, "lights:set");
    assert_eq!(ready.args.len(), 1);
    assert_eq!(ready.args.get("on"), Some(&Value::Boolean(true)));
}

#[test]
fn each_entry_point_makes_its_own_kind_of_call() {
    let mut client = client();
    let calls = vec![
        (client.querySync(String::from("f"), HashMap::new()), CallKind::Query),
        (client.subscribeSync(String::from("f"), HashMap::new()), CallKind::Subscription),
        (client.mutationSync(String::from("f"), HashMap::new()), CallKind::Mutation),
        (client.actionSync(String::from("f"), HashMap::new()), CallKind::Action),
    ];
    for (call, kind) in calls {
        let (_, ready) = client.prepare(call.unwrap(), Ok(())).unwrap();
        assert_eq!(ready.kind, kind);
    }
}

#[test]
fn a_missing_connection_comes_before_bad_arguments() {
    let mut client = client();
    let mut args = HashMap::new();
    args.insert(String::from("a"), String::from("nope"));
    let call = client.actionSync(String::from("f"), args.clone()).unwrap();
    match client.prepare::<()>(call, Err(String::from("why"))) {
        Err(error) => assert_eq!(error.message(), "InternalError: Failed to build client: why"),
        Ok(_) => panic!("expected an error"),
    }
    assert!(!client.is_initialized());

    let call = client.actionSync(String::from("f"), args).unwrap();
    match client.prepare(call, Ok(())) {
        Err(error) => assert!(error
            .message()
            .starts_with("InternalError: Invalid JSON for key 'a': nope – ")),
        Ok(_) => panic!("expected an error"),
    }
    assert!(client.is_initialized());
}

#[test]
fn subscriptions_are_numbered_and_counted() {
    let mut client = client();
    let first = open(&mut client);
    let second = open(&mut client);
    assert_eq!(first.id(), 0);
    assert_eq!(second.id(), 1);
    assert_eq!(client.active_subscription_count(), 2);

    client.ended(first);
    assert_eq!(client.active_subscription_count(), 1);
    let third = open(&mut client);
    assert_eq!(third.id(), 2);
    client.ended(second);
    client.ended(third);
    assert_eq!(client.active_subscription_count(), 0);
}

#[test]
fn a_subscription_that_the_server_refused_is_not_counted() {
    let mut client = client();
    match client.subscribed::<()>(Err(String::from("why"))) {
        Err(error) => {
            assert_eq!(error.message(), "InternalError: Subscription creation failed: why")
        }
        Ok(_) => panic!("expected an error"),
    }
    assert_eq!(client.active_subscription_count(), 0);
    assert_eq!(open(&mut client).id(), 0);
}

#[test]
fn a_shutdown_leaves_time_to_subscriptions_that_are_alive() {
    let mut client = client();
    let task = open(&mut client);
    assert_eq!(GRACE_MILLIS, 100);
    assert_eq!(client.shutdown(), Some(GRACE_MILLIS));
    assert_eq!(client.active_subscription_count(), 1);
    client.ended(task);
    assert_eq!(client.shutdown(), None);
}

#[test]
fn as_many_are_alive_as_were_started() {
    let mut client = client();
    for started in 1..20u64 {
        let task = open(&mut client);
        assert_eq!(task.id(), started - 1);
        assert_eq!(client.active_subscription_count(), started);
    }
    client.shutdown();
    assert_eq!(client.active_subscription_count(), 19);
}
