use std::sync::Mutex;

use convex::{ConvexError, Value};
use convex_kmp::client::MobileConvexClient;
use convex_kmp::listener::Listener;
use convex_kmp::reply::FunctionResult;
use convex_kmp::subscription::{
    json_news, QuerySubscriber, SubscriptionAction, SubscriptionEvent, SubscriptionTask,
};

struct Recorder {
    told: Mutex<Vec<String>>,
}

impl Recorder {
    fn new() -> Recorder {
        Recorder { told: Mutex::new(Vec::new()) }
    }

    fn told(&self) -> Vec<String> {
        self.told.lock().unwrap().clone()
    }
}

impl QuerySubscriber for Recorder {
    fn on_update(&self, value: String) {
        self.told.lock().unwrap().push(format!("update {}", value));
    }

    fn on_error(&self, message: String, value: Option<String>) {
        self.told.lock().unwrap().push(format!("error {} {:?}", message, value));
    }
}

#[test]
fn a_subscriber_hears_of_every_result() {
    let task = SubscriptionTask::new(3);
    let recorder = Recorder::new();
    let subscriber: &dyn QuerySubscriber = &recorder;
    let mut listener = Listener::new(subscriber);

    assert!(task.handle(
        SubscriptionEvent::Next(Some(FunctionResult::Value(Value::Float64(1.5)))),
        &mut listener
    ));
    assert!(task.handle(
        SubscriptionEvent::Next(Some(FunctionResult::ErrorMessage(String::from("boom")))),
        &mut listener
    ));
    assert!(task.handle(
        SubscriptionEvent::Next(Some(FunctionResult::ConvexError(ConvexError {
            message: String::from("no"),
            data: Value::Null,
        }))),
        &mut listener
    ));
    assert!(task.handle(
        SubscriptionEvent::Next(Some(FunctionResult::Value(Value::String(String::from("x"))))),
        &mut listener
    ));
    assert_eq!(
        recorder.told(),
        vec![
            String::from("update 1.5"),
            String::from("error boom None"),
            String::from("error ConvexError Some(\"\\\"no\\\"\")"),
            String::from("update \"x\""),
        ]
    );
    assert_eq!(task.id(), 3);
}

#[test]
fn the_end_of_the_stream_ends_the_subscription() {
    let recorder = Recorder::new();
    assert!(!SubscriptionTask::new(0).handle(SubscriptionEvent::Next(None), &mut Listener::new(&recorder)));
    assert!(recorder.told().is_empty());
}

#[test]
fn cancelling_ends_the_subscription() {
    let recorder = Recorder::new();
    assert!(!SubscriptionTask::new(0).handle(SubscriptionEvent::Cancelled, &mut Listener::new(&recorder)));
    assert!(recorder.told().is_empty());
}

#[test]
fn decisions_are_made_before_anyone_is_told() {
    let task = SubscriptionTask::new(0);
    assert!(matches!(task.decide(SubscriptionEvent::Cancelled), SubscriptionAction::Stop));
    assert!(matches!(task.decide(SubscriptionEvent::Next(None)), SubscriptionAction::Stop));
    match task.decide(SubscriptionEvent::Next(Some(FunctionResult::Value(Value::Null)))) {
        SubscriptionAction::Update(text) => assert_eq!(text, "null"),
        _ => panic!("expected an update"),
    }
}

#[test]
fn a_value_that_could_not_be_written_is_told_as_an_error() {
    match json_news(Err(String::from("why"))) {
        SubscriptionAction::Fail { message, value } => {
            assert_eq!(message, "Serialization error");
            assert_eq!(value, Some(String::from("Failed to serialize value: why")));
        }
        _ => panic!("expected an error"),
    }
    match json_news(Ok(String::from("1"))) {
        SubscriptionAction::Update(text) => assert_eq!(text, "1"),
        _ => panic!("expected an update"),
    }
}

#[test]
fn a_stream_is_told_item_by_item_and_then_forgotten() {
    let mut client = MobileConvexClient::new(String::from("url"), String::from("id")).unwrap();
    let stream = vec![
        Some(FunctionResult::ErrorMessage(String::from("boom"))),
        Some(FunctionResult::Value(Value::Boolean(true))),
        Some(FunctionResult::ErrorMessage(String::from("again"))),
        None,
    ];
    let (stream, task) = client.subscribed(Ok(stream)).unwrap();
    assert_eq!(client.active_subscription_count(), 1);

    let recorder = Recorder::new();
    let mut listener = Listener::new(&recorder);
    let mut handled = 0;
    for item in stream {
        handled += 1;
        if !task.handle(SubscriptionEvent::Next(item), &mut listener) {
            break;
        }
    }
    client.ended(task);

    assert_eq!(handled, 4);
    assert_eq!(
        recorder.told(),
        vec![
            String::from("error boom None"),
            String::from("update true"),
            String::from("error again None"),
        ]
    );
    assert_eq!(client.active_subscription_count(), 0);
}

#[test]
fn a_listener_makes_the_calls_it_is_asked_for() {
    let recorder = Recorder::new();
    let mut listener = Listener::new(&recorder);
    assert!(recorder.told().is_empty());
    listener.update(String::from("1"));
    listener.fail(String::from("m"), Some(String::from("d")));
    listener.fail(String::from("m"), None);
    assert_eq!(
        recorder.told(),
        vec![
            String::from("update 1"),
            String::from("error m Some(\"d\")"),
            String::from("error m None"),
        ]
    );
}
