//! A running subscription: what its subscriber is told, and when it ends.
use vstd::prelude::*;

use crate::error::joined;
use crate::listener::Listener;
use crate::outside::describe;
use crate::reply::{write_value, FunctionResult};

verus! {

/// The host's side of a subscription.
///
/// `updated` and `failed` are the marks that the two calls leave: what an implementation makes of
/// them is its own affair, and code that works for every subscriber can only come by a mark through
/// the call that leaves it.
///
/// `T` is what a text is handed over as: a `String`, for a host. Code that works for every `T` can
/// neither make a text nor copy one, so each text that it is given reaches a subscriber in one call
/// at most.
pub trait QuerySubscriber<T: View<V = Seq<char>> = String>: Send + Sync {
    /// The mark of a call of [`Self::on_update`] with `value`.
    open spec fn updated(&self, value: Seq<char>) -> bool {
        true
    }

    /// The mark of a call of [`Self::on_error`] with `message` and `value`.
    open spec fn failed(&self, message: Seq<char>, value: Option<Seq<char>>) -> bool {
        true
    }

    /// Takes a new result, as JSON text.
    fn on_update(&self, value: T)
        ensures
            self.updated(value@),
    ;

    /// Takes an error: its message and, where there is one, its detail.
    fn on_error(&self, message: T, value: Option<T>)
        ensures
            self.failed(message@, viewed_detail(value)),
    ;
}

/// The characters of an error's detail.
pub open spec fn viewed_detail<T: View<V = Seq<char>>>(value: Option<T>) -> Option<Seq<char>> {
    match value {
        Some(text) => Some(text@),
        None => None,
    }
}

/// What a running subscription waits for.
pub enum SubscriptionEvent {
    /// The stream of results gave its next item, or `None` at its end.
    Next(Option<FunctionResult>),
    /// The owner cancelled the subscription, or is gone.
    Cancelled,
}

/// What a subscription does about an event.
pub enum SubscriptionAction {
    /// Tell the subscriber of a new result.
    Update(String),
    /// Tell the subscriber of an error.
    Fail { message: String, value: Option<String> },
    /// End.
    Stop,
}

/// The characters of a [`SubscriptionAction`].
pub enum ActionView {
    Update(Seq<char>),
    Fail { message: Seq<char>, value: Option<Seq<char>> },
    Stop,
}

impl View for SubscriptionAction {
    type V = ActionView;

    open spec fn view(&self) -> ActionView {
        match self {
            SubscriptionAction::Update(text) => ActionView::Update(text@),
            SubscriptionAction::Fail { message, value } => ActionView::Fail {
                message: message@,
                value: viewed_detail(*value),
            },
            SubscriptionAction::Stop => ActionView::Stop,
        }
    }
}

impl FunctionResult {
    /// What a subscriber is told of this result.
    pub open spec fn news(self) -> ActionView {
        match self {
            FunctionResult::Value(value) => ActionView::Update(crate::reply::value_text(value)),
            FunctionResult::ErrorMessage(msg) => ActionView::Fail { message: msg@, value: None },
            FunctionResult::ConvexError(error) => ActionView::Fail {
                message: "ConvexError"@,
                value: Some(crate::outside::debug_text(error)),
            },
        }
    }
}

/// What a subscription does about `event`; `stopping` says that it was told to wind down.
pub open spec fn action_for(stopping: bool, event: SubscriptionEvent) -> ActionView {
    match event {
        SubscriptionEvent::Next(Some(result)) if !stopping => result.news(),
        _ => ActionView::Stop,
    }
}

/// What a subscriber is told once a value has, or has not, been written as JSON text.
pub fn json_news(written: Result<String, String>) -> (action: SubscriptionAction)
    ensures
        action@ == match written {
            Ok(text) => ActionView::Update(text@),
            Err(reason) => ActionView::Fail {
                message: "Serialization error"@,
                value: Some("Failed to serialize value: "@ + reason@),
            },
        },
        match written {
            Ok(text) => action == SubscriptionAction::Update(text),
            Err(reason) => action matches SubscriptionAction::Fail { message, value: Some(detail) }
                && message@ == "Serialization error"@ && detail@ == "Failed to serialize value: "@
                + reason@,
        },
{
    match written {
        Ok(text) => SubscriptionAction::Update(text),
        Err(reason) => SubscriptionAction::Fail {
            message: "Serialization error".to_owned(),
            value: Some(joined("Failed to serialize value: ", reason.as_str())),
        },
    }
}

/// What a subscriber is told of a result.
pub fn news_of(result: FunctionResult) -> (action: SubscriptionAction)
    ensures
        action@ == result.news(),
        result.can_be_passed_back(),
        match result {
            FunctionResult::Value(value) => {
                &&& action matches SubscriptionAction::Update(text)
                &&& text@ == crate::outside::json_text(crate::outside::encoded_value(value))
            },
            FunctionResult::ErrorMessage(msg) => {
                &&& action matches SubscriptionAction::Fail { message, value: None }
                &&& message == msg
            },
            FunctionResult::ConvexError(error) => {
                &&& action matches SubscriptionAction::Fail { message, value: Some(detail) }
                &&& message@ == "ConvexError"@
                &&& detail@ == crate::outside::debug_text(error)
            },
        },
{
    match result {
        FunctionResult::Value(value) => json_news(write_value(value)),
        FunctionResult::ErrorMessage(msg) => SubscriptionAction::Fail { message: msg, value: None },
        FunctionResult::ConvexError(error) => SubscriptionAction::Fail {
            message: "ConvexError".to_owned(),
            value: Some(describe(&error)),
        },
    }
}

/// A subscription that was admitted and is being listened to.
pub struct SubscriptionTask {
    id: u64,
    stopping: bool,
}

impl SubscriptionTask {
    /// The number that the client knows this subscription by.
    pub closed spec fn spec_id(&self) -> u64 {
        self.id
    }

    /// Whether this subscription was told to wind down. No operation of a client does so: a
    /// shutdown leaves the subscriptions that are alive alone.
    pub closed spec fn spec_stopping(&self) -> bool {
        self.stopping
    }

    /// A subscription that nothing has told to wind down.
    pub fn new(id: u64) -> (task: SubscriptionTask)
        ensures
            task.spec_id() == id,
            !task.spec_stopping(),
    {
        SubscriptionTask { id, stopping: false }
    }

    /// The number that the client knows this subscription by.
    pub fn id(&self) -> (id: u64)
        ensures
            id == self.spec_id(),
    {
        self.id
    }

    /// Decides what to do about an event.
    pub fn decide(&self, event: SubscriptionEvent) -> (action: SubscriptionAction)
        ensures
            action@ == action_for(self.spec_stopping(), event),
            event is Cancelled || event == SubscriptionEvent::Next(None) || self.spec_stopping()
                ==> action is Stop,
            !self.spec_stopping() ==> match event {
                SubscriptionEvent::Next(Some(FunctionResult::Value(value))) => {
                    &&& action matches SubscriptionAction::Update(text)
                    &&& text@ == crate::outside::json_text(crate::outside::encoded_value(value))
                },
                SubscriptionEvent::Next(Some(FunctionResult::ErrorMessage(msg))) => {
                    &&& action matches SubscriptionAction::Fail { message, value: None }
                    &&& message == msg
                },
                SubscriptionEvent::Next(Some(FunctionResult::ConvexError(error))) => {
                    &&& action matches SubscriptionAction::Fail { message, value: Some(detail) }
                    &&& message@ == "ConvexError"@
                    &&& detail@ == crate::outside::debug_text(error)
                },
                _ => true,
            },
    {
        match event {
            SubscriptionEvent::Cancelled => SubscriptionAction::Stop,
            SubscriptionEvent::Next(item) => {
                if self.stopping {
                    SubscriptionAction::Stop
                } else {
                    match item {
                        Some(result) => news_of(result),
                        None => SubscriptionAction::Stop,
                    }
                }
            },
        }
    }

    /// Handles an event: makes the one call on the subscriber that the event asks for, if any, and
    /// returns whether to go on listening.
    pub fn handle<S: QuerySubscriber + ?Sized>(
        &self,
        event: SubscriptionEvent,
        listener: &mut Listener<'_, S>,
    ) -> (go_on: bool)
        ensures
            go_on == !(action_for(self.spec_stopping(), event) is Stop),
            final(listener).told() == if go_on {
                old(listener).told().push(action_for(self.spec_stopping(), event))
            } else {
                old(listener).told()
            },
            final(listener).subscriber() == old(listener).subscriber(),
            match action_for(self.spec_stopping(), event) {
                ActionView::Update(text) => final(listener).subscriber().updated(text),
                ActionView::Fail { message, value } => final(listener).subscriber().failed(
                    message,
                    value,
                ),
                ActionView::Stop => true,
            },
            go_on == (event is Next && event->Next_0 is Some && !self.spec_stopping()),
            !go_on ==> final(listener).told() == old(listener).told(),
            go_on ==> final(listener).told().len() == old(listener).told().len() + 1,
            go_on ==> final(listener).told().drop_last() == old(listener).told(),
            go_on ==> match event->Next_0->Some_0 {
                FunctionResult::Value(value) => {
                    let text = crate::outside::json_text(crate::outside::encoded_value(value));
                    &&& final(listener).told().last() == ActionView::Update(text)
                    &&& final(listener).subscriber().updated(text)
                },
                FunctionResult::ErrorMessage(msg) => {
                    &&& final(listener).told().last() == (ActionView::Fail {
                        message: msg@,
                        value: None,
                    })
                    &&& final(listener).subscriber().failed(msg@, None)
                },
                FunctionResult::ConvexError(error) => {
                    let detail = crate::outside::debug_text(error);
                    &&& final(listener).told().last() == (ActionView::Fail {
                        message: "ConvexError"@,
                        value: Some(detail),
                    })
                    &&& final(listener).subscriber().failed("ConvexError"@, Some(detail))
                },
            },
    {
        match self.decide(event) {
            SubscriptionAction::Update(text) => {
                listener.update(text);
                true
            },
            SubscriptionAction::Fail { message, value } => {
                listener.fail(message, value);
                true
            },
            SubscriptionAction::Stop => false,
        }
    }
}

/// How far a subscription has come.
pub struct Progress {
    /// What its subscriber was told, in order.
    pub told: Seq<ActionView>,
    /// Whether it is still listening.
    pub listening: bool,
}

/// How far a subscription has come after `events`, one call of [`SubscriptionTask::handle`] for
/// each until one says to stop.
pub open spec fn progress(stopping: bool, events: Seq<SubscriptionEvent>) -> Progress
    decreases events.len(),
{
    if events.len() == 0 {
        Progress { told: Seq::empty(), listening: true }
    } else {
        let before = progress(stopping, events.drop_last());
        let action = action_for(stopping, events.last());
        if !before.listening {
            before
        } else if action is Stop {
            Progress { listening: false, ..before }
        } else {
            Progress { told: before.told.push(action), ..before }
        }
    }
}

} // verus!
