//! The client: what it admits, and what it knows between calls.
//!
//! A call goes in steps. An entry point admits it or refuses it. An admitted call waits for the
//! connection, and [`MobileConvexClient::prepare`] then reads its arguments. What the server
//! answers goes to [`finish_call`] or to [`MobileConvexClient::subscribed`].
use std::collections::{BTreeMap, HashMap, HashSet};

use tokio::runtime::Runtime;
use vstd::prelude::*;
#[allow(unused_imports)]
use vstd::string::to_string_from_display_ensures;

use crate::args::parse_json_args;
use crate::error::{ClientError, ErrorView};
use crate::outside::{build_runtime, in_async_context};
#[allow(unused_imports)]
use crate::outside::try_current_gave;
use crate::reply::{handle_direct_function_result, FunctionResult};
use crate::state::{CallKind, ClientState, EntryPoint, GRACE_MILLIS};
use crate::subscription::SubscriptionTask;

verus! {

/// How the threads of a client's runtime are called.
pub const THREAD_NAME: &'static str = "convex-mobile";

/// How many threads a client's runtime has: few, for mobile hosts.
pub const WORKER_THREADS: usize = 2;

/// A client of one deployment.
pub struct MobileConvexClient {
    deployment_url: String,
    client_id: String,
    initialized: bool,
    rt: Option<Runtime>,
    active_subscriptions: HashSet<u64>,
    subscription_counter: u64,
    is_shutting_down: bool,
}

impl View for MobileConvexClient {
    type V = ClientState;

    closed spec fn view(&self) -> ClientState {
        ClientState {
            deployment_url: self.deployment_url@,
            client_id: self.client_id@,
            initialized: self.initialized,
            active: self.active_subscriptions@,
            next_id: self.subscription_counter,
            shutting_down: self.is_shutting_down,
        }
    }
}

/// A call that was admitted and waits for the connection.
pub struct PendingCall {
    kind: CallKind,
    name: String,
    args: HashMap<String, String>,
}

/// A change of the authentication that was admitted and waits for the connection.
pub struct PendingAuth {
    token: Option<String>,
}

/// A call that can be sent.
pub struct ReadyCall {
    /// What kind of function is called.
    pub kind: CallKind,
    /// The function's name.
    pub name: String,
    /// Its arguments.
    pub args: BTreeMap<String, convex::Value>,
}

impl PendingCall {
    /// What kind of function is called.
    pub closed spec fn kind(self) -> CallKind {
        self.kind
    }

    /// The function's name.
    pub closed spec fn name(self) -> String {
        self.name
    }

    /// Its arguments, as JSON text by name.
    pub closed spec fn args(self) -> Map<String, String> {
        self.args@
    }
}

impl PendingAuth {
    /// The token to use from now on, or none.
    pub closed spec fn token(self) -> Option<String> {
        self.token
    }
}

/// Whether `call` is what the entry point of `kind` gives for `name` and `args`.
pub open spec fn call_agrees(
    state: ClientState,
    kind: CallKind,
    in_async_context: bool,
    name: String,
    args: Map<String, String>,
    call: Result<PendingCall, ClientError>,
) -> bool {
    match state.refusal(kind.entry_point(), in_async_context) {
        Some(error) => call matches Err(e) && e@ == error,
        None => call matches Ok(c) && c.kind() == kind && c.name() == name && c.args() == args,
    }
}

/// Whether `call` is what `set_authSync` gives for `token`.
pub open spec fn auth_agrees(
    state: ClientState,
    in_async_context: bool,
    token: Option<String>,
    call: Result<PendingAuth, ClientError>,
) -> bool {
    match state.refusal(EntryPoint::SetAuth, in_async_context) {
        Some(error) => call matches Err(e) && e@ == error,
        None => call matches Ok(c) && c.token() == token,
    }
}

/// The error of a connection that could not be made.
pub open spec fn not_connected(reason: Seq<char>) -> ErrorView {
    ErrorView::InternalError { msg: "Failed to build client: "@ + reason }
}

/// Refuses a synchronous entry point to asynchronous code, which it would block.
pub fn check_context(entry: EntryPoint, in_async_context: bool) -> (checked: Result<
    (),
    ClientError,
>)
    ensures
        checked is Err <==> in_async_context,
        checked matches Err(error) ==> error@ == (ErrorView::InvalidContext {
            msg: entry.context_text(),
        }),
        checked is Err ==> checked->Err_0 is InvalidContext,
{
    if in_async_context {
        let msg = match entry {
            EntryPoint::Query =>
                "Cannot call querySync from within async context. Use queryAsync instead.",
            EntryPoint::Subscribe =>
                "Cannot call subscribeSync from within async context. Use subscribeAsync instead.",
            EntryPoint::Mutation =>
                "Cannot call mutationSync from within async context. Use mutationAsync instead.",
            EntryPoint::Action =>
                "Cannot call actionSync from within async context. Use actionAsync instead.",
            EntryPoint::SetAuth =>
                "Cannot call set_authSync from within async context. Use set_authAsync instead.",
        };
        Err(ClientError::InvalidContext { msg: msg.to_owned() })
    } else {
        Ok(())
    }
}

/// What a direct call answers, given what came back from the server: the function's result, or the
/// line that says why there is none.
pub fn finish_call(kind: CallKind, reply: Result<FunctionResult, String>) -> (answer: Result<
    String,
    ClientError,
>)
    ensures
        crate::reply::viewed_text(answer) == match reply {
            Ok(result) => result.answer(),
            Err(reason) => Err(ErrorView::InternalError { msg: kind.failure_head() + reason@ }),
        },
        reply matches Ok(result) ==> result.can_be_passed_back(),
        match reply {
            Ok(FunctionResult::Value(value)) => answer matches Ok(text) && text@
                == crate::outside::json_text(crate::outside::encoded_value(value)),
            Ok(FunctionResult::ErrorMessage(message)) => answer matches Err(
                ClientError::ServerError { msg },
            ) && msg == message,
            Ok(FunctionResult::ConvexError(error)) => answer matches Err(
                ClientError::ConvexError { data },
            ) && data@ == crate::outside::debug_text(error),
            Err(reason) => answer matches Err(ClientError::InternalError { msg }) && msg@ == (
            match kind {
                CallKind::Query => "Query execution failed: "@,
                CallKind::Subscription => "Subscription creation failed: "@,
                CallKind::Mutation => "Mutation execution failed: "@,
                CallKind::Action => "Action execution failed: "@,
            }) + reason@,
        },
{
    match reply {
        Ok(result) => handle_direct_function_result(result),
        Err(reason) => Err(failed_call(kind, reason.as_str())),
    }
}

/// The error of a call that failed on its way to the server.
pub fn failed_call(kind: CallKind, reason: &str) -> (error: ClientError)
    ensures
        error@ == (ErrorView::InternalError { msg: kind.failure_head() + reason@ }),
        error matches ClientError::InternalError { msg } && msg@ == (match kind {
            CallKind::Query => "Query execution failed: "@,
            CallKind::Subscription => "Subscription creation failed: "@,
            CallKind::Mutation => "Mutation execution failed: "@,
            CallKind::Action => "Action execution failed: "@,
        }) + reason@,
{
    match kind {
        CallKind::Query => ClientError::internal("Query execution failed: ", reason),
        CallKind::Subscription => ClientError::internal("Subscription creation failed: ", reason),
        CallKind::Mutation => ClientError::internal("Mutation execution failed: ", reason),
        CallKind::Action => ClientError::internal("Action execution failed: ", reason),
    }
}

impl MobileConvexClient {
    /// The runtime that calls run on, until it was handed out.
    pub closed spec fn runtime(&self) -> Option<Runtime> {
        self.rt
    }

    /// Creates a client of the deployment at `deployment_url`. Nothing is connected until the
    /// first call. `client_id` names the host and its version.
    pub fn new(deployment_url: String, client_id: String) -> (client: Result<
        MobileConvexClient,
        ClientError,
    >)
        ensures
            match client {
                Ok(client) => client@ == ClientState::fresh(deployment_url@, client_id@) && (
                client.runtime() matches Some(rt) && runtime_built(Ok(rt))),
                Err(error) => exists|e: std::io::Error, reason: String|
                    runtime_built(Err(e)) && #[trigger] to_string_from_display_ensures(&e, reason)
                        && error@ == not_started(reason@),
            },
            match client {
                Ok(client) => {
                    &&& client@.deployment_url == deployment_url@
                    &&& client@.client_id == client_id@
                    &&& !client@.initialized
                    &&& !client@.shutting_down
                    &&& client@.next_id == 0
                    &&& client@.active == Set::<u64>::empty()
                    &&& client.runtime() matches Some(rt) && crate::outside::build_gave(
                        "convex-mobile"@,
                        2,
                        Ok(rt),
                    )
                },
                Err(error) => exists|e: std::io::Error, reason: String|
                    crate::outside::build_gave("convex-mobile"@, 2, Err(e))
                        && #[trigger] to_string_from_display_ensures(&e, reason) && (
                    error matches ClientError::InternalError { msg } && msg@
                        == "Failed to create runtime: "@ + reason@),
            },
    {
        proof {
            reveal_strlit("convex-mobile");
        }
        let built = match build_runtime(THREAD_NAME, WORKER_THREADS) {
            Ok(rt) => Ok(rt),
            Err(error) => Err(error.to_string()),
        };
        MobileConvexClient::with_runtime(deployment_url, client_id, built)
    }

    /// Creates a client on the runtime `built`, or says why there is none.
    pub fn with_runtime(
        deployment_url: String,
        client_id: String,
        built: Result<Runtime, String>,
    ) -> (client: Result<MobileConvexClient, ClientError>)
        ensures
            match built {
                Ok(rt) => client matches Ok(c) && c@ == ClientState::fresh(
                    deployment_url@,
                    client_id@,
                ) && c.runtime() == Some(rt),
                Err(reason) => client matches Err(error) && error@ == not_started(reason@),
            },
            match built {
                Ok(rt) => {
                    &&& client matches Ok(c)
                    &&& c@.deployment_url == deployment_url@
                    &&& c@.client_id == client_id@
                    &&& !c@.initialized
                    &&& !c@.shutting_down
                    &&& c@.next_id == 0
                    &&& c@.active == Set::<u64>::empty()
                    &&& c.runtime() == Some(rt)
                },
                Err(reason) => client matches Err(ClientError::InternalError { msg }) && msg@
                    == "Failed to create runtime: "@ + reason@,
            },
    {
        match built {
            Ok(rt) => Ok(
                MobileConvexClient {
                    deployment_url,
                    client_id,
                    initialized: false,
                    rt: Some(rt),
                    active_subscriptions: HashSet::new(),
                    subscription_counter: 0,
                    is_shutting_down: false,
                },
            ),
            Err(reason) => Err(
                ClientError::internal("Failed to create runtime: ", reason.as_str()),
            ),
        }
    }

    /// Hands out the runtime. Only the first call gets it.
    pub fn take_runtime(&mut self) -> (rt: Option<Runtime>)
        ensures
            rt == old(self).runtime(),
            final(self).runtime() is None,
            final(self)@ == old(self)@,
    {
        self.rt.take()
    }

    /// Admits a call of `kind`, unless the client is shutting down.
    fn take_on(&self, kind: CallKind, name: String, args: HashMap<String, String>) -> (call: Result<
        PendingCall,
        ClientError,
    >)
        ensures
            call_agrees(self@, kind, false, name, args@, call),
    {
        if self.is_shutting_down {
            Err(ClientError::InternalError { msg: "Client is shutting down".to_owned() })
        } else {
            Ok(PendingCall { kind, name, args })
        }
    }

    /// Admits a query, unless the client is shutting down.
    pub fn internal_query(&self, name: String, args: HashMap<String, String>) -> (call: Result<
        PendingCall,
        ClientError,
    >)
        ensures
            call_agrees(self@, CallKind::Query, false, name, args@, call),
    {
        self.take_on(CallKind::Query, name, args)
    }

    /// Admits a subscription, unless the client is shutting down.
    pub fn internal_subscribe(&self, name: String, args: HashMap<String, String>) -> (call: Result<
        PendingCall,
        ClientError,
    >)
        ensures
            call_agrees(self@, CallKind::Subscription, false, name, args@, call),
    {
        self.take_on(CallKind::Subscription, name, args)
    }

    /// Admits a mutation, unless the client is shutting down.
    pub fn internal_mutation(&self, name: String, args: HashMap<String, String>) -> (call: Result<
        PendingCall,
        ClientError,
    >)
        ensures
            call_agrees(self@, CallKind::Mutation, false, name, args@, call),
    {
        self.take_on(CallKind::Mutation, name, args)
    }

    /// Admits an action, unless the client is shutting down.
    pub fn internal_action(&self, name: String, args: HashMap<String, String>) -> (call: Result<
        PendingCall,
        ClientError,
    >)
        ensures
            call_agrees(self@, CallKind::Action, false, name, args@, call),
    {
        self.take_on(CallKind::Action, name, args)
    }

    /// Admits a change of the authentication, also while the client is shutting down.
    pub fn internal_set_auth(&self, token: Option<String>) -> (call: PendingAuth)
        ensures
            auth_agrees(self@, false, token, Ok(call)),
    {
        PendingAuth { token }
    }

    /// Starts a query. The first step of the call; see [`Self::prepare`] for the next.
    #[allow(non_snake_case)]
    pub fn querySync(&self, name: String, args: HashMap<String, String>) -> (call: Result<
        PendingCall,
        ClientError,
    >)
        ensures
            exists|inside: bool|
                try_current_gave(inside) && #[trigger] call_agrees(
                    self@,
                    CallKind::Query,
                    inside,
                    name,
                    args@,
                    call,
                ),
    {
        match check_context(EntryPoint::Query, in_async_context()) {
            Err(error) => {
                let call = Err(error);
                assert(call_agrees(self@, CallKind::Query, true, name, args@, call));
                call
            },
            Ok(()) => self.internal_query(name, args),
        }
    }

    /// Starts a subscription. The first step of the call; see [`Self::prepare`] for the next.
    #[allow(non_snake_case)]
    pub fn subscribeSync(&self, name: String, args: HashMap<String, String>) -> (call: Result<
        PendingCall,
        ClientError,
    >)
        ensures
            exists|inside: bool|
                try_current_gave(inside) && #[trigger] call_agrees(
                    self@,
                    CallKind::Subscription,
                    inside,
                    name,
                    args@,
                    call,
                ),
    {
        match check_context(EntryPoint::Subscribe, in_async_context()) {
            Err(error) => {
                let call = Err(error);
                assert(call_agrees(self@, CallKind::Subscription, true, name, args@, call));
                call
            },
            Ok(()) => self.internal_subscribe(name, args),
        }
    }

    /// Starts a mutation. The first step of the call; see [`Self::prepare`] for the next.
    #[allow(non_snake_case)]
    pub fn mutationSync(&self, name: String, args: HashMap<String, String>) -> (call: Result<
        PendingCall,
        ClientError,
    >)
        ensures
            exists|inside: bool|
                try_current_gave(inside) && #[trigger] call_agrees(
                    self@,
                    CallKind::Mutation,
                    inside,
                    name,
                    args@,
                    call,
                ),
    {
        match check_context(EntryPoint::Mutation, in_async_context()) {
            Err(error) => {
                let call = Err(error);
                assert(call_agrees(self@, CallKind::Mutation, true, name, args@, call));
                call
            },
            Ok(()) => self.internal_mutation(name, args),
        }
    }

    /// Starts an action. The first step of the call; see [`Self::prepare`] for the next.
    #[allow(non_snake_case)]
    pub fn actionSync(&self, name: String, args: HashMap<String, String>) -> (call: Result<
        PendingCall,
        ClientError,
    >)
        ensures
            exists|inside: bool|
                try_current_gave(inside) && #[trigger] call_agrees(
                    self@,
                    CallKind::Action,
                    inside,
                    name,
                    args@,
                    call,
                ),
    {
        match check_context(EntryPoint::Action, in_async_context()) {
            Err(error) => {
                let call = Err(error);
                assert(call_agrees(self@, CallKind::Action, true, name, args@, call));
                call
            },
            Ok(()) => self.internal_action(name, args),
        }
    }

    /// Starts a change of the authentication. See [`Self::prepare_auth`] for the next step.
    #[allow(non_snake_case)]
    pub fn set_authSync(&self, token: Option<String>) -> (call: Result<PendingAuth, ClientError>)
        ensures
            exists|inside: bool|
                try_current_gave(inside) && #[trigger] auth_agrees(self@, inside, token, call),
    {
        match check_context(EntryPoint::SetAuth, in_async_context()) {
            Err(error) => {
                let call = Err(error);
                assert(auth_agrees(self@, true, token, call));
                call
            },
            Ok(()) => {
                let call = Ok(self.internal_set_auth(token));
                assert(auth_agrees(self@, false, token, call));
                call
            },
        }
    }

    /// Takes the outcome of an attempt to connect: the connection, or the line that says why there
    /// is none. A client that failed to connect may try again.
    pub fn connected_client<C>(&mut self, outcome: Result<C, String>) -> (connection: Result<
        C,
        ClientError,
    >)
        ensures
            final(self)@ == old(self)@.after_connect(outcome is Ok),
            final(self)@.initialized == (old(self)@.initialized || outcome is Ok),
            final(self)@.active == old(self)@.active,
            final(self)@.next_id == old(self)@.next_id,
            final(self)@.shutting_down == old(self)@.shutting_down,
            final(self)@.deployment_url == old(self)@.deployment_url,
            final(self)@.client_id == old(self)@.client_id,
            final(self).runtime() == old(self).runtime(),
            crate::error::viewed(connection) == match outcome {
                Ok(c) => Ok::<C, ErrorView>(c),
                Err(reason) => Err(not_connected(reason@)),
            },
            match outcome {
                Ok(c) => connection == Ok::<C, ClientError>(c),
                Err(reason) => connection matches Err(ClientError::InternalError { msg }) && msg@
                    == "Failed to build client: "@ + reason@,
            },
    {
        match outcome {
            Ok(connection) => {
                self.initialized = true;
                Ok(connection)
            },
            Err(reason) => Err(ClientError::internal("Failed to build client: ", reason.as_str())),
        }
    }

    /// Takes the outcome of an attempt to connect for `call` and reads the arguments of the call.
    /// That there is no connection comes before anything that is wrong with the arguments.
    pub fn prepare<C>(&mut self, call: PendingCall, outcome: Result<C, String>) -> (ready: Result<
        (C, ReadyCall),
        ClientError,
    >)
        ensures
            final(self)@ == old(self)@.after_connect(outcome is Ok),
            final(self)@.initialized == (old(self)@.initialized || outcome is Ok),
            final(self)@.active == old(self)@.active,
            final(self)@.next_id == old(self)@.next_id,
            final(self)@.shutting_down == old(self)@.shutting_down,
            final(self)@.deployment_url == old(self)@.deployment_url,
            final(self)@.client_id == old(self)@.client_id,
            final(self).runtime() == old(self).runtime(),
            match outcome {
                Err(reason) => ready matches Err(error) && error@ == not_connected(reason@),
                Ok(connection) => match ready {
                    Ok((c, r)) => {
                        &&& c == connection
                        &&& r.kind == call.kind()
                        &&& r.name == call.name()
                        &&& crate::args::args_agree(call.args(), Ok(r.args))
                    },
                    Err(error) => crate::args::args_agree(call.args(), Err(error)),
                },
            },
            outcome matches Err(reason) ==> (ready matches Err(ClientError::InternalError { msg })
                && msg@ == "Failed to build client: "@ + reason@),
            ready matches Ok((c, r)) ==> forall|key: String|
                #![trigger call.args().contains_key(key)]
                #![trigger r.args@.contains_key(key)]
                r.args@.contains_key(key) == call.args().contains_key(key),
            ready matches Ok((c, r)) ==> forall|key: String| #[trigger]
                call.args().contains_key(key) ==> (crate::outside::parsed_json(
                    call.args()[key]@,
                ) matches Ok(json) && crate::outside::decoded_value(json) == Ok::<
                    convex::Value,
                    Seq<char>,
                >(r.args@[key])),
    {
        match self.connected_client(outcome) {
            Err(error) => Err(error),
            Ok(connection) => match parse_json_args(call.args) {
                Err(error) => Err(error),
                Ok(args) => Ok((connection, ReadyCall { kind: call.kind, name: call.name, args })),
            },
        }
    }

    /// Takes the outcome of an attempt to connect for a change of the authentication, and hands
    /// over the token to use on that connection.
    pub fn prepare_auth<C>(&mut self, call: PendingAuth, outcome: Result<C, String>) -> (ready:
        Result<(C, Option<String>), ClientError>)
        ensures
            final(self)@ == old(self)@.after_connect(outcome is Ok),
            final(self)@.initialized == (old(self)@.initialized || outcome is Ok),
            final(self)@.active == old(self)@.active,
            final(self)@.next_id == old(self)@.next_id,
            final(self)@.shutting_down == old(self)@.shutting_down,
            final(self)@.deployment_url == old(self)@.deployment_url,
            final(self)@.client_id == old(self)@.client_id,
            final(self).runtime() == old(self).runtime(),
            crate::error::viewed(ready) == match outcome {
                Ok(c) => Ok::<(C, Option<String>), ErrorView>((c, call.token())),
                Err(reason) => Err(not_connected(reason@)),
            },
            match outcome {
                Ok(c) => ready == Ok::<(C, Option<String>), ClientError>((c, call.token())),
                Err(reason) => ready matches Err(ClientError::InternalError { msg }) && msg@
                    == "Failed to build client: "@ + reason@,
            },
    {
        match self.connected_client(outcome) {
            Err(error) => Err(error),
            Ok(connection) => Ok((connection, call.token)),
        }
    }

    /// Takes what came of a subscription: the stream of its results, or the line that says why
    /// there is none. A subscription that the server took is numbered and counts as alive.
    pub fn subscribed<S>(&mut self, reply: Result<S, String>) -> (started: Result<
        (S, SubscriptionTask),
        ClientError,
    >)
        ensures
            final(self).runtime() == old(self).runtime(),
            match reply {
                Ok(stream) => {
                    &&& final(self)@ == old(self)@.after_subscribe()
                    &&& started matches Ok((s, task)) && s == stream && task.spec_id() == old(
                        self,
                    )@.next_id && !task.spec_stopping()
                },
                Err(reason) => {
                    &&& final(self)@ == old(self)@
                    &&& started matches Err(error) && error@ == (ErrorView::InternalError {
                        msg: CallKind::Subscription.failure_head() + reason@,
                    })
                },
            },
            match reply {
                Ok(stream) => {
                    &&& final(self)@.active == old(self)@.active.insert(old(self)@.next_id)
                    &&& final(self)@.next_id == (old(self)@.next_id + 1) % 0x1_0000_0000_0000_0000
                },
                Err(reason) => {
                    &&& final(self)@.active == old(self)@.active
                    &&& final(self)@.next_id == old(self)@.next_id
                    &&& started matches Err(ClientError::InternalError { msg }) && msg@
                        == "Subscription creation failed: "@ + reason@
                },
            },
            final(self)@.shutting_down == old(self)@.shutting_down,
            final(self)@.initialized == old(self)@.initialized,
            final(self)@.deployment_url == old(self)@.deployment_url,
            final(self)@.client_id == old(self)@.client_id,
    {
        match reply {
            Err(reason) => Err(failed_call(CallKind::Subscription, reason.as_str())),
            Ok(stream) => {
                let id = self.subscription_counter;
                self.subscription_counter = id.wrapping_add(1);
                self.active_subscriptions.insert(id);
                Ok((stream, SubscriptionTask::new(id)))
            },
        }
    }

    /// Forgets a subscription that has ended.
    pub fn ended(&mut self, task: SubscriptionTask)
        ensures
            final(self)@ == old(self)@.after_end(task.spec_id()),
            final(self)@.active == old(self)@.active.remove(task.spec_id()),
            final(self)@.next_id == old(self)@.next_id,
            final(self)@.shutting_down == old(self)@.shutting_down,
            final(self)@.initialized == old(self)@.initialized,
            final(self)@.deployment_url == old(self)@.deployment_url,
            final(self)@.client_id == old(self)@.client_id,
            final(self).runtime() == old(self).runtime(),
    {
        self.active_subscriptions.remove(&task.id());
    }

    /// Shuts the client down: it takes no new work. Returns how many milliseconds to leave the
    /// subscriptions that are alive to end, if there are any; they are not ended by this.
    pub fn shutdown(&mut self) -> (grace: Option<u64>)
        ensures
            final(self)@ == old(self)@.after_shutdown(),
            final(self).runtime() == old(self).runtime(),
            grace == old(self)@.grace(),
            old(self)@.active.len() > 0 ==> grace == Some(100u64),
            old(self)@.active.len() == 0 ==> grace is None,
            final(self)@.shutting_down,
            final(self)@.active == old(self)@.active,
            final(self)@.next_id == old(self)@.next_id,
            final(self)@.initialized == old(self)@.initialized,
            final(self)@.deployment_url == old(self)@.deployment_url,
            final(self)@.client_id == old(self)@.client_id,
    {
        self.is_shutting_down = true;
        if self.active_subscriptions.len() > 0 {
            Some(GRACE_MILLIS)
        } else {
            None
        }
    }

    /// Where the server is.
    pub fn deployment_url(&self) -> (url: String)
        ensures
            url@ == self@.deployment_url,
    {
        self.deployment_url.clone()
    }

    /// Whether a connection was made.
    pub fn is_initialized(&self) -> (initialized: bool)
        ensures
            initialized == self@.initialized,
    {
        self.initialized
    }

    /// How many subscriptions are alive.
    pub fn active_subscription_count(&self) -> (count: u64)
        ensures
            count == self@.active.len(),
    {
        self.active_subscriptions.len() as u64
    }

    /// Whether the client is shutting down.
    pub fn is_shutting_down(&self) -> (shutting_down: bool)
        ensures
            shutting_down == self@.shutting_down,
    {
        self.is_shutting_down
    }
}

/// Whether `built` is what came of the attempt to build a client's runtime.
pub open spec fn runtime_built(built: Result<Runtime, std::io::Error>) -> bool {
    crate::outside::build_gave(THREAD_NAME@, WORKER_THREADS, built)
}

/// The error of a client that has no runtime.
pub open spec fn not_started(reason: Seq<char>) -> ErrorView {
    ErrorView::InternalError { msg: "Failed to create runtime: "@ + reason }
}

} // verus!
