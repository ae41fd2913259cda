//! The state of a client as a value, and how each operation changes it.
use vstd::prelude::*;

use crate::error::ErrorView;

verus! {

/// The time that a shutdown leaves to subscriptions, in milliseconds.
pub const GRACE_MILLIS: u64 = 100;

/// The synchronous entry points of a client.
#[derive(Debug, Clone, Copy, PartialEq, Eq, Structural)]
pub enum EntryPoint {
    Query,
    Subscribe,
    Mutation,
    Action,
    SetAuth,
}

/// The calls that name a function on the server.
#[derive(Debug, Clone, Copy, PartialEq, Eq, Structural)]
pub enum CallKind {
    Query,
    Subscription,
    Mutation,
    Action,
}

impl EntryPoint {
    /// What a caller is told who uses this entry point from asynchronous code.
    pub open spec fn context_text(self) -> Seq<char> {
        match self {
            EntryPoint::Query =>
                "Cannot call querySync from within async context. Use queryAsync instead."@,
            EntryPoint::Subscribe =>
                "Cannot call subscribeSync from within async context. Use subscribeAsync instead."@,
            EntryPoint::Mutation =>
                "Cannot call mutationSync from within async context. Use mutationAsync instead."@,
            EntryPoint::Action =>
                "Cannot call actionSync from within async context. Use actionAsync instead."@,
            EntryPoint::SetAuth =>
                "Cannot call set_authSync from within async context. Use set_authAsync instead."@,
        }
    }

    /// Whether a client that is shutting down refuses this entry point.
    pub open spec fn refused_in_shutdown(self) -> bool {
        self != EntryPoint::SetAuth
    }
}

impl CallKind {
    /// The entry point that makes calls of this kind.
    pub open spec fn entry_point(self) -> EntryPoint {
        match self {
            CallKind::Query => EntryPoint::Query,
            CallKind::Subscription => EntryPoint::Subscribe,
            CallKind::Mutation => EntryPoint::Mutation,
            CallKind::Action => EntryPoint::Action,
        }
    }

    /// How the error begins with which a call of this kind fails on its way to the server.
    pub open spec fn failure_head(self) -> Seq<char> {
        match self {
            CallKind::Query => "Query execution failed: "@,
            CallKind::Subscription => "Subscription creation failed: "@,
            CallKind::Mutation => "Mutation execution failed: "@,
            CallKind::Action => "Action execution failed: "@,
        }
    }
}

/// The state of a client.
#[verifier::ext_equal]
pub struct ClientState {
    /// Where the server is.
    pub deployment_url: Seq<char>,
    /// What the host calls itself.
    pub client_id: Seq<char>,
    /// Whether a connection was made.
    pub initialized: bool,
    /// The subscriptions that are alive.
    pub active: Set<u64>,
    /// The number of the next subscription.
    pub next_id: u64,
    /// Whether the client is shutting down.
    pub shutting_down: bool,
}

/// What happens to a client.
pub enum ClientStep {
    /// An attempt to connect ended; whether there is a connection.
    Connect { connected: bool },
    /// The server took a subscription.
    Subscribe,
    /// A subscription ended.
    End { id: u64 },
    /// The client was told to shut down.
    Shutdown,
}

impl ClientState {
    /// A client that nothing has happened to.
    pub open spec fn fresh(deployment_url: Seq<char>, client_id: Seq<char>) -> ClientState {
        ClientState {
            deployment_url,
            client_id,
            initialized: false,
            active: Set::empty(),
            next_id: 0,
            shutting_down: false,
        }
    }

    /// After an attempt to connect.
    pub open spec fn after_connect(self, connected: bool) -> ClientState {
        ClientState { initialized: self.initialized || connected, ..self }
    }

    /// After the server took a subscription.
    pub open spec fn after_subscribe(self) -> ClientState {
        ClientState {
            active: self.active.insert(self.next_id),
            next_id: if self.next_id == u64::MAX {
                0
            } else {
                (self.next_id + 1) as u64
            },
            ..self
        }
    }

    /// After a subscription ended.
    pub open spec fn after_end(self, id: u64) -> ClientState {
        ClientState { active: self.active.remove(id), ..self }
    }

    /// After the client was told to shut down.
    pub open spec fn after_shutdown(self) -> ClientState {
        ClientState { shutting_down: true, ..self }
    }

    /// After `step`.
    pub open spec fn after(self, step: ClientStep) -> ClientState {
        match step {
            ClientStep::Connect { connected } => self.after_connect(connected),
            ClientStep::Subscribe => self.after_subscribe(),
            ClientStep::End { id } => self.after_end(id),
            ClientStep::Shutdown => self.after_shutdown(),
        }
    }

    /// After all of `steps`, in their order.
    pub open spec fn after_all(self, steps: Seq<ClientStep>) -> ClientState
        decreases steps.len(),
    {
        if steps.len() == 0 {
            self
        } else {
            self.after_all(steps.drop_last()).after(steps.last())
        }
    }

    /// Why a call is refused before anything is done for it, if it is: asynchronous code may not
    /// use a synchronous entry point, and a client that is shutting down takes no new work.
    pub open spec fn refusal(self, entry: EntryPoint, in_async_context: bool) -> Option<ErrorView> {
        if in_async_context {
            Some(ErrorView::InvalidContext { msg: entry.context_text() })
        } else if self.shutting_down && entry.refused_in_shutdown() {
            Some(ErrorView::InternalError { msg: "Client is shutting down"@ })
        } else {
            None
        }
    }

    /// How many milliseconds a shutdown leaves the subscriptions that are alive to end, if there
    /// are any.
    pub open spec fn grace(self) -> Option<u64> {
        if self.active.len() > 0 {
            Some(GRACE_MILLIS)
        } else {
            None
        }
    }
}

} // verus!
