//! The owner's hold on a subscription.
use futures::channel::oneshot::Sender;
use tokio::task::JoinHandle;
use vstd::prelude::*;

use crate::outside::{abort_task, send_signal};

verus! {

/// Cancels a subscription, once.
pub struct SubscriptionHandle {
    is_cancelled: bool,
    cancel_sender: Option<Sender<()>>,
    task_handle: Option<JoinHandle<()>>,
}

/// What a [`SubscriptionHandle`] holds.
pub struct HandleState {
    /// Whether the subscription was cancelled.
    pub cancelled: bool,
    /// The end that the cancel signal goes into, until it has gone.
    pub signal: Option<Sender<()>>,
    /// The task that listens, until it was let go of.
    pub task: Option<JoinHandle<()>>,
}

impl HandleState {
    /// The signal goes with the first cancellation.
    pub open spec fn wf(self) -> bool {
        self.cancelled <==> self.signal is None
    }

    /// A fresh handle.
    pub open spec fn fresh(signal: Sender<()>, task: JoinHandle<()>) -> HandleState {
        HandleState { cancelled: false, signal: Some(signal), task: Some(task) }
    }

    /// The signal that a cancellation sends: none once cancelled.
    pub open spec fn signal_to_send(self) -> Option<Sender<()>> {
        if self.cancelled {
            None
        } else {
            self.signal
        }
    }

    /// After a cancellation.
    pub open spec fn after_cancel(self) -> HandleState {
        if self.cancelled {
            self
        } else {
            HandleState { cancelled: true, signal: None, ..self }
        }
    }

    /// After the owner let go.
    pub open spec fn after_release(self) -> HandleState {
        HandleState { task: None, ..self.after_cancel() }
    }

    /// After all of `steps`, in their order.
    pub open spec fn after_all(self, steps: Seq<HandleStep>) -> HandleState
        decreases steps.len(),
    {
        if steps.len() == 0 {
            self
        } else {
            match steps.last() {
                HandleStep::Cancel => self.after_all(steps.drop_last()).after_cancel(),
                HandleStep::Release => self.after_all(steps.drop_last()).after_release(),
            }
        }
    }
}

/// What is done with a handle.
pub enum HandleStep {
    Cancel,
    Release,
}

/// Whether the cancel signal was sent into `signal`.
pub open spec fn sent(signal: Sender<()>) -> bool {
    exists|outcome: Result<(), ()>| #[trigger] crate::outside::send_gave(signal, outcome)
}

/// Whether `task` was told to stop.
pub open spec fn aborted(task: JoinHandle<()>) -> bool {
    crate::outside::abort_gave(task, ())
}

impl View for SubscriptionHandle {
    type V = HandleState;

    closed spec fn view(&self) -> HandleState {
        HandleState {
            cancelled: self.is_cancelled,
            signal: self.cancel_sender,
            task: self.task_handle,
        }
    }
}

impl SubscriptionHandle {
    /// A handle on the task `task_handle`, which stops when `cancel_sender` is used.
    pub fn new(cancel_sender: Sender<()>, task_handle: JoinHandle<()>) -> (handle:
        SubscriptionHandle)
        ensures
            handle@ == HandleState::fresh(cancel_sender, task_handle),
            handle@.wf(),
            !handle@.cancelled,
            handle@.signal == Some(cancel_sender),
            handle@.task == Some(task_handle),
    {
        SubscriptionHandle {
            is_cancelled: false,
            cancel_sender: Some(cancel_sender),
            task_handle: Some(task_handle),
        }
    }

    /// Marks the subscription as cancelled and takes out the signal to send. Only the first call
    /// gets one.
    pub fn begin_cancel(&mut self) -> (signal: Option<Sender<()>>)
        ensures
            signal == old(self)@.signal_to_send(),
            final(self)@ == old(self)@.after_cancel(),
            signal == if old(self)@.cancelled {
                None
            } else {
                old(self)@.signal
            },
            final(self)@.cancelled,
            final(self)@.signal == if old(self)@.cancelled {
                old(self)@.signal
            } else {
                None
            },
            final(self)@.task == old(self)@.task,
    {
        if self.is_cancelled {
            None
        } else {
            self.is_cancelled = true;
            self.cancel_sender.take()
        }
    }

    /// Takes out the task to stop. Only the first call gets it.
    pub fn take_task(&mut self) -> (task: Option<JoinHandle<()>>)
        ensures
            task == old(self)@.task,
            final(self)@ == (HandleState { task: None, ..old(self)@ }),
    {
        self.task_handle.take()
    }

    /// Cancels the subscription: the first call sends the signal, a later one does nothing. That
    /// the task may already be gone is no error.
    pub fn cancel(&mut self)
        ensures
            final(self)@ == old(self)@.after_cancel(),
            old(self)@.signal_to_send() matches Some(signal) ==> sent(signal),
            !old(self)@.cancelled && old(self)@.signal is Some ==> exists|outcome: Result<(), ()>|
                #[trigger] crate::outside::send_gave(old(self)@.signal->Some_0, outcome),
            final(self)@.cancelled,
            final(self)@.signal == if old(self)@.cancelled {
                old(self)@.signal
            } else {
                None
            },
            final(self)@.task == old(self)@.task,
    {
        if let Some(sender) = self.begin_cancel() {
            let _ = send_signal(sender);
        }
    }

    /// Whether the subscription was cancelled.
    pub fn is_cancelled(&self) -> (cancelled: bool)
        ensures
            cancelled == self@.cancelled,
    {
        self.is_cancelled
    }

    /// Lets go of the subscription: cancels it and stops its task.
    pub fn release(&mut self)
        ensures
            final(self)@ == old(self)@.after_release(),
            old(self)@.signal_to_send() matches Some(signal) ==> sent(signal),
            old(self)@.task matches Some(task) ==> aborted(task),
            !old(self)@.cancelled && old(self)@.signal is Some ==> exists|outcome: Result<(), ()>|
                #[trigger] crate::outside::send_gave(old(self)@.signal->Some_0, outcome),
            final(self)@.cancelled,
            final(self)@.signal == if old(self)@.cancelled {
                old(self)@.signal
            } else {
                None
            },
            old(self)@.task is Some ==> crate::outside::abort_gave(old(self)@.task->Some_0, ()),
            final(self)@.task is None,
    {
        self.cancel();
        if let Some(task) = self.take_task() {
            abort_task(task);
        }
    }
}

/// Cancelling again changes nothing and sends nothing.
pub proof fn cancel_is_idempotent(state: HandleState)
    ensures
        state.after_cancel().after_cancel() == state.after_cancel(),
        state.after_cancel().signal_to_send() is None,
{
}

/// From its first use on, a handle is cancelled for good, and whatever is done with it later sends
/// no second signal.
pub proof fn first_use_cancels_for_good(
    signal: Sender<()>,
    task: JoinHandle<()>,
    steps: Seq<HandleStep>,
)
    ensures
        HandleState::fresh(signal, task).signal_to_send() == Some(signal),
        steps.len() > 0 ==> HandleState::fresh(signal, task).after_all(steps).cancelled,
        steps.len() > 0 ==> HandleState::fresh(signal, task).after_all(
            steps,
        ).signal_to_send() is None,
    decreases steps.len(),
{
    if steps.len() > 1 {
        first_use_cancels_for_good(signal, task, steps.drop_last());
    }
}

/// Letting go cancels first: it sends the signal that a cancellation would have sent, and after it
/// neither a signal nor a task is left.
pub proof fn release_cancels(state: HandleState)
    requires
        state.wf(),
    ensures
        state.after_release().cancelled,
        state.after_release().signal is None,
        state.after_release().task is None,
        state.after_release().after_release() == state.after_release(),
        state.after_cancel().after_release() == state.after_release(),
{
}

/// A cancellation sends the signal that the handle holds, unless it was cancelled before, and
/// leaves its task alone; letting go leaves no task.
pub proof fn cancellation_sends_what_is_held(state: HandleState)
    ensures
        !state.cancelled ==> state.signal_to_send() == state.signal,
        state.cancelled ==> state.signal_to_send() is None,
        state.after_cancel().cancelled,
        !state.cancelled ==> state.after_cancel().signal is None,
        state.after_cancel().task == state.task,
        state.after_release().cancelled,
        state.after_release().signal == state.after_cancel().signal,
        state.after_release().task is None,
{
}

/// From the fresh handle on, the signal is there exactly until the first cancellation.
pub proof fn handle_stays_well_formed(state: HandleState, signal: Sender<()>, task: JoinHandle<()>)
    ensures
        HandleState::fresh(signal, task).wf(),
        state.wf() ==> state.after_cancel().wf(),
        state.wf() ==> state.after_release().wf(),
{
}

} // verus!
