//! Events of evaluation attempts, and subscriptions to them.
use std::sync::Arc;
use tokio::sync::broadcast::{Receiver, Sender};
use vstd::prelude::*;
use vstd::string::*;

use crate::path::HostPath;
use crate::result::{EvalFailure, EvalResult, VerifierResult};
use crate::text::{decimal, decimal_text};

verus! {

/// The sending half of a `tokio` broadcast channel, carried as it is.
#[verifier::external_type_specification]
#[verifier::external_body]
#[verifier::reject_recursive_types(T)]
pub struct ExSender<T>(tokio::sync::broadcast::Sender<T>);

/// The receiving half of a `tokio` broadcast channel, carried as it is.
#[verifier::external_type_specification]
#[verifier::external_body]
#[verifier::reject_recursive_types(T)]
pub struct ExReceiver<T>(tokio::sync::broadcast::Receiver<T>);

/// Why a `tokio` broadcast channel handed out no value.
#[verifier::external_type_specification]
pub struct ExRecvError(tokio::sync::broadcast::error::RecvError);

/// One event of the agent lifecycle, as the JSON text it was emitted as.
#[derive(Clone, Debug, PartialEq, Eq)]
pub struct AgentEvent {
    pub json: String,
}

/// One event from a possibly concurrent attempt.
#[derive(Clone, Debug, PartialEq, Eq)]
pub struct EvalEvent {
    /// Evaluation job identity.
    pub run_id: uuid::Uuid,
    /// Identity of the emitting attempt.
    pub attempt_id: uuid::Uuid,
    /// Stable task name.
    pub task_name: String,
    /// Filesystem-safe unique trial name.
    pub trial_name: String,
    /// One-based monotonic sequence within this attempt.
    pub sequence: u64,
    /// Typed event payload.
    pub kind: EvalEventKind,
}

/// Agent and verifier activity exposed independently from an attempt's result.
#[derive(Clone, Debug, PartialEq, Eq)]
pub enum EvalEventKind {
    /// The disposable environment is ready and agent setup is beginning.
    AttemptStarted {
        /// Complete task prompt.
        prompt: String,
        /// Workspace presented to the agent.
        workspace: HostPath,
    },
    /// One unmodified event from the owned agent lifecycle.
    Agent(AgentEvent),
    /// Verification is beginning.
    VerifierStarted,
    /// Complete verifier output became available.
    VerifierOutput {
        /// Captured standard output.
        stdout: String,
        /// Captured standard error.
        stderr: String,
    },
    /// Verification produced its exit code and rewards.
    VerifierCompleted(VerifierResult),
    /// The scored result became terminal.
    Completed(Box<EvalResult>),
    /// The attempt failed without a score.
    Failed(Box<EvalFailure>),
}

/// Failure while consuming a bounded evaluation event subscription.
#[derive(Clone, Copy, Debug, PartialEq, Eq, Structural)]
pub enum EvalEventStreamError {
    /// The subscriber did not keep pace with producers.
    Lagged {
        /// Number of events dropped for this subscription.
        missed: u64,
    },
}

impl EvalEventStreamError {
    /// Describes the failure.
    pub fn message(&self) -> (text: String)
        ensures
            text@ == match *self {
                EvalEventStreamError::Lagged { missed } =>
                    "event subscriber fell behind and missed "@ + decimal(missed as nat)
                        + " events"@,
            },
    {
        match self {
            EvalEventStreamError::Lagged { missed } => String::from_str(
                "event subscriber fell behind and missed ",
            ).concat(decimal_text(*missed).as_str()).concat(" events"),
        }
    }
}

/// Which channel a sender sends on.
pub uninterp spec fn sending_channel(sender: Sender<Arc<EvalEvent>>) -> nat;

/// Which channel a receiver listens to.
pub uninterp spec fn listening_channel(receiver: Receiver<Arc<EvalEvent>>) -> nat;

/// `broadcast::Sender::subscribe`: a new receiver on the channel of the sender.
/// It receives what is sent after the call, which no clause can say of a value
/// that other holders of the channel change. A channel admits a quarter of
/// `usize::MAX` live receivers.
#[verifier::external_body]
fn subscribe_to(sender: &Sender<Arc<EvalEvent>>) -> (receiver: Receiver<Arc<EvalEvent>>)
    ensures
        listening_channel(receiver) == sending_channel(*sender),
{
    sender.subscribe()
}

/// `broadcast::Sender::clone`: another sender on the same channel.
#[verifier::external_body]
fn another_sender(sender: &Sender<Arc<EvalEvent>>) -> (copy: Sender<Arc<EvalEvent>>)
    ensures
        sending_channel(copy) == sending_channel(*sender),
{
    sender.clone()
}

/// Cloneable source of independent subscriptions to one evaluation job.
pub struct EvalEvents {
    sender: Sender<Arc<EvalEvent>>,
}

/// One independent, ordered subscription to an evaluation job.
pub struct EvalEventStream {
    receiver: Receiver<Arc<EvalEvent>>,
}

impl EvalEvents {
    /// The channel that subscriptions listen to.
    pub closed spec fn channel(&self) -> nat {
        sending_channel(self.sender)
    }

    /// A source of subscriptions to what `sender` sends.
    pub fn new(sender: Sender<Arc<EvalEvent>>) -> (events: EvalEvents)
        ensures
            events.channel() == sending_channel(sender),
    {
        EvalEvents { sender }
    }

    /// Subscribes before attempts start. Each subscription receives the same
    /// subsequent events independently.
    pub fn subscribe(&self) -> (stream: EvalEventStream)
        ensures
            listening_channel(stream.subscription()) == self.channel(),
    {
        EvalEventStream { receiver: subscribe_to(&self.sender) }
    }
}

impl Clone for EvalEvents {
    fn clone(&self) -> (copy: EvalEvents)
        ensures
            copy.channel() == self.channel(),
    {
        EvalEvents { sender: another_sender(&self.sender) }
    }
}

/// What a subscriber is told of one receive: an event, the end of the run, or
/// how many events it missed.
pub open spec fn told(
    received: Result<Arc<EvalEvent>, tokio::sync::broadcast::error::RecvError>,
) -> Result<Option<Arc<EvalEvent>>, EvalEventStreamError> {
    match received {
        Ok(event) => Ok(Some(event)),
        Err(tokio::sync::broadcast::error::RecvError::Closed) => Ok(None),
        Err(tokio::sync::broadcast::error::RecvError::Lagged(missed)) => Err(
            EvalEventStreamError::Lagged { missed },
        ),
    }
}

impl EvalEventStream {
    /// The receiver of this subscription.
    pub closed spec fn subscription(&self) -> Receiver<Arc<EvalEvent>> {
        self.receiver
    }

    /// The receiver to wait on for the next event.
    pub fn receiver(&mut self) -> (receiver: &mut Receiver<Arc<EvalEvent>>)
        ensures
            *receiver == old(self).subscription(),
            final(self).subscription() == *final(receiver),
    {
        &mut self.receiver
    }

    /// What the receiver handed out, as the subscriber is told of it: the next
    /// event, `None` after the run closes, or an explicit lag error rather than
    /// silently skipping events.
    pub fn recv(
        received: Result<Arc<EvalEvent>, tokio::sync::broadcast::error::RecvError>,
    ) -> (next: Result<Option<Arc<EvalEvent>>, EvalEventStreamError>)
        ensures
            next == told(received),
    {
        match received {
            Ok(event) => Ok(Some(event)),
            Err(tokio::sync::broadcast::error::RecvError::Closed) => Ok(None),
            Err(tokio::sync::broadcast::error::RecvError::Lagged(missed)) => Err(
                EvalEventStreamError::Lagged { missed },
            ),
        }
    }
}

} // verus!
