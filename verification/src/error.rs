//! The error vocabulary of the runtime: caught panics, the reasons an actor
//! stops, and the ways a send can fail.

use vstd::prelude::*;

verus! {

/// A panic caught inside a handler or a lifecycle hook, carried as its
/// textual summary.
pub struct PanicError {
    pub message: String,
}

impl PanicError {
    pub fn new(message: String) -> (e: PanicError)
        ensures
            e.message == message,
    {
        PanicError { message }
    }

    /// A copy carrying the same summary, so one caught panic can be reported
    /// both to the caller and to the actor's panic hook.
    pub fn duplicate(&self) -> (e: PanicError)
        ensures
            e == *self,
    {
        PanicError { message: self.message.clone() }
    }
}

/// Why an actor terminated. `LinkDied` chains the peer's own reason, so a
/// death propagating through several links keeps its history.
pub enum ActorStopReason {
    /// The actor drained its mailbox or was asked to stop.
    Normal,
    /// The actor was killed: its mailbox closed and its task aborted.
    Killed,
    /// A handler or hook panicked and the panic hook chose to stop.
    Panicked(PanicError),
    /// A linked peer terminated abnormally.
    LinkDied { id: u64, reason: Box<ActorStopReason> },
}

impl ActorStopReason {
    /// Whether this is the `Normal` reason; the link-death policy turns on it.
    pub fn is_normal(&self) -> (b: bool)
        ensures
            b == (*self is Normal),
    {
        match self {
            ActorStopReason::Normal => true,
            _ => false,
        }
    }

    /// A copy of the reason, so one termination can be reported to every
    /// linked peer.
    pub fn duplicate(&self) -> (c: ActorStopReason)
        ensures
            c == *self,
        decreases *self,
    {
        match self {
            ActorStopReason::Normal => ActorStopReason::Normal,
            ActorStopReason::Killed => ActorStopReason::Killed,
            ActorStopReason::Panicked(e) => ActorStopReason::Panicked(e.duplicate()),
            ActorStopReason::LinkDied { id, reason } => ActorStopReason::LinkDied {
                id: *id,
                reason: Box::new(reason.duplicate()),
            },
        }
    }
}

/// How a send or a wait for a reply can fail.
pub enum SendError {
    /// The mailbox closed: the actor stopped or every strong handle dropped.
    MailboxClosed,
    /// A bounded mailbox was full and the caller declined to wait.
    MailboxFull,
    /// The actor terminated before producing the reply.
    ActorStopped,
    /// The handler panicked while processing this message or query.
    HandlerPanicked(PanicError),
    /// The reply could not be read back at its static type: a defect in the
    /// caller's message declaration, not a runtime condition.
    ReplyTypeMismatch,
}

} // verus!
