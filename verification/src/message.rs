//! Messages, queries, and the reply channel: the context handed to every
//! handler, delegated replies, and the rule that routes a handler's return
//! value back to its caller.

use vstd::prelude::*;
use crate::actor::ActorRef;
use crate::error::{PanicError, SendError};

verus! {

/// What becomes of one awaited reply.
pub enum ReplyOutcome<R> {
    /// The handler's value reached the caller.
    Value(R),
    /// The caller got an error instead of a value.
    Failed(SendError),
}

/// The resolution of the reply channel with correlation `corr`.
pub struct ReplyEvent<R> {
    pub corr: u64,
    pub outcome: ReplyOutcome<R>,
}

/// The sending half of a one-shot reply channel, identified by its
/// correlation. A handler that takes it out of its context owns the reply.
pub struct ReplySender {
    pub corr: u64,
}

impl ReplySender {
    pub fn new(corr: u64) -> (s: ReplySender)
        ensures
            s.corr == corr,
    {
        ReplySender { corr }
    }

    /// Resolves the reply with a value; the sender is consumed, so a reply
    /// resolves at most once.
    pub fn send<R>(self, value: R) -> (e: ReplyEvent<R>)
        ensures
            e.corr == self.corr,
            e.outcome == ReplyOutcome::Value(value),
    {
        ReplyEvent { corr: self.corr, outcome: ReplyOutcome::Value(value) }
    }

    /// Resolves the reply with an error, as the loop does for panicked
    /// handlers and for callers an actor leaves behind when it stops.
    pub fn fail<R>(self, error: SendError) -> (e: ReplyEvent<R>)
        ensures
            e.corr == self.corr,
            e.outcome == ReplyOutcome::<R>::Failed(error),
    {
        ReplyEvent { corr: self.corr, outcome: ReplyOutcome::Failed(error) }
    }
}

/// The marker a handler returns after taking its reply sender: the handler,
/// not the loop, will resolve the reply.
pub struct DelegatedReply {
}

/// What a handler is given along with its payload: the actor's own strong
/// handle, and the reply sender if the caller awaits one.
pub struct Context {
    actor_ref: ActorRef,
    reply: Option<ReplySender>,
}

impl Context {
    /// The actor's own handle.
    pub closed spec fn spec_actor_ref(&self) -> ActorRef {
        self.actor_ref
    }

    /// The reply sender, while neither the handler nor the loop has taken
    /// it; `None` also when the caller did not await a reply.
    pub closed spec fn spec_reply(&self) -> Option<ReplySender> {
        self.reply
    }

    pub fn new(actor_ref: ActorRef, reply: Option<ReplySender>) -> (c: Context)
        ensures
            c.spec_actor_ref() == actor_ref,
            c.spec_reply() == reply,
    {
        Context { actor_ref, reply }
    }

    /// The current actor's handle, so a handler can message its own actor
    /// or hand a reference to itself out.
    pub fn actor_ref(&self) -> (r: ActorRef)
        ensures
            r == self.spec_actor_ref(),
    {
        self.actor_ref
    }

    /// Takes the reply sender out of the context. The returned marker says
    /// the handler owns the reply now; the loop will not auto-reply. The
    /// sender is `None` when the caller did not await a reply, and on every
    /// later call.
    pub fn reply_sender(&mut self) -> (r: (DelegatedReply, Option<ReplySender>))
        ensures
            final(self).spec_reply() is None,
            final(self).spec_actor_ref() == old(self).spec_actor_ref(),
            r.1 == old(self).spec_reply(),
    {
        (DelegatedReply {  }, self.reply.take())
    }

    /// Surrenders the context to the loop after the handler returned, with
    /// the reply sender if the handler left it in place.
    pub fn into_reply(self) -> (r: Option<ReplySender>)
        ensures
            r == self.spec_reply(),
    {
        self.reply
    }
}

/// A handler either returned a value or panicked; the loop catches the
/// panic and carries its summary.
pub enum HandlerResult<R> {
    Completed(R),
    Panicked(PanicError),
}

/// The capability a reply value offers the loop: it can say whether it
/// carries an error, so an unobserved failure surfaces as a panic.
pub trait Reply: Sized {
    /// The error this reply carries, if it carries one, as a caught-panic
    /// summary; `None` for a success value.
    fn into_error(self) -> Option<PanicError>;
}

/// A message: processed with exclusive mutable access to the actor state,
/// strictly one at a time.
///
/// The clause on the context is an assumed obligation on implementations:
/// afterwards the context holds the sender it was given, or none. Verus
/// checks it for every implementation it verifies; implementations outside
/// the verified library are trusted to meet it, and any that only leaves
/// the context alone or takes the sender through [`Context::reply_sender`]
/// does.
pub trait Message<T>: Sized {
    /// The reply sent back to the caller.
    type Reply: Reply;

    /// Handler for this message.
    fn handle(&mut self, msg: T, ctx: &mut Context) -> (r: HandlerResult<Self::Reply>)
        ensures
            final(ctx).spec_reply() is None || final(ctx).spec_reply() == old(ctx).spec_reply(),
    ;
}

/// A query: processed with shared read access to the actor state, so
/// several may be dispatched concurrently, up to the actor's bound.
///
/// The clause on the context is an assumed obligation on implementations,
/// as on [`Message::handle`].
pub trait Query<T>: Sized {
    /// The reply sent back to the caller.
    type Reply: Reply;

    /// Handler for this query.
    fn handle(&self, query: T, ctx: &mut Context) -> (r: HandlerResult<Self::Reply>)
        ensures
            final(ctx).spec_reply() is None || final(ctx).spec_reply() == old(ctx).spec_reply(),
    ;
}

/// What the loop does with a handler's return value, decided from whether
/// the reply sender is still in the context and whether the value carries
/// an error.
pub enum ReplyAction {
    /// Auto-reply: resolve the caller's channel with the returned value.
    SendValue,
    /// Nobody awaits the error the handler returned: re-raise it as a
    /// panic, so supervision sees the failure.
    RaisePanic,
    /// Nothing to do: the reply was delegated, or a success value had no
    /// awaiting caller.
    Discard,
}

/// The routing rule for a handler's return value.
pub open spec fn spec_route_reply(sender_present: bool, reply_is_err: bool) -> ReplyAction {
    if sender_present {
        ReplyAction::SendValue
    } else if reply_is_err {
        ReplyAction::RaisePanic
    } else {
        ReplyAction::Discard
    }
}

/// Routes a handler's return value: auto-reply whenever the sender is still
/// in the context; with no caller awaiting, an error value is re-raised as
/// a panic and a success value is dropped.
pub fn route_reply(sender_present: bool, reply_is_err: bool) -> (a: ReplyAction)
    ensures
        a == spec_route_reply(sender_present, reply_is_err),
{
    if sender_present {
        ReplyAction::SendValue
    } else if reply_is_err {
        ReplyAction::RaisePanic
    } else {
        ReplyAction::Discard
    }
}

/// The unobserved-failure law: a fire-and-forget call leaves no reply
/// sender, so a handler that then returns an error value is re-raised as a
/// panic — the actor observes the failure through its panic hook.
pub proof fn lemma_tell_error_raises_panic()
    ensures
        spec_route_reply(false, true) == ReplyAction::RaisePanic,
{
}

} // verus!
