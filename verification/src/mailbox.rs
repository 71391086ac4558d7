//! The mailbox: a first-in first-out channel of signals for one actor, with
//! strong and weak handle accounting, an optional capacity bound, and the
//! rule for when a weak handle may upgrade.

use vstd::prelude::*;
use crate::actor::ActorRef;
use crate::error::{ActorStopReason, SendError};

verus! {

/// Everything a mailbox carries: user messages and queries with their reply
/// correlation, and the control signals of the lifecycle.
pub enum Signal<M> {
    /// Barrier observed once the actor's start hook has finished.
    StartupFinished,
    /// A state-mutating message. `reply` carries the correlation of the
    /// caller's reply channel, `None` for fire-and-forget sends.
    Message { message: M, actor_ref: ActorRef, reply: Option<u64>, sent_within_actor: bool },
    /// A read-only query, dispatched concurrently up to the actor's bound.
    Query { query: M, actor_ref: ActorRef, reply: Option<u64> },
    /// A linked peer with identity `id` terminated for `reason`.
    LinkDied { id: u64, reason: ActorStopReason },
    /// Ends dispatch once everything queued before it has been processed.
    Stop,
}

impl<M> Signal<M> {
    /// The payload of a message signal, as `downcast_message` recovers it.
    pub fn downcast_message(self) -> (r: Option<M>)
        ensures
            (self is Message) == (r is Some),
            forall|m: M, a: ActorRef, c: Option<u64>, w: bool|
                self == (Signal::Message { message: m, actor_ref: a, reply: c, sent_within_actor: w })
                    ==> r == Some(m),
    {
        match self {
            Signal::Message { message, .. } => Some(message),
            _ => None,
        }
    }
}

/// The mailbox of one actor: queued signals in arrival order, handle counts,
/// an optional capacity, and whether it has closed.
pub struct Mailbox<M> {
    queue: Vec<Signal<M>>,
    capacity: Option<usize>,
    closed: bool,
    strong: usize,
    weak: usize,
}

impl<M> Mailbox<M> {
    /// The queued signals, oldest first.
    pub closed spec fn signals(&self) -> Seq<Signal<M>> {
        self.queue@
    }

    /// Whether the mailbox refuses further senders.
    pub closed spec fn spec_is_closed(&self) -> bool {
        self.closed
    }

    /// Whether the mailbox refuses further senders.
    #[verifier::when_used_as_spec(spec_is_closed)]
    pub fn is_closed(&self) -> (b: bool)
        ensures
            b == self.spec_is_closed(),
    {
        self.closed
    }

    /// The capacity bound, `None` for an unbounded mailbox.
    pub closed spec fn spec_capacity(&self) -> Option<usize> {
        self.capacity
    }

    /// How many strong handles exist.
    pub closed spec fn spec_strong_count(&self) -> usize {
        self.strong
    }

    /// How many weak handles exist.
    pub closed spec fn spec_weak_count(&self) -> usize {
        self.weak
    }

    /// A bounded mailbox never holds more than its capacity.
    pub open spec fn wf(&self) -> bool {
        match self.spec_capacity() {
            Some(c) => c >= 1 && self.signals().len() <= c,
            None => true,
        }
    }

    /// Whether a send would find the mailbox full.
    pub open spec fn is_full(&self) -> bool {
        match self.spec_capacity() {
            Some(c) => self.signals().len() >= c,
            None => false,
        }
    }

    /// The default mailbox: unbounded, with one strong handle.
    pub fn default_mailbox() -> (m: Mailbox<M>)
        ensures
            m.wf(),
            m.signals() == Seq::<Signal<M>>::empty(),
            !m.is_closed(),
            m.spec_capacity() is None,
            m.spec_strong_count() == 1,
            m.spec_weak_count() == 0,
    {
        Mailbox { queue: Vec::new(), capacity: None, closed: false, strong: 1, weak: 0 }
    }

    /// A bounded mailbox: senders that find it holding `capacity` signals
    /// are refused until a slot frees.
    pub fn bounded(capacity: usize) -> (m: Mailbox<M>)
        requires
            capacity >= 1,
        ensures
            m.wf(),
            m.signals() == Seq::<Signal<M>>::empty(),
            !m.is_closed(),
            m.spec_capacity() == Some(capacity),
            m.spec_strong_count() == 1,
            m.spec_weak_count() == 0,
    {
        Mailbox { queue: Vec::new(), capacity: Some(capacity), closed: false, strong: 1, weak: 0 }
    }

    /// Enqueues a signal at the back: the mailbox preserves the order in
    /// which one sender's signals are enqueued. Fails with `MailboxClosed`
    /// after the mailbox closed, and with `MailboxFull` when a bounded
    /// mailbox is at capacity and the caller does not wait.
    pub fn send(&mut self, signal: Signal<M>) -> (r: Result<(), SendError>)
        requires
            old(self).wf(),
        ensures
            final(self).wf(),
            final(self).is_closed() == old(self).is_closed(),
            final(self).spec_capacity() == old(self).spec_capacity(),
            final(self).spec_strong_count() == old(self).spec_strong_count(),
            final(self).spec_weak_count() == old(self).spec_weak_count(),
            (r is Ok) == (!old(self).is_closed() && !old(self).is_full()),
            old(self).is_closed() ==> r == Err::<(), SendError>(SendError::MailboxClosed)
                && final(self).signals() == old(self).signals(),
            !old(self).is_closed() && old(self).is_full() ==> r == Err::<(), SendError>(
                SendError::MailboxFull,
            ) && final(self).signals() == old(self).signals(),
            r is Ok ==> final(self).signals() == old(self).signals().push(signal),
    {
        if self.closed {
            return Err(SendError::MailboxClosed);
        }
        let full = match self.capacity {
            Some(c) => self.queue.len() >= c,
            None => false,
        };
        if full {
            return Err(SendError::MailboxFull);
        }
        self.queue.push(signal);
        Ok(())
    }

    /// Advisory snapshot of how many strong handles exist.
    pub fn strong_count(&self) -> (n: usize)
        ensures
            n == self.spec_strong_count(),
    {
        self.strong
    }

    /// Advisory snapshot of how many weak handles exist.
    pub fn weak_count(&self) -> (n: usize)
        ensures
            n == self.spec_weak_count(),
    {
        self.weak
    }

    /// How many signals are queued.
    pub fn len(&self) -> (n: usize)
        ensures
            n == self.signals().len(),
    {
        self.queue.len()
    }

    /// Takes the oldest queued signal; `None` when the queue is empty.
    pub fn recv(&mut self) -> (r: Option<Signal<M>>)
        requires
            old(self).wf(),
        ensures
            final(self).wf(),
            final(self).is_closed() == old(self).is_closed(),
            final(self).spec_capacity() == old(self).spec_capacity(),
            final(self).spec_strong_count() == old(self).spec_strong_count(),
            final(self).spec_weak_count() == old(self).spec_weak_count(),
            (r is Some) == (old(self).signals().len() > 0),
            old(self).signals().len() == 0 ==> final(self).signals() == old(self).signals(),
            old(self).signals().len() > 0 ==> r == Some(old(self).signals()[0])
                && final(self).signals() == old(self).signals().subrange(
                1,
                old(self).signals().len() as int,
            ),
    {
        if self.queue.len() == 0 {
            None
        } else {
            let s = self.queue.remove(0);
            proof {
                assert(self.queue@ =~= old(self).queue@.subrange(1, old(self).queue@.len() as int));
            }
            Some(s)
        }
    }

    /// Closes the mailbox: later senders observe `MailboxClosed`. Signals
    /// already queued stay queued, for the terminating loop to resolve.
    pub fn close(&mut self)
        requires
            old(self).wf(),
        ensures
            final(self).wf(),
            final(self).is_closed(),
            final(self).signals() == old(self).signals(),
            final(self).spec_capacity() == old(self).spec_capacity(),
            final(self).spec_strong_count() == old(self).spec_strong_count(),
            final(self).spec_weak_count() == old(self).spec_weak_count(),
    {
        self.closed = true;
    }

    /// One more strong handle: a holder of a strong handle cloned it.
    pub fn clone_strong(&mut self)
        requires
            old(self).wf(),
            old(self).spec_strong_count() >= 1,
            old(self).spec_strong_count() < usize::MAX,
        ensures
            final(self).wf(),
            final(self).spec_strong_count() == old(self).spec_strong_count() + 1,
            final(self).signals() == old(self).signals(),
            final(self).is_closed() == old(self).is_closed(),
            final(self).spec_capacity() == old(self).spec_capacity(),
            final(self).spec_weak_count() == old(self).spec_weak_count(),
    {
        self.strong = self.strong + 1;
    }

    /// One strong handle dropped; when the last one goes, the mailbox
    /// closes and the loop will observe end of stream.
    pub fn drop_strong(&mut self)
        requires
            old(self).wf(),
            old(self).spec_strong_count() >= 1,
        ensures
            final(self).wf(),
            final(self).spec_strong_count() == old(self).spec_strong_count() - 1,
            final(self).is_closed() == (old(self).is_closed()
                || old(self).spec_strong_count() == 1),
            final(self).signals() == old(self).signals(),
            final(self).spec_capacity() == old(self).spec_capacity(),
            final(self).spec_weak_count() == old(self).spec_weak_count(),
    {
        self.strong = self.strong - 1;
        if self.strong == 0 {
            self.closed = true;
        }
    }

    /// One more weak handle: a strong holder downgraded.
    pub fn downgrade(&mut self)
        requires
            old(self).wf(),
            old(self).spec_weak_count() < usize::MAX,
        ensures
            final(self).wf(),
            final(self).spec_weak_count() == old(self).spec_weak_count() + 1,
            final(self).signals() == old(self).signals(),
            final(self).is_closed() == old(self).is_closed(),
            final(self).spec_capacity() == old(self).spec_capacity(),
            final(self).spec_strong_count() == old(self).spec_strong_count(),
    {
        self.weak = self.weak + 1;
    }

    /// One weak handle dropped.
    pub fn drop_weak(&mut self)
        requires
            old(self).wf(),
            old(self).spec_weak_count() >= 1,
        ensures
            final(self).wf(),
            final(self).spec_weak_count() == old(self).spec_weak_count() - 1,
            final(self).signals() == old(self).signals(),
            final(self).is_closed() == old(self).is_closed(),
            final(self).spec_capacity() == old(self).spec_capacity(),
            final(self).spec_strong_count() == old(self).spec_strong_count(),
    {
        self.weak = self.weak - 1;
    }

    /// A weak handle upgrades if and only if at least one strong handle
    /// still exists and the mailbox has not closed; upgrading mints one more
    /// strong handle.
    pub fn try_upgrade(&mut self) -> (upgraded: bool)
        requires
            old(self).wf(),
            old(self).spec_strong_count() < usize::MAX,
        ensures
            final(self).wf(),
            upgraded == (old(self).spec_strong_count() > 0 && !old(self).is_closed()),
            upgraded ==> final(self).spec_strong_count() == old(self).spec_strong_count() + 1,
            !upgraded ==> final(self).spec_strong_count() == old(self).spec_strong_count(),
            final(self).signals() == old(self).signals(),
            final(self).is_closed() == old(self).is_closed(),
            final(self).spec_capacity() == old(self).spec_capacity(),
            final(self).spec_weak_count() == old(self).spec_weak_count(),
    {
        if self.strong > 0 && !self.closed {
            self.strong = self.strong + 1;
            true
        } else {
            false
        }
    }

    /// Enqueues the startup barrier, as the object-safe signal projection
    /// does for handles that do not know the message type.
    pub fn signal_startup_finished(&mut self) -> (r: Result<(), SendError>)
        requires
            old(self).wf(),
        ensures
            final(self).wf(),
            (r is Ok) == (!old(self).is_closed() && !old(self).is_full()),
            r is Ok ==> final(self).signals() == old(self).signals().push(
                Signal::StartupFinished,
            ),
            !(r is Ok) ==> final(self).signals() == old(self).signals(),
            final(self).is_closed() == old(self).is_closed(),
    {
        self.send(Signal::StartupFinished)
    }

    /// Enqueues a peer's death notice.
    pub fn signal_link_died(&mut self, id: u64, reason: ActorStopReason) -> (r: Result<
        (),
        SendError,
    >)
        requires
            old(self).wf(),
        ensures
            final(self).wf(),
            (r is Ok) == (!old(self).is_closed() && !old(self).is_full()),
            r is Ok ==> final(self).signals() == old(self).signals().push(
                Signal::LinkDied { id, reason },
            ),
            !(r is Ok) ==> final(self).signals() == old(self).signals(),
            final(self).is_closed() == old(self).is_closed(),
    {
        self.send(Signal::LinkDied { id, reason })
    }

    /// Enqueues a graceful stop: it takes its place in line, so everything
    /// sent before it on the same handle is processed first.
    pub fn signal_stop(&mut self) -> (r: Result<(), SendError>)
        requires
            old(self).wf(),
        ensures
            final(self).wf(),
            (r is Ok) == (!old(self).is_closed() && !old(self).is_full()),
            r is Ok ==> final(self).signals() == old(self).signals().push(Signal::Stop),
            !(r is Ok) ==> final(self).signals() == old(self).signals(),
            final(self).is_closed() == old(self).is_closed(),
    {
        self.send(Signal::Stop)
    }
}

} // verus!
