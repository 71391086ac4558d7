//! Actor identities and handles, the lifecycle hook capability, and the
//! default hook policies: a panic stops the actor, and a peer's abnormal
//! death propagates.

use vstd::prelude::*;
use crate::error::{ActorStopReason, PanicError};

verus! {

/// The identity part of a strong handle. Two handles address the same actor
/// exactly when their identities are equal.
#[derive(Clone, Copy, PartialEq, Eq, Structural)]
pub struct ActorRef {
    pub id: u64,
}

impl ActorRef {
    pub fn new(id: u64) -> (r: ActorRef)
        ensures
            r.id == id,
    {
        ActorRef { id }
    }

    pub fn id(&self) -> (i: u64)
        ensures
            i == self.id,
    {
        self.id
    }
}

/// The identity part of a weak handle. Lifecycle hooks receive this instead
/// of a strong handle, so a hook cannot keep its own actor alive.
#[derive(Clone, Copy, PartialEq, Eq, Structural)]
pub struct WeakActorRef {
    pub id: u64,
}

impl WeakActorRef {
    pub fn new(id: u64) -> (r: WeakActorRef)
        ensures
            r.id == id,
    {
        WeakActorRef { id }
    }

    pub fn id(&self) -> (i: u64)
        ensures
            i == self.id,
    {
        self.id
    }
}

/// Hands out actor identities in increasing order; an identity is never
/// reused.
pub struct IdAllocator {
    next: u64,
}

impl IdAllocator {
    /// The identity the allocator will hand out next.
    pub closed spec fn spec_next(&self) -> u64 {
        self.next
    }

    pub fn new() -> (a: IdAllocator)
        ensures
            a.spec_next() == 0,
    {
        IdAllocator { next: 0 }
    }

    /// A fresh identity: distinct from every identity handed out before and
    /// from every identity this allocator hands out later.
    pub fn fresh(&mut self) -> (id: u64)
        requires
            old(self).spec_next() < u64::MAX,
        ensures
            id == old(self).spec_next(),
            final(self).spec_next() == old(self).spec_next() + 1,
    {
        let id = self.next;
        self.next = self.next + 1;
        id
    }
}

/// Relies on num_cpus::get: the number of available CPUs, documented to be
/// at least 1.
#[verifier::external_body]
fn cpu_count() -> (n: usize)
    ensures
        n >= 1,
{
    num_cpus::get()
}

/// The default bound on concurrently dispatched queries: the number of CPUs
/// the host offers, and so always at least 1.
pub fn default_max_concurrent_queries() -> (n: usize)
    ensures
        n >= 1,
{
    cpu_count()
}

/// The default start hook: succeed and change nothing.
pub fn default_on_start() -> (r: Result<(), PanicError>)
    ensures
        r == Ok::<(), PanicError>(()),
{
    Ok(())
}

/// The default stop hook: succeed; the actor value is simply dropped.
pub fn default_on_stop() -> (r: Result<(), PanicError>)
    ensures
        r == Ok::<(), PanicError>(()),
{
    Ok(())
}

/// The default panic policy: stop the actor, carrying the caught panic.
pub fn default_on_panic(err: PanicError) -> (r: Option<ActorStopReason>)
    ensures
        r == Some(ActorStopReason::Panicked(err)),
{
    Some(ActorStopReason::Panicked(err))
}

/// The default link-death policy: a peer that stopped normally is ignored;
/// any other death stops this actor too, with the peer's identity and
/// reason chained into the stop reason.
pub fn default_on_link_died(id: u64, reason: ActorStopReason) -> (r: Option<ActorStopReason>)
    ensures
        (reason is Normal) == (r is None),
        !(reason is Normal) ==> (r matches Some(ActorStopReason::LinkDied { id: lid, reason: lr })
            && lid == id && *lr == reason),
{
    match reason {
        ActorStopReason::Normal => None,
        _ => Some(ActorStopReason::LinkDied { id, reason: Box::new(reason) }),
    }
}

} // verus!
