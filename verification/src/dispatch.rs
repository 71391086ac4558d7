//! The dispatch discipline of the actor loop: one mutating handler at a
//! time, up to a fixed number of concurrent read-only queries, and a stop
//! reason that, once set, ends dispatch as soon as in-flight work drains.

use vstd::prelude::*;
use crate::error::ActorStopReason;

verus! {

/// The loop's bookkeeping while it pumps signals: how many queries are in
/// flight, whether a message handler holds the state, and whether a stop
/// reason has been decided.
pub struct DispatchState {
    pub pending_queries: usize,
    pub mutating: bool,
    pub stop_reason: Option<ActorStopReason>,
    pub max_concurrent_queries: usize,
}

impl DispatchState {
    /// The loop invariant: a mutating handler excludes every query, and
    /// queries never exceed their bound.
    pub open spec fn inv(&self) -> bool {
        &&& self.max_concurrent_queries >= 1
        &&& (self.mutating ==> self.pending_queries == 0)
        &&& self.pending_queries <= self.max_concurrent_queries
    }

    pub fn new(max_concurrent_queries: usize) -> (s: DispatchState)
        requires
            max_concurrent_queries >= 1,
        ensures
            s.inv(),
            s.pending_queries == 0,
            !s.mutating,
            s.stop_reason is None,
            s.max_concurrent_queries == max_concurrent_queries,
    {
        DispatchState {
            pending_queries: 0,
            mutating: false,
            stop_reason: None,
            max_concurrent_queries,
        }
    }

    /// Whether a message handler may start now: it needs the state to
    /// itself, so every query must have drained, and dispatch must not have
    /// been stopped.
    pub fn can_start_message(&self) -> (b: bool)
        ensures
            b == (self.pending_queries == 0 && !self.mutating && self.stop_reason is None),
    {
        self.pending_queries == 0 && !self.mutating && matches!(self.stop_reason, None)
    }

    /// A message handler takes exclusive access to the actor state.
    pub fn begin_message(&mut self)
        requires
            old(self).inv(),
            old(self).pending_queries == 0,
            !old(self).mutating,
        ensures
            final(self).inv(),
            *final(self) == (DispatchState { mutating: true, ..*old(self) }),
    {
        self.mutating = true;
    }

    /// The message handler resolved (normally or through the panic path) and
    /// releases the actor state.
    pub fn end_message(&mut self)
        requires
            old(self).inv(),
            old(self).mutating,
        ensures
            final(self).inv(),
            *final(self) == (DispatchState { mutating: false, ..*old(self) }),
    {
        self.mutating = false;
    }

    /// Whether one more query may start now: no message handler holds the
    /// state, the query bound is not reached, and dispatch is not stopped.
    pub fn can_start_query(&self) -> (b: bool)
        ensures
            b == (!self.mutating && self.pending_queries < self.max_concurrent_queries
                && self.stop_reason is None),
    {
        !self.mutating && self.pending_queries < self.max_concurrent_queries
            && matches!(self.stop_reason, None)
    }

    /// One more query goes in flight.
    pub fn begin_query(&mut self)
        requires
            old(self).inv(),
            !old(self).mutating,
            old(self).pending_queries < old(self).max_concurrent_queries,
        ensures
            final(self).inv(),
            *final(self) == (DispatchState {
                pending_queries: (old(self).pending_queries + 1) as usize,
                ..*old(self)
            }),
    {
        self.pending_queries = self.pending_queries + 1;
    }

    /// One in-flight query resolved.
    pub fn end_query(&mut self)
        requires
            old(self).inv(),
            old(self).pending_queries >= 1,
        ensures
            final(self).inv(),
            *final(self) == (DispatchState {
                pending_queries: (old(self).pending_queries - 1) as usize,
                ..*old(self)
            }),
    {
        self.pending_queries = self.pending_queries - 1;
    }

    /// Decides the stop reason: the first reason recorded wins, later ones
    /// are dropped.
    pub fn record_stop(&mut self, reason: ActorStopReason)
        requires
            old(self).inv(),
        ensures
            final(self).inv(),
            old(self).stop_reason is None ==> *final(self) == (DispatchState {
                stop_reason: Some(reason),
                ..*old(self)
            }),
            old(self).stop_reason is Some ==> *final(self) == *old(self),
    {
        if matches!(self.stop_reason, None) {
            self.stop_reason = Some(reason);
        }
    }

    /// Whether the loop may exit: a stop reason is decided and every
    /// dispatched handler has resolved.
    pub fn ready_to_exit(&self) -> (b: bool)
        ensures
            b == (self.stop_reason is Some && self.pending_queries == 0 && !self.mutating),
    {
        matches!(self.stop_reason, Some(_)) && self.pending_queries == 0 && !self.mutating
    }
}

/// The dispatch-state law: at every instant of a well-formed dispatch state,
/// a mutating handler implies no pending query, a pending query implies no
/// mutating handler, and pending queries never exceed their bound.
pub proof fn lemma_dispatch_exclusion(s: DispatchState)
    requires
        s.inv(),
    ensures
        s.mutating ==> s.pending_queries == 0,
        s.pending_queries > 0 ==> !s.mutating,
        s.pending_queries <= s.max_concurrent_queries,
{
}

} // verus!
