//! The actor loop: start hook, signal pump under the dispatch discipline,
//! stop hook, death broadcast, and resolution of every reply the actor
//! leaves behind.

use vstd::prelude::*;
use crate::actor::{ActorRef, WeakActorRef};
use crate::dispatch::DispatchState;
use crate::error::{ActorStopReason, PanicError, SendError};
use crate::links::{LinkDiedNotice, LinkRegistry};
use crate::mailbox::{Mailbox, Signal};
use crate::message::{Context, HandlerResult, Message, Query, Reply, ReplyEvent, ReplyOutcome,
    ReplySender};

verus! {

/// The hook capability an actor state implements: the loop consults it at
/// start, on a caught panic, on a peer's death, and at stop. Each hook
/// receives a weak self-reference, so no hook can keep its actor alive.
pub trait Actor: Sized {
    /// How many queries the loop may dispatch concurrently. The loop treats
    /// an answer of zero as one. By default, the number of host CPUs.
    fn max_concurrent_queries() -> usize {
        crate::actor::default_max_concurrent_queries()
    }

    /// Runs before any signal is dispatched; an error stops the actor with
    /// a `Panicked` reason before it processes anything.
    fn on_start(&mut self, _self_ref: WeakActorRef) -> Result<(), PanicError> {
        crate::actor::default_on_start()
    }

    /// Decides what a caught panic means: a reason stops the actor, `None`
    /// resumes dispatch. By default the actor stops, carrying the panic.
    fn on_panic(&mut self, _self_ref: WeakActorRef, err: PanicError) -> Option<ActorStopReason> {
        crate::actor::default_on_panic(err)
    }

    /// Decides what a linked peer's death means: a reason stops the actor,
    /// `None` resumes dispatch. By default a normal death is ignored and
    /// any other stops this actor too.
    fn on_link_died(&mut self, _self_ref: WeakActorRef, id: u64, reason: ActorStopReason) -> Option<
        ActorStopReason,
    > {
        crate::actor::default_on_link_died(id, reason)
    }

    /// Runs exactly once, after dispatch has ended and every dispatched
    /// handler has resolved; it consumes the actor value.
    fn on_stop(self, _self_ref: WeakActorRef, _reason: ActorStopReason) -> Result<(), PanicError> {
        crate::actor::default_on_stop()
    }
}

/// The payloads of the message signals of `q`, in queue order.
pub open spec fn message_payloads<M>(q: Seq<Signal<M>>) -> Seq<M>
    decreases q.len(),
{
    if q.len() == 0 {
        Seq::empty()
    } else {
        match q.last() {
            Signal::Message { message, .. } => message_payloads(q.drop_last()).push(message),
            _ => message_payloads(q.drop_last()),
        }
    }
}

/// The reply correlation a signal carries, if it carries one.
pub open spec fn signal_reply_corr<M>(s: Signal<M>) -> Option<u64> {
    match s {
        Signal::Message { reply, .. } => reply,
        Signal::Query { reply, .. } => reply,
        _ => None,
    }
}

/// The reply correlations awaited by the signals of `q`, in queue order.
pub open spec fn reply_corrs<M>(q: Seq<Signal<M>>) -> Seq<u64>
    decreases q.len(),
{
    if q.len() == 0 {
        Seq::empty()
    } else {
        match signal_reply_corr(q.last()) {
            Some(c) => reply_corrs(q.drop_last()).push(c),
            None => reply_corrs(q.drop_last()),
        }
    }
}

/// The correlations of a sequence of reply events, in order.
pub open spec fn event_corrs<R>(es: Seq<ReplyEvent<R>>) -> Seq<u64> {
    es.map_values(|e: ReplyEvent<R>| e.corr)
}

/// The message and query signals of `q` — the ones a handler serves — in
/// queue order.
pub open spec fn handler_signals<M>(q: Seq<Signal<M>>) -> Seq<Signal<M>>
    decreases q.len(),
{
    if q.len() == 0 {
        Seq::empty()
    } else {
        let rest = handler_signals(q.drop_last());
        if q.last() is Message || q.last() is Query {
            rest.push(q.last())
        } else {
            rest
        }
    }
}

/// The record of one handler invocation: which signal it served, whether
/// the handler took the reply sender, and how it came out. The loop owes
/// one such record per message or query it consumes.
pub struct HandlerStep<R> {
    /// The correlation the signal awaited, `None` for fire-and-forget.
    pub corr: Option<u64>,
    /// True for a message handler, false for a query handler.
    pub is_message: bool,
    /// Whether the handler took the reply sender out of its context.
    pub delegated: bool,
    /// The handler's outcome: its return value, or the panic it raised.
    pub result: HandlerResult<R>,
    /// The panic hook's answer, where the panic path ran for this step.
    pub panic_answer: Option<Option<ActorStopReason>>,
}

/// The reply a handler outcome resolves to: the returned value, or the
/// panic as a typed error.
pub open spec fn outcome_event<R>(h: HandlerResult<R>) -> ReplyOutcome<R> {
    match h {
        HandlerResult::Completed(v) => ReplyOutcome::Value(v),
        HandlerResult::Panicked(e) => ReplyOutcome::Failed(SendError::HandlerPanicked(e)),
    }
}

/// The reply events a sequence of handler steps owes, in order: one per
/// step whose caller awaits a reply and whose handler did not take the
/// sender, carrying that handler's outcome.
pub open spec fn reply_events_of<R>(steps: Seq<HandlerStep<R>>) -> Seq<ReplyEvent<R>>
    decreases steps.len(),
{
    if steps.len() == 0 {
        Seq::empty()
    } else {
        let rest = reply_events_of(steps.drop_last());
        let s = steps.last();
        match s.corr {
            Some(c) => if s.delegated {
                rest
            } else {
                rest.push(ReplyEvent { corr: c, outcome: outcome_event(s.result) })
            },
            None => rest,
        }
    }
}

/// The handler steps describe exactly the given handler signals: same
/// count, same correlations, same kinds, and every panicked step consulted
/// the panic hook.
pub open spec fn steps_match<M, R>(steps: Seq<HandlerStep<R>>, sigs: Seq<Signal<M>>) -> bool {
    &&& steps.len() == sigs.len()
    &&& forall|t: int|
        0 <= t < steps.len() ==> {
            &&& (#[trigger] steps[t]).corr == signal_reply_corr(sigs[t])
            &&& steps[t].is_message == (sigs[t] is Message)
            &&& (steps[t].delegated ==> steps[t].corr is Some)
            &&& (steps[t].result is Panicked ==> steps[t].panic_answer is Some)
        }
}

/// Where a run's stop reason came from.
pub enum StopProvenance {
    /// The start hook failed; nothing was dispatched.
    StartFailed,
    /// A `Stop` signal at this queue index decided a normal stop.
    StopSignalAt { at: int },
    /// The queue drained with no reason decided: a normal stop.
    EndOfStream,
    /// The panic hook answered a stop reason at this handler step.
    PanicPolicy { step: int },
    /// The link-death hook answered a stop reason for the `LinkDied` signal
    /// at this queue index.
    LinkPolicy { at: int },
}

/// Extending a queue by one signal extends its payload and correlation
/// projections by that signal's contribution.
proof fn lemma_take_step<M>(q: Seq<Signal<M>>, i: int)
    requires
        0 <= i < q.len(),
    ensures
        message_payloads(q.take(i + 1)) == (match q[i] {
            Signal::Message { message, .. } => message_payloads(q.take(i)).push(message),
            _ => message_payloads(q.take(i)),
        }),
        reply_corrs(q.take(i + 1)) == (match signal_reply_corr(q[i]) {
            Some(c) => reply_corrs(q.take(i)).push(c),
            None => reply_corrs(q.take(i)),
        }),
        handler_signals(q.take(i + 1)) == (if q[i] is Message || q[i] is Query {
            handler_signals(q.take(i)).push(q[i])
        } else {
            handler_signals(q.take(i))
        }),
{
    assert(q.take(i + 1).drop_last() =~= q.take(i));
    assert(q.take(i + 1).last() == q[i]);
}

/// The first-in first-out law for message dispatch: the handled-payload
/// projection of a queue splits at any point of the queue, so the payloads
/// of signals enqueued earlier stand before the payloads of signals
/// enqueued later. With `Mailbox::send` appending at the back and
/// `run_actor` handling `message_payloads` of the consumed prefix in order,
/// handlers run in the order one handle's sends were enqueued.
pub proof fn lemma_payloads_split<M>(q1: Seq<Signal<M>>, q2: Seq<Signal<M>>)
    ensures
        message_payloads(q1 + q2) == message_payloads(q1) + message_payloads(q2),
    decreases q2.len(),
{
    if q2.len() == 0 {
        assert(q1 + q2 =~= q1);
        assert(message_payloads(q1) + message_payloads(q2) =~= message_payloads(q1));
    } else {
        lemma_payloads_split(q1, q2.drop_last());
        assert((q1 + q2).drop_last() =~= q1 + q2.drop_last());
        assert((q1 + q2).last() == q2.last());
        match q2.last() {
            Signal::Message { message, .. } => {
                assert(message_payloads(q1) + message_payloads(q2.drop_last()).push(message)
                    =~= (message_payloads(q1) + message_payloads(q2.drop_last())).push(message));
            }
            _ => {}
        }
    }
}

/// Resolves every reply still awaited in a stopped actor's mailbox with
/// `ActorStopped`: one event per awaited correlation, in queue order,
/// none dropped silently.
pub fn resolve_stopped<M, R>(mailbox: &mut Mailbox<M>) -> (rs: Vec<ReplyEvent<R>>)
    requires
        old(mailbox).wf(),
    ensures
        final(mailbox).wf(),
        final(mailbox).signals().len() == 0,
        final(mailbox).is_closed() == old(mailbox).is_closed(),
        event_corrs(rs@) == reply_corrs(old(mailbox).signals()),
        forall|t: int|
            0 <= t < rs@.len() ==> (#[trigger] rs@[t]).outcome == ReplyOutcome::<R>::Failed(
                SendError::ActorStopped,
            ),
{
    let ghost q0 = mailbox.signals();
    let ghost c0 = mailbox.is_closed();
    let mut rs: Vec<ReplyEvent<R>> = Vec::new();
    let ghost mut i: int = 0;
    while mailbox.len() > 0
        invariant
            mailbox.wf(),
            mailbox.is_closed() == c0,
            0 <= i <= q0.len(),
            mailbox.signals() == q0.subrange(i, q0.len() as int),
            event_corrs(rs@) == reply_corrs(q0.take(i)),
            forall|t: int|
                0 <= t < rs@.len() ==> (#[trigger] rs@[t]).outcome == ReplyOutcome::<R>::Failed(
                    SendError::ActorStopped,
                ),
        decreases q0.len() - i,
    {
        let s = mailbox.recv();
        match s {
            Some(sig) => {
                proof {
                    assert(q0.subrange(i, q0.len() as int)[0] == q0[i]);
                    assert(mailbox.signals() =~= q0.subrange(i + 1, q0.len() as int));
                    lemma_take_step(q0, i);
                }
                let corr = match &sig {
                    Signal::Message { reply, .. } => *reply,
                    Signal::Query { reply, .. } => *reply,
                    _ => None,
                };
                match corr {
                    Some(c) => {
                        rs.push(ReplySender::new(c).fail(SendError::ActorStopped));
                        proof {
                            assert(event_corrs(rs@) =~= reply_corrs(q0.take(i + 1)));
                        }
                    }
                    None => {}
                }
                proof {
                    i = i + 1;
                }
            }
            None => {
                proof {
                    assert(false);
                }
            }
        }
    }
    proof {
        assert(q0.take(i) =~= q0);
    }
    rs
}

/// Kills an actor's mailbox: it closes at once — later senders observe
/// `MailboxClosed` — and every reply already awaited resolves
/// `ActorStopped`, in queue order. Aborting the loop task itself is the
/// scheduler's part; in-flight work is simply abandoned.
pub fn kill<M, R>(mailbox: &mut Mailbox<M>) -> (rs: Vec<ReplyEvent<R>>)
    requires
        old(mailbox).wf(),
    ensures
        final(mailbox).wf(),
        final(mailbox).is_closed(),
        final(mailbox).signals().len() == 0,
        event_corrs(rs@) == reply_corrs(old(mailbox).signals()),
        forall|t: int|
            0 <= t < rs@.len() ==> (#[trigger] rs@[t]).outcome == ReplyOutcome::<R>::Failed(
                SendError::ActorStopped,
            ),
{
    mailbox.close();
    resolve_stopped(mailbox)
}

/// Everything one actor's run produced: the replies its handlers resolved,
/// the replies resolved `ActorStopped` at exit, why and how it stopped, and
/// the death notifications it owes its peers.
pub struct RunReport<M, R> {
    /// Replies resolved while dispatch ran, in dispatch order.
    pub replies: Vec<ReplyEvent<R>>,
    /// Replies still awaited when dispatch ended, each resolved
    /// `ActorStopped`, in queue order.
    pub stopped: Vec<ReplyEvent<R>>,
    /// Why the actor terminated.
    pub stop_reason: ActorStopReason,
    /// Exactly one `LinkDied` owed to each linked peer.
    pub notices: Vec<LinkDiedNotice>,
    /// The error the stop hook returned, if it failed.
    pub stop_hook_error: Option<PanicError>,
    /// Whether the startup barrier was observed.
    pub startup_observed: bool,
    /// The message payloads handed to handlers, in invocation order.
    pub handled: Ghost<Seq<M>>,
    /// How many queued signals dispatch consumed before it ended.
    pub processed: Ghost<int>,
    /// One record per handler invocation, in dispatch order.
    pub steps: Ghost<Seq<HandlerStep<R>>>,
    /// Where the stop reason came from.
    pub provenance: Ghost<StopProvenance>,
    /// The dispatch state at the instant dispatch ended — just before the
    /// stop hook ran.
    pub exit_state: Ghost<DispatchState>,
}

/// Runs one actor's loop to completion over the signals queued in its
/// mailbox: start hook, dispatch under the one-mutating-handler discipline,
/// stop hook, death broadcast, and resolution of every awaited reply.
///
/// Message handlers are invoked in queue order — for signals enqueued on
/// one handle, that is the order of the sends. The stop hook runs exactly
/// once — it consumes the actor value, on the one path out of dispatch —
/// and only after every dispatched handler has resolved, as the exit
/// dispatch state recorded in the report shows.
///
/// The report's step records account for every consumed message and query:
/// the resolved replies are exactly the events those steps owe — the
/// handler's value, or its panic as `HandlerPanicked`, for each caller
/// whose sender the handler did not take. The provenance says where the
/// stop reason came from — a failed start (then nothing was dispatched), a
/// `Stop` signal, the drained queue (then the whole queue was consumed), or
/// a hook's answer on a panic or a peer's death — so dispatch consumes the
/// whole queue unless one of those decided a stop before its end.
pub fn run_actor<A, M, R>(
    actor: A,
    self_ref: ActorRef,
    mailbox: &mut Mailbox<M>,
    links: &LinkRegistry,
) -> (report: RunReport<M, R>) where
    A: Actor + Message<M, Reply = R> + Query<M, Reply = R>,
    R: Reply,

    requires
        old(mailbox).wf(),
        links.wf(),
    ensures
        final(mailbox).wf(),
        final(mailbox).is_closed(),
        final(mailbox).signals().len() == 0,
        0 <= report.processed@ <= old(mailbox).signals().len(),
        report.handled@ == message_payloads(old(mailbox).signals().take(report.processed@)),
        event_corrs(report.stopped@) == reply_corrs(
            old(mailbox).signals().skip(report.processed@),
        ),
        forall|t: int|
            0 <= t < report.stopped@.len() ==> (#[trigger] report.stopped@[t]).outcome
                == ReplyOutcome::<R>::Failed(SendError::ActorStopped),
        steps_match(
            report.steps@,
            handler_signals(old(mailbox).signals().take(report.processed@)),
        ),
        report.replies@ == reply_events_of(report.steps@),
        report.provenance@ is StartFailed ==> report.processed@ == 0
            && report.stop_reason is Panicked,
        report.provenance@ matches StopProvenance::StopSignalAt { at } ==> 0 <= at
            < report.processed@ && old(mailbox).signals()[at] is Stop
            && report.stop_reason is Normal,
        report.provenance@ is EndOfStream ==> report.processed@ == old(
            mailbox,
        ).signals().len() && report.stop_reason is Normal,
        report.provenance@ matches StopProvenance::PanicPolicy { step } ==> 0 <= step
            < report.steps@.len() && report.steps@[step].panic_answer == Some(
            Some(report.stop_reason),
        ),
        report.provenance@ matches StopProvenance::LinkPolicy { at } ==> 0 <= at
            < report.processed@ && old(mailbox).signals()[at] is LinkDied,
        report.notices@.len() == links.peer_seq().len(),
        forall|t: int|
            0 <= t < report.notices@.len() ==> (#[trigger] report.notices@[t]).peer
                == links.peer_seq()[t] && report.notices@[t].id == self_ref.id
                && report.notices@[t].reason == report.stop_reason,
        forall|t: int, u: int|
            0 <= t < u < report.notices@.len() ==> report.notices@[t].peer
                != report.notices@[u].peer,
        report.exit_state@.inv(),
        report.exit_state@.pending_queries == 0,
        !report.exit_state@.mutating,
        report.exit_state@.stop_reason == Some(report.stop_reason),
{
    let mut state = actor;
    let weak = WeakActorRef::new(self_ref.id());
    let n = <A as Actor>::max_concurrent_queries();
    let mcq = if n == 0 {
        1
    } else {
        n
    };
    let mut ds = DispatchState::new(mcq);
    let mut replies: Vec<ReplyEvent<R>> = Vec::new();
    let mut startup_observed = false;
    let ghost q0 = mailbox.signals();
    let ghost mut handled: Seq<M> = Seq::empty();
    let ghost mut steps: Seq<HandlerStep<R>> = Seq::empty();
    let ghost mut prov: Option<StopProvenance> = None;
    let ghost mut i: int = 0;

    match state.on_start(weak) {
        Ok(()) => {}
        Err(e) => {
            proof {
                prov = Some(StopProvenance::StartFailed);
            }
            ds.record_stop(ActorStopReason::Panicked(e));
        }
    }

    let mut done = false;
    while !done
        invariant
            ds.inv(),
            !ds.mutating,
            ds.pending_queries == 0,
            mailbox.wf(),
            0 <= i <= q0.len(),
            mailbox.signals() == q0.subrange(i, q0.len() as int),
            handled == message_payloads(q0.take(i)),
            steps_match(steps, handler_signals(q0.take(i))),
            replies@ == reply_events_of(steps),
            (ds.stop_reason is Some) == (prov is Some),
            prov == Some(StopProvenance::StartFailed) ==> i == 0 && (ds.stop_reason matches Some(
                ActorStopReason::Panicked(_),
            )),
            prov matches Some(StopProvenance::StopSignalAt { at }) ==> 0 <= at < i
                && q0[at] is Stop && ds.stop_reason == Some(ActorStopReason::Normal),
            prov == Some(StopProvenance::EndOfStream) ==> i == q0.len() && ds.stop_reason == Some(
                ActorStopReason::Normal,
            ),
            prov matches Some(StopProvenance::PanicPolicy { step }) ==> 0 <= step < steps.len()
                && steps[step].panic_answer == Some(ds.stop_reason),
            prov matches Some(StopProvenance::LinkPolicy { at }) ==> 0 <= at < i
                && q0[at] is LinkDied,
            done ==> ds.stop_reason is Some,
        decreases q0.len() - i, (if done { 0int } else { 1int }),
    {
        if ds.ready_to_exit() {
            done = true;
        } else {
            match mailbox.recv() {
                None => {
                    proof {
                        if ds.stop_reason is None {
                            prov = Some(StopProvenance::EndOfStream);
                        }
                    }
                    ds.record_stop(ActorStopReason::Normal);
                    done = true;
                }
                Some(sig) => {
                    proof {
                        assert(q0.subrange(i, q0.len() as int)[0] == q0[i]);
                        assert(mailbox.signals() =~= q0.subrange(i + 1, q0.len() as int));
                        lemma_take_step(q0, i);
                    }
                    match sig {
                        Signal::StartupFinished => {
                            startup_observed = true;
                        }
                        Signal::Stop => {
                            proof {
                                if ds.stop_reason is None {
                                    prov = Some(StopProvenance::StopSignalAt { at: i });
                                }
                            }
                            ds.record_stop(ActorStopReason::Normal);
                        }
                        Signal::LinkDied { id, reason } => {
                            match state.on_link_died(weak, id, reason) {
                                Some(r) => {
                                    proof {
                                        if ds.stop_reason is None {
                                            prov = Some(StopProvenance::LinkPolicy { at: i });
                                        }
                                    }
                                    ds.record_stop(r);
                                }
                                None => {}
                            }
                        }
                        Signal::Message { message, actor_ref, reply, sent_within_actor: _ } => {
                            let ghost payload = message;
                            ds.begin_message();
                            let sender = match reply {
                                Some(c) => Some(ReplySender::new(c)),
                                None => None,
                            };
                            let mut ctx = Context::new(actor_ref, sender);
                            let hr = Message::handle(&mut state, message, &mut ctx);
                            let ghost outcome = hr;
                            let remaining = ctx.into_reply();
                            let ghost was_delegated: bool = reply is Some && remaining is None;
                            let ghost mut answer: Option<Option<ActorStopReason>> = None;
                            match hr {
                                HandlerResult::Completed(value) => {
                                    match remaining {
                                        Some(tx) => {
                                            replies.push(tx.send(value));
                                        }
                                        None => {
                                            match value.into_error() {
                                                Some(e) => {
                                                    match state.on_panic(weak, e) {
                                                        Some(r) => {
                                                            proof {
                                                                answer = Some(Some(r));
                                                                if ds.stop_reason is None {
                                                                    prov = Some(
                                                                        StopProvenance::PanicPolicy {
                                                                            step: steps.len() as int,
                                                                        },
                                                                    );
                                                                }
                                                            }
                                                            ds.record_stop(r);
                                                        }
                                                        None => {
                                                            proof {
                                                                answer = Some(None);
                                                            }
                                                        }
                                                    }
                                                }
                                                None => {}
                                            }
                                        }
                                    }
                                }
                                HandlerResult::Panicked(e) => {
                                    match remaining {
                                        Some(tx) => {
                                            replies.push(
                                                tx.fail(
                                                    SendError::HandlerPanicked(e.duplicate()),
                                                ),
                                            );
                                        }
                                        None => {}
                                    }
                                    match state.on_panic(weak, e) {
                                        Some(r) => {
                                            proof {
                                                answer = Some(Some(r));
                                                if ds.stop_reason is None {
                                                    prov = Some(
                                                        StopProvenance::PanicPolicy {
                                                            step: steps.len() as int,
                                                        },
                                                    );
                                                }
                                            }
                                            ds.record_stop(r);
                                        }
                                        None => {
                                            proof {
                                                answer = Some(None);
                                            }
                                        }
                                    }
                                }
                            }
                            ds.end_message();
                            proof {
                                handled = handled.push(payload);
                                let pre_steps = steps;
                                steps = steps.push(
                                    HandlerStep {
                                        corr: reply,
                                        is_message: true,
                                        delegated: was_delegated,
                                        result: outcome,
                                        panic_answer: answer,
                                    },
                                );
                                assert(steps.drop_last() =~= pre_steps);
                                assert(replies@ =~= reply_events_of(steps));
                                assert(steps_match(steps, handler_signals(q0.take(i + 1))));
                            }
                        }
                        Signal::Query { query, actor_ref, reply } => {
                            ds.begin_query();
                            let sender = match reply {
                                Some(c) => Some(ReplySender::new(c)),
                                None => None,
                            };
                            let mut ctx = Context::new(actor_ref, sender);
                            let hr = Query::handle(&state, query, &mut ctx);
                            let ghost outcome = hr;
                            let remaining = ctx.into_reply();
                            let ghost was_delegated: bool = reply is Some && remaining is None;
                            let ghost mut answer: Option<Option<ActorStopReason>> = None;
                            match hr {
                                HandlerResult::Completed(value) => {
                                    match remaining {
                                        Some(tx) => {
                                            replies.push(tx.send(value));
                                        }
                                        None => {
                                            match value.into_error() {
                                                Some(e) => {
                                                    match state.on_panic(weak, e) {
                                                        Some(r) => {
                                                            proof {
                                                                answer = Some(Some(r));
                                                                if ds.stop_reason is None {
                                                                    prov = Some(
                                                                        StopProvenance::PanicPolicy {
                                                                            step: steps.len() as int,
                                                                        },
                                                                    );
                                                                }
                                                            }
                                                            ds.record_stop(r);
                                                        }
                                                        None => {
                                                            proof {
                                                                answer = Some(None);
                                                            }
                                                        }
                                                    }
                                                }
                                                None => {}
                                            }
                                        }
                                    }
                                }
                                HandlerResult::Panicked(e) => {
                                    match remaining {
                                        Some(tx) => {
                                            replies.push(
                                                tx.fail(
                                                    SendError::HandlerPanicked(e.duplicate()),
                                                ),
                                            );
                                        }
                                        None => {}
                                    }
                                    match state.on_panic(weak, e) {
                                        Some(r) => {
                                            proof {
                                                answer = Some(Some(r));
                                                if ds.stop_reason is None {
                                                    prov = Some(
                                                        StopProvenance::PanicPolicy {
                                                            step: steps.len() as int,
                                                        },
                                                    );
                                                }
                                            }
                                            ds.record_stop(r);
                                        }
                                        None => {
                                            proof {
                                                answer = Some(None);
                                            }
                                        }
                                    }
                                }
                            }
                            ds.end_query();
                            proof {
                                let pre_steps = steps;
                                steps = steps.push(
                                    HandlerStep {
                                        corr: reply,
                                        is_message: false,
                                        delegated: was_delegated,
                                        result: outcome,
                                        panic_answer: answer,
                                    },
                                );
                                assert(steps.drop_last() =~= pre_steps);
                                assert(replies@ =~= reply_events_of(steps));
                                assert(steps_match(steps, handler_signals(q0.take(i + 1))));
                            }
                        }
                    }
                    proof {
                        i = i + 1;
                    }
                }
            }
        }
    }

    mailbox.close();
    let ghost exit_state = ds;
    let ghost provenance: StopProvenance = match prov {
        Some(p) => p,
        None => StopProvenance::EndOfStream,
    };
    let stop_reason = match ds.stop_reason {
        Some(r) => r,
        None => ActorStopReason::Normal,
    };
    let stop_hook_error = match state.on_stop(weak, stop_reason.duplicate()) {
        Ok(()) => None,
        Err(e) => Some(e),
    };
    let notices = links.death_notifications(self_ref.id(), &stop_reason);
    let stopped = resolve_stopped::<M, R>(mailbox);
    proof {
        assert(q0.subrange(i, q0.len() as int) =~= q0.skip(i));
    }
    RunReport {
        replies,
        stopped,
        stop_reason,
        notices,
        stop_hook_error,
        startup_observed,
        handled: Ghost(handled),
        processed: Ghost(i),
        steps: Ghost(steps),
        provenance: Ghost(provenance),
        exit_state: Ghost(exit_state),
    }
}

} // verus!
