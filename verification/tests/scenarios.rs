//! End-to-end runs of the actor loop over a queued batch of signals.

use kameo::actor::{default_on_panic, ActorRef, WeakActorRef};
use kameo::error::{ActorStopReason, PanicError, SendError};
use kameo::links::LinkRegistry;
use kameo::mailbox::{Mailbox, Signal};
use kameo::message::{Context, HandlerResult, Message, Query, Reply, ReplyEvent, ReplyOutcome};
use kameo::runtime::{run_actor, Actor};

enum Op {
    Inc(u32),
    Divide(u64, u64),
    Fail(String),
    Delegate,
    Get,
}

enum CounterReply {
    Num(i64),
    Fault(String),
}

impl Reply for CounterReply {
    fn into_error(self) -> Option<PanicError> {
        match self {
            CounterReply::Fault(m) => Some(PanicError::new(m)),
            CounterReply::Num(_) => None,
        }
    }
}

struct Counter {
    count: i64,
    resume_on_panic: bool,
}

impl Counter {
    fn new() -> Counter {
        Counter { count: 0, resume_on_panic: false }
    }
}

impl Actor for Counter {
    fn max_concurrent_queries() -> usize {
        4
    }

    fn on_panic(&mut self, _self_ref: WeakActorRef, err: PanicError) -> Option<ActorStopReason> {
        if self.resume_on_panic {
            None
        } else {
            default_on_panic(err)
        }
    }
}

impl Message<Op> for Counter {
    type Reply = CounterReply;

    fn handle(&mut self, msg: Op, ctx: &mut Context) -> HandlerResult<CounterReply> {
        match msg {
            Op::Inc(n) => {
                self.count += n as i64;
                HandlerResult::Completed(CounterReply::Num(self.count))
            }
            Op::Divide(a, b) => {
                if b == 0 {
                    HandlerResult::Panicked(PanicError::new(String::from("divide by zero")))
                } else {
                    HandlerResult::Completed(CounterReply::Num((a / b) as i64))
                }
            }
            Op::Fail(m) => HandlerResult::Completed(CounterReply::Fault(m)),
            Op::Delegate => {
                let (_delegated, _sender) = ctx.reply_sender();
                HandlerResult::Completed(CounterReply::Num(0))
            }
            Op::Get => HandlerResult::Completed(CounterReply::Num(self.count)),
        }
    }
}

impl Query<Op> for Counter {
    type Reply = CounterReply;

    fn handle(&self, _query: Op, _ctx: &mut Context) -> HandlerResult<CounterReply> {
        HandlerResult::Completed(CounterReply::Num(self.count))
    }
}

struct StartFails;

impl Actor for StartFails {
    fn on_start(&mut self, _self_ref: WeakActorRef) -> Result<(), PanicError> {
        Err(PanicError::new(String::from("refused to start")))
    }
}

impl Message<Op> for StartFails {
    type Reply = CounterReply;

    fn handle(&mut self, _msg: Op, _ctx: &mut Context) -> HandlerResult<CounterReply> {
        HandlerResult::Completed(CounterReply::Num(0))
    }
}

impl Query<Op> for StartFails {
    type Reply = CounterReply;

    fn handle(&self, _query: Op, _ctx: &mut Context) -> HandlerResult<CounterReply> {
        HandlerResult::Completed(CounterReply::Num(0))
    }
}

fn msg(op: Op, corr: Option<u64>) -> Signal<Op> {
    Signal::Message { message: op, actor_ref: ActorRef::new(1), reply: corr, sent_within_actor: false }
}

fn query(op: Op, corr: Option<u64>) -> Signal<Op> {
    Signal::Query { query: op, actor_ref: ActorRef::new(1), reply: corr }
}

fn expect_num(e: &ReplyEvent<CounterReply>, corr: u64, value: i64) {
    assert_eq!(e.corr, corr);
    match &e.outcome {
        ReplyOutcome::Value(CounterReply::Num(v)) => assert_eq!(*v, value),
        _ => panic!("expected a numeric reply"),
    }
}

fn expect_stopped(e: &ReplyEvent<CounterReply>, corr: u64) {
    assert_eq!(e.corr, corr);
    assert!(matches!(e.outcome, ReplyOutcome::Failed(SendError::ActorStopped)));
}

#[test]
fn counter_replies_in_send_order() {
    let mut mb: Mailbox<Op> = Mailbox::default_mailbox();
    assert!(matches!(mb.send(msg(Op::Inc(1), Some(1))), Ok(())));
    assert!(matches!(mb.send(msg(Op::Inc(2), Some(2))), Ok(())));
    assert!(matches!(mb.send(msg(Op::Inc(3), Some(3))), Ok(())));
    let links = LinkRegistry::new();
    let report = run_actor::<Counter, Op, CounterReply>(
        Counter::new(),
        ActorRef::new(1),
        &mut mb,
        &links,
    );
    assert_eq!(report.replies.len(), 3);
    expect_num(&report.replies[0], 1, 1);
    expect_num(&report.replies[1], 2, 3);
    expect_num(&report.replies[2], 3, 6);
    assert!(matches!(report.stop_reason, ActorStopReason::Normal));
    assert!(report.stopped.is_empty());
}

#[test]
fn graceful_stop_drains_earlier_sends() {
    let mut mb: Mailbox<Op> = Mailbox::default_mailbox();
    assert!(matches!(mb.send(msg(Op::Inc(1), Some(1))), Ok(())));
    assert!(matches!(mb.signal_stop(), Ok(())));
    assert!(matches!(mb.send(msg(Op::Inc(2), Some(2))), Ok(())));
    let links = LinkRegistry::new();
    let report = run_actor::<Counter, Op, CounterReply>(
        Counter::new(),
        ActorRef::new(1),
        &mut mb,
        &links,
    );
    assert_eq!(report.replies.len(), 1);
    expect_num(&report.replies[0], 1, 1);
    assert_eq!(report.stopped.len(), 1);
    expect_stopped(&report.stopped[0], 2);
    assert!(matches!(report.stop_reason, ActorStopReason::Normal));
    assert!(matches!(mb.send(msg(Op::Inc(3), Some(3))), Err(SendError::MailboxClosed)));
}

#[test]
fn panic_stops_actor_by_default() {
    let mut mb: Mailbox<Op> = Mailbox::default_mailbox();
    assert!(matches!(mb.send(msg(Op::Divide(1, 0), Some(1))), Ok(())));
    assert!(matches!(mb.send(msg(Op::Inc(5), Some(2))), Ok(())));
    let links = LinkRegistry::new();
    let report = run_actor::<Counter, Op, CounterReply>(
        Counter::new(),
        ActorRef::new(1),
        &mut mb,
        &links,
    );
    assert_eq!(report.replies.len(), 1);
    assert_eq!(report.replies[0].corr, 1);
    match &report.replies[0].outcome {
        ReplyOutcome::Failed(SendError::HandlerPanicked(p)) => {
            assert_eq!(p.message, "divide by zero");
        }
        _ => panic!("expected a handler panic"),
    }
    assert_eq!(report.stopped.len(), 1);
    expect_stopped(&report.stopped[0], 2);
    match &report.stop_reason {
        ActorStopReason::Panicked(p) => assert_eq!(p.message, "divide by zero"),
        _ => panic!("expected a panicked stop reason"),
    }
    assert!(matches!(mb.send(msg(Op::Get, Some(3))), Err(SendError::MailboxClosed)));
}

#[test]
fn panic_with_continuation_resumes() {
    let mut mb: Mailbox<Op> = Mailbox::default_mailbox();
    assert!(matches!(mb.send(msg(Op::Divide(1, 0), Some(1))), Ok(())));
    assert!(matches!(mb.send(msg(Op::Inc(1), Some(2))), Ok(())));
    let links = LinkRegistry::new();
    let report = run_actor::<Counter, Op, CounterReply>(
        Counter { count: 0, resume_on_panic: true },
        ActorRef::new(1),
        &mut mb,
        &links,
    );
    assert_eq!(report.replies.len(), 2);
    assert!(matches!(
        report.replies[0].outcome,
        ReplyOutcome::Failed(SendError::HandlerPanicked(_))
    ));
    expect_num(&report.replies[1], 2, 1);
    assert!(matches!(report.stop_reason, ActorStopReason::Normal));
}

#[test]
fn tell_error_reply_surfaces_as_panic() {
    let mut mb: Mailbox<Op> = Mailbox::default_mailbox();
    assert!(matches!(mb.send(msg(Op::Fail(String::from("boom")), None)), Ok(())));
    let links = LinkRegistry::new();
    let report = run_actor::<Counter, Op, CounterReply>(
        Counter::new(),
        ActorRef::new(1),
        &mut mb,
        &links,
    );
    assert!(report.replies.is_empty());
    match &report.stop_reason {
        ActorStopReason::Panicked(p) => assert_eq!(p.message, "boom"),
        _ => panic!("expected the error reply to stop the actor as a panic"),
    }
}

#[test]
fn queries_and_messages_interleave() {
    let mut mb: Mailbox<Op> = Mailbox::default_mailbox();
    assert!(matches!(mb.send(query(Op::Get, Some(11))), Ok(())));
    assert!(matches!(mb.send(query(Op::Get, Some(12))), Ok(())));
    assert!(matches!(mb.send(query(Op::Get, Some(13))), Ok(())));
    assert!(matches!(mb.send(query(Op::Get, Some(14))), Ok(())));
    assert!(matches!(mb.send(msg(Op::Inc(1), Some(15))), Ok(())));
    assert!(matches!(mb.send(query(Op::Get, Some(16))), Ok(())));
    let links = LinkRegistry::new();
    let report = run_actor::<Counter, Op, CounterReply>(
        Counter::new(),
        ActorRef::new(1),
        &mut mb,
        &links,
    );
    assert_eq!(report.replies.len(), 6);
    expect_num(&report.replies[0], 11, 0);
    expect_num(&report.replies[1], 12, 0);
    expect_num(&report.replies[2], 13, 0);
    expect_num(&report.replies[3], 14, 0);
    expect_num(&report.replies[4], 15, 1);
    expect_num(&report.replies[5], 16, 1);
}

#[test]
fn link_death_propagates_and_stops_peer() {
    let mut links_a = LinkRegistry::new();
    let mut links_b = LinkRegistry::new();
    kameo::links::link_pair(&mut links_a, 1, &mut links_b, 2);
    assert!(links_a.contains(2));
    assert!(links_b.contains(1));

    let mut mb_a: Mailbox<Op> = Mailbox::default_mailbox();
    assert!(matches!(mb_a.send(msg(Op::Get, Some(50))), Ok(())));
    let orphans: Vec<ReplyEvent<CounterReply>> = kameo::runtime::kill(&mut mb_a);
    assert_eq!(orphans.len(), 1);
    expect_stopped(&orphans[0], 50);
    assert!(matches!(mb_a.send(msg(Op::Get, Some(51))), Err(SendError::MailboxClosed)));
    let notices = links_a.death_notifications(1, &ActorStopReason::Killed);
    assert_eq!(notices.len(), 1);
    assert_eq!(notices[0].peer, 2);
    assert_eq!(notices[0].id, 1);
    assert!(matches!(notices[0].reason, ActorStopReason::Killed));

    let mut mb_b: Mailbox<Op> = Mailbox::default_mailbox();
    let mut notices = notices;
    let notice = notices.remove(0);
    assert!(matches!(mb_b.signal_link_died(notice.id, notice.reason), Ok(())));
    let report = run_actor::<Counter, Op, CounterReply>(
        Counter::new(),
        ActorRef::new(2),
        &mut mb_b,
        &links_b,
    );
    match &report.stop_reason {
        ActorStopReason::LinkDied { id, reason } => {
            assert_eq!(*id, 1);
            assert!(matches!(**reason, ActorStopReason::Killed));
        }
        _ => panic!("expected the peer's death to stop this actor"),
    }
    assert_eq!(report.notices.len(), 1);
    assert_eq!(report.notices[0].peer, 1);
}

#[test]
fn normal_peer_death_is_ignored() {
    let mut mb: Mailbox<Op> = Mailbox::default_mailbox();
    assert!(matches!(mb.signal_link_died(7, ActorStopReason::Normal), Ok(())));
    assert!(matches!(mb.send(msg(Op::Inc(1), Some(1))), Ok(())));
    let links = LinkRegistry::new();
    let report = run_actor::<Counter, Op, CounterReply>(
        Counter::new(),
        ActorRef::new(1),
        &mut mb,
        &links,
    );
    assert_eq!(report.replies.len(), 1);
    expect_num(&report.replies[0], 1, 1);
    assert!(matches!(report.stop_reason, ActorStopReason::Normal));
}

#[test]
fn failed_start_resolves_every_reply_stopped() {
    let mut mb: Mailbox<Op> = Mailbox::default_mailbox();
    assert!(matches!(mb.send(msg(Op::Inc(1), Some(1))), Ok(())));
    let links = LinkRegistry::new();
    let report = run_actor::<StartFails, Op, CounterReply>(
        StartFails,
        ActorRef::new(1),
        &mut mb,
        &links,
    );
    assert!(report.replies.is_empty());
    assert_eq!(report.stopped.len(), 1);
    expect_stopped(&report.stopped[0], 1);
    match &report.stop_reason {
        ActorStopReason::Panicked(p) => assert_eq!(p.message, "refused to start"),
        _ => panic!("expected a failed start to stop the actor"),
    }
}

#[test]
fn startup_barrier_is_observed() {
    let mut mb: Mailbox<Op> = Mailbox::default_mailbox();
    assert!(matches!(mb.signal_startup_finished(), Ok(())));
    let links = LinkRegistry::new();
    let report = run_actor::<Counter, Op, CounterReply>(
        Counter::new(),
        ActorRef::new(1),
        &mut mb,
        &links,
    );
    assert!(report.startup_observed);
}

#[test]
fn delegated_reply_suppresses_auto_reply() {
    let mut mb: Mailbox<Op> = Mailbox::default_mailbox();
    assert!(matches!(mb.send(msg(Op::Delegate, Some(9))), Ok(())));
    let links = LinkRegistry::new();
    let report = run_actor::<Counter, Op, CounterReply>(
        Counter::new(),
        ActorRef::new(1),
        &mut mb,
        &links,
    );
    assert!(report.replies.is_empty());
    assert!(report.stopped.is_empty());
    assert!(matches!(report.stop_reason, ActorStopReason::Normal));
}
