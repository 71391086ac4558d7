//! The building blocks one by one: mailbox order and refusal, handle
//! accounting, link registries, the dispatch discipline, reply routing,
//! and the trusted CPU-count default.

use kameo::actor::{default_max_concurrent_queries, default_on_link_died, default_on_panic,
    ActorRef, IdAllocator, WeakActorRef};
use kameo::dispatch::DispatchState;
use kameo::error::{ActorStopReason, PanicError, SendError};
use kameo::links::{link_pair, unlink_pair, LinkRegistry};
use kameo::mailbox::{Mailbox, Signal};
use kameo::message::{Context, ReplyAction, ReplyEvent, ReplyOutcome, ReplySender, route_reply};
use kameo::runtime::resolve_stopped;

fn plain(n: u32) -> Signal<u32> {
    Signal::Message { message: n, actor_ref: ActorRef::new(1), reply: None, sent_within_actor: false }
}

fn with_corr(n: u32, corr: u64) -> Signal<u32> {
    Signal::Message { message: n, actor_ref: ActorRef::new(1), reply: Some(corr), sent_within_actor: false }
}

#[test]
fn mailbox_is_first_in_first_out() {
    let mut mb: Mailbox<u32> = Mailbox::default_mailbox();
    assert!(matches!(mb.send(plain(10)), Ok(())));
    assert!(matches!(mb.send(plain(20)), Ok(())));
    assert!(matches!(mb.send(plain(30)), Ok(())));
    for expected in [10u32, 20, 30] {
        match mb.recv() {
            Some(Signal::Message { message, .. }) => assert_eq!(message, expected),
            _ => panic!("expected a message signal"),
        }
    }
    assert!(mb.recv().is_none());
}

#[test]
fn bounded_mailbox_refuses_when_full() {
    let mut mb: Mailbox<u32> = Mailbox::bounded(1);
    assert!(matches!(mb.send(plain(1)), Ok(())));
    assert!(matches!(mb.send(plain(2)), Err(SendError::MailboxFull)));
    assert!(mb.recv().is_some());
    assert!(matches!(mb.send(plain(3)), Ok(())));
}

#[test]
fn closed_mailbox_refuses_senders() {
    let mut mb: Mailbox<u32> = Mailbox::default_mailbox();
    assert!(!mb.is_closed());
    mb.close();
    assert!(mb.is_closed());
    assert!(matches!(mb.send(plain(1)), Err(SendError::MailboxClosed)));
    assert!(matches!(mb.signal_stop(), Err(SendError::MailboxClosed)));
}

#[test]
fn weak_upgrade_iff_strong_handle_and_open() {
    let mut mb: Mailbox<u32> = Mailbox::default_mailbox();
    mb.downgrade();
    assert_eq!(mb.weak_count(), 1);
    assert_eq!(mb.strong_count(), 1);
    assert!(mb.try_upgrade());
    assert_eq!(mb.strong_count(), 2);

    let mut closed: Mailbox<u32> = Mailbox::default_mailbox();
    closed.close();
    assert!(!closed.try_upgrade());

    let mut dropped: Mailbox<u32> = Mailbox::default_mailbox();
    dropped.drop_strong();
    assert_eq!(dropped.strong_count(), 0);
    assert!(!dropped.try_upgrade());
}

#[test]
fn last_strong_handle_closes_mailbox() {
    let mut mb: Mailbox<u32> = Mailbox::default_mailbox();
    mb.clone_strong();
    mb.drop_strong();
    assert!(matches!(mb.send(plain(1)), Ok(())));
    mb.drop_strong();
    assert!(matches!(mb.send(plain(2)), Err(SendError::MailboxClosed)));
}

#[test]
fn link_then_unlink_restores_both_sides() {
    let mut a = LinkRegistry::new();
    let mut b = LinkRegistry::new();
    link_pair(&mut a, 1, &mut b, 2);
    assert!(a.contains(2));
    assert!(b.contains(1));
    unlink_pair(&mut a, 1, &mut b, 2);
    assert!(!a.contains(2));
    assert!(!b.contains(1));
}

#[test]
fn linking_is_idempotent() {
    let mut a = LinkRegistry::new();
    a.link(7);
    a.link(7);
    a.unlink(7);
    assert!(!a.contains(7));
    a.unlink(7);
    assert!(!a.contains(7));
}

#[test]
fn death_notifications_cover_each_peer_once() {
    let mut a = LinkRegistry::new();
    a.link(2);
    a.link(3);
    let notices = a.death_notifications(1, &ActorStopReason::Normal);
    assert_eq!(notices.len(), 2);
    assert_eq!(notices[0].peer, 2);
    assert_eq!(notices[1].peer, 3);
    assert!(notices.iter().all(|n| n.id == 1));
}

#[test]
fn dispatch_discipline_separates_messages_and_queries() {
    let mut ds = DispatchState::new(4);
    assert!(ds.can_start_message());
    assert!(ds.can_start_query());
    ds.begin_query();
    ds.begin_query();
    ds.begin_query();
    ds.begin_query();
    assert_eq!(ds.pending_queries, 4);
    assert!(!ds.can_start_query());
    assert!(!ds.can_start_message());
    ds.end_query();
    ds.end_query();
    ds.end_query();
    ds.end_query();
    assert!(ds.can_start_message());
    ds.begin_message();
    assert!(!ds.can_start_query());
    assert!(!ds.can_start_message());
    ds.end_message();
    assert!(!ds.ready_to_exit());
    ds.record_stop(ActorStopReason::Normal);
    assert!(ds.ready_to_exit());
}

#[test]
fn first_recorded_stop_reason_wins() {
    let mut ds = DispatchState::new(1);
    ds.record_stop(ActorStopReason::Normal);
    ds.record_stop(ActorStopReason::Killed);
    assert!(matches!(ds.stop_reason, Some(ActorStopReason::Normal)));
}

#[test]
fn reply_routing_covers_every_case() {
    assert!(matches!(route_reply(true, false), ReplyAction::SendValue));
    assert!(matches!(route_reply(true, true), ReplyAction::SendValue));
    assert!(matches!(route_reply(false, true), ReplyAction::RaisePanic));
    assert!(matches!(route_reply(false, false), ReplyAction::Discard));
}

#[test]
fn reply_sender_resolves_with_value_or_error() {
    let ok: ReplyEvent<u32> = ReplySender::new(5).send(42);
    assert_eq!(ok.corr, 5);
    assert!(matches!(ok.outcome, ReplyOutcome::Value(42)));
    let bad: ReplyEvent<u32> = ReplySender::new(6).fail(SendError::ReplyTypeMismatch);
    assert_eq!(bad.corr, 6);
    assert!(matches!(bad.outcome, ReplyOutcome::Failed(SendError::ReplyTypeMismatch)));
}

#[test]
fn context_hands_reply_sender_out_once() {
    let mut ctx = Context::new(ActorRef::new(3), Some(ReplySender::new(8)));
    assert_eq!(ctx.actor_ref().id(), 3);
    let (_delegated, first) = ctx.reply_sender();
    assert_eq!(first.map(|s| s.corr), Some(8));
    let (_delegated, second) = ctx.reply_sender();
    assert!(second.is_none());
}

#[test]
fn default_query_bound_matches_host_cpus() {
    let n = default_max_concurrent_queries();
    assert!(n >= 1);
    assert_eq!(n, num_cpus::get());
}

#[test]
fn default_start_and_stop_hooks_succeed() {
    assert!(kameo::actor::default_on_start().is_ok());
    assert!(kameo::actor::default_on_stop().is_ok());
}

#[test]
fn default_panic_policy_stops_with_the_panic() {
    let r = default_on_panic(PanicError::new(String::from("oops")));
    match r {
        Some(ActorStopReason::Panicked(p)) => assert_eq!(p.message, "oops"),
        _ => panic!("expected the default policy to stop the actor"),
    }
}

#[test]
fn default_link_policy_ignores_normal_deaths_only() {
    assert!(default_on_link_died(4, ActorStopReason::Normal).is_none());
    match default_on_link_died(4, ActorStopReason::Killed) {
        Some(ActorStopReason::LinkDied { id, reason }) => {
            assert_eq!(id, 4);
            assert!(matches!(*reason, ActorStopReason::Killed));
        }
        _ => panic!("expected an abnormal death to propagate"),
    }
}

#[test]
fn identities_increase_and_never_repeat() {
    let mut ids = IdAllocator::new();
    assert_eq!(ids.fresh(), 0);
    assert_eq!(ids.fresh(), 1);
    assert_eq!(ids.fresh(), 2);
}

#[test]
fn stop_reason_duplicates_preserve_the_chain() {
    let chained = ActorStopReason::LinkDied {
        id: 9,
        reason: Box::new(ActorStopReason::Panicked(PanicError::new(String::from("why")))),
    };
    let copy = chained.duplicate();
    match copy {
        ActorStopReason::LinkDied { id, reason } => {
            assert_eq!(id, 9);
            match *reason {
                ActorStopReason::Panicked(p) => assert_eq!(p.message, "why"),
                _ => panic!("expected the inner reason to survive the copy"),
            }
        }
        _ => panic!("expected the outer reason to survive the copy"),
    }
    assert!(!chained.is_normal());
    assert!(ActorStopReason::Normal.is_normal());
}

#[test]
fn downcast_recovers_message_payloads_only() {
    assert_eq!(plain(5).downcast_message(), Some(5));
    let stop: Signal<u32> = Signal::Stop;
    assert!(stop.downcast_message().is_none());
}

#[test]
fn stopping_resolves_every_awaited_reply() {
    let mut mb: Mailbox<u32> = Mailbox::default_mailbox();
    assert!(matches!(mb.send(with_corr(1, 100)), Ok(())));
    assert!(matches!(mb.send(plain(2)), Ok(())));
    assert!(matches!(mb.send(with_corr(3, 101)), Ok(())));
    assert!(matches!(mb.signal_stop(), Ok(())));
    let rs: Vec<ReplyEvent<u32>> = resolve_stopped(&mut mb);
    assert_eq!(rs.len(), 2);
    assert_eq!(rs[0].corr, 100);
    assert_eq!(rs[1].corr, 101);
    assert!(rs.iter().all(|e| matches!(e.outcome, ReplyOutcome::Failed(SendError::ActorStopped))));
    assert_eq!(mb.len(), 0);
}

#[test]
fn weak_ref_carries_the_actor_identity() {
    let w = WeakActorRef::new(12);
    assert_eq!(w.id(), 12);
    let r = ActorRef::new(12);
    assert_eq!(r.id(), w.id());
}
