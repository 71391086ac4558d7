//! An actor-runtime core: typed mailboxes carrying user messages and control
//! signals, a dispatch discipline of one mutating handler at a time with
//! bounded read-only query concurrency, symmetric supervision links with
//! death propagation, and panic isolation surfaced as typed errors.
//!
//! The crate verifies the runtime's decision logic: what each signal does to
//! the actor's dispatch state, how replies are routed, when a weak handle may
//! upgrade, and what a terminating actor owes its peers and its callers. The
//! asynchronous shell that pumps real channels is a thin client of these
//! functions.

pub mod actor;
pub mod dispatch;
pub mod error;
pub mod links;
pub mod mailbox;
pub mod message;
pub mod runtime;
