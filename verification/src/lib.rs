//! A cancellation-signal waiter: lets a long-running process detect an
//! operator-initiated termination request and begin an orderly shutdown.
//!
//! The verified core is the composition logic: a fixed set of termination
//! triggers, platform-uniform availability, a waiter that resolves exactly
//! once however many triggers fire, and a report of the event through an
//! optional hook. The host supplies the operating-system subscriptions and
//! the serving loop; it feeds observed triggers to the waiter and carries
//! out the report the waiter asks for.

pub mod report;
pub mod severity;
pub mod waiter;
