//! The shutdown waiter: composes the available termination triggers into a
//! single logical event that occurs at most once per wait.
//!
//! The host installs one operating-system subscription per available trigger,
//! suspends on them, and hands each observed trigger to [`Waiter::deliver`].
//! The waiter decides whether that delivery resolves the wait; once it has
//! resolved, every later delivery is ignored, so exactly one shutdown event
//! reaches the caller however many triggers fire and however close together.
//!
//! Concurrent waiters in one process are independent: each owns its own
//! subscriptions, and a process-wide trigger is fanned out to every installed
//! subscription, so every waiter that is waiting resolves.

use vstd::prelude::*;

verus! {

/// A recognized termination trigger.
///
/// `Interrupt` is the operator-issued interrupt, available on every
/// platform. `Termination` is the graceful-termination request, available
/// only where the operating system has a termination signal distinct from
/// the interrupt; elsewhere its wait channel is permanently pending.
#[derive(Clone, Copy, Debug, PartialEq, Eq, Structural)]
pub enum Trigger {
    Interrupt,
    Termination,
}

/// The waiter's phase: entry, suspended on its sources, or resolved.
#[derive(Clone, Copy, Debug, PartialEq, Eq, Structural)]
pub enum Phase {
    Idle,
    Waiting,
    Fired,
}

/// The mathematical state of a waiter: its phase, and whether the platform
/// has a distinct termination trigger.
pub struct WaiterModel {
    pub phase: Phase,
    pub termination_available: bool,
}

/// Whether a trigger can resolve a wait at all: the interrupt always can;
/// the termination request only where the platform provides it.
pub open spec fn effective(t: Trigger, termination_available: bool) -> bool {
    t is Interrupt || termination_available
}

/// One delivery step: a waiting waiter resolves on an effective trigger and
/// reports one event; every other delivery changes nothing and reports none.
pub open spec fn deliver_transition(m: WaiterModel, t: Trigger) -> (WaiterModel, bool) {
    if m.phase is Waiting && effective(t, m.termination_available) {
        (WaiterModel { phase: Phase::Fired, termination_available: m.termination_available }, true)
    } else {
        (m, false)
    }
}

/// The waiter after a whole sequence of deliveries, with the number of
/// shutdown events those deliveries produced.
pub open spec fn run_deliveries(m: WaiterModel, ts: Seq<Trigger>) -> (WaiterModel, nat)
    decreases ts.len(),
{
    if ts.len() == 0 {
        (m, 0nat)
    } else {
        let first = deliver_transition(m, ts[0]);
        let rest = run_deliveries(first.0, ts.drop_first());
        if first.1 {
            (rest.0, (rest.1 + 1) as nat)
        } else {
            rest
        }
    }
}

/// A shutdown waiter. It is created idle, installs its sources once, and
/// then resolves at most once, on the first effective trigger delivered.
pub struct Waiter {
    phase: Phase,
    termination_available: bool,
}

impl View for Waiter {
    type V = WaiterModel;

    closed spec fn view(&self) -> WaiterModel {
        WaiterModel { phase: self.phase, termination_available: self.termination_available }
    }
}

impl Waiter {
    /// A fresh waiter, before its sources are installed. The host says
    /// whether the platform has a distinct termination trigger.
    pub fn new(termination_available: bool) -> (w: Waiter)
        ensures
            w@.phase is Idle,
            w@.termination_available == termination_available,
    {
        Waiter { phase: Phase::Idle, termination_available }
    }

    /// Marks the sources installed: the wait begins. The host calls this
    /// once its subscriptions stand; a subscription that cannot be installed
    /// is a fatal startup condition the host aborts on, never a degraded
    /// waiter.
    pub fn install(&mut self)
        requires
            old(self)@.phase is Idle,
        ensures
            final(self)@.phase is Waiting,
            final(self)@.termination_available == old(self)@.termination_available,
    {
        self.phase = Phase::Waiting;
    }

    /// Delivers one observed trigger and says whether it resolved the wait:
    /// exactly the step of [`deliver_transition`]. Whether a reporting hook
    /// is configured plays no part here: resolution never depends on it.
    pub fn deliver(&mut self, t: Trigger) -> (fired: bool)
        ensures
            final(self)@ == deliver_transition(old(self)@, t).0,
            fired == deliver_transition(old(self)@, t).1,
    {
        match self.phase {
            Phase::Waiting => {
                let effective_now = match t {
                    Trigger::Interrupt => true,
                    Trigger::Termination => self.termination_available,
                };
                if effective_now {
                    self.phase = Phase::Fired;
                    true
                } else {
                    false
                }
            },
            _ => false,
        }
    }

    /// Whether the wait has resolved.
    pub fn has_fired(&self) -> (r: bool)
        ensures
            r == (self@.phase is Fired),
    {
        match self.phase {
            Phase::Fired => true,
            _ => false,
        }
    }
}

/// Delivering the operator interrupt to a waiting waiter resolves the wait,
/// on every platform: the interrupt is never a pending placeholder.
pub proof fn lemma_interrupt_resolves(m: WaiterModel)
    requires
        m.phase is Waiting,
    ensures
        deliver_transition(m, Trigger::Interrupt).1,
        deliver_transition(m, Trigger::Interrupt).0.phase is Fired,
{
}

/// Where the platform has a distinct termination trigger, delivering it
/// alone, without any interrupt, resolves the wait.
pub proof fn lemma_termination_resolves(m: WaiterModel)
    requires
        m.phase is Waiting,
        m.termination_available,
    ensures
        deliver_transition(m, Trigger::Termination).1,
        deliver_transition(m, Trigger::Termination).0.phase is Fired,
{
}

/// Where the platform lacks a distinct termination trigger, a termination
/// delivery never resolves the wait and leaves the waiter unchanged: only
/// the interrupt can resolve it there.
pub proof fn lemma_termination_unavailable_pending(m: WaiterModel, t: Trigger)
    requires
        !m.termination_available,
    ensures
        deliver_transition(m, Trigger::Termination) == (m, false),
        deliver_transition(m, t).1 ==> t is Interrupt,
{
}

/// Delivering both triggers in rapid succession, in either order, yields
/// exactly one resolution of the wait, not two, and leaves the waiter
/// resolved.
pub proof fn lemma_single_resolution(m: WaiterModel, first: Trigger, second: Trigger)
    requires
        m.phase is Waiting,
        effective(first, m.termination_available) || effective(second, m.termination_available),
    ensures
        ({
            let step1 = deliver_transition(m, first);
            let step2 = deliver_transition(step1.0, second);
            &&& !(step1.1 && step2.1)
            &&& step1.1 || step2.1
            &&& step2.0.phase is Fired
        }),
{
}

/// A waiter that is not waiting ignores every delivery: no event, no change.
/// In particular, once the wait has resolved, no further shutdown event is
/// ever observed from it.
pub proof fn lemma_run_stable(m: WaiterModel, ts: Seq<Trigger>)
    requires
        !(m.phase is Waiting),
    ensures
        run_deliveries(m, ts) == (m, 0nat),
    decreases ts.len(),
{
    if ts.len() != 0 {
        lemma_run_stable(m, ts.drop_first());
    }
}

/// At most one shutdown event is ever produced per wait, over any sequence
/// of deliveries; and exactly one is produced if and only if some delivered
/// trigger was effective.
pub proof fn lemma_exactly_one_event(m: WaiterModel, ts: Seq<Trigger>)
    requires
        m.phase is Waiting,
    ensures
        run_deliveries(m, ts).1 <= 1,
        (run_deliveries(m, ts).1 == 1) <==> (exists|i: int|
            0 <= i < ts.len() && #[trigger] effective(ts[i], m.termination_available)),
    decreases ts.len(),
{
    if ts.len() != 0 {
        let step = deliver_transition(m, ts[0]);
        if step.1 {
            lemma_run_stable(step.0, ts.drop_first());
            assert(effective(ts[0], m.termination_available));
        } else {
            lemma_exactly_one_event(m, ts.drop_first());
            let rest = ts.drop_first();
            if exists|i: int| 0 <= i < ts.len() && #[trigger] effective(
                ts[i],
                m.termination_available,
            ) {
                let i = choose|i: int|
                    0 <= i < ts.len() && #[trigger] effective(ts[i], m.termination_available);
                assert(i != 0);
                assert(effective(rest[i - 1], m.termination_available));
            }
            if exists|j: int| 0 <= j < rest.len() && #[trigger] effective(
                rest[j],
                m.termination_available,
            ) {
                let j = choose|j: int|
                    0 <= j < rest.len() && #[trigger] effective(rest[j], m.termination_available);
                assert(effective(ts[j + 1], m.termination_available));
            }
        }
    }
}

} // verus!
