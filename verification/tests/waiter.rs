use graceful_shutdown::waiter::{Trigger, Waiter};

#[test]
fn interrupt_resolves_on_every_platform() {
    for termination_available in [false, true] {
        let mut w = Waiter::new(termination_available);
        w.install();
        assert!(!w.has_fired());
        assert!(w.deliver(Trigger::Interrupt));
        assert!(w.has_fired());
    }
}

#[test]
fn termination_alone_resolves_where_available() {
    let mut w = Waiter::new(true);
    w.install();
    assert!(w.deliver(Trigger::Termination));
    assert!(w.has_fired());
}

#[test]
fn termination_pending_where_unavailable() {
    let mut w = Waiter::new(false);
    w.install();
    assert!(!w.deliver(Trigger::Termination));
    assert!(!w.deliver(Trigger::Termination));
    assert!(!w.has_fired());
    assert!(w.deliver(Trigger::Interrupt));
    assert!(w.has_fired());
}

#[test]
fn both_triggers_resolve_exactly_once() {
    let mut w = Waiter::new(true);
    w.install();
    let first = w.deliver(Trigger::Interrupt);
    let second = w.deliver(Trigger::Termination);
    assert!(first && !second);
    assert!(w.has_fired());

    let mut w = Waiter::new(true);
    w.install();
    let first = w.deliver(Trigger::Termination);
    let second = w.deliver(Trigger::Interrupt);
    assert!(first && !second);
    assert!(w.has_fired());
}

#[test]
fn repeated_interrupts_resolve_exactly_once() {
    let mut w = Waiter::new(false);
    w.install();
    let mut resolutions = 0;
    for _ in 0..5 {
        if w.deliver(Trigger::Interrupt) {
            resolutions += 1;
        }
    }
    assert_eq!(resolutions, 1);
}

#[test]
fn idle_waiter_ignores_deliveries() {
    let mut w = Waiter::new(true);
    assert!(!w.deliver(Trigger::Interrupt));
    assert!(!w.has_fired());
    w.install();
    assert!(w.deliver(Trigger::Interrupt));
}

#[test]
fn waiter_branch_completes_while_serving_branch_stays_pending() {
    // The host runs the waiter as one branch of a larger wait; the serving
    // branch receives no trigger and must stay unresolved until the host
    // itself stops it.
    let mut shutdown_branch = Waiter::new(true);
    shutdown_branch.install();
    let mut serving_branch = Waiter::new(true);
    serving_branch.install();
    assert!(shutdown_branch.deliver(Trigger::Interrupt));
    assert!(shutdown_branch.has_fired());
    assert!(!serving_branch.has_fired());
}

#[test]
fn process_wide_trigger_fans_out_to_all_waiters() {
    // Each waiter owns its own subscriptions, and the host fans a
    // process-wide trigger out to every installed subscription: both of two
    // concurrent waiters resolve on the one interrupt.
    let mut first = Waiter::new(true);
    first.install();
    let mut second = Waiter::new(true);
    second.install();
    assert!(first.deliver(Trigger::Interrupt));
    assert!(second.deliver(Trigger::Interrupt));
    assert!(first.has_fired() && second.has_fired());
}
