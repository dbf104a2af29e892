use pid1::events::ExitEvents;
use pid1::reaper::{drain_batch, drain_step, DrainOutcome, ReapStep};

const CHILD: i32 = 42;

#[test]
fn probe_classification() {
    assert_eq!(drain_step(CHILD, CHILD), ReapStep::Designated);
    assert_eq!(drain_step(CHILD, 7), ReapStep::Other);
    assert_eq!(drain_step(CHILD, 0), ReapStep::NoneReady);
    assert_eq!(drain_step(CHILD, -1), ReapStep::NoneReady);
}

#[test]
fn child_exits_immediately() {
    // The designated child is the only exited descendant: one probe reaps
    // it and the run ends successfully.
    let r = drain_batch(CHILD, &vec![CHILD]);
    assert_eq!(r, Some((DrainOutcome::ChildReaped, 1)));
}

#[test]
fn orphans_drained_before_child_ends_loop() {
    // Two unrelated orphans exit first; both are drained and only the
    // designated child's identifier ends the loop.
    let r = drain_batch(CHILD, &vec![7, 8, CHILD]);
    assert_eq!(r, Some((DrainOutcome::ChildReaped, 3)));
}

#[test]
fn coalesced_signal_single_wake_drains_both() {
    // Two descendants exited but the notification signal fired only once:
    // the single wake still drains both.
    let r = drain_batch(CHILD, &vec![9, CHILD]);
    assert_eq!(r, Some((DrainOutcome::ChildReaped, 2)));
}

#[test]
fn batch_without_child_returns_to_waiting() {
    // Orphans exited but not the designated child: they are drained, the
    // probe reports none ready, and the reaper goes back to waiting.
    let r = drain_batch(CHILD, &vec![7, 8, 0]);
    assert_eq!(r, Some((DrainOutcome::NoneReady, 3)));
}

#[test]
fn probe_error_also_returns_to_waiting() {
    // A negative probe result (no waitable descendant) ends the batch the
    // same way as "none ready".
    let r = drain_batch(CHILD, &vec![-1]);
    assert_eq!(r, Some((DrainOutcome::NoneReady, 1)));
}

#[test]
fn drain_stops_at_child_even_with_later_results() {
    let r = drain_batch(CHILD, &vec![7, CHILD, 8, 0]);
    assert_eq!(r, Some((DrainOutcome::ChildReaped, 2)));
}

#[test]
fn exhausted_batch_has_no_terminal() {
    assert_eq!(drain_batch(CHILD, &vec![]), None);
    assert_eq!(drain_batch(CHILD, &vec![5, 6]), None);
}

#[test]
fn interrupted_child_still_reaped_after_its_exit() {
    // An interrupt is forwarded while the child runs; the supervisor still
    // waits for the child's actual termination. A wake before the child
    // has exited finds none ready; the wake after its exit reaps it.
    let first = drain_batch(CHILD, &vec![0]);
    assert_eq!(first, Some((DrainOutcome::NoneReady, 1)));
    let second = drain_batch(CHILD, &vec![CHILD]);
    assert_eq!(second, Some((DrainOutcome::ChildReaped, 1)));
}

#[test]
fn record_then_consume() {
    let mut e = ExitEvents::new();
    assert_eq!(e.pending, 0);
    assert!(!e.waiter);
    let wake = e.record();
    assert!(!wake);
    assert_eq!(e.pending, 1);
    assert!(e.poll_wait());
    assert_eq!(e.pending, 0);
}

#[test]
fn registered_waiter_is_woken_by_next_record() {
    // The central race: the consumer found the count zero and registered
    // as waiter in the same step; a delivery arriving afterwards must
    // report that the waiter is to be woken.
    let mut e = ExitEvents::new();
    assert!(!e.poll_wait());
    assert!(e.waiter);
    let wake = e.record();
    assert!(wake);
    assert!(!e.waiter);
    assert!(e.poll_wait());
}

#[test]
fn deliveries_accumulate() {
    let mut e = ExitEvents::new();
    e.record();
    e.record();
    e.record();
    assert_eq!(e.pending, 3);
    assert!(e.poll_wait());
    assert!(e.poll_wait());
    assert!(e.poll_wait());
    assert!(!e.poll_wait());
}

#[test]
fn saturated_count_stays_at_maximum() {
    let mut e = ExitEvents { pending: u64::MAX, waiter: false };
    let wake = e.record();
    assert!(!wake);
    assert_eq!(e.pending, u64::MAX);
}
