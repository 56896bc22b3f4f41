use smooth_queue::driver::{drain_step, CycleAction, Driver};
use smooth_queue::queue::SmoothQueue;

#[test]
fn driver_normal_cycles() {
    let mut d = Driver::new();
    assert!(!d.is_stopped());
    assert!(d.start());
    // A second start is refused: the driver is already armed.
    assert!(!d.start());
    // Timer fires, cycle runs, driver re-arms itself.
    assert!(d.begin_cycle());
    assert!(d.finish_cycle());
    assert!(d.begin_cycle());
    assert!(d.finish_cycle());
}

#[test]
fn driver_lifecycle_stop() {
    // After stop(), no further cycles begin even though unconsumed jobs
    // remain in the backlog.
    let mut q = SmoothQueue::new();
    q.push("aaa111".to_string());
    q.push("bbb222".to_string());

    let mut d = Driver::new();
    assert!(d.start());
    assert!(d.begin_cycle());
    match drain_step(&mut q) {
        CycleAction::Render(j) => assert_eq!(j, "aaa111".to_string()),
        CycleAction::Skip => panic!("backlog was not empty"),
    }
    assert!(d.finish_cycle());

    d.stop();
    assert!(d.is_stopped());
    // The timer may still fire once more; the driver refuses the cycle.
    assert!(!d.begin_cycle());
    assert!(!d.finish_cycle());
    assert!(!d.start());
    // stop() is idempotent once stopped.
    d.stop();
    assert!(d.is_stopped());
    assert!(!d.begin_cycle());
    // The backlog keeps its unconsumed job; stopping does not clear it.
    assert_eq!(q.len(), 1);
}

#[test]
fn driver_stop_mid_cycle() {
    let mut d = Driver::new();
    assert!(d.start());
    assert!(d.begin_cycle());
    // A stop requested during the cycle: the driver does not re-arm.
    d.stop();
    assert!(!d.finish_cycle());
    assert!(d.is_stopped());
}

#[test]
fn drain_step_empty_skips() {
    // An empty backlog is a normal no-render cycle, not an error; the
    // interval state still adapts.
    let mut q = SmoothQueue::new();
    q.push("cafe00".to_string());
    match drain_step(&mut q) {
        CycleAction::Render(j) => assert_eq!(j, "cafe00".to_string()),
        CycleAction::Skip => panic!("backlog was not empty"),
    }
    match drain_step(&mut q) {
        CycleAction::Render(_) => panic!("backlog was empty"),
        CycleAction::Skip => {}
    }
    assert_eq!(q.interval(), 990);
}
