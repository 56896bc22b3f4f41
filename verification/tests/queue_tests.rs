use smooth_queue::queue::SmoothQueue;

#[test]
fn fifo_order() {
    let mut q = SmoothQueue::new();
    q.push("aa0000".to_string());
    q.push("bb1111".to_string());
    q.push("cc2222".to_string());
    assert_eq!(q.pop(), Some("aa0000".to_string()));
    assert_eq!(q.pop(), Some("bb1111".to_string()));
    assert_eq!(q.pop(), Some("cc2222".to_string()));
    assert_eq!(q.len(), 0);
    assert_eq!(q.pop(), None);
}

#[test]
fn growth_rule() {
    let mut q = SmoothQueue::new();
    assert_eq!(q.interval(), 1000);
    assert_eq!(q.last_observed_len(), 0);
    q.push("ff0000".to_string());
    q.push("00ff00".to_string());
    q.push("0000ff".to_string());
    let job = q.pop();
    assert_eq!(q.interval(), 1100);
    assert_eq!(q.last_observed_len(), 3);
    assert_eq!(job, Some("ff0000".to_string()));
}

#[test]
fn shrink_rule() {
    // Continue from the growth_rule state: lastObservedLength = 3, two jobs
    // left, interval 1100.
    let mut q = SmoothQueue::new();
    q.push("ff0000".to_string());
    q.push("00ff00".to_string());
    q.push("0000ff".to_string());
    q.pop();
    assert_eq!(q.interval(), 1100);
    let job = q.pop();
    assert_eq!(q.interval(), 990);
    assert_eq!(q.last_observed_len(), 2);
    assert_eq!(job, Some("00ff00".to_string()));
}

#[test]
fn steady_rule_empty() {
    // Both observations empty: the equal branch, no change.
    let mut q = SmoothQueue::new();
    assert_eq!(q.pop(), None);
    assert_eq!(q.interval(), 1000);
    assert_eq!(q.pop(), None);
    assert_eq!(q.interval(), 1000);
}

#[test]
fn steady_rule_nonempty() {
    let mut q = SmoothQueue::new();
    q.push("111111".to_string());
    q.pop();
    assert_eq!(q.interval(), 1100);
    assert_eq!(q.last_observed_len(), 1);
    q.push("222222".to_string());
    // Observed length 1 equals the previous observation: unchanged.
    let job = q.pop();
    assert_eq!(q.interval(), 1100);
    assert_eq!(job, Some("222222".to_string()));
}

#[test]
fn empty_cycle_mutates_observation() {
    // An empty queue observed after a non-empty observation takes the
    // shrink branch even though no job is returned.
    let mut q = SmoothQueue::new();
    q.push("abcdef".to_string());
    assert_eq!(q.pop(), Some("abcdef".to_string()));
    assert_eq!(q.interval(), 1100);
    assert_eq!(q.last_observed_len(), 1);
    let job = q.pop();
    assert_eq!(job, None);
    assert_eq!(q.interval(), 990);
    assert_eq!(q.last_observed_len(), 0);
}

#[test]
fn no_loss_no_duplication_interleaved() {
    // Five pushes interleaved with seven pops: every pushed job comes back
    // exactly once, in push order; pops beyond the fifth return nothing.
    let pushed = ["00aa00", "11bb11", "22cc22", "33dd33", "44ee44"];
    let mut q = SmoothQueue::new();
    let mut delivered: Vec<String> = Vec::new();
    let mut empties: usize = 0;

    q.push(pushed[0].to_string());
    q.push(pushed[1].to_string());
    match q.pop() {
        Some(j) => delivered.push(j),
        None => empties += 1,
    }
    q.push(pushed[2].to_string());
    match q.pop() {
        Some(j) => delivered.push(j),
        None => empties += 1,
    }
    match q.pop() {
        Some(j) => delivered.push(j),
        None => empties += 1,
    }
    q.push(pushed[3].to_string());
    q.push(pushed[4].to_string());
    for _ in 0..4 {
        match q.pop() {
            Some(j) => delivered.push(j),
            None => empties += 1,
        }
    }

    assert_eq!(delivered, pushed.iter().map(|s| s.to_string()).collect::<Vec<_>>());
    assert_eq!(empties, 2);
    assert_eq!(q.len(), 0);
    assert_eq!(q.pop(), None);
}

#[test]
fn sustained_overload_grows_interval() {
    // Two pushes then one pop per cycle: the observed length grows every
    // cycle, so the interval strictly grows, without cap — the intended
    // smoothness-over-latency trend, not an error.
    let mut q = SmoothQueue::new();
    let mut prev = q.interval();
    let mut n: usize = 0;
    for _ in 0..10 {
        q.push(format!("{:06}", n));
        q.push(format!("{:06}", n + 1));
        n += 2;
        let job = q.pop();
        assert!(job.is_some());
        assert!(q.interval() > prev);
        prev = q.interval();
    }
    // One job drained per cycle out of two pushed: ten remain.
    assert_eq!(q.len(), 10);
}
