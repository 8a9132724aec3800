use cloud_collector::executor::{clamp_concurrency, BoundedRunner};

#[test]
fn test_clamp_concurrency() {
    assert_eq!(clamp_concurrency(0), 1);
    assert_eq!(clamp_concurrency(1), 1);
    assert_eq!(clamp_concurrency(5), 5);
    assert_eq!(clamp_concurrency(10), 10);
    assert_eq!(clamp_concurrency(99), 10);
}

#[test]
fn test_bound_never_exceeded() {
    // start as greedily as the runner allows; the in-flight count must
    // never pass the limit, for any completion order
    let total = 9;
    let limit = 3;
    let mut runner = BoundedRunner::new(total, limit);
    let mut in_flight: Vec<usize> = Vec::new();
    let mut max_seen = 0;
    let mut started = 0;
    while !runner.is_finished() {
        while let Some(i) = runner.try_start() {
            assert_eq!(i, started);
            started += 1;
            in_flight.push(i);
            max_seen = max_seen.max(runner.in_flight_now());
            assert!(runner.in_flight_now() <= limit);
        }
        // complete one item (out of order: last started first)
        let _ = in_flight.pop().unwrap();
        runner.complete();
    }
    assert_eq!(max_seen, limit);
    assert_eq!(started, total);
    assert!(in_flight.is_empty());
}

#[test]
fn test_every_item_processed_exactly_once() {
    // drive a doubling computation through the runner with limit 3
    let items = vec![1, 2, 3, 4, 5];
    let mut runner = BoundedRunner::new(items.len(), 3);
    let mut pending: Vec<usize> = Vec::new();
    let mut results: Vec<i32> = Vec::new();
    while !runner.is_finished() {
        while let Some(i) = runner.try_start() {
            pending.push(i);
        }
        let i = pending.remove(0);
        results.push(items[i] * 2);
        runner.complete();
    }
    assert_eq!(results.len(), 5);
    assert!(results.contains(&2));
    assert!(results.contains(&10));
}

#[test]
fn test_finished_only_after_all_complete() {
    let mut runner = BoundedRunner::new(2, 10);
    assert!(!runner.is_finished());
    assert_eq!(runner.try_start(), Some(0));
    assert_eq!(runner.try_start(), Some(1));
    assert_eq!(runner.try_start(), None);
    runner.complete();
    assert!(!runner.is_finished());
    runner.complete();
    assert!(runner.is_finished());
}
