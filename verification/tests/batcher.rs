use influx_storage::batcher::{
    BatchAction, BatchEvent, WriteBatcher, BATCH_POLL_MS, DEFAULT_BATCH_TIMEOUT_MS,
};
use influx_storage::point::Point;
use influx_storage::timestamp::Timestamp;

fn point(n: u64) -> Point {
    Point::del("s", &Timestamp::new(n << 32, 1).unwrap())
}

fn item(n: u64) -> BatchEvent {
    BatchEvent::Item { point: point(n) }
}

fn times(points: &[Point]) -> Vec<u64> {
    points.iter().map(|p| p.time / 1_000_000_000).collect()
}

#[test]
fn thresholds() {
    assert_eq!(BATCH_POLL_MS, 100);
    assert_eq!(DEFAULT_BATCH_TIMEOUT_MS, 1000);
}

#[test]
fn nothing_to_do_before_the_first_point() {
    let mut b = WriteBatcher::new(10, 1000);
    assert_eq!(b.pending(), 0);
    assert!(!b.is_closed());
    assert!(matches!(b.step(BatchEvent::TimedOut, 5000), BatchAction::WaitFirst));
    assert_eq!(b.pending(), 0);
}

#[test]
fn batch_below_the_threshold_is_flushed_once_after_the_timeout() {
    let mut b = WriteBatcher::new(10, 1000);
    assert!(matches!(b.step(item(1), 0), BatchAction::WaitMore));
    assert!(matches!(b.step(item(2), 50), BatchAction::WaitMore));
    assert!(matches!(b.step(item(3), 100), BatchAction::WaitMore));
    for now in [200, 300, 900, 1000] {
        assert!(matches!(b.step(BatchEvent::TimedOut, now), BatchAction::WaitMore));
        assert_eq!(b.pending(), 3);
    }
    match b.step(BatchEvent::TimedOut, 1001) {
        BatchAction::Flush { points } => assert_eq!(times(&points), vec![1, 2, 3]),
        _ => panic!("the batch has waited longer than the timeout"),
    }
    assert_eq!(b.pending(), 0);
    assert!(matches!(b.step(BatchEvent::TimedOut, 1101), BatchAction::WaitFirst));
}

#[test]
fn clock_starts_with_the_first_point_of_each_batch() {
    let mut b = WriteBatcher::new(10, 1000);
    assert!(matches!(b.step(item(1), 5000), BatchAction::WaitMore));
    assert!(matches!(b.step(BatchEvent::TimedOut, 6000), BatchAction::WaitMore));
    assert!(matches!(b.step(BatchEvent::TimedOut, 6001), BatchAction::Flush { .. }));
    assert!(matches!(b.step(item(2), 7000), BatchAction::WaitMore));
    assert!(matches!(b.step(BatchEvent::TimedOut, 7100), BatchAction::WaitMore));
    assert!(matches!(b.step(BatchEvent::TimedOut, 6000), BatchAction::WaitMore));
}

#[test]
fn full_batch_is_flushed() {
    let mut b = WriteBatcher::new(3, 1000);
    assert!(matches!(b.step(item(1), 0), BatchAction::WaitMore));
    assert!(matches!(b.step(item(2), 1), BatchAction::WaitMore));
    match b.step(item(3), 2) {
        BatchAction::Flush { points } => assert_eq!(times(&points), vec![1, 2, 3]),
        _ => panic!("the batch is full"),
    }
    assert_eq!(b.pending(), 0);
}

#[test]
fn first_point_is_never_flushed_at_once() {
    let mut b = WriteBatcher::new(1, 1000);
    assert!(matches!(b.step(item(1), 0), BatchAction::WaitMore));
    match b.step(BatchEvent::TimedOut, 100) {
        BatchAction::Flush { points } => assert_eq!(times(&points), vec![1]),
        _ => panic!("the batch is full"),
    }
    let mut b = WriteBatcher::new(0, 1000);
    assert!(matches!(b.step(item(1), 0), BatchAction::WaitMore));
    assert!(matches!(b.step(item(2), 0), BatchAction::Flush { .. }));
}

#[test]
fn late_point_joins_the_batch_it_flushes() {
    let mut b = WriteBatcher::new(10, 1000);
    assert!(matches!(b.step(item(1), 0), BatchAction::WaitMore));
    match b.step(item(2), 1500) {
        BatchAction::Flush { points } => assert_eq!(times(&points), vec![1, 2]),
        _ => panic!("the batch has waited longer than the timeout"),
    }
}

#[test]
fn closing_stops_the_worker_and_gives_the_batch_up() {
    let mut b = WriteBatcher::new(10, 1000);
    assert!(matches!(b.step(item(1), 0), BatchAction::WaitMore));
    assert!(matches!(b.step(BatchEvent::Closed, 10), BatchAction::Stop));
    assert!(b.is_closed());
    assert_eq!(b.pending(), 0);
    assert!(matches!(b.step(item(2), 20), BatchAction::Stop));
    assert!(matches!(b.step(BatchEvent::TimedOut, 5000), BatchAction::Stop));
    assert_eq!(b.pending(), 0);
    let mut idle = WriteBatcher::new(10, 1000);
    assert!(matches!(idle.step(BatchEvent::Closed, 0), BatchAction::Stop));
}
