use tower_governor::quota::{Decision, QuotaTracker, MAX_WINDOW_NANOS};

const HOUR: u64 = 3_600_000_000_000;

#[test]
fn tracker_needs_positive_burst_and_period() {
    assert!(QuotaTracker::new(0, HOUR).is_none());
    assert!(QuotaTracker::new(1, 0).is_none());
    assert!(QuotaTracker::new(1, 1).is_some());
}

#[test]
fn tracker_refuses_a_window_that_is_too_long() {
    assert!(QuotaTracker::new(1, MAX_WINDOW_NANOS).is_some());
    assert!(QuotaTracker::new(1, MAX_WINDOW_NANOS + 1).is_none());
    assert!(QuotaTracker::new(2, MAX_WINDOW_NANOS / 2).is_some());
    assert!(QuotaTracker::new(2, MAX_WINDOW_NANOS / 2 + 1).is_none());
    assert!(QuotaTracker::new(u32::MAX, u64::MAX).is_none());
}

#[test]
fn tracker_reports_its_configuration() {
    let tracker = QuotaTracker::new(5, HOUR).unwrap();
    assert_eq!(tracker.burst_size(), 5);
    assert_eq!(tracker.period_nanos(), HOUR);
}

#[test]
fn admitted_decisions_within_one_window_never_exceed_the_burst() {
    let tracker = QuotaTracker::new(5, HOUR).unwrap();
    let key = b"client".to_vec();
    let mut admitted = 0;
    for _ in 0..40 {
        match tracker.decide(&key) {
            Decision::Admit { burst_size, remaining } => {
                admitted += 1;
                assert_eq!(burst_size, 5);
                assert_eq!(remaining, 5 - admitted);
            }
            Decision::Deny { retry_after, burst_size } => {
                assert_eq!(burst_size, 5);
                assert!(retry_after > 0);
                assert!(retry_after <= 3600);
            }
        }
    }
    assert_eq!(admitted, 5);
}

#[test]
fn keys_have_buckets_of_their_own() {
    let tracker = QuotaTracker::new(1, HOUR).unwrap();
    let first = b"first".to_vec();
    let second = b"second".to_vec();
    assert_eq!(tracker.decide(&first), Decision::Admit { burst_size: 1, remaining: 0 });
    assert!(matches!(tracker.decide(&first), Decision::Deny { burst_size: 1, .. }));
    assert_eq!(tracker.decide(&second), Decision::Admit { burst_size: 1, remaining: 0 });
}

#[test]
fn wait_does_not_grow_between_two_denials() {
    let tracker = QuotaTracker::new(1, HOUR).unwrap();
    let key = Vec::new();
    assert!(matches!(tracker.decide(&key), Decision::Admit { .. }));
    let Decision::Deny { retry_after: first, .. } = tracker.decide(&key) else {
        panic!("the second request must be denied");
    };
    let Decision::Deny { retry_after: second, .. } = tracker.decide(&key) else {
        panic!("the third request must be denied");
    };
    assert!(second <= first);
}
