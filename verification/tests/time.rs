use gpui_motion::Duration;

#[test]
fn from_millis_splits_seconds() {
    let d = Duration::from_millis(2500);
    assert_eq!(d.as_secs(), 2);
    assert_eq!(d.subsec_nanos(), 500_000_000);
}

#[test]
fn new_carries_nanoseconds() {
    let d = Duration::new(1, 1_500_000_000);
    assert_eq!(d.as_secs(), 2);
    assert_eq!(d.subsec_nanos(), 500_000_000);
    assert_eq!(d, Duration::from_millis(2500));
}

#[test]
fn saturating_add_carries_and_saturates() {
    let a = Duration::new(1, 700_000_000);
    let b = Duration::new(2, 600_000_000);
    assert_eq!(a.saturating_add(b), Duration::new(4, 300_000_000));
    assert_eq!(Duration::max().saturating_add(Duration::new(0, 1)), Duration::max());
    assert_eq!(Duration::new(u64::MAX, 999_999_999).saturating_add(Duration::zero()), Duration::max());
    assert_eq!(Duration::new(u64::MAX, 500_000_000).saturating_add(Duration::new(0, 600_000_000)), Duration::max());
}

#[test]
fn comparison_and_zero() {
    assert!(Duration::zero().is_zero());
    assert!(!Duration::new(0, 1).is_zero());
    assert!(Duration::from_secs(1).ge(&Duration::from_millis(999)));
    assert!(!Duration::from_millis(999).ge(&Duration::from_secs(1)));
    assert!(Duration::from_millis(5).ge(&Duration::from_millis(5)));
    assert!(!Duration::new(3, 1).ge(&Duration::new(3, 2)));
}
