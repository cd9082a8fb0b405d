//! Spans and readings.
use spin_sleep::{Duration, Instant, MAX_NANOS};

#[test]
fn duration_constructors_agree() {
    assert_eq!(Duration::zero().as_nanos(), 0);
    assert!(Duration::zero().is_zero());
    assert!(!Duration::from_nanos(1).is_zero());
    assert_eq!(Duration::new(1, 12_550_000).as_nanos(), 1_012_550_000);
    assert_eq!(Duration::new(0, 0), Duration::zero());
    assert_eq!(Duration::from_secs(3).as_nanos(), 3_000_000_000);
    assert_eq!(Duration::from_millis(20).as_nanos(), 20_000_000);
    assert_eq!(Duration::from_nanos(1_012_550_000), Duration::new(1, 12_550_000));
    assert_eq!(Duration::from_nanos_u128(5), Duration::from_nanos(5));
    assert_eq!(Duration::from_secs(2), Duration::from_millis(2_000));
}

#[test]
fn duration_new_carries_whole_seconds() {
    assert_eq!(Duration::new(1, 1_500_000_000), Duration::new(2, 500_000_000));
    assert_eq!(
        Duration::new(u64::MAX, u32::MAX).as_nanos(),
        u64::MAX as u128 * 1_000_000_000 + u32::MAX as u128
    );
    assert_eq!(Duration::from_secs(u64::MAX).as_nanos(), u64::MAX as u128 * 1_000_000_000);
    assert_eq!(Duration::from_millis(u64::MAX).as_nanos(), u64::MAX as u128 * 1_000_000);
}

#[test]
fn duration_arithmetic_stops_at_the_limits() {
    let a = Duration::from_nanos(70);
    let b = Duration::from_nanos(30);
    assert_eq!(a.saturating_add(b), Duration::from_nanos(100));
    assert_eq!(a.saturating_sub(b), Duration::from_nanos(40));
    assert_eq!(b.saturating_sub(a), Duration::zero());
    assert_eq!(a.saturating_sub(a), Duration::zero());

    assert_eq!(MAX_NANOS, u128::MAX);
    let longest = Duration::from_nanos_u128(MAX_NANOS);
    assert_eq!(longest.saturating_add(b), longest);
    assert_eq!(Duration::from_nanos_u128(MAX_NANOS - 30).saturating_add(b), longest);
    assert_eq!(
        Duration::from_nanos_u128(MAX_NANOS - 31).saturating_add(b),
        Duration::from_nanos_u128(MAX_NANOS - 1)
    );
}

#[test]
fn durations_are_ordered_by_length() {
    assert!(Duration::from_nanos(999_999_999) < Duration::from_secs(1));
    assert!(Duration::new(1, 0) <= Duration::from_secs(1));
    assert!(Duration::from_millis(2) > Duration::from_nanos(1_999_999));
}

#[test]
fn instant_arithmetic() {
    let early = Instant::from_nanos(1_000);
    let late = Instant::from_nanos(1_250);
    assert_eq!(late.as_nanos(), 1_250);
    assert_eq!(late.saturating_duration_since(early), Duration::from_nanos(250));
    assert_eq!(early.saturating_duration_since(late), Duration::zero());
    assert_eq!(early.saturating_duration_since(early), Duration::zero());
    assert_eq!(early.saturating_add(Duration::from_nanos(250)), late);
    assert!(early < late);

    let end = Instant::from_nanos(MAX_NANOS);
    assert_eq!(end.saturating_add(Duration::from_nanos(1)), end);
    assert_eq!(late.saturating_add(Duration::from_nanos_u128(MAX_NANOS)), end);
    assert_eq!(
        end.saturating_duration_since(Instant::from_nanos(0)),
        Duration::from_nanos_u128(MAX_NANOS)
    );
}
