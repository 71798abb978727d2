use tatsu_monitor::interval::Interval;
use tatsu_monitor::percent::Percent;
use tatsu_monitor::percent::FULL_SCALE;

#[test]
fn share_of_empty_whole_is_zero() {
    assert_eq!(Percent::of(0, 0).hundredths(), 0);
    assert_eq!(Percent::of(17, 0).hundredths(), 0);
    assert_eq!(Percent::of(u64::MAX, 0).hundredths(), 0);
}

#[test]
fn share_is_rounded_down_to_a_hundredth() {
    assert_eq!(Percent::of(1, 2).hundredths(), 5_000);
    assert_eq!(Percent::of(1, 3).hundredths(), 3_333);
    assert_eq!(Percent::of(2, 3).hundredths(), 6_666);
    assert_eq!(Percent::of(1, 10_001).hundredths(), 0);
    assert_eq!(Percent::of(9_999, 10_000).hundredths(), 9_999);
    assert_eq!(Percent::of(0, 5).hundredths(), 0);
}

#[test]
fn share_never_exceeds_the_whole() {
    assert_eq!(Percent::of(5, 5).hundredths(), FULL_SCALE);
    assert_eq!(Percent::of(6, 5).hundredths(), FULL_SCALE);
    assert_eq!(Percent::of(u64::MAX, 1).hundredths(), FULL_SCALE);
    assert_eq!(Percent::of(u64::MAX, u64::MAX).hundredths(), FULL_SCALE);
    assert_eq!(Percent::of(u64::MAX - 1, u64::MAX).hundredths(), 9_999);
}

#[test]
fn share_of_large_sizes_does_not_overflow() {
    let total: u64 = 16 * 1024 * 1024 * 1024 * 1024;
    assert_eq!(Percent::of(total / 4, total).hundredths(), 2_500);
    assert_eq!(Percent::of(u64::MAX / 2, u64::MAX).hundredths(), 4_999);
}

#[test]
fn hundredths_are_held_to_full_scale() {
    assert_eq!(Percent::from_hundredths(0), Percent::zero());
    assert_eq!(Percent::from_hundredths(1_234).hundredths(), 1_234);
    assert_eq!(Percent::from_hundredths(10_000), Percent::full());
    assert_eq!(Percent::from_hundredths(10_001), Percent::full());
    assert_eq!(Percent::from_hundredths(u32::MAX), Percent::full());
}

#[test]
fn whole_percent_drops_the_fraction() {
    assert_eq!(Percent::from_hundredths(1_299).whole_percent(), 12);
    assert_eq!(Percent::full().whole_percent(), 100);
    assert_eq!(Percent::zero().whole_percent(), 0);
}

#[test]
fn interval_units() {
    assert_eq!(Interval::zero().as_nanos(), 0);
    assert_eq!(Interval::from_secs(5).as_nanos(), 5_000_000_000);
    assert_eq!(Interval::from_millis(100).as_nanos(), 100_000_000);
    assert_eq!(Interval::from_nanos(1_999_999).as_millis(), 1);
    assert_eq!(Interval::from_secs(3).as_millis(), 3_000);
    assert_eq!(Interval::from_secs(u64::MAX).as_nanos(), u64::MAX as u128 * 1_000_000_000);
    assert_eq!(Interval::from_millis(u64::MAX).as_millis(), u64::MAX as u128);
}

#[test]
fn interval_subtraction_stops_at_zero() {
    let a = Interval::from_millis(250);
    let b = Interval::from_millis(100);
    assert_eq!(a.saturating_sub(b), Interval::from_millis(150));
    assert_eq!(b.saturating_sub(a), Interval::zero());
    assert_eq!(a.saturating_sub(a), Interval::zero());
    assert!(a.saturating_sub(a).is_zero());
    assert!(!a.is_zero());
}
