use duration::Duration;
use duration::{NANOS_PER_MICRO, NANOS_PER_MILLI, NANOS_PER_SEC};

#[test]
fn constants() {
    assert_eq!(NANOS_PER_SEC, 1_000_000_000);
    assert_eq!(NANOS_PER_MILLI, 1_000_000);
    assert_eq!(NANOS_PER_MICRO, 1_000);
}

#[test]
fn carry_up_example() {
    let d = Duration::new(0, 1_000_000_001);
    assert_eq!(d.secs, 1);
    assert_eq!(d.nanos, 1);
}

#[test]
fn borrow_down_example() {
    let d = Duration::new(1, -1);
    assert_eq!(d.secs, 0);
    assert_eq!(d.nanos, 999_999_999);
}

#[test]
fn negative_seconds_quirk() {
    // A small negative duration keeps a negative nanosecond part at zero
    // seconds; this is specified behavior, not a defect.
    let d = Duration::new(-1, 500_000_000);
    assert_eq!(d.secs, 0);
    assert_eq!(d.nanos, -500_000_000);
}

#[test]
fn new_is_idempotent() {
    let cases: [(i64, i32); 6] = [
        (0, 1_000_000_001),
        (1, -1),
        (-1, 500_000_000),
        (5, 2_000_000_100),
        (-3, -2_000_000_000),
        (0, 0),
    ];
    for (s, n) in cases {
        let d = Duration::new(s, n);
        let again = Duration::new(d.secs, d.nanos);
        assert_eq!(again.secs, d.secs);
        assert_eq!(again.nanos, d.nanos);
    }
}

#[test]
fn add_zero_is_identity() {
    let d = Duration::new(7, 1_500_000_000);
    let z = Duration::new(0, 0);
    let sum = d.add(z);
    assert_eq!(sum.secs, d.secs);
    assert_eq!(sum.nanos, d.nanos);
    assert!(sum == d);
}

#[test]
fn sub_self_is_zero() {
    let cases: [(i64, i32); 4] = [(0, 0), (42, 999_000_000), (-1, 500_000_000), (3, -7)];
    for (s, n) in cases {
        let d = Duration::new(s, n);
        let dif = d.sub(d);
        assert_eq!(dif.secs, 0);
        assert_eq!(dif.nanos, 0);
    }
}

#[test]
fn add_carries() {
    let a = Duration::new(1, 999_999_999);
    let b = Duration::new(0, 2);
    let sum = a.add(b);
    assert_eq!(sum.secs, 2);
    assert_eq!(sum.nanos, 1);
}

#[test]
fn sub_borrows() {
    let a = Duration::new(1, 0);
    let b = Duration::new(0, 1);
    let dif = a.sub(b);
    assert_eq!(dif.secs, 0);
    assert_eq!(dif.nanos, 999_999_999);
}

#[test]
fn equality_crosses_representations() {
    // One whole second of nanoseconds is the same duration as one second.
    let a = Duration::new(0, 1_000_000_000);
    let b = Duration::new(1, 0);
    assert!(a == b);
    assert!(!(a != b));
}

#[test]
fn ordering_is_total_and_matches_subtraction() {
    let pairs: [(Duration, Duration); 5] = [
        (Duration::new(1, 0), Duration::new(0, 999_999_999)),
        (Duration::new(0, 0), Duration::new(0, 1)),
        (Duration::new(2, 500), Duration::new(2, 500)),
        (Duration::new(-1, 500_000_000), Duration::new(0, 0)),
        (Duration::new(-1, 0), Duration::new(-1, 500_000_000)),
    ];
    for (a, b) in pairs {
        let lt = a < b;
        let eq = a == b;
        let gt = a > b;
        // Exactly one of the three holds.
        assert_eq!([lt, eq, gt].iter().filter(|&&x| x).count(), 1);
        // And it agrees with the sign of the normalized difference,
        // seconds first, nanoseconds at zero seconds.
        let dif = a.sub(b);
        if dif.secs > 0 || (dif.secs == 0 && dif.nanos > 0) {
            assert!(gt);
        } else if dif.secs < 0 || (dif.secs == 0 && dif.nanos < 0) {
            assert!(lt);
        } else {
            assert!(eq);
        }
    }
}

#[test]
fn ordering_concrete_cases() {
    assert!(Duration::new(1, 0) > Duration::new(0, 999_999_999));
    assert!(Duration::new(0, 0) < Duration::new(0, 1));
    assert!(Duration::new(-1, 500_000_000) < Duration::new(0, 0));
    assert!(Duration::new(-1, 0) < Duration::new(-1, 500_000_000));
    assert_eq!(
        Duration::new(1, 0).partial_cmp(&Duration::new(0, 999_999_999)),
        Some(core::cmp::Ordering::Greater)
    );
    assert_eq!(
        Duration::new(1, 0).partial_cmp(&Duration::new(0, 1_000_000_000)),
        Some(core::cmp::Ordering::Equal)
    );
}

#[test]
fn to_string_drops_fraction() {
    let d = Duration::new(42, 999_000_000);
    assert_eq!(d.to_string(), "42");
}

#[test]
fn to_string_zero_and_negative() {
    assert_eq!(Duration::new(0, 0).to_string(), "0");
    assert_eq!(Duration::new(-5, 0).to_string(), "-5");
    // The small negative duration has zero whole seconds.
    assert_eq!(Duration::new(-1, 500_000_000).to_string(), "0");
    assert_eq!(Duration::new(i64::MIN, 0).to_string(), "-9223372036854775808");
    assert_eq!(Duration::new(i64::MAX, 0).to_string(), "9223372036854775807");
}

#[test]
fn elapsed_exceeds_is_strict() {
    let start = Duration::new(100, 0);
    let target = Duration::new(2, 500_000_000);
    // Exactly the target elapsed: not yet done, one more yield is due.
    let at_boundary = Duration::new(102, 500_000_000);
    assert!(!Duration::elapsed_exceeds(at_boundary, start, target));
    // One nanosecond past the target: done.
    let past = Duration::new(102, 500_000_001);
    assert!(Duration::elapsed_exceeds(past, start, target));
    // Far before the target, even with a clock that went backwards.
    let before = Duration::new(99, 0);
    assert!(!Duration::elapsed_exceeds(before, start, target));
}
