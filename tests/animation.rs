use rwgfx::animation::{approach_i64, Animated};
use rwgfx::geometry::{Point2, Vector2};
use rwgfx::time::Duration;

fn ms(n: u64) -> Duration {
    Duration::from_millis(n)
}

#[test]
fn new_is_complete_at_rest() {
    let a = Animated::new(5i64, ms(100));
    assert!(a.complete());
    assert_eq!(*a.current(), 5);
    assert_eq!(*a.target(), 5);
}

#[test]
fn half_step_closes_half_the_gap() {
    let mut a = Animated::new(0i64, ms(200));
    a.set_target(100);
    assert!(!a.complete());
    a.update(&ms(100));
    assert_eq!(*a.current(), 50);
    assert!(!a.complete());
    a.update(&ms(100));
    assert_eq!(*a.current(), 100);
    assert!(a.complete());
}

#[test]
fn two_half_steps_snap_on_the_second() {
    let mut a = Animated::new(0i64, ms(1000));
    a.set_target(100);
    a.update(&ms(500));
    assert_eq!(*a.current(), 50);
    a.update(&ms(500));
    assert_eq!(*a.current(), 100);
    assert!(a.complete());
}

#[test]
fn quarter_steps_follow_the_remaining_gap_formula() {
    // Each step closes dt / remaining of what is left: 100 * 250 / 1000,
    // then 75 * 250 / 750, then 50 * 250 / 500, then a snap.
    let mut a = Animated::new(0i64, ms(1000));
    a.set_target(100);
    let mut seen = Vec::new();
    for _ in 0..4 {
        a.update(&ms(250));
        seen.push(*a.current());
    }
    assert_eq!(seen, vec![25, 50, 75, 100]);
    assert!(a.complete());
}

#[test]
fn retarget_mid_animation_is_not_linear() {
    // After a retarget the gap is closed relative to the restarted timer.
    let mut a = Animated::new(0i64, ms(1000));
    a.set_target(100);
    a.update(&ms(500));
    assert_eq!(*a.current(), 50);
    a.set_target(0);
    a.update(&ms(250));
    assert_eq!(*a.current(), 38);
    a.update(&ms(250));
    // 38 - 38 * 250 / 750 = 38 - 12
    assert_eq!(*a.current(), 26);
}

#[test]
fn monotonic_convergence_for_rising_scalar() {
    let mut a = Animated::new(0i64, ms(1000));
    a.set_target(1000);
    let mut last = *a.current();
    for step in [1u64, 7, 13, 100, 3, 250, 400, 1, 900] {
        a.update(&ms(step));
        let now = *a.current();
        assert!(now >= last);
        assert!(now <= 1000);
        last = now;
    }
    assert!(a.complete());
}

#[test]
fn completion_is_exact_and_stable() {
    let mut a = Animated::new(Point2::new(3, -7), ms(300));
    a.set_target(Point2::new(-40, 91));
    a.update(&ms(100));
    a.update(&ms(150));
    assert!(!a.complete());
    a.update(&ms(60));
    assert!(a.complete());
    assert_eq!(*a.current(), Point2::new(-40, 91));
    a.update(&ms(500));
    assert_eq!(*a.current(), Point2::new(-40, 91));
    assert!(a.complete());
}

#[test]
fn retarget_with_zero_advance_keeps_value() {
    let mut a = Animated::new(Vector2::new(10, 10), ms(200));
    a.set_target(Vector2::new(50, 90));
    a.update(&ms(50));
    let before = *a.current();
    a.set_target(Vector2::new(0, 0));
    a.update(&Duration::zero());
    assert_eq!(*a.current(), before);
    assert!(!a.complete());
}

#[test]
fn retarget_to_current_value_is_complete() {
    let mut a = Animated::new(7i64, ms(200));
    a.set_target(7);
    a.update(&Duration::zero());
    assert!(a.complete());
}

#[test]
fn zero_duration_snaps_immediately() {
    let mut a = Animated::new(0i64, Duration::zero());
    a.set_target(-30);
    a.update(&Duration::zero());
    assert_eq!(*a.current(), -30);
    assert!(a.complete());
}

#[test]
fn falling_value_rounds_toward_current() {
    let mut a = Animated::new(10i64, ms(3));
    a.set_target(0);
    a.update(&ms(1));
    // 10 - 10 * 1 / 3 = 10 - 3
    assert_eq!(*a.current(), 7);
}

#[test]
fn approach_extremes_do_not_overflow() {
    assert_eq!(approach_i64(i64::MIN, i64::MAX, 1, 2), -1);
    assert_eq!(approach_i64(i64::MAX, i64::MIN, 1, 2), 0);
    assert_eq!(approach_i64(i64::MIN, i64::MAX, u64::MAX - 1, u64::MAX), i64::MAX - 1);
}

#[test]
fn duration_units() {
    assert_eq!(Duration::from_millis(3).as_nanos(), 3_000_000);
    assert_eq!(Duration::from_nanos(17).as_nanos(), 17);
    assert_eq!(Duration::zero().as_nanos(), 0);
}

#[test]
fn longest_duration_does_not_overflow() {
    let mut a = Animated::new(i64::MIN, Duration::from_nanos(u64::MAX));
    a.set_target(i64::MAX);
    a.update(&Duration::from_nanos(u64::MAX - 1));
    // (2^64 - 1) * (2^64 - 2) / (2^64 - 1) = 2^64 - 2
    assert_eq!(*a.current(), i64::MAX - 1);
    assert!(!a.complete());
    a.update(&Duration::from_nanos(1));
    assert_eq!(*a.current(), i64::MAX);
    assert!(a.complete());
}
