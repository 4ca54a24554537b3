//! Time-driven interpolation of animatable values.
//!
//! Each `update` closes the fraction `dt / remaining` of the gap between the
//! current value and the target, where `remaining` is the time left of the
//! animation; once `dt` reaches the time left the value snaps to the target.

use crate::geometry::{Point2, Vector2};
use crate::time::Duration;
use vstd::arithmetic::div_mod::{lemma_div_by_multiple, lemma_div_is_ordered};
use vstd::arithmetic::mul::lemma_mul_upper_bound;
use vstd::prelude::*;

verus! {

/// `c` moved toward `t` by the fraction `num / den` of the gap between them,
/// the move rounded toward `c`.
pub open spec fn approach_int(c: int, t: int, num: int, den: int) -> int {
    if c <= t {
        c + (t - c) * num / den
    } else {
        c - (c - t) * num / den
    }
}

/// A fraction below one of a non-negative gap stays within the gap.
pub proof fn lemma_part_of_gap(gap: int, num: int, den: int)
    requires
        0 <= gap,
        0 <= num < den,
    ensures
        0 <= gap * num / den <= gap,
{
    assert(0 <= gap * num <= gap * den) by (nonlinear_arith)
        requires
            0 <= gap,
            0 <= num < den,
    ;
    lemma_div_is_ordered(0, gap * num, den);
    lemma_div_is_ordered(gap * num, gap * den, den);
    lemma_div_by_multiple(gap, den);
}

/// `approach_int` never passes the target and never moves away from it.
pub proof fn lemma_approach_between(c: int, t: int, num: int, den: int)
    requires
        0 <= num < den,
    ensures
        c <= t ==> c <= approach_int(c, t, num, den) <= t,
        t <= c ==> t <= approach_int(c, t, num, den) <= c,
        approach_int(c, t, 0, den) == c,
        approach_int(c, c, num, den) == c,
{
    if c <= t {
        lemma_part_of_gap(t - c, num, den);
    } else {
        lemma_part_of_gap(c - t, num, den);
    }
    assert((t - c) * 0 == 0);
    assert((c - t) * 0 == 0);
}

/// The product of two values below 2^64 fits in 128 bits.
proof fn lemma_product_fits(a: int, b: int)
    requires
        0 <= a <= u64::MAX,
        0 <= b <= u64::MAX,
    ensures
        a * b <= u128::MAX,
{
    lemma_mul_upper_bound(a, 0xffff_ffff_ffff_ffff, b, 0xffff_ffff_ffff_ffff);
    assert(0xffff_ffff_ffff_ffffint * 0xffff_ffff_ffff_ffffint <= u128::MAX);
}

/// Executable `approach_int` on 64-bit values.
pub fn approach_i64(c: i64, t: i64, num: u64, den: u64) -> (r: i64)
    requires
        num < den,
    ensures
        r == approach_int(c as int, t as int, num as int, den as int),
{
    proof {
        lemma_approach_between(c as int, t as int, num as int, den as int);
    }
    if c <= t {
        let gap: u128 = (t as i128 - c as i128) as u128;
        proof {
            lemma_product_fits(gap as int, num as int);
        }
        let part: u128 = gap * (num as u128) / (den as u128);
        (c as i128 + part as i128) as i64
    } else {
        let gap: u128 = (c as i128 - t as i128) as u128;
        proof {
            lemma_product_fits(gap as int, num as int);
        }
        let part: u128 = gap * (num as u128) / (den as u128);
        (c as i128 - part as i128) as i64
    }
}

/// A value that can be animated: it moves toward a target by a fraction of
/// the gap, and can be compared for equality.
pub trait Interpolate: Copy + Sized {
    /// `self` moved toward `target` by the fraction `num / den` of the gap.
    spec fn approach_spec(self, target: Self, num: nat, den: nat) -> Self;

    fn approach(self, target: Self, num: u64, den: u64) -> (r: Self)
        requires
            num < den,
        ensures
            r == self.approach_spec(target, num as nat, den as nat),
    ;

    fn same(&self, other: &Self) -> (r: bool)
        ensures
            r == (*self == *other),
    ;

    /// Moving by no fraction leaves the value where it is.
    proof fn lemma_approach_nothing(self, target: Self, den: nat)
        requires
            0 < den,
        ensures
            self.approach_spec(target, 0, den) == self,
    ;

    /// A value at its target stays there.
    proof fn lemma_approach_at_target(self, num: nat, den: nat)
        requires
            num < den,
        ensures
            self.approach_spec(self, num, den) == self,
    ;
}

impl Interpolate for i64 {
    open spec fn approach_spec(self, target: i64, num: nat, den: nat) -> i64 {
        approach_int(self as int, target as int, num as int, den as int) as i64
    }

    fn approach(self, target: i64, num: u64, den: u64) -> (r: i64) {
        approach_i64(self, target, num, den)
    }

    fn same(&self, other: &i64) -> (r: bool) {
        *self == *other
    }

    proof fn lemma_approach_nothing(self, target: i64, den: nat) {
        lemma_approach_between(self as int, target as int, 0, den as int);
    }

    proof fn lemma_approach_at_target(self, num: nat, den: nat) {
        lemma_approach_between(self as int, self as int, num as int, den as int);
    }
}

impl Interpolate for Point2 {
    open spec fn approach_spec(self, target: Point2, num: nat, den: nat) -> Point2 {
        Point2 {
            x: approach_int(self.x as int, target.x as int, num as int, den as int) as i64,
            y: approach_int(self.y as int, target.y as int, num as int, den as int) as i64,
        }
    }

    fn approach(self, target: Point2, num: u64, den: u64) -> (r: Point2) {
        Point2 { x: approach_i64(self.x, target.x, num, den), y: approach_i64(self.y, target.y, num, den) }
    }

    fn same(&self, other: &Point2) -> (r: bool) {
        self.x == other.x && self.y == other.y
    }

    proof fn lemma_approach_nothing(self, target: Point2, den: nat) {
        lemma_approach_between(self.x as int, target.x as int, 0, den as int);
        lemma_approach_between(self.y as int, target.y as int, 0, den as int);
    }

    proof fn lemma_approach_at_target(self, num: nat, den: nat) {
        lemma_approach_between(self.x as int, self.x as int, num as int, den as int);
        lemma_approach_between(self.y as int, self.y as int, num as int, den as int);
    }
}

impl Interpolate for Vector2 {
    open spec fn approach_spec(self, target: Vector2, num: nat, den: nat) -> Vector2 {
        Vector2 {
            x: approach_int(self.x as int, target.x as int, num as int, den as int) as i64,
            y: approach_int(self.y as int, target.y as int, num as int, den as int) as i64,
        }
    }

    fn approach(self, target: Vector2, num: u64, den: u64) -> (r: Vector2) {
        Vector2 { x: approach_i64(self.x, target.x, num, den), y: approach_i64(self.y, target.y, num, den) }
    }

    fn same(&self, other: &Vector2) -> (r: bool) {
        self.x == other.x && self.y == other.y
    }

    proof fn lemma_approach_nothing(self, target: Vector2, den: nat) {
        lemma_approach_between(self.x as int, target.x as int, 0, den as int);
        lemma_approach_between(self.y as int, target.y as int, 0, den as int);
    }

    proof fn lemma_approach_at_target(self, num: nat, den: nat) {
        lemma_approach_between(self.x as int, self.x as int, num as int, den as int);
        lemma_approach_between(self.y as int, self.y as int, num as int, den as int);
    }
}

/// Abstract state of an animation: times are in nanoseconds.
pub struct AnimationView<T> {
    pub current: T,
    pub target: T,
    pub duration: nat,
    pub elapsed: nat,
}

impl<T: Interpolate> AnimationView<T> {
    /// The elapsed time never passes the duration.
    pub open spec fn wf(self) -> bool {
        self.elapsed <= self.duration
    }

    /// The animation has reached its target.
    pub open spec fn complete(self) -> bool {
        self.current == self.target
    }

    /// Time left of the animation.
    pub open spec fn remaining(self) -> nat {
        (self.duration - self.elapsed) as nat
    }

    /// State after `dt` nanoseconds have passed.
    pub open spec fn advanced(self, dt: nat) -> AnimationView<T> {
        if self.remaining() <= dt {
            AnimationView { current: self.target, elapsed: self.duration, ..self }
        } else {
            AnimationView {
                current: self.current.approach_spec(self.target, dt, self.remaining()),
                elapsed: self.elapsed + dt,
                ..self
            }
        }
    }

    /// State after a new target was set: the timer restarts, the value stays.
    pub open spec fn retargeted(self, target: T) -> AnimationView<T> {
        AnimationView { target, elapsed: 0, ..self }
    }

    /// State after the time steps `dts` have passed, in order.
    pub open spec fn advanced_by_all(self, dts: Seq<nat>) -> AnimationView<T>
        decreases dts.len(),
    {
        if dts.len() == 0 {
            self
        } else {
            self.advanced_by_all(dts.drop_last()).advanced(dts.last())
        }
    }
}

/// Total of a sequence of time steps.
pub open spec fn total_time(dts: Seq<nat>) -> nat
    decreases dts.len(),
{
    if dts.len() == 0 {
        0
    } else {
        total_time(dts.drop_last()) + dts.last()
    }
}

/// A value animated toward a target over a fixed duration.
pub struct Animated<T> {
    /// Value the data moves toward.
    target: T,
    /// Current value of the data.
    current: T,
    /// Duration of an animation from start to end.
    duration: Duration,
    /// Time the current animation has been running.
    elapsed_time: Duration,
}

impl<T: Interpolate> View for Animated<T> {
    type V = AnimationView<T>;

    closed spec fn view(&self) -> AnimationView<T> {
        AnimationView {
            current: self.current,
            target: self.target,
            duration: self.duration@,
            elapsed: self.elapsed_time@,
        }
    }
}

impl<T: Interpolate> Animated<T> {
    /// Whether the value has reached its target.
    pub fn complete(&self) -> (r: bool)
        ensures
            r == self@.complete(),
    {
        self.target.same(&self.current)
    }

    /// The current value.
    pub fn current(&self) -> (r: &T)
        ensures
            *r == self@.current,
    {
        &self.current
    }

    /// A value at rest: no animation is running.
    pub fn new(current: T, duration: Duration) -> (r: Animated<T>)
        ensures
            r@ == (AnimationView { current, target: current, duration: duration@, elapsed: 0 }),
            r@.wf(),
    {
        Animated { target: current, current, duration, elapsed_time: Duration::zero() }
    }

    /// Start animating toward `target` from wherever the value is now.
    pub fn set_target(&mut self, target: T)
        requires
            old(self)@.wf(),
        ensures
            final(self)@ == old(self)@.retargeted(target),
            final(self)@.wf(),
    {
        self.target = target;
        self.elapsed_time = Duration::zero();
    }

    /// The target value.
    pub fn target(&self) -> (r: &T)
        ensures
            *r == self@.target,
    {
        &self.target
    }

    /// Let `elapsed` pass: close the fraction `elapsed / remaining` of the gap
    /// to the target, or snap to the target when `elapsed` covers the time left.
    pub fn update(&mut self, elapsed: &Duration)
        requires
            old(self)@.wf(),
        ensures
            final(self)@ == old(self)@.advanced(elapsed@),
            final(self)@.wf(),
    {
        let dt = elapsed.as_nanos();
        let remaining = self.duration.as_nanos() - self.elapsed_time.as_nanos();
        if remaining <= dt {
            self.current = self.target;
            self.elapsed_time = self.duration;
        } else {
            self.current = self.current.approach(self.target, dt, remaining);
            self.elapsed_time = Duration::from_nanos(self.elapsed_time.as_nanos() + dt);
        }
    }
}

/// Once an animation is complete, letting time pass changes nothing visible:
/// the value stays where it is and the animation stays complete.
pub proof fn lemma_complete_is_stable<T: Interpolate>(a: AnimationView<T>, dt: nat)
    requires
        a.wf(),
        a.complete(),
    ensures
        a.advanced(dt).current == a.current,
        a.advanced(dt).complete(),
        a.advanced(dt).wf(),
{
    if a.remaining() > dt {
        a.current.lemma_approach_at_target(dt, a.remaining());
    }
}

/// Time steps leave the target and the duration alone, and the elapsed time
/// is their total, capped at the duration; once the total reaches the time
/// that was left, the animation is complete.
pub proof fn lemma_advanced_by_all<T: Interpolate>(a: AnimationView<T>, dts: Seq<nat>)
    requires
        a.wf(),
    ensures
        a.advanced_by_all(dts).wf(),
        a.advanced_by_all(dts).target == a.target,
        a.advanced_by_all(dts).duration == a.duration,
        a.elapsed + total_time(dts) < a.duration ==> a.advanced_by_all(dts).elapsed == a.elapsed
            + total_time(dts),
        a.elapsed + total_time(dts) >= a.duration ==> a.advanced_by_all(dts).elapsed == a.duration,
        a.elapsed + total_time(dts) >= a.duration && dts.len() > 0
            ==> a.advanced_by_all(dts).complete(),
    decreases dts.len(),
{
    if dts.len() > 0 {
        let prefix = dts.drop_last();
        lemma_advanced_by_all(a, prefix);
        let before = a.advanced_by_all(prefix);
        if a.elapsed + total_time(prefix) >= a.duration && prefix.len() > 0 {
            lemma_complete_is_stable(before, dts.last());
        }
    }
}

/// From a fresh target, any run of updates whose total reaches the duration
/// completes the animation.
pub proof fn lemma_completes_within_duration<T: Interpolate>(
    a: AnimationView<T>,
    target: T,
    dts: Seq<nat>,
)
    requires
        a.wf(),
        dts.len() > 0,
        total_time(dts) >= a.duration,
    ensures
        a.retargeted(target).advanced_by_all(dts).complete(),
        a.retargeted(target).advanced_by_all(dts).current == target,
{
    lemma_advanced_by_all(a.retargeted(target), dts);
}

/// Setting a new target and then letting no time pass keeps the value where
/// it was; the animation is then complete only if the new target is that
/// value.
pub proof fn lemma_retarget_keeps_value<T: Interpolate>(a: AnimationView<T>, target: T)
    requires
        a.wf(),
        a.duration > 0,
    ensures
        a.retargeted(target).advanced(0).current == a.current,
        a.retargeted(target).advanced(0).complete() <==> target == a.current,
{
    a.current.lemma_approach_nothing(target, a.duration);
}

/// A scalar below its target moves up, never past the target: repeated
/// updates give a non-decreasing value bounded by the target.
pub proof fn lemma_scalar_converges_monotonically(a: AnimationView<i64>, dt: nat)
    requires
        a.wf(),
        a.current <= a.target,
    ensures
        a.current <= a.advanced(dt).current <= a.target,
        a.advanced(dt).target == a.target,
        a.advanced(dt).wf(),
{
    if a.remaining() > dt {
        lemma_approach_between(a.current as int, a.target as int, dt as int, a.remaining() as int);
    }
}

/// Over any run of updates, a scalar that starts at or below its target
/// only rises and never passes the target: the state after the first `k`
/// steps is at most the state after all of them, which is at most the target.
pub proof fn lemma_scalar_rises_over_steps(a: AnimationView<i64>, dts: Seq<nat>, k: int)
    requires
        a.wf(),
        a.current <= a.target,
        0 <= k <= dts.len(),
    ensures
        a.current <= a.advanced_by_all(dts.subrange(0, k)).current,
        a.advanced_by_all(dts.subrange(0, k)).current <= a.advanced_by_all(dts).current,
        a.advanced_by_all(dts).current <= a.target,
    decreases dts.len(),
{
    if dts.len() == 0 {
        assert(dts.subrange(0, k) =~= dts);
    } else {
        let prefix = dts.drop_last();
        lemma_advanced_by_all(a, prefix);
        if k == dts.len() {
            assert(dts.subrange(0, k) =~= dts);
            lemma_scalar_rises_over_steps(a, prefix, prefix.len() as int);
            assert(prefix.subrange(0, prefix.len() as int) =~= prefix);
        } else {
            lemma_scalar_rises_over_steps(a, prefix, k);
            assert(prefix.subrange(0, k) =~= dts.subrange(0, k));
        }
        lemma_scalar_converges_monotonically(a.advanced_by_all(prefix), dts.last());
    }
}

} // verus!
