//! A value that eases toward a settable target by exponential damping.

use vstd::prelude::*;
use crate::utils::{dist, lemma_lerp_between, lemma_lerp_i64_exact, lerp, lerp_exact, Blend, Vec2, ONE};

verus! {

/// The fraction of the remaining way that one tick covers: `speed * dt`,
/// with the speed in millionths per second and `dt` in microseconds, as a
/// fraction in millionths, rounded down.
pub open spec fn tick_fraction(speed: u32, dt: u32) -> i64 {
    ((speed as int * dt as int) / (ONE as int)) as i64
}

/// Computes [`tick_fraction`].
pub fn fraction(speed: u32, dt: u32) -> (v: i64)
    ensures
        v == tick_fraction(speed, dt),
        v == (speed as int * dt as int) / (ONE as int),
{
    assert(0 <= speed as int * dt as int <= 0xffff_ffff * 0xffff_ffff) by (nonlinear_arith)
        requires
            0 <= speed <= 0xffff_ffff,
            0 <= dt <= 0xffff_ffff,
    ;
    let p: u64 = speed as u64 * dt as u64;
    let q: u64 = p / (ONE as u64);
    proof {
        vstd::arithmetic::div_mod::lemma_div_is_ordered(p as int, 0xffff_ffff_ffff_ffffint, ONE as int);
    }
    q as i64
}

/// A current value together with the target that it eases toward.
///
/// The two are independent: setting the target leaves the current value
/// alone until the next [`TargetValue::update`].
#[derive(Debug, PartialEq, Eq)]
pub struct TargetValue<T> {
    /// What is shown now.
    pub value: T,
    /// Where the value is heading.
    pub target: T,
    /// The damping rate, in millionths per second.
    pub speed: u32,
}

impl<T: Copy> Clone for TargetValue<T> {
    fn clone(&self) -> (r: Self)
        ensures
            r == *self,
    {
        TargetValue { value: self.value, target: self.target, speed: self.speed }
    }
}

impl<T: Copy> Copy for TargetValue<T> {

}

impl<T: Blend> TargetValue<T> {
    /// A value at rest: the target is the value itself.
    pub fn new(value: T, speed: u32) -> (r: Self)
        ensures
            r == (TargetValue { value, target: value, speed }),
    {
        TargetValue { value, target: value, speed }
    }

    /// The same value heading for `target`.
    pub open spec fn aimed(self, target: T) -> Self {
        TargetValue { value: self.value, target, speed: self.speed }
    }

    /// Sets the target. The current value stays as it is.
    pub fn goto(&mut self, target: T)
        ensures
            *final(self) == old(self).aimed(target),
            final(self).value == old(self).value,
    {
        self.target = target;
    }

    /// The state after one tick of `dt` microseconds.
    pub open spec fn tick_spec(self, dt: u32) -> Self {
        TargetValue {
            value: self.value.blend_spec(self.target, tick_fraction(self.speed, dt)),
            target: self.target,
            speed: self.speed,
        }
    }

    /// The state after one tick for each entry of `dts`, in order.
    pub open spec fn after_ticks(self, dts: Seq<u32>) -> Self
        decreases dts.len(),
    {
        if dts.len() == 0 {
            self
        } else {
            self.after_ticks(dts.drop_last()).tick_spec(dts.last())
        }
    }

    /// Advances the current value toward the target:
    /// `value * (1 - speed * dt) + target * (speed * dt)`.
    pub fn update(&mut self, dt: u32)
        ensures
            *final(self) == old(self).tick_spec(dt),
    {
        self.value = lerp(self.value, self.target, fraction(self.speed, dt));
    }

    /// The current value.
    pub fn get(&self) -> (v: T)
        ensures
            v == self.value,
    {
        self.value
    }
}

/// Whether one tick of `dt` microseconds at this speed covers at most the
/// whole remaining way: `speed * dt <= 1`.
pub open spec fn gentle(speed: u32, dt: u32) -> bool {
    speed as int * dt as int <= ONE as int * ONE as int
}

/// A gentle tick gives a fraction between zero and one.
pub proof fn lemma_gentle_fraction(speed: u32, dt: u32)
    requires
        gentle(speed, dt),
    ensures
        0 <= tick_fraction(speed, dt) <= ONE,
{
    let one = ONE as int;
    let p = speed as int * dt as int;
    assert(0 <= p) by (nonlinear_arith)
        requires
            p == speed as int * dt as int,
            speed >= 0,
            dt >= 0,
    ;
    vstd::arithmetic::div_mod::lemma_div_is_ordered(0, p, one);
    vstd::arithmetic::div_mod::lemma_div_is_ordered(p, one * one, one);
    vstd::arithmetic::div_mod::lemma_div_multiples_vanish(one, one);
}

/// One gentle tick of a scalar moves it toward the target without passing
/// it: the value stays on its side of the target and the distance to the
/// target does not grow.
pub proof fn lemma_tick_approaches(tv: TargetValue<i64>, dt: u32)
    requires
        gentle(tv.speed, dt),
    ensures
        tv.tick_spec(dt).target == tv.target,
        tv.tick_spec(dt).speed == tv.speed,
        tv.tick_spec(dt).value == lerp_exact(
            tv.value as int,
            tv.target as int,
            tick_fraction(tv.speed, dt) as int,
        ),
        dist(tv.tick_spec(dt).value as int, tv.target as int) <= dist(
            tv.value as int,
            tv.target as int,
        ),
        tv.value <= tv.target ==> tv.value <= tv.tick_spec(dt).value <= tv.target,
        tv.value >= tv.target ==> tv.value >= tv.tick_spec(dt).value >= tv.target,
{
    lemma_gentle_fraction(tv.speed, dt);
    let v = tick_fraction(tv.speed, dt);
    lemma_lerp_i64_exact(tv.value, tv.target, v);
    lemma_lerp_between(tv.value as int, tv.target as int, v as int);
}

/// Repeated gentle ticks toward a fixed target converge monotonically: each
/// tick leaves the scalar no further from the target than the tick before
/// it, and the value never passes the target.
pub proof fn lemma_ticks_converge(tv: TargetValue<i64>, dts: Seq<u32>)
    requires
        forall|i: int| 0 <= i < dts.len() ==> gentle(tv.speed, #[trigger] dts[i]),
    ensures
        tv.after_ticks(dts).target == tv.target,
        tv.after_ticks(dts).speed == tv.speed,
        dts.len() > 0 ==> dist(tv.after_ticks(dts).value as int, tv.target as int) <= dist(
            tv.after_ticks(dts.drop_last()).value as int,
            tv.target as int,
        ),
        dist(tv.after_ticks(dts).value as int, tv.target as int) <= dist(
            tv.value as int,
            tv.target as int,
        ),
        tv.value <= tv.target ==> tv.value <= tv.after_ticks(dts).value <= tv.target,
        tv.value >= tv.target ==> tv.value >= tv.after_ticks(dts).value >= tv.target,
    decreases dts.len(),
{
    if dts.len() > 0 {
        let head = dts.drop_last();
        assert forall|i: int| 0 <= i < head.len() implies gentle(tv.speed, #[trigger] head[i]) by {
            assert(head[i] == dts[i]);
        }
        lemma_ticks_converge(tv, head);
        lemma_tick_approaches(tv.after_ticks(head), dts.last());
    }
}

/// The same for a point in the plane, coordinate by coordinate: after any
/// run of gentle ticks each coordinate lies between where it began and its
/// target.
pub proof fn lemma_ticks_converge_vec2(tv: TargetValue<Vec2>, dts: Seq<u32>)
    requires
        forall|i: int| 0 <= i < dts.len() ==> gentle(tv.speed, #[trigger] dts[i]),
    ensures
        tv.after_ticks(dts).target == tv.target,
        tv.after_ticks(dts).speed == tv.speed,
        tv.after_ticks(dts).value.x == (TargetValue {
            value: tv.value.x,
            target: tv.target.x,
            speed: tv.speed,
        }).after_ticks(dts).value,
        tv.after_ticks(dts).value.y == (TargetValue {
            value: tv.value.y,
            target: tv.target.y,
            speed: tv.speed,
        }).after_ticks(dts).value,
        dist(tv.after_ticks(dts).value.x as int, tv.target.x as int) <= dist(
            tv.value.x as int,
            tv.target.x as int,
        ),
        dist(tv.after_ticks(dts).value.y as int, tv.target.y as int) <= dist(
            tv.value.y as int,
            tv.target.y as int,
        ),
    decreases dts.len(),
{
    let tx = TargetValue { value: tv.value.x, target: tv.target.x, speed: tv.speed };
    let ty = TargetValue { value: tv.value.y, target: tv.target.y, speed: tv.speed };
    if dts.len() > 0 {
        let head = dts.drop_last();
        assert forall|i: int| 0 <= i < head.len() implies gentle(tv.speed, #[trigger] head[i]) by {
            assert(head[i] == dts[i]);
        }
        lemma_ticks_converge_vec2(tv, head);
        lemma_ticks_converge(tx, head);
        lemma_ticks_converge(ty, head);
    }
    lemma_ticks_converge(tx, dts);
    lemma_ticks_converge(ty, dts);
}

} // verus!
