//! An angle that follows a target angle at a bounded angular speed.
//!
//! Angles are whole thousandths of a degree. Speeds are thousandths of a
//! degree per second, times are microseconds.

use vstd::prelude::*;

verus! {

/// A full turn, in thousandths of a degree.
pub const FULL_TURN: i32 = 360_000;

/// Half a turn, in thousandths of a degree.
pub const HALF_TURN: i32 = 180_000;

/// Microseconds in a second.
pub const MICROS_PER_SECOND: u64 = 1_000_000;

/// The representative of `angle` in `0 .. FULL_TURN`.
pub open spec fn wrapped(angle: int) -> int {
    angle % (FULL_TURN as int)
}

/// The signed length of the shorter arc from `angle` to `target`: positive
/// when the target lies ahead, from `-HALF_TURN` up to but not including
/// `HALF_TURN`. Two directly opposed angles are half a turn apart backwards.
pub open spec fn signed_distance(angle: int, target: int) -> int {
    (target - angle + HALF_TURN) % (FULL_TURN as int) - HALF_TURN
}

/// The length of the shorter arc between two angles.
pub open spec fn arc(angle: int, target: int) -> int {
    let d = signed_distance(angle, target);
    if d < 0 {
        -d
    } else {
        d
    }
}

/// The largest turn that a follower of the given speed makes in `dt`
/// microseconds, rounded down to whole thousandths of a degree.
pub open spec fn max_step(speed: int, dt: int) -> int {
    speed * dt / (MICROS_PER_SECOND as int)
}

/// Brings an angle into `0 .. FULL_TURN`.
pub fn wrap_angle(angle: i32) -> (r: i32)
    ensures
        r == wrapped(angle as int),
        0 <= r < FULL_TURN,
{
    // 5966 full turns: the least multiple of a full turn that lifts every
    // 32-bit angle to a non-negative number.
    let lifted: u64 = (angle as i64 + 2_147_760_000) as u64;
    let r: u64 = lifted % 360_000;
    assert(r == wrapped(angle as int)) by {
        assert(lifted == angle + 5966 * 360_000);
        assert((angle + 5966 * 360_000) % 360_000 == angle % 360_000);
    }
    r as i32
}

/// Brings the sum of two angles into `0 .. FULL_TURN`.
pub fn wrap_wide_angle(angle: i64) -> (r: i32)
    requires
        -0x1_0000_0000 <= angle <= 0x1_0000_0000,
    ensures
        r == wrapped(angle as int),
        0 <= r < FULL_TURN,
{
    // 11931 full turns lift every sum of two 32-bit angles above zero.
    let lifted: u64 = (angle + 4_295_160_000) as u64;
    let r: u64 = lifted % 360_000;
    assert(r == wrapped(angle as int)) by {
        assert(lifted == angle + 11931 * 360_000);
        assert((angle + 11931 * 360_000) % 360_000 == angle % 360_000);
    }
    r as i32
}

/// What one turn does to the two arcs that matter: the arc from where the
/// angle was, and the arc that is left to the target.
proof fn lemma_arc_of_turn(angle: int, target: int, step: int)
    requires
        0 <= step,
    ensures
        ({
            let a = wrapped(angle);
            let t = wrapped(target);
            let d = signed_distance(a, t);
            let turned = if d > step {
                wrapped(a + step)
            } else if -d > step {
                wrapped(a - step)
            } else {
                t
            };
            &&& signed_distance(a, t) == signed_distance(angle, target)
            &&& arc(angle, turned) <= step
            &&& arc(turned, t) == if arc(angle, target) > step {
                arc(angle, target) - step
            } else {
                0
            }
        }),
{
    let a = wrapped(angle);
    let t = wrapped(target);
    let d = signed_distance(a, t);
    lemma_distance_ignores_turns(angle, target);
    assert(signed_distance(a, t) == signed_distance(angle, target));
    if d > step {
        let turned = wrapped(a + step);
        lemma_distance_of_sum(a, step);
        lemma_distance_ignores_turns(angle, turned);
        lemma_distance_after(a, t, step);
    } else if -d > step {
        let turned = wrapped(a - step);
        lemma_distance_of_sum(a, -step);
        lemma_distance_ignores_turns(angle, turned);
        lemma_distance_after(a, t, -step);
    } else {
        lemma_distance_ignores_turns(angle, t);
        assert(signed_distance(t, t) == 0);
    }
}

/// Whole turns added to either angle do not change the distance.
proof fn lemma_distance_ignores_turns(angle: int, target: int)
    ensures
        signed_distance(wrapped(angle), wrapped(target)) == signed_distance(angle, target),
        signed_distance(wrapped(angle), target) == signed_distance(angle, target),
        signed_distance(angle, wrapped(target)) == signed_distance(angle, target),
{
    let qa = angle / 360_000;
    let qt = target / 360_000;
    vstd::arithmetic::div_mod::lemma_fundamental_div_mod(angle, 360_000);
    vstd::arithmetic::div_mod::lemma_fundamental_div_mod(target, 360_000);
    let base = wrapped(target) - wrapped(angle) + 180_000;
    vstd::arithmetic::div_mod::lemma_mod_multiples_vanish(qt - qa, base, 360_000);
    assert(target - angle + 180_000 == 360_000 * (qt - qa) + base);
    vstd::arithmetic::div_mod::lemma_mod_multiples_vanish(-qa, base, 360_000);
    assert(wrapped(target) - angle + 180_000 == 360_000 * (-qa) + base);
    vstd::arithmetic::div_mod::lemma_mod_multiples_vanish(qt, base, 360_000);
    assert(target - wrapped(angle) + 180_000 == 360_000 * qt + base);
}

/// A turn by less than half a turn is its own distance.
proof fn lemma_distance_of_sum(angle: int, by: int)
    requires
        -180_000 <= by < 180_000,
    ensures
        signed_distance(angle, wrapped(angle + by)) == by,
{
    lemma_distance_ignores_turns(angle, angle + by);
    assert((by + 180_000) % 360_000 == by + 180_000) by {
        vstd::arithmetic::div_mod::lemma_small_mod((by + 180_000) as nat, 360_000);
    }
}

/// Turning towards the target by part of the distance leaves the rest.
proof fn lemma_distance_after(angle: int, target: int, by: int)
    requires
        signed_distance(angle, target) > 0 ==> 0 <= by <= signed_distance(angle, target),
        signed_distance(angle, target) <= 0 ==> signed_distance(angle, target) <= by <= 0,
    ensures
        signed_distance(wrapped(angle + by), target) == signed_distance(angle, target) - by,
{
    let d = signed_distance(angle, target);
    lemma_distance_ignores_turns(angle + by, target);
    let x = target - angle + 180_000;
    vstd::arithmetic::div_mod::lemma_fundamental_div_mod(x, 360_000);
    let q = x / 360_000;
    assert(x - by == 360_000 * q + (d + 180_000 - by));
    vstd::arithmetic::div_mod::lemma_mod_multiples_vanish(q, d + 180_000 - by, 360_000);
    vstd::arithmetic::div_mod::lemma_small_mod((d + 180_000 - by) as nat, 360_000);
}

/// An angle together with the angle it is heading for and the speed at which
/// it may turn.
#[derive(Clone, Copy, PartialEq, Eq, Structural, Debug)]
pub struct SmoothAngle {
    /// The current angle.
    pub angle: i32,
    /// The angle that is being approached.
    pub target: i32,
    /// The turn speed, per second.
    pub speed: u32,
}

impl SmoothAngle {
    /// The follower after `dt` microseconds. Both angles are first brought
    /// into `0 .. FULL_TURN`. The angle then turns along the shorter arc by
    /// `max_step`, or lands on the target if that is no farther away.
    pub open spec fn spec_update(self, dt: int) -> SmoothAngle {
        let target = wrapped(self.target as int);
        let angle = wrapped(self.angle as int);
        let d = signed_distance(angle, target);
        let step = max_step(self.speed as int, dt);
        let turned = if d > step {
            wrapped(angle + step)
        } else if -d > step {
            wrapped(angle - step)
        } else {
            target
        };
        SmoothAngle { angle: turned as i32, target: target as i32, speed: self.speed }
    }

    /// Both angles lie in `0 .. FULL_TURN`.
    pub open spec fn is_wrapped(self) -> bool {
        0 <= self.angle < FULL_TURN && 0 <= self.target < FULL_TURN
    }

    pub fn set_target(&mut self, angle: i32)
        ensures
            *final(self) == (SmoothAngle { target: angle, ..*old(self) }),
    {
        self.target = angle;
    }

    pub fn set_speed(&mut self, speed: u32)
        ensures
            *final(self) == (SmoothAngle { speed, ..*old(self) }),
    {
        self.speed = speed;
    }

    pub fn set_angle(&mut self, angle: i32)
        ensures
            *final(self) == (SmoothAngle { angle, ..*old(self) }),
    {
        self.angle = angle;
    }

    pub fn angle(&self) -> (r: i32)
        ensures
            r == self.angle,
    {
        self.angle
    }

    /// Whether the angle and its target are the same direction.
    pub fn at_target(&self) -> (r: bool)
        ensures
            r <==> signed_distance(self.angle as int, self.target as int) == 0,
            r <==> wrapped(self.angle as int) == wrapped(self.target as int),
    {
        self.distance() == 0
    }

    /// The signed shorter arc from the angle to its target.
    pub fn distance(&self) -> (r: i32)
        ensures
            r == signed_distance(self.angle as int, self.target as int),
            -HALF_TURN <= r < HALF_TURN,
    {
        let a: i64 = wrap_angle(self.angle) as i64;
        let t: i64 = wrap_angle(self.target) as i64;
        let shifted: u64 = (t - a + 180_000 + 360_000) as u64;
        let r: u64 = shifted % 360_000;
        assert(r == (self.target - self.angle + HALF_TURN) % (FULL_TURN as int)) by {
            let qt = self.target as int / 360_000;
            let qa = self.angle as int / 360_000;
            assert(self.target == 360_000 * qt + t);
            assert(self.angle == 360_000 * qa + a);
            assert(self.target - self.angle + 180_000 == shifted + 360_000 * (qt - qa - 1));
            assert((shifted + 360_000 * (qt - qa - 1)) % 360_000 == shifted % 360_000) by {
                vstd::arithmetic::div_mod::lemma_mod_multiples_vanish(
                    qt - qa - 1,
                    shifted as int,
                    360_000,
                );
            }
        }
        (r as i64 - 180_000) as i32
    }

    /// The follower after `n` updates of `dt` microseconds each, with the
    /// target left alone.
    pub open spec fn spec_update_n(self, dt: int, n: nat) -> SmoothAngle
        decreases n,
    {
        if n == 0 {
            self
        } else {
            self.spec_update_n(dt, (n - 1) as nat).spec_update(dt)
        }
    }

    /// An update leaves the follower wrapped, keeps its speed, and keeps its
    /// target as a direction.
    pub proof fn lemma_update_keeps_target(self, dt: int)
        requires
            0 <= dt,
        ensures
            self.spec_update(dt).is_wrapped(),
            self.spec_update(dt).speed == self.speed,
            self.spec_update(dt).target == wrapped(self.target as int),
            self.is_wrapped() ==> self.spec_update(dt).target == self.target,
    {
    }

    /// No overshoot: one update turns the angle by an arc of at most
    /// `max_step`, which is at most speed times elapsed time.
    pub proof fn lemma_update_is_bounded(self, dt: int)
        requires
            0 <= dt,
        ensures
            arc(self.angle as int, self.spec_update(dt).angle as int) <= max_step(
                self.speed as int,
                dt,
            ),
            max_step(self.speed as int, dt) * MICROS_PER_SECOND <= self.speed * dt,
    {
        let step = max_step(self.speed as int, dt);
        assert(self.speed * dt >= 0) by (nonlinear_arith)
            requires
                self.speed >= 0,
                dt >= 0,
        ;
        assert(step >= 0 && step * 1_000_000 <= self.speed * dt) by {
            vstd::arithmetic::div_mod::lemma_fundamental_div_mod(self.speed * dt, 1_000_000);
            vstd::arithmetic::div_mod::lemma_div_pos_is_pos(self.speed * dt, 1_000_000);
        }
        lemma_arc_of_turn(self.angle as int, self.target as int, step);
    }

    /// Convergence: with the target held, one update shortens the arc to the
    /// target by exactly `max_step`, or closes it where it was no longer
    /// than that. The arc therefore never grows.
    pub proof fn lemma_update_converges(self, dt: int)
        requires
            0 <= dt,
        ensures
            arc(self.spec_update(dt).angle as int, self.spec_update(dt).target as int) == if arc(
                self.angle as int,
                self.target as int,
            ) > max_step(self.speed as int, dt) {
                arc(self.angle as int, self.target as int) - max_step(self.speed as int, dt)
            } else {
                0
            },
            arc(self.spec_update(dt).angle as int, self.spec_update(dt).target as int) <= arc(
                self.angle as int,
                self.target as int,
            ),
    {
        let step = max_step(self.speed as int, dt);
        assert(self.speed * dt >= 0) by (nonlinear_arith)
            requires
                self.speed >= 0,
                dt >= 0,
        ;
        assert(step >= 0) by {
            vstd::arithmetic::div_mod::lemma_div_pos_is_pos(self.speed * dt, 1_000_000);
        }
        lemma_arc_of_turn(self.angle as int, self.target as int, step);
    }

    /// Convergence over time: with the target held for `n` updates the arc to
    /// the target has shrunk by `n` steps, or is closed.
    pub proof fn lemma_updates_converge(self, dt: int, n: nat)
        requires
            0 <= dt,
        ensures
            arc(
                self.spec_update_n(dt, n).angle as int,
                self.spec_update_n(dt, n).target as int,
            ) == if arc(self.angle as int, self.target as int) > n * max_step(
                self.speed as int,
                dt,
            ) {
                arc(self.angle as int, self.target as int) - n * max_step(self.speed as int, dt)
            } else {
                0
            },
            self.spec_update_n(dt, n).speed == self.speed,
        decreases n,
    {
        let step = max_step(self.speed as int, dt);
        assert(self.speed * dt >= 0) by (nonlinear_arith)
            requires
                self.speed >= 0,
                dt >= 0,
        ;
        assert(step >= 0) by {
            vstd::arithmetic::div_mod::lemma_div_pos_is_pos(self.speed * dt, 1_000_000);
        }
        if n > 0 {
            let before = self.spec_update_n(dt, (n - 1) as nat);
            self.lemma_updates_converge(dt, (n - 1) as nat);
            before.lemma_update_converges(dt);
            assert(n * step == (n - 1) * step + step) by (nonlinear_arith);
            assert((n - 1) * step >= 0) by (nonlinear_arith)
                requires
                    n >= 1,
                    step >= 0,
            ;
        } else {
            assert(n * step == 0) by (nonlinear_arith)
                requires
                    n == 0,
            ;
        }
    }

    /// Lets `dt` microseconds pass.
    pub fn update(&mut self, dt: u32)
        ensures
            *final(self) == old(self).spec_update(dt as int),
            final(self).is_wrapped(),
    {
        self.target = wrap_angle(self.target);
        self.angle = wrap_angle(self.angle);
        let d: i64 = self.distance() as i64;
        assert(self.speed * dt <= 0xffff_ffff * 0xffff_ffff) by (nonlinear_arith)
            requires
                0 <= self.speed <= 0xffff_ffff,
                0 <= dt <= 0xffff_ffff,
        ;
        let step: u64 = (self.speed as u64 * dt as u64) / MICROS_PER_SECOND;
        assert(step == max_step(self.speed as int, dt as int));
        assert(d == signed_distance(
            wrapped(old(self).angle as int),
            wrapped(old(self).target as int),
        ));
        if d > 0 && d as u64 > step {
            self.angle = wrap_angle((self.angle as i64 + step as i64) as i32);
        } else if d < 0 && (-d) as u64 > step {
            self.angle = wrap_angle((self.angle as i64 - step as i64) as i32);
        } else {
            self.angle = self.target;
        }
    }
}

} // verus!
