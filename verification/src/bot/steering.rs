//! Driving a bot's body along its path.

use crate::geometry::{Point3, Vector3};
use crate::smooth_angle::MICROS_PER_SECOND;
use vstd::prelude::*;

verus! {

/// The speed, in millimetres per second, that covers `distance` millimetres
/// in `dt` microseconds, rounded towards zero.
pub open spec fn spec_speed_over(distance: int, dt: int) -> int {
    if distance >= 0 {
        distance * MICROS_PER_SECOND / dt
    } else {
        -((-distance) * MICROS_PER_SECOND / dt)
    }
}

/// The velocity to give the body. A bot that moves is driven so that it
/// would reach the waypoint within this tick; one that does not is stopped,
/// and so is every bot in a tick in which no time passes. Either way only
/// the horizontal velocity is set: the vertical one is left as physics has
/// it.
pub open spec fn spec_velocity(
    is_moving: bool,
    position: Point3,
    waypoint: Point3,
    vertical: i64,
    dt: u32,
) -> Vector3 {
    if is_moving && dt > 0 {
        Vector3 {
            x: spec_speed_over(waypoint.x - position.x, dt as int) as i64,
            y: vertical,
            z: spec_speed_over(waypoint.z - position.z, dt as int) as i64,
        }
    } else {
        Vector3 { x: 0, y: vertical, z: 0 }
    }
}

/// Finds the speed that covers `distance` in `dt` microseconds.
pub fn speed_over(distance: i64, dt: u32) -> (speed: i64)
    requires
        dt > 0,
        -0xffff_ffff <= distance <= 0xffff_ffff,
    ensures
        speed == spec_speed_over(distance as int, dt as int),
        -0xffff_ffff * MICROS_PER_SECOND <= speed <= 0xffff_ffff * MICROS_PER_SECOND,
{
    let magnitude: u64 = if distance < 0 {
        (-distance) as u64
    } else {
        distance as u64
    };
    let scaled: u64 = magnitude * MICROS_PER_SECOND;
    let quotient: u64 = scaled / dt as u64;
    assert(quotient <= scaled) by {
        vstd::arithmetic::div_mod::lemma_div_is_ordered_by_denominator(scaled as int, 1, dt as int);
        vstd::arithmetic::div_mod::lemma_div_basics(scaled as int);
    }
    if distance < 0 {
        -(quotient as i64)
    } else {
        quotient as i64
    }
}

/// Finds the velocity to give the body.
pub fn velocity(
    is_moving: bool,
    position: Point3,
    waypoint: Point3,
    vertical: i64,
    dt: u32,
) -> (v: Vector3)
    ensures
        v == spec_velocity(is_moving, position, waypoint, vertical, dt),
{
    if is_moving && dt > 0 {
        let to = position.vector_to(waypoint);
        Vector3 { x: speed_over(to.x, dt), y: vertical, z: speed_over(to.z, dt) }
    } else {
        Vector3 { x: 0, y: vertical, z: 0 }
    }
}

} // verus!
