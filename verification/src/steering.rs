//! The steering law: how far off course the ship is decides whether it
//! thrusts and how hard it turns.

use crate::angle::{Angle, FULL_TURN, HALF_TURN};
use vstd::prelude::*;

verus! {

/// Where the dead zone begins: 135 degrees off the bow.
pub const DEAD_ZONE_START: u32 = 135_000_000;

/// Where the dead zone ends: 225 degrees off the bow.
pub const DEAD_ZONE_END: u32 = 225_000_000;

/// The size of the forward impulse, and the factor of the turning impulse.
pub const IMPULSE_MULTIPLIER: u32 = 1000;

/// The steering gain that stands for 1: gains are counted in thousandths.
pub const UNIT_GAIN: u32 = 1000;

/// What one steering command hands to the physics.
#[derive(Clone, Copy, Debug, PartialEq, Eq, Structural)]
pub struct ExternalImpulse {
    /// The push along the way the ship is facing.
    pub impulse: u32,
    /// The twist about the vertical axis. A positive twist turns the bow from
    /// +Z towards +X, which is the way bearings grow. It is counted in
    /// microdegrees of error times thousandths of gain times
    /// `IMPULSE_MULTIPLIER`.
    pub torque_impulse: i128,
}

/// On which side of the bow a course lies, for a ship that sails the
/// ground with Y up: +X is then to the left of a bow that points to +Z.
pub enum Side {
    /// Straight ahead.
    Ahead,
    /// To the left: reached sooner by turning the way bearings grow.
    Left,
    /// Straight behind.
    Astern,
    /// To the right: reached sooner by turning the way bearings shrink.
    Right,
}

/// The side on which the course lies that is `turn` microdegrees round from
/// the bow.
pub open spec fn side_of(turn: int) -> Side {
    if turn == 0 {
        Side::Ahead
    } else if turn < HALF_TURN {
        Side::Left
    } else if turn == HALF_TURN {
        Side::Astern
    } else {
        Side::Right
    }
}

/// Whether a course `turn` microdegrees round from the bow is so nearly
/// astern that the ship does not thrust: strictly between the two bounds.
pub open spec fn in_dead_zone(turn: int) -> bool {
    DEAD_ZONE_START < turn < DEAD_ZONE_END
}

/// The angular error of a course `turn` microdegrees round from the bow: the
/// length of the shorter of the two arcs that lead to it.
pub open spec fn angular_error(turn: int) -> int {
    if turn <= HALF_TURN {
        turn
    } else {
        FULL_TURN - turn
    }
}

/// The twist that steers towards a course `turn` microdegrees round from
/// the bow: the angular error times the multiplier times the gain, turning
/// along the shorter arc.
pub open spec fn torque(turn: int, gain: int) -> int {
    if turn <= HALF_TURN {
        IMPULSE_MULTIPLIER * angular_error(turn) * gain
    } else {
        -(IMPULSE_MULTIPLIER * angular_error(turn) * gain)
    }
}

/// What the steering law does for a course `turn` microdegrees round from
/// the bow: nothing in the dead zone, else a forward push of fixed size and
/// the twist towards the course.
pub open spec fn steering(turn: int, gain: int) -> Option<ExternalImpulse> {
    if in_dead_zone(turn) {
        None
    } else {
        Some(
            ExternalImpulse {
                impulse: IMPULSE_MULTIPLIER,
                torque_impulse: torque(turn, gain) as i128,
            },
        )
    }
}

/// Applies the steering law to a course that lies `turn` round from the bow,
/// with the steering gain `gain` in thousandths.
pub fn steer(turn: Angle, gain: u32) -> (applied: Option<ExternalImpulse>)
    ensures
        applied == steering(turn@, gain as int),
        applied matches Some(i) ==> i.torque_impulse == torque(turn@, gain as int),
{
    let t = turn.microdegrees();
    if t > DEAD_ZONE_START && t < DEAD_ZONE_END {
        return None;
    }
    let error: u32 = if t <= HALF_TURN {
        t
    } else {
        FULL_TURN - t
    };
    assert(0 <= IMPULSE_MULTIPLIER * error * gain <= 1000 * 180_000_000 * 0xffff_ffff)
        by (nonlinear_arith)
        requires
            0 <= error <= 180_000_000,
            0 <= gain <= 0xffff_ffff,
    ;
    let size: i128 = IMPULSE_MULTIPLIER as i128 * error as i128 * gain as i128;
    let torque_impulse: i128 = if t <= HALF_TURN {
        size
    } else {
        -size
    };
    Some(ExternalImpulse { impulse: IMPULSE_MULTIPLIER, torque_impulse })
}

/// Towards a course in the dead zone the ship neither pushes nor twists.
pub proof fn lemma_dead_zone_is_idle(turn: int, gain: int)
    requires
        DEAD_ZONE_START < turn < DEAD_ZONE_END,
    ensures
        steering(turn, gain) is None,
{
}

/// Outside the dead zone the ship always pushes, by the same amount, and the
/// twist it is given is the torque of the steering law, which fits with room
/// to spare.
pub proof fn lemma_thrust_outside_dead_zone(turn: int, gain: int)
    requires
        0 <= turn < FULL_TURN,
        0 <= gain <= u32::MAX,
        !in_dead_zone(turn),
    ensures
        steering(turn, gain) matches Some(i) && i.impulse == IMPULSE_MULTIPLIER && i.impulse > 0
            && i.torque_impulse == torque(turn, gain),
{
    let e = angular_error(turn);
    assert(0 <= IMPULSE_MULTIPLIER * e * gain <= 1000 * 180_000_000 * 0xffff_ffff)
        by (nonlinear_arith)
        requires
            0 <= e <= 180_000_000,
            0 <= gain <= 0xffff_ffff,
    ;
}

/// Outside the dead zone the twist turns the ship along the shorter arc:
/// none for a course straight ahead, the way bearings grow for a course to
/// the left, the other way for a course to the right. With a gain of zero
/// there is no twist at all.
pub proof fn lemma_torque_sign(turn: int, gain: int)
    requires
        0 <= turn < DEAD_ZONE_START || DEAD_ZONE_END < turn < FULL_TURN,
        gain >= 0,
    ensures
        side_of(turn) is Ahead || side_of(turn) is Left || side_of(turn) is Right,
        side_of(turn) is Ahead ==> torque(turn, gain) == 0,
        side_of(turn) is Left ==> torque(turn, gain) >= 0,
        side_of(turn) is Right ==> torque(turn, gain) <= 0,
        gain > 0 ==> (side_of(turn) is Left <==> torque(turn, gain) > 0),
        gain > 0 ==> (side_of(turn) is Right <==> torque(turn, gain) < 0),
{
    let e = angular_error(turn);
    assert(e > 0 && gain > 0 ==> IMPULSE_MULTIPLIER * e * gain > 0) by (nonlinear_arith);
    assert(e == 0 || gain == 0 ==> IMPULSE_MULTIPLIER * e * gain == 0) by (nonlinear_arith);
}

/// Outside the dead zone a larger angular error never gives a smaller twist,
/// and gives a larger one where the gain is not zero.
pub proof fn lemma_torque_grows_with_error(near: int, far: int, gain: int)
    requires
        0 <= near < DEAD_ZONE_START || DEAD_ZONE_END < near < FULL_TURN,
        0 <= far < DEAD_ZONE_START || DEAD_ZONE_END < far < FULL_TURN,
        angular_error(near) < angular_error(far),
        gain >= 0,
    ensures
        vstd::math::abs(torque(near, gain)) == IMPULSE_MULTIPLIER * angular_error(near) * gain,
        vstd::math::abs(torque(far, gain)) == IMPULSE_MULTIPLIER * angular_error(far) * gain,
        vstd::math::abs(torque(near, gain)) <= vstd::math::abs(torque(far, gain)),
        gain > 0 ==> vstd::math::abs(torque(near, gain)) < vstd::math::abs(torque(far, gain)),
{
    let a = angular_error(near);
    let b = angular_error(far);
    assert(IMPULSE_MULTIPLIER * a * gain <= IMPULSE_MULTIPLIER * b * gain) by (nonlinear_arith)
        requires
            0 <= a < b,
            gain >= 0,
    ;
    assert(gain > 0 ==> IMPULSE_MULTIPLIER * a * gain < IMPULSE_MULTIPLIER * b * gain)
        by (nonlinear_arith)
        requires
            0 <= a < b,
    ;
    assert(0 <= IMPULSE_MULTIPLIER * a * gain) by (nonlinear_arith)
        requires
            0 <= a,
            gain >= 0,
    ;
}

} // verus!
