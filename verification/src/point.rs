//! Points of the world and of the screen, in whole units.

use vstd::prelude::*;

verus! {

/// A point of the world. Y is up; the ground is the plane where Y is 0.
#[derive(Clone, Copy, Debug, PartialEq, Eq, Structural)]
pub struct WorldPoint {
    pub x: i64,
    pub y: i64,
    pub z: i64,
}

/// A point of the screen.
#[derive(Clone, Copy, Debug, PartialEq, Eq, Structural)]
pub struct ScreenPoint {
    pub x: i32,
    pub y: i32,
}

/// `value` where it fits between `low` and `high`, else the nearer of the
/// two.
pub open spec fn clamp(value: int, low: int, high: int) -> int {
    if value < low {
        low
    } else if value > high {
        high
    } else {
        value
    }
}

/// `value` held to what an `i32` can hold.
pub open spec fn clamp_i32(value: int) -> int {
    clamp(value, i32::MIN as int, i32::MAX as int)
}

/// `value` held to what an `i64` can hold.
pub open spec fn clamp_i64(value: int) -> int {
    clamp(value, i64::MIN as int, i64::MAX as int)
}

/// The sum of two screen coordinates, held to what an `i32` can hold.
pub fn add_i32(a: i32, b: i32) -> (sum: i32)
    ensures
        sum == clamp_i32(a + b),
{
    let wide: i64 = a as i64 + b as i64;
    if wide < i32::MIN as i64 {
        i32::MIN
    } else if wide > i32::MAX as i64 {
        i32::MAX
    } else {
        wide as i32
    }
}

/// The difference of two screen coordinates, held to what an `i32` can hold.
pub fn sub_i32(a: i32, b: i32) -> (difference: i32)
    ensures
        difference == clamp_i32(a - b),
{
    let wide: i64 = a as i64 - b as i64;
    if wide < i32::MIN as i64 {
        i32::MIN
    } else if wide > i32::MAX as i64 {
        i32::MAX
    } else {
        wide as i32
    }
}

impl WorldPoint {
    /// The point of the ground straight below or above `self`.
    pub open spec fn grounded(self) -> WorldPoint {
        WorldPoint { x: self.x, y: 0, z: self.z }
    }

    /// Projects the point onto the ground: X and Z stay, Y becomes 0.
    pub fn on_ground(self) -> (shadow: WorldPoint)
        ensures
            shadow == self.grounded(),
    {
        WorldPoint { x: self.x, y: 0, z: self.z }
    }
}

impl ScreenPoint {
    /// Where the pointer is after moving by `delta`. The screen's Y grows
    /// upwards and the pointer's downwards, so the Y of the motion is taken
    /// away. Each coordinate is held to what an `i32` can hold.
    pub open spec fn moved(self, delta: ScreenPoint) -> ScreenPoint {
        ScreenPoint {
            x: clamp_i32(self.x + delta.x) as i32,
            y: clamp_i32(self.y - delta.y) as i32,
        }
    }

    /// Moves the point by a pointer motion.
    pub fn move_by(self, delta: ScreenPoint) -> (after: ScreenPoint)
        ensures
            after == self.moved(delta),
    {
        ScreenPoint { x: add_i32(self.x, delta.x), y: sub_i32(self.y, delta.y) }
    }
}

} // verus!
