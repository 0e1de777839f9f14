//! The camera that keeps looking at the same spot beside the ship.

use crate::player::Gains;
use crate::point::{clamp_i64, WorldPoint};
use vstd::prelude::*;

verus! {

/// How far the camera may be off, in world units, before it is moved.
pub const FOLLOW_TOLERANCE: u32 = 1;

/// A camera that follows a target.
#[derive(Clone, Copy, Debug, PartialEq, Eq)]
pub struct PidCamera {
    /// Gains for a smoother pursuit. The camera does not use them yet.
    pub pid: Gains,
    /// The way from the camera to the point of the ground it looks at,
    /// found when the camera first follows and kept from then on.
    pub offset: Option<WorldPoint>,
}

/// The size of a number.
pub open spec fn size(n: int) -> int {
    if n < 0 {
        -n
    } else {
        n
    }
}

/// `n` divided by `d`, rounded towards zero. It is meant for `d != 0`.
pub open spec fn toward_zero(n: int, d: int) -> int {
    if d == 0 {
        0
    } else if (n >= 0) == (d > 0) {
        size(n) / size(d)
    } else {
        -(size(n) / size(d))
    }
}

/// How far along one axis a line of sight has gone when it meets the ground.
/// The line starts `height` above the ground and goes `step` along the axis
/// for every `rise` upwards, so it meets the ground at `-height * step /
/// rise`, which is rounded towards zero and held to what an `i64` can hold.
pub open spec fn reach(height: int, step: int, rise: int) -> int {
    clamp_i64(toward_zero(-height * step, rise))
}

/// The way from a camera at `translation` that looks along `direction` to the
/// point where its line of sight meets the ground. A camera that looks level
/// meets the ground nowhere. The length of `direction` does not matter.
pub open spec fn ground_offset(translation: WorldPoint, direction: WorldPoint) -> Option<
    WorldPoint,
> {
    if direction.y == 0 {
        None
    } else {
        Some(
            WorldPoint {
                x: reach(translation.y as int, direction.x as int, direction.y as int) as i64,
                y: clamp_i64(-translation.y) as i64,
                z: reach(translation.y as int, direction.z as int, direction.y as int) as i64,
            },
        )
    }
}

/// Whether a camera at `translation` with the given `offset` is off its
/// `target` by more than the tolerance. The distance is measured between the
/// camera and the point that lies `offset` beyond the target.
pub open spec fn off_target(target: WorldPoint, offset: WorldPoint, translation: WorldPoint) -> bool {
    let dx = target.x + offset.x - translation.x;
    let dy = target.y + offset.y - translation.y;
    let dz = target.z + offset.z - translation.z;
    dx * dx + dy * dy + dz * dz > FOLLOW_TOLERANCE * FOLLOW_TOLERANCE
}

/// The place that the camera is moved to: the target less the offset, each
/// coordinate held to what an `i64` can hold.
pub open spec fn station(target: WorldPoint, offset: WorldPoint) -> WorldPoint {
    WorldPoint {
        x: clamp_i64(target.x - offset.x) as i64,
        y: clamp_i64(target.y - offset.y) as i64,
        z: clamp_i64(target.z - offset.z) as i64,
    }
}

/// The camera and its place after it has followed. Without a target nothing
/// changes. A camera without an offset takes the way to the point of the
/// ground it looks at, if there is one, and keeps it. A camera with an
/// offset that is off its target moves to its station.
pub open spec fn followed(
    camera: PidCamera,
    translation: WorldPoint,
    direction: WorldPoint,
    target: Option<WorldPoint>,
) -> (PidCamera, WorldPoint) {
    match target {
        None => (camera, translation),
        Some(target) => {
            let offset = match camera.offset {
                Some(o) => Some(o),
                None => ground_offset(translation, direction),
            };
            match offset {
                None => (camera, translation),
                Some(o) => (
                    PidCamera { offset: Some(o), ..camera },
                    if off_target(target, o, translation) {
                        station(target, o)
                    } else {
                        translation
                    },
                ),
            }
        },
    }
}

/// A whole number as wide as the work needs, held to what an `i64` can hold.
fn narrow(wide: i128) -> (held: i64)
    ensures
        held == clamp_i64(wide as int),
{
    if wide < i64::MIN as i128 {
        i64::MIN
    } else if wide > i64::MAX as i128 {
        i64::MAX
    } else {
        wide as i64
    }
}

/// How far along one axis a line of sight from `height` above the ground
/// has gone when it meets the ground.
fn reach_of(height: i64, step: i64, rise: i64) -> (coordinate: i64)
    requires
        rise != 0,
    ensures
        coordinate == reach(height as int, step as int, rise as int),
{
    assert(-0x4000_0000_0000_0000_0000_0000_0000_0000 <= -(height as int) * (step as int)
        <= 0x4000_0000_0000_0000_0000_0000_0000_0000) by (nonlinear_arith)
        requires
            -0x8000_0000_0000_0000 <= height <= 0x7fff_ffff_ffff_ffff,
            -0x8000_0000_0000_0000 <= step <= 0x7fff_ffff_ffff_ffff,
    ;
    let n: i128 = -(height as i128) * (step as i128);
    let n_size: u128 = if n < 0 {
        (-n) as u128
    } else {
        n as u128
    };
    let d_size: u128 = if rise < 0 {
        (-(rise as i128)) as u128
    } else {
        rise as u128
    };
    let q: u128 = n_size / d_size;
    assert(q <= n_size) by (nonlinear_arith)
        requires
            q == n_size / d_size,
            d_size >= 1,
    ;
    if (n >= 0) == (rise > 0) {
        narrow(q as i128)
    } else {
        narrow(-(q as i128))
    }
}

/// For whole numbers a distance is more than one unit exactly when the
/// sizes of its three parts add up to more than one: so the camera is off
/// its target unless it is on the measured spot or one unit beside it along
/// one axis.
pub proof fn lemma_off_target_by_sizes(
    target: WorldPoint,
    offset: WorldPoint,
    translation: WorldPoint,
)
    ensures
        off_target(target, offset, translation) == (size(
            target.x + offset.x - translation.x,
        ) + size(target.y + offset.y - translation.y) + size(
            target.z + offset.z - translation.z,
        ) > 1),
{
    let dx = target.x + offset.x - translation.x;
    let dy = target.y + offset.y - translation.y;
    let dz = target.z + offset.z - translation.z;
    assert((dx * dx + dy * dy + dz * dz > 1) == (size(dx) + size(dy) + size(dz) > 1))
        by (nonlinear_arith);
}

/// Whether the camera is off its target by more than the tolerance.
fn is_off_target(target: WorldPoint, offset: WorldPoint, translation: WorldPoint) -> (off: bool)
    ensures
        off == off_target(target, offset, translation),
{
    let dx: i128 = target.x as i128 + offset.x as i128 - translation.x as i128;
    let dy: i128 = target.y as i128 + offset.y as i128 - translation.y as i128;
    let dz: i128 = target.z as i128 + offset.z as i128 - translation.z as i128;
    let ax: i128 = if dx < 0 {
        -dx
    } else {
        dx
    };
    let ay: i128 = if dy < 0 {
        -dy
    } else {
        dy
    };
    let az: i128 = if dz < 0 {
        -dz
    } else {
        dz
    };
    proof {
        lemma_off_target_by_sizes(target, offset, translation);
    }
    ax + ay + az > 1
}

/// Lets the camera at `translation`, which looks along `direction`, follow
/// `target`, the place of what it follows, if there is such a thing.
pub fn follow_target(
    camera: &mut PidCamera,
    translation: &mut WorldPoint,
    direction: WorldPoint,
    target: Option<WorldPoint>,
)
    ensures
        (*final(camera), *final(translation)) == followed(
            *old(camera),
            *old(translation),
            direction,
            target,
        ),
{
    let target = match target {
        Some(target) => target,
        None => {
            return ;
        },
    };
    let offset = match camera.offset {
        Some(o) => o,
        None => {
            if direction.y == 0 {
                return ;
            }
            let o = WorldPoint {
                x: reach_of(translation.y, direction.x, direction.y),
                y: narrow(-(translation.y as i128)),
                z: reach_of(translation.y, direction.z, direction.y),
            };
            camera.offset = Some(o);
            o
        },
    };
    if is_off_target(target, offset, *translation) {
        *translation = WorldPoint {
            x: narrow(target.x as i128 - offset.x as i128),
            y: narrow(target.y as i128 - offset.y as i128),
            z: narrow(target.z as i128 - offset.z as i128),
        };
    }
}

} // verus!
