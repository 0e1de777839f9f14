//! Reading the keys and the crosshair of one tick into commands.

use crate::angle::{Angle, DEGREE};
use crate::crosshair::Crosshair;
use crate::player::PlayerControlCommand;
use vstd::prelude::*;

verus! {

/// Which of the four direction keys are held down.
#[derive(Clone, Copy, Debug, PartialEq, Eq, Structural)]
pub struct KeyInput {
    /// Towards +Z.
    pub forward: bool,
    /// Towards +X.
    pub left: bool,
    /// Towards -Z.
    pub back: bool,
    /// Towards -X.
    pub right: bool,
}

/// What two opposite keys add up to along their axis: 1, 0 or -1.
pub open spec fn axis(plus: bool, minus: bool) -> int {
    (if plus {
        1int
    } else {
        0int
    }) - (if minus {
        1int
    } else {
        0int
    })
}

/// The bearing, in whole degrees, of the direction with the given steps
/// along X and Z, each 1, 0 or -1; nothing for no direction at all. The
/// eight directions lie an eighth of a turn apart, so the bearing of each
/// is exact, and it is the bearing of the direction made one unit long.
pub open spec fn course_degrees(x: int, z: int) -> Option<int> {
    if x == 0 && z > 0 {
        Some(0)
    } else if x > 0 && z > 0 {
        Some(45)
    } else if x > 0 && z == 0 {
        Some(90)
    } else if x > 0 && z < 0 {
        Some(135)
    } else if x == 0 && z < 0 {
        Some(180)
    } else if x < 0 && z < 0 {
        Some(225)
    } else if x < 0 && z == 0 {
        Some(270)
    } else if x < 0 && z > 0 {
        Some(315)
    } else {
        None
    }
}

/// The bearing that the held keys ask for, in whole degrees.
pub open spec fn course_of(keys: KeyInput) -> Option<int> {
    course_degrees(axis(keys.left, keys.right), axis(keys.forward, keys.back))
}

/// The move command of a tick: one, on the bearing that the keys add up
/// to, unless they add up to nothing.
pub open spec fn move_commands(keys: KeyInput) -> Seq<PlayerControlCommand> {
    match course_of(keys) {
        Some(degrees) => seq![PlayerControlCommand::Move(Angle::at(degrees * DEGREE))],
        None => seq![],
    }
}

/// The aim command of a tick: one, at the crosshair's place in the world,
/// if there is a crosshair and that place has changed since commands were
/// last read.
pub open spec fn aim_commands(crosshair: Option<Crosshair>) -> Seq<PlayerControlCommand> {
    match crosshair {
        Some(c) => match c.world_pos {
            Some(point) if c.world_pos_changed => seq![PlayerControlCommand::Aim(point)],
            _ => seq![],
        },
        None => seq![],
    }
}

/// The crosshair after its place in the world has been read.
pub open spec fn seen(crosshair: Option<Crosshair>) -> Option<Crosshair> {
    match crosshair {
        Some(c) => Some(Crosshair { world_pos_changed: false, ..c }),
        None => None,
    }
}

/// The bearing that the held keys ask for.
pub fn course(keys: KeyInput) -> (bearing: Option<Angle>)
    ensures
        bearing == match course_of(keys) {
            Some(degrees) => Some(Angle::at(degrees * DEGREE)),
            None => None,
        },
{
    let x: i8 = (if keys.left {
        1i8
    } else {
        0i8
    }) - (if keys.right {
        1i8
    } else {
        0i8
    });
    let z: i8 = (if keys.forward {
        1i8
    } else {
        0i8
    }) - (if keys.back {
        1i8
    } else {
        0i8
    });
    if x == 0 && z == 0 {
        return None;
    }
    let degrees: u32 = if x == 0 {
        if z > 0 {
            0
        } else {
            180
        }
    } else if x > 0 {
        if z > 0 {
            45
        } else if z == 0 {
            90
        } else {
            135
        }
    } else {
        if z < 0 {
            225
        } else if z == 0 {
            270
        } else {
            315
        }
    };
    Some(Angle::from_degrees(degrees))
}

/// Reads one tick's input into commands: first the move, if the keys ask
/// for one, then the aim, if the crosshair's place in the world has changed.
/// Reading the aim marks the change as seen. It does not matter whether
/// there is a player, nor whether there is a crosshair yet.
pub fn read_input(keys: KeyInput, crosshair: &mut Option<Crosshair>) -> (commands: Vec<
    PlayerControlCommand,
>)
    ensures
        commands@ == move_commands(keys) + aim_commands(*old(crosshair)),
        *final(crosshair) == seen(*old(crosshair)),
{
    let mut commands: Vec<PlayerControlCommand> = Vec::new();
    match course(keys) {
        Some(bearing) => {
            commands.push(PlayerControlCommand::Move(bearing));
        },
        None => {},
    }
    match *crosshair {
        Some(c) => {
            if c.world_pos_changed {
                match c.world_pos {
                    Some(point) => {
                        commands.push(PlayerControlCommand::Aim(point));
                    },
                    None => {},
                }
            }
            let mut after = c;
            after.world_pos_changed = false;
            *crosshair = Some(after);
        },
        None => {},
    }
    commands
}

} // verus!
