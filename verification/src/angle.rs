//! Bearings in the horizontal plane, counted in millionths of a degree.

use vstd::prelude::*;

verus! {

/// Microdegrees in a full turn.
pub const FULL_TURN: u32 = 360_000_000;

/// Microdegrees in half a turn.
pub const HALF_TURN: u32 = 180_000_000;

/// Microdegrees in one degree.
pub const DEGREE: u32 = 1_000_000;

/// A bearing about the vertical axis: 0 looks along +Z, a quarter turn along
/// +X, half a turn along -Z, three quarters along -X.
///
/// A bearing stands for the unit vector of the horizontal plane that points
/// that way, so two bearings are the same direction exactly when they are
/// equal.
#[derive(Clone, Copy, Debug, PartialEq, Eq, Structural)]
pub struct Angle {
    microdegrees: u32,
}

/// How far one has to turn, increasing the bearing, to get from `from` to
/// `to`: the result lies in `[0, FULL_TURN)`.
pub open spec fn turn_between(from: int, to: int) -> int {
    (to - from) % (FULL_TURN as int)
}

impl View for Angle {
    type V = int;

    closed spec fn view(&self) -> int {
        self.microdegrees as int
    }
}

impl Angle {
    #[verifier::type_invariant]
    spec fn in_range(self) -> bool {
        self.microdegrees < FULL_TURN
    }

    /// The bearing that is `microdegrees` round from +Z. It is meant for
    /// `0 <= microdegrees < FULL_TURN`.
    pub closed spec fn at(microdegrees: int) -> Angle {
        Angle { microdegrees: microdegrees as u32 }
    }

    /// A bearing is told by its microdegrees: `at` and the view undo each
    /// other.
    pub broadcast proof fn lemma_at_view(microdegrees: int)
        requires
            0 <= microdegrees < FULL_TURN,
        ensures
            (#[trigger] Angle::at(microdegrees))@ == microdegrees,
    {
    }

    /// Two bearings with the same microdegrees are the same bearing.
    pub proof fn lemma_view_tells(self, other: Angle)
        requires
            self@ == other@,
        ensures
            self == other,
            Angle::at(self@) == self,
    {
    }

    /// The bearing `raw` microdegrees round from +Z, whole turns dropped.
    pub fn from_microdegrees(raw: u32) -> (angle: Angle)
        ensures
            angle == Angle::at(raw as int % (FULL_TURN as int)),
            angle@ == raw as int % (FULL_TURN as int),
    {
        Angle { microdegrees: raw % FULL_TURN }
    }

    /// The bearing `degrees` whole degrees round from +Z, whole turns
    /// dropped.
    pub fn from_degrees(degrees: u32) -> (angle: Angle)
        ensures
            angle == Angle::at((degrees as int % 360) * DEGREE),
            angle@ == (degrees as int % 360) * DEGREE,
    {
        Angle { microdegrees: (degrees % 360) * DEGREE }
    }

    /// The bearing in microdegrees, below a full turn.
    pub fn microdegrees(&self) -> (raw: u32)
        ensures
            raw as int == self@,
            raw < FULL_TURN,
    {
        proof {
            use_type_invariant(self);
        }
        self.microdegrees
    }

    /// The turn that carries `self` onto `target`, going round through
    /// increasing bearings.
    pub fn turn_to(&self, target: Angle) -> (turn: Angle)
        ensures
            turn == Angle::at(turn_between(self@, target@)),
            turn@ == turn_between(self@, target@),
    {
        proof {
            use_type_invariant(self);
            use_type_invariant(&target);
        }
        if target.microdegrees >= self.microdegrees {
            Angle { microdegrees: target.microdegrees - self.microdegrees }
        } else {
            Angle { microdegrees: FULL_TURN - (self.microdegrees - target.microdegrees) }
        }
    }
}

} // verus!
