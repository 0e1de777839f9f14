//! The crosshair: a mark on the screen that follows the pointer while it is
//! active, and the point of the ground that lies under it.

use crate::point::{add_i32, sub_i32, ScreenPoint, WorldPoint};
use vstd::prelude::*;

verus! {

/// The side of the crosshair's mark when it is spawned.
pub const ICON_SIZE: u32 = 50;

/// How the window holds the pointer.
#[derive(Clone, Copy, Debug, PartialEq, Eq, Structural)]
pub enum CursorGrabMode {
    Free,
    Locked,
}

/// What is asked of the window about its pointer.
#[derive(Clone, Copy, Debug, PartialEq, Eq, Structural)]
pub struct Cursor {
    pub visible: bool,
    pub grab_mode: CursorGrabMode,
}

/// What the window reports: where its pointer is, if it is inside, and how
/// large the window is.
#[derive(Clone, Copy, Debug, PartialEq, Eq)]
pub struct Window {
    pub cursor_position: Option<ScreenPoint>,
    pub width: u32,
    pub height: u32,
}

/// The mark that shows the crosshair. A length or an offset that is not
/// given in screen units is `None`.
#[derive(Clone, Copy, Debug, PartialEq, Eq)]
pub struct Icon {
    pub visible: bool,
    pub width: Option<u32>,
    pub height: Option<u32>,
    /// The offset of the mark from the left edge of the window.
    pub left: Option<i32>,
    /// The offset of the mark from the bottom edge of the window.
    pub bottom: Option<i32>,
}

/// The crosshair.
#[derive(Clone, Copy, Debug, PartialEq, Eq)]
pub struct Crosshair {
    /// Whether the crosshair has the pointer.
    pub active: bool,
    /// Where the pointer is taken to be: where it was when the crosshair
    /// first took it, moved by every motion since.
    pub last_pos: Option<ScreenPoint>,
    /// The point of the ground under the crosshair, once a ray has hit.
    pub world_pos: Option<WorldPoint>,
    /// Whether `world_pos` has changed since commands were last read.
    pub world_pos_changed: bool,
    pub icon: Icon,
}

/// What the pointer's motions of one tick came to.
#[derive(Clone, Copy, Debug, PartialEq, Eq)]
pub struct Motion {
    /// Where the ray is to be cast from now on, if the crosshair has moved.
    pub cast_at: Option<ScreenPoint>,
    /// How many motions could not be followed and call for a warning.
    pub warnings: usize,
}

/// The crosshair as it is spawned: active, its mark hidden and not placed
/// yet, nothing known of pointer or ground.
pub open spec fn fresh_crosshair() -> Crosshair {
    Crosshair {
        active: true,
        last_pos: None,
        world_pos: None,
        world_pos_changed: false,
        icon: Icon {
            visible: false,
            width: Some(ICON_SIZE),
            height: Some(ICON_SIZE),
            left: None,
            bottom: None,
        },
    }
}

/// Half of a length, or nothing where the length is not given.
pub open spec fn half(length: Option<u32>) -> int {
    match length {
        Some(l) => l as int / 2,
        None => 0,
    }
}

/// Where the pointer is taken to be when the crosshair first takes it: where
/// the window reports it, or the middle of the window.
pub open spec fn pointer_of(window: Window) -> ScreenPoint {
    match window.cursor_position {
        Some(p) => p,
        None => ScreenPoint { x: (window.width / 2) as i32, y: (window.height / 2) as i32 },
    }
}

/// What an active crosshair asks of the window, and what an inactive one.
pub open spec fn cursor_for(active: bool) -> Cursor {
    if active {
        Cursor { visible: false, grab_mode: CursorGrabMode::Locked }
    } else {
        Cursor { visible: true, grab_mode: CursorGrabMode::Free }
    }
}

/// The crosshair after it has been brought up to date. An inactive one is
/// hidden. An active one is shown, and one that has no pointer position yet
/// takes the window's and centres its mark on it.
pub open spec fn updated(c: Crosshair, window: Window) -> Crosshair {
    if !c.active {
        Crosshair { icon: Icon { visible: false, ..c.icon }, ..c }
    } else if c.last_pos is Some {
        Crosshair { icon: Icon { visible: true, ..c.icon }, ..c }
    } else {
        let p = pointer_of(window);
        Crosshair {
            last_pos: Some(p),
            icon: Icon {
                visible: true,
                left: Some(crate::point::clamp_i32(p.x - half(c.icon.width)) as i32),
                bottom: Some(crate::point::clamp_i32(p.y - half(c.icon.height)) as i32),
                ..c.icon
            },
            ..c
        }
    }
}

/// Whether the crosshair can follow the pointer: it must be active, know
/// where the pointer was, and have its mark placed.
pub open spec fn follows(c: Crosshair) -> bool {
    c.active && c.last_pos is Some && c.icon.left is Some && c.icon.bottom is Some
}

/// The crosshair after one motion of the pointer. One that cannot follow
/// stays as it is.
pub open spec fn nudged(c: Crosshair, delta: ScreenPoint) -> Crosshair {
    if follows(c) {
        Crosshair {
            last_pos: Some(c.last_pos->0.moved(delta)),
            icon: Icon {
                left: Some(crate::point::clamp_i32(c.icon.left->0 + delta.x) as i32),
                bottom: Some(crate::point::clamp_i32(c.icon.bottom->0 - delta.y) as i32),
                ..c.icon
            },
            ..c
        }
    } else {
        c
    }
}

/// The crosshair after a run of motions, in their order.
pub open spec fn trailed(c: Crosshair, deltas: Seq<ScreenPoint>) -> Crosshair
    decreases deltas.len(),
{
    if deltas.len() == 0 {
        c
    } else {
        nudged(trailed(c, deltas.drop_last()), deltas.last())
    }
}

/// What a run of motions comes to for the crosshair `c`: an inactive one
/// ignores them, one that follows casts its ray from where it ends up, and
/// an active one that cannot follow calls for a warning each time.
pub open spec fn motion_of(c: Crosshair, deltas: Seq<ScreenPoint>) -> Motion {
    if follows(c) && deltas.len() > 0 {
        Motion { cast_at: trailed(c, deltas).last_pos, warnings: 0 }
    } else if c.active {
        Motion { cast_at: None, warnings: deltas.len() as usize }
    } else {
        Motion { cast_at: None, warnings: 0 }
    }
}

/// The crosshair after a ray has or has not hit the ground: a hit is
/// projected onto the ground and kept, and counts as a change if the point
/// differs from the one kept before.
pub open spec fn resolved(c: Crosshair, hit: Option<WorldPoint>) -> Crosshair {
    match hit {
        Some(point) => Crosshair {
            world_pos: Some(point.grounded()),
            world_pos_changed: c.world_pos_changed || c.world_pos != Some(point.grounded()),
            ..c
        },
        None => c,
    }
}

/// Following keeps what following needs: after a motion the crosshair
/// follows exactly if it did before.
pub proof fn lemma_trailed_follows(c: Crosshair, deltas: Seq<ScreenPoint>)
    ensures
        follows(trailed(c, deltas)) == follows(c),
        trailed(c, deltas).active == c.active,
        !follows(c) ==> trailed(c, deltas) == c,
    decreases deltas.len(),
{
    if deltas.len() > 0 {
        lemma_trailed_follows(c, deltas.drop_last());
    }
}

impl Crosshair {
    /// The crosshair as it is spawned.
    pub fn new() -> (crosshair: Crosshair)
        ensures
            crosshair == fresh_crosshair(),
    {
        Crosshair {
            active: true,
            last_pos: None,
            world_pos: None,
            world_pos_changed: false,
            icon: Icon {
                visible: false,
                width: Some(ICON_SIZE),
                height: Some(ICON_SIZE),
                left: None,
                bottom: None,
            },
        }
    }

    /// Takes in the two triggers of one tick: the primary one activates the
    /// crosshair, the cancelling one deactivates it, and where both come
    /// together the crosshair ends up inactive.
    pub fn read_triggers(&mut self, primary: bool, cancel: bool)
        ensures
            *final(self) == (Crosshair {
                active: if cancel {
                    false
                } else if primary {
                    true
                } else {
                    old(self).active
                },
                ..*old(self)
            }),
    {
        if primary {
            self.active = true;
        }
        if cancel {
            self.active = false;
        }
    }

    /// Brings the crosshair up to date with its own state and returns what
    /// to ask of the window: an active crosshair hides and locks the
    /// pointer, an inactive one frees it.
    pub fn update_crosshair(&mut self, window: Window) -> (cursor: Cursor)
        ensures
            *final(self) == updated(*old(self), window),
            cursor == cursor_for(old(self).active),
    {
        if self.active {
            self.icon.visible = true;
            if self.last_pos.is_none() {
                let p = match window.cursor_position {
                    Some(p) => p,
                    None => ScreenPoint {
                        x: (window.width / 2) as i32,
                        y: (window.height / 2) as i32,
                    },
                };
                self.last_pos = Some(p);
                let w: i32 = match self.icon.width {
                    Some(l) => (l / 2) as i32,
                    None => 0,
                };
                let h: i32 = match self.icon.height {
                    Some(l) => (l / 2) as i32,
                    None => 0,
                };
                self.icon.left = Some(sub_i32(p.x, w));
                self.icon.bottom = Some(sub_i32(p.y, h));
            }
            Cursor { visible: false, grab_mode: CursorGrabMode::Locked }
        } else {
            self.icon.visible = false;
            Cursor { visible: true, grab_mode: CursorGrabMode::Free }
        }
    }

    /// Follows the pointer's motions of one tick, in their order.
    pub fn move_crosshair(&mut self, deltas: &Vec<ScreenPoint>) -> (motion: Motion)
        ensures
            *final(self) == trailed(*old(self), deltas@),
            motion == motion_of(*old(self), deltas@),
    {
        proof {
            lemma_trailed_follows(*old(self), deltas@);
        }
        if !self.active {
            return Motion { cast_at: None, warnings: 0 };
        }
        match (self.last_pos, self.icon.left, self.icon.bottom) {
            (Some(start), Some(left), Some(bottom)) => {
                let mut at = start;
                let mut left = left;
                let mut bottom = bottom;
                let mut i: usize = 0;
                while i < deltas.len()
                    invariant
                        i <= deltas.len(),
                        follows(*old(self)),
                        *self == *old(self),
                        trailed(*old(self), deltas@.take(i as int)) == (Crosshair {
                            last_pos: Some(at),
                            icon: Icon { left: Some(left), bottom: Some(bottom), ..old(self).icon },
                            ..*old(self)
                        }),
                    decreases deltas.len() - i,
                {
                    assert(deltas@.take(i + 1).drop_last() == deltas@.take(i as int));
                    let delta = deltas[i];
                    at = at.move_by(delta);
                    left = add_i32(left, delta.x);
                    bottom = sub_i32(bottom, delta.y);
                    i += 1;
                }
                assert(deltas@.take(i as int) == deltas@);
                self.last_pos = Some(at);
                self.icon.left = Some(left);
                self.icon.bottom = Some(bottom);
                if deltas.len() > 0 {
                    Motion { cast_at: Some(at), warnings: 0 }
                } else {
                    Motion { cast_at: None, warnings: 0 }
                }
            },
            _ => Motion { cast_at: None, warnings: deltas.len() },
        }
    }

    /// Takes in what the ray under the crosshair hit, if anything: the hit
    /// is projected onto the ground and kept as the crosshair's place in the
    /// world. Without a hit nothing changes.
    pub fn update_crosshair_world_pos(&mut self, hit: Option<WorldPoint>)
        ensures
            *final(self) == resolved(*old(self), hit),
    {
        match hit {
            Some(point) => {
                let shadow = point.on_ground();
                let same = match self.world_pos {
                    Some(before) => before == shadow,
                    None => false,
                };
                if !same {
                    self.world_pos_changed = true;
                }
                self.world_pos = Some(shadow);
            },
            None => {},
        }
    }
}

} // verus!
