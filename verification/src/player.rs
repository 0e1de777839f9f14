//! The player: at most one ship, and the commands that fly it.

use crate::angle::{turn_between, Angle, FULL_TURN};
use crate::crosshair::{fresh_crosshair, Crosshair};
use crate::point::WorldPoint;
use crate::steering::{
    in_dead_zone, lemma_thrust_outside_dead_zone, steer, steering, torque, ExternalImpulse,
    IMPULSE_MULTIPLIER, UNIT_GAIN,
};
use bevy::ecs::entity::Entity;
use vstd::prelude::*;

verus! {

/// The side of the square of ground that the crosshair's ray is cast at.
pub const GROUND_SIZE: u32 = 1_000_000;

/// What the player feature is set up with. There is nothing to choose yet.
#[derive(Clone, Copy, Debug)]
pub struct PlayerSettings;

impl Default for PlayerSettings {
    fn default() -> PlayerSettings {
        PlayerSettings
    }
}

/// Commands about the player's existence.
#[derive(Clone, Copy, Debug, PartialEq, Eq, Structural)]
pub enum PlayerCommand {
    Spawn,
    Despawn,
}

/// Commands that fly the ship.
#[derive(Clone, Copy, Debug, PartialEq, Eq, Structural)]
pub enum PlayerControlCommand {
    /// Face the given point of the world.
    Aim(WorldPoint),
    /// Make way on the given bearing.
    Move(Angle),
    Fire,
    CycleWeapon,
    Shield,
}

/// Steering gains in thousandths, one for each axis. Only `x` is in use.
#[derive(Clone, Copy, Debug, PartialEq, Eq, Structural)]
pub struct Gains {
    pub x: u32,
    pub y: u32,
    pub z: u32,
}

/// What the ship carries besides its body.
#[derive(Clone, Copy, Debug, PartialEq, Eq, Structural)]
pub struct PlayerComponent {
    pub steering_pid: Gains,
}

/// Where the ship is and which way its bow points.
#[derive(Clone, Copy, Debug, PartialEq, Eq, Structural)]
pub struct Pose {
    pub translation: WorldPoint,
    pub heading: Angle,
}

/// The ship as the control loop sees it.
#[derive(Clone, Copy, Debug, PartialEq, Eq)]
pub struct PlayerBody {
    /// As the physics last reported it. The control loop only reads it.
    pub pose: Pose,
    pub component: PlayerComponent,
    /// What the physics is to apply at its next step.
    pub impulse: ExternalImpulse,
    /// The point to face at the next facing computation, once one was given.
    pub aim: Option<WorldPoint>,
}

/// The one player there is: the engine's handle and the body behind it.
#[derive(Clone, Copy, Debug)]
pub struct Player {
    pub entity: Entity,
    pub body: PlayerBody,
}

/// What comes into the world with the player.
#[derive(Clone, Copy, Debug, PartialEq, Eq)]
pub struct SpawnPlan {
    /// The ship.
    pub body: PlayerBody,
    /// The crosshair: active, its mark hidden until it is first brought up
    /// to date.
    pub crosshair: Crosshair,
    /// The side of the square of ground, unseen, that the crosshair's ray
    /// is cast at. It spans the whole field of play.
    pub ground_size: u32,
}

/// What is to be done about a `PlayerCommand`.
#[derive(Clone, Copy, Debug, PartialEq, Eq)]
pub enum PlayerAction {
    /// Spawn what the plan names, then register the ship.
    Spawn(SpawnPlan),
    /// Log one warning that names the command, and do nothing else.
    Warn(PlayerCommand),
}

/// What became of a `PlayerControlCommand`.
#[derive(Clone, Copy, Debug, PartialEq, Eq, Structural)]
pub enum ControlOutcome {
    /// There is no player: the command was dropped without a word.
    NoPlayer,
    /// The course lies in the dead zone: no impulse was set.
    Idle,
    /// The impulse was set to this.
    Steered(ExternalImpulse),
    /// The aim was recorded.
    Aimed,
    /// The command is not supported yet: it was dropped with one warning.
    Unsupported,
}

/// The body of a ship that has just been spawned: at the origin, bow to +Z,
/// every gain 1, no impulse waiting and no aim.
pub open spec fn fresh_body() -> PlayerBody {
    PlayerBody {
        pose: Pose { translation: WorldPoint { x: 0, y: 0, z: 0 }, heading: Angle::at(0) },
        component: PlayerComponent {
            steering_pid: Gains { x: UNIT_GAIN, y: UNIT_GAIN, z: UNIT_GAIN },
        },
        impulse: ExternalImpulse { impulse: 0, torque_impulse: 0 },
        aim: None,
    }
}

/// No push and no twist.
pub open spec fn no_impulse() -> ExternalImpulse {
    ExternalImpulse { impulse: 0, torque_impulse: 0 }
}

/// The impulse that waits for the physics: that of the player's body,
/// unless there is no player or the body's impulse is none at all.
pub open spec fn waiting(current: Option<Player>) -> Option<ExternalImpulse> {
    match current {
        Some(player) if player.body.impulse != no_impulse() => Some(player.body.impulse),
        _ => None,
    }
}

/// What comes into the world with every player.
pub open spec fn spawn_plan() -> SpawnPlan {
    SpawnPlan { body: fresh_body(), crosshair: fresh_crosshair(), ground_size: GROUND_SIZE }
}

/// What is to be done about `cmd`: a spawn goes ahead if there is no player,
/// and everything else is answered with a warning.
pub open spec fn action_for(has_player: bool, cmd: PlayerCommand) -> PlayerAction {
    if cmd is Spawn && !has_player {
        PlayerAction::Spawn(spawn_plan())
    } else {
        PlayerAction::Warn(cmd)
    }
}

/// The registry after a ship with the handle `entity` asked to be the
/// player: it is, with a fresh body, if there was none; else nothing changes.
pub open spec fn registered(current: Option<Player>, entity: Entity) -> Option<Player> {
    match current {
        Some(player) => Some(player),
        None => Some(Player { entity, body: fresh_body() }),
    }
}

/// How far round from the bow of `body` the bearing `course` lies.
pub open spec fn off_bow(body: PlayerBody, course: Angle) -> int {
    turn_between(body.pose.heading@, course@)
}

/// The body after one command. A move sets the impulse by the steering law,
/// unless the course lies in the dead zone; an aim is recorded; the other
/// commands leave the body alone.
pub open spec fn applied(body: PlayerBody, cmd: PlayerControlCommand) -> PlayerBody {
    match cmd {
        PlayerControlCommand::Move(course) => match steering(
            off_bow(body, course),
            body.component.steering_pid.x as int,
        ) {
            Some(impulse) => PlayerBody { impulse, ..body },
            None => body,
        },
        PlayerControlCommand::Aim(point) => PlayerBody { aim: Some(point), ..body },
        _ => body,
    }
}

/// What is reported of one command applied to `body`.
pub open spec fn outcome_of(body: PlayerBody, cmd: PlayerControlCommand) -> ControlOutcome {
    match cmd {
        PlayerControlCommand::Move(course) => match steering(
            off_bow(body, course),
            body.component.steering_pid.x as int,
        ) {
            Some(impulse) => ControlOutcome::Steered(impulse),
            None => ControlOutcome::Idle,
        },
        PlayerControlCommand::Aim(_) => ControlOutcome::Aimed,
        _ => ControlOutcome::Unsupported,
    }
}

/// The body after a run of commands, applied in their order.
pub open spec fn applied_all(body: PlayerBody, cmds: Seq<PlayerControlCommand>) -> PlayerBody
    decreases cmds.len(),
{
    if cmds.len() == 0 {
        body
    } else {
        applied(applied_all(body, cmds.drop_last()), cmds.last())
    }
}

/// Whether the ship can carry out a command. It cannot fire, change
/// weapons or raise a shield yet.
pub open spec fn supported(cmd: PlayerControlCommand) -> bool {
    cmd is Move || cmd is Aim
}

/// The commands of a run that are not supported, in their order.
pub open spec fn unsupported(cmds: Seq<PlayerControlCommand>) -> Seq<PlayerControlCommand> {
    cmds.filter(|cmd: PlayerControlCommand| !supported(cmd))
}

impl PlayerBody {
    /// The body of a ship that has just been spawned.
    pub fn new() -> (body: PlayerBody)
        ensures
            body == fresh_body(),
    {
        PlayerBody {
            pose: Pose {
                translation: WorldPoint { x: 0, y: 0, z: 0 },
                heading: Angle::from_microdegrees(0),
            },
            component: PlayerComponent {
                steering_pid: Gains { x: UNIT_GAIN, y: UNIT_GAIN, z: UNIT_GAIN },
            },
            impulse: ExternalImpulse { impulse: 0, torque_impulse: 0 },
            aim: None,
        }
    }

    /// Applies one command to the body and reports what became of it.
    pub fn apply_control(&mut self, cmd: PlayerControlCommand) -> (outcome: ControlOutcome)
        ensures
            *final(self) == applied(*old(self), cmd),
            outcome == outcome_of(*old(self), cmd),
    {
        match cmd {
            PlayerControlCommand::Move(course) => {
                let turn = self.pose.heading.turn_to(course);
                match steer(turn, self.component.steering_pid.x) {
                    Some(impulse) => {
                        self.impulse = impulse;
                        ControlOutcome::Steered(impulse)
                    },
                    None => ControlOutcome::Idle,
                }
            },
            PlayerControlCommand::Aim(point) => {
                self.aim = Some(point);
                ControlOutcome::Aimed
            },
            _ => ControlOutcome::Unsupported,
        }
    }
}

/// The registry of the current player. There is at most one: a second ship
/// is never registered, and nothing replaces the first.
pub struct PlayerState {
    current: Option<Player>,
}

impl View for PlayerState {
    type V = Option<Player>;

    closed spec fn view(&self) -> Option<Player> {
        self.current
    }
}

impl Default for PlayerState {
    fn default() -> (state: PlayerState)
        ensures
            state@ is None,
    {
        PlayerState { current: None }
    }
}

impl PlayerState {
    /// A registry without a player.
    pub fn new() -> (state: PlayerState)
        ensures
            state@ is None,
    {
        PlayerState { current: None }
    }

    /// The handle of the current player.
    pub fn current(&self) -> (handle: Option<Entity>)
        ensures
            handle == match self@ {
                Some(player) => Some(player.entity),
                None => None,
            },
    {
        match self.current {
            Some(player) => Some(player.entity),
            None => None,
        }
    }

    /// The body of the current player.
    pub fn body(&self) -> (body: Option<PlayerBody>)
        ensures
            body == match self@ {
                Some(player) => Some(player.body),
                None => None,
            },
    {
        match self.current {
            Some(player) => Some(player.body),
            None => None,
        }
    }

    /// Decides what is to be done about `cmd`. The registry itself does not
    /// change: after `PlayerAction::Spawn` the caller spawns the ship and
    /// hands its handle to `register`.
    pub fn handle_cmd(&self, cmd: PlayerCommand) -> (action: PlayerAction)
        ensures
            action == action_for(self@ is Some, cmd),
    {
        match (cmd, &self.current) {
            (PlayerCommand::Spawn, None) => PlayerAction::Spawn(
                SpawnPlan {
                    body: PlayerBody::new(),
                    crosshair: Crosshair::new(),
                    ground_size: GROUND_SIZE,
                },
            ),
            _ => PlayerAction::Warn(cmd),
        }
    }

    /// Makes `entity` the current player, with a fresh body, if there is
    /// none. If there is one, nothing changes and `false` is returned.
    pub fn register(&mut self, entity: Entity) -> (accepted: bool)
        ensures
            accepted == (old(self)@ is None),
            final(self)@ == registered(old(self)@, entity),
    {
        match self.current {
            Some(_) => false,
            None => {
                self.current = Some(Player { entity, body: PlayerBody::new() });
                true
            },
        }
    }

    /// Takes in the pose that the physics reports for the player. Without a
    /// player nothing happens.
    pub fn set_pose(&mut self, pose: Pose)
        ensures
            final(self)@ == match old(self)@ {
                Some(player) => Some(
                    Player { entity: player.entity, body: PlayerBody { pose, ..player.body } },
                ),
                None => None,
            },
    {
        match self.current {
            Some(player) => {
                let mut body = player.body;
                body.pose = pose;
                self.current = Some(Player { entity: player.entity, body });
            },
            None => {},
        }
    }

    /// Sets the steering gains of the player. Without a player nothing
    /// happens.
    pub fn set_gains(&mut self, steering_pid: Gains)
        ensures
            final(self)@ == match old(self)@ {
                Some(player) => Some(
                    Player {
                        entity: player.entity,
                        body: PlayerBody {
                            component: PlayerComponent { steering_pid },
                            ..player.body
                        },
                    },
                ),
                None => None,
            },
    {
        match self.current {
            Some(player) => {
                let mut body = player.body;
                body.component = PlayerComponent { steering_pid };
                self.current = Some(Player { entity: player.entity, body });
            },
            None => {},
        }
    }

    /// Hands the waiting impulse to the physics, if one is waiting, and
    /// leaves none behind. None is waiting without a player, and none
    /// where no command has set one since the last was handed over.
    pub fn take_impulse(&mut self) -> (taken: Option<ExternalImpulse>)
        ensures
            taken == waiting(old(self)@),
            final(self)@ == match old(self)@ {
                Some(player) => Some(
                    Player {
                        entity: player.entity,
                        body: PlayerBody { impulse: no_impulse(), ..player.body },
                    },
                ),
                None => None,
            },
    {
        match self.current {
            Some(player) => {
                let mut body = player.body;
                let taken = body.impulse;
                body.impulse = ExternalImpulse { impulse: 0, torque_impulse: 0 };
                self.current = Some(Player { entity: player.entity, body });
                if taken.impulse == 0 && taken.torque_impulse == 0 {
                    None
                } else {
                    Some(taken)
                }
            },
            None => None,
        }
    }

    /// Applies one command to the current player. Without a player the
    /// command is dropped.
    pub fn apply_control(&mut self, cmd: PlayerControlCommand) -> (outcome: ControlOutcome)
        ensures
            final(self)@ == match old(self)@ {
                Some(player) => Some(
                    Player { entity: player.entity, body: applied(player.body, cmd) },
                ),
                None => None,
            },
            outcome == match old(self)@ {
                Some(player) => outcome_of(player.body, cmd),
                None => ControlOutcome::NoPlayer,
            },
    {
        match self.current {
            Some(player) => {
                let mut body = player.body;
                let outcome = body.apply_control(cmd);
                self.current = Some(Player { entity: player.entity, body });
                outcome
            },
            None => ControlOutcome::NoPlayer,
        }
    }

    /// Applies the commands of one tick to the current player, in their
    /// order, and returns those that are not supported, each of which
    /// calls for one warning. Without a player every command is dropped
    /// and none calls for a warning.
    pub fn handle_control_cmd(&mut self, events: &Vec<PlayerControlCommand>) -> (warnings: Vec<
        PlayerControlCommand,
    >)
        ensures
            final(self)@ == match old(self)@ {
                Some(player) => Some(
                    Player { entity: player.entity, body: applied_all(player.body, events@) },
                ),
                None => None,
            },
            warnings@ == match old(self)@ {
                Some(_) => unsupported(events@),
                None => Seq::empty(),
            },
    {
        let mut warnings: Vec<PlayerControlCommand> = Vec::new();
        match self.current {
            Some(player) => {
                let mut body = player.body;
                let mut i: usize = 0;
                proof {
                    reveal(Seq::filter);
                }
                while i < events.len()
                    invariant
                        i <= events.len(),
                        body == applied_all(player.body, events@.take(i as int)),
                        warnings@ == unsupported(events@.take(i as int)),
                    decreases events.len() - i,
                {
                    proof {
                        reveal(Seq::filter);
                        assert(events@.take(i + 1).drop_last() == events@.take(i as int));
                    }
                    match body.apply_control(events[i]) {
                        ControlOutcome::Unsupported => {
                            warnings.push(events[i]);
                        },
                        _ => {},
                    }
                    i += 1;
                }
                assert(events@.take(i as int) == events@);
                self.current = Some(Player { entity: player.entity, body });
            },
            None => {},
        }
        warnings
    }
}

/// There is never a second player. While there is one, a spawn command
/// is answered by one warning and nothing else, and a ship that is
/// registered all the same is turned away: the player stays who it was.
pub proof fn lemma_one_player(player: Player, entity: Entity)
    ensures
        action_for(true, PlayerCommand::Spawn) == PlayerAction::Warn(PlayerCommand::Spawn),
        registered(Some(player), entity) == Some(player),
        action_for(false, PlayerCommand::Spawn) == PlayerAction::Spawn(spawn_plan()),
        registered(None, entity) matches Some(p) && p.entity == entity && p.body == fresh_body(),
{
}

/// A move towards a course in the dead zone does nothing to the ship: no
/// push, no twist. A ship with no impulse waiting still has none.
pub proof fn lemma_move_astern_is_idle(body: PlayerBody, course: Angle)
    requires
        in_dead_zone(off_bow(body, course)),
    ensures
        applied(body, PlayerControlCommand::Move(course)) == body,
        outcome_of(body, PlayerControlCommand::Move(course)) == ControlOutcome::Idle,
        body.impulse.impulse == 0 ==> applied(
            body,
            PlayerControlCommand::Move(course),
        ).impulse.impulse == 0,
{
}

/// A move towards a course outside the dead zone sets the impulse, and
/// nothing else: the push is the multiplier, and the twist is the torque of
/// the steering law for the angle between bow and course and for the gain
/// along X.
pub proof fn lemma_move_steers(body: PlayerBody, course: Angle)
    requires
        !in_dead_zone(off_bow(body, course)),
    ensures
        0 <= off_bow(body, course) < FULL_TURN,
        applied(body, PlayerControlCommand::Move(course)) == (PlayerBody {
            impulse: applied(body, PlayerControlCommand::Move(course)).impulse,
            ..body
        }),
        applied(body, PlayerControlCommand::Move(course)).impulse.impulse == IMPULSE_MULTIPLIER,
        applied(body, PlayerControlCommand::Move(course)).impulse.torque_impulse == torque(
            off_bow(body, course),
            body.component.steering_pid.x as int,
        ),
{
    lemma_thrust_outside_dead_zone(off_bow(body, course), body.component.steering_pid.x as int);
}

} // verus!
