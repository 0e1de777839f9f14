use bevy::ecs::entity::Entity;
use jam_core::angle::Angle;
use jam_core::crosshair::Crosshair;
use jam_core::player::{
    ControlOutcome, Gains, PlayerAction, PlayerBody, PlayerCommand, PlayerComponent,
    PlayerControlCommand, PlayerState, Pose, SpawnPlan, GROUND_SIZE,
};
use jam_core::point::WorldPoint;
use jam_core::steering::ExternalImpulse;

const NO_IMPULSE: ExternalImpulse = ExternalImpulse { impulse: 0, torque_impulse: 0 };

fn spawned() -> PlayerState {
    let mut state = PlayerState::new();
    assert!(state.register(Entity::from_raw(7)));
    state
}

#[test]
fn a_fresh_body_rests_at_the_origin_facing_z() {
    let body = PlayerBody::new();
    assert_eq!(body.pose.translation, WorldPoint { x: 0, y: 0, z: 0 });
    assert_eq!(body.pose.heading, Angle::from_degrees(0));
    assert_eq!(body.component, PlayerComponent { steering_pid: Gains { x: 1000, y: 1000, z: 1000 } });
    assert_eq!(body.impulse, NO_IMPULSE);
    assert_eq!(body.aim, None);
}

#[test]
fn spawn_without_a_player_goes_ahead() {
    let state = PlayerState::new();
    assert_eq!(state.current(), None);
    assert_eq!(
        state.handle_cmd(PlayerCommand::Spawn),
        PlayerAction::Spawn(SpawnPlan {
            body: PlayerBody::new(),
            crosshair: Crosshair::new(),
            ground_size: 1_000_000,
        })
    );
    assert_eq!(GROUND_SIZE, 1_000_000);
    // Deciding changes nothing yet.
    assert_eq!(state.current(), None);
}

#[test]
fn spawn_with_a_player_is_one_warning_and_no_change() {
    let mut state = spawned();
    state.apply_control(PlayerControlCommand::Aim(WorldPoint { x: 1, y: 2, z: 3 }));
    let before = state.body();
    assert_eq!(state.handle_cmd(PlayerCommand::Spawn), PlayerAction::Warn(PlayerCommand::Spawn));
    assert_eq!(state.current(), Some(Entity::from_raw(7)));
    assert_eq!(state.body(), before);
}

#[test]
fn a_second_ship_is_not_registered() {
    let mut state = spawned();
    state.apply_control(PlayerControlCommand::Move(Angle::from_degrees(90)));
    let before = state.body();
    assert!(!state.register(Entity::from_raw(8)));
    assert_eq!(state.current(), Some(Entity::from_raw(7)));
    assert_eq!(state.body(), before);
}

#[test]
fn despawn_is_answered_with_a_warning() {
    let state = PlayerState::new();
    assert_eq!(state.handle_cmd(PlayerCommand::Despawn), PlayerAction::Warn(PlayerCommand::Despawn));
    let state = spawned();
    assert_eq!(state.handle_cmd(PlayerCommand::Despawn), PlayerAction::Warn(PlayerCommand::Despawn));
    assert_eq!(state.current(), Some(Entity::from_raw(7)));
}

#[test]
fn move_scenario_from_the_origin_facing_z() {
    let mut state = spawned();
    // Towards +Z: straight ahead.
    assert_eq!(
        state.handle_control_cmd(&vec![PlayerControlCommand::Move(Angle::from_degrees(0))]),
        vec![]
    );
    let ahead = state.take_impulse().unwrap();
    assert!(ahead.impulse != 0);
    assert_eq!(ahead.impulse, 1000);
    assert_eq!(ahead.torque_impulse, 0);
    // Towards -Z: the dead zone.
    assert_eq!(
        state.handle_control_cmd(&vec![PlayerControlCommand::Move(Angle::from_degrees(180))]),
        vec![]
    );
    assert_eq!(state.body().unwrap().impulse, NO_IMPULSE);
    assert_eq!(state.take_impulse(), None);
    // Towards +X: a quarter turn the way bearings grow.
    assert_eq!(
        state.handle_control_cmd(&vec![PlayerControlCommand::Move(Angle::from_degrees(90))]),
        vec![]
    );
    let left = state.take_impulse().unwrap();
    assert_eq!(left.impulse, 1000);
    assert!(left.torque_impulse > 0);
    assert_eq!(left.torque_impulse, 90_000_000_000_000);
    // Towards -X: a quarter turn the other way.
    state.handle_control_cmd(&vec![PlayerControlCommand::Move(Angle::from_degrees(270))]);
    assert_eq!(
        state.take_impulse(),
        Some(ExternalImpulse { impulse: 1000, torque_impulse: -90_000_000_000_000 })
    );
}

#[test]
fn the_error_is_measured_from_the_bow() {
    let mut state = spawned();
    state.set_pose(Pose {
        translation: WorldPoint { x: 5, y: 0, z: -5 },
        heading: Angle::from_degrees(350),
    });
    assert_eq!(
        state.apply_control(PlayerControlCommand::Move(Angle::from_degrees(10))),
        ControlOutcome::Steered(ExternalImpulse { impulse: 1000, torque_impulse: 20_000_000_000_000 })
    );
    assert_eq!(
        state.apply_control(PlayerControlCommand::Move(Angle::from_degrees(330))),
        ControlOutcome::Steered(ExternalImpulse { impulse: 1000, torque_impulse: -20_000_000_000_000 })
    );
    assert_eq!(
        state.apply_control(PlayerControlCommand::Move(Angle::from_degrees(170))),
        ControlOutcome::Idle
    );
    // The idle move left the impulse of the move before.
    assert_eq!(
        state.body().unwrap().impulse,
        ExternalImpulse { impulse: 1000, torque_impulse: -20_000_000_000_000 }
    );
    assert_eq!(state.body().unwrap().pose.translation, WorldPoint { x: 5, y: 0, z: -5 });
}

#[test]
fn the_gain_along_x_scales_the_twist() {
    let mut state = spawned();
    state.set_gains(Gains { x: 500, y: 9, z: 9 });
    assert_eq!(
        state.apply_control(PlayerControlCommand::Move(Angle::from_degrees(90))),
        ControlOutcome::Steered(ExternalImpulse { impulse: 1000, torque_impulse: 45_000_000_000_000 })
    );
}

#[test]
fn an_aim_is_recorded() {
    let mut state = spawned();
    assert_eq!(
        state.apply_control(PlayerControlCommand::Aim(WorldPoint { x: 3, y: 0, z: -2 })),
        ControlOutcome::Aimed
    );
    let body = state.body().unwrap();
    assert_eq!(body.aim, Some(WorldPoint { x: 3, y: 0, z: -2 }));
    assert_eq!(body.impulse, NO_IMPULSE);
    assert_eq!(body.pose, PlayerBody::new().pose);
}

#[test]
fn commands_without_a_player_are_dropped_silently() {
    let mut state = PlayerState::new();
    assert_eq!(
        state.apply_control(PlayerControlCommand::Move(Angle::from_degrees(0))),
        ControlOutcome::NoPlayer
    );
    assert_eq!(state.apply_control(PlayerControlCommand::Fire), ControlOutcome::NoPlayer);
    assert_eq!(
        state.handle_control_cmd(&vec![
            PlayerControlCommand::Fire,
            PlayerControlCommand::Shield,
            PlayerControlCommand::Move(Angle::from_degrees(0)),
        ]),
        vec![]
    );
    assert_eq!(state.current(), None);
    assert_eq!(state.body(), None);
    assert_eq!(state.take_impulse(), None);
    state.set_pose(Pose { translation: WorldPoint { x: 1, y: 1, z: 1 }, heading: Angle::from_degrees(1) });
    assert_eq!(state.body(), None);
}

#[test]
fn unsupported_commands_are_handed_back_and_change_nothing() {
    let mut state = spawned();
    assert_eq!(state.apply_control(PlayerControlCommand::Fire), ControlOutcome::Unsupported);
    assert_eq!(state.apply_control(PlayerControlCommand::CycleWeapon), ControlOutcome::Unsupported);
    assert_eq!(state.apply_control(PlayerControlCommand::Shield), ControlOutcome::Unsupported);
    assert_eq!(state.body(), Some(PlayerBody::new()));
    assert_eq!(
        state.handle_control_cmd(&vec![
            PlayerControlCommand::Fire,
            PlayerControlCommand::Move(Angle::from_degrees(45)),
            PlayerControlCommand::Shield,
            PlayerControlCommand::Aim(WorldPoint { x: 0, y: 0, z: 9 }),
            PlayerControlCommand::CycleWeapon,
        ]),
        vec![
            PlayerControlCommand::Fire,
            PlayerControlCommand::Shield,
            PlayerControlCommand::CycleWeapon,
        ]
    );
    let body = state.body().unwrap();
    assert_eq!(body.impulse, ExternalImpulse { impulse: 1000, torque_impulse: 45_000_000_000_000 });
    assert_eq!(body.aim, Some(WorldPoint { x: 0, y: 0, z: 9 }));
}

#[test]
fn the_last_move_of_a_tick_sets_the_impulse() {
    let mut state = spawned();
    state.handle_control_cmd(&vec![
        PlayerControlCommand::Move(Angle::from_degrees(90)),
        PlayerControlCommand::Move(Angle::from_degrees(315)),
    ]);
    assert_eq!(
        state.take_impulse(),
        Some(ExternalImpulse { impulse: 1000, torque_impulse: -45_000_000_000_000 })
    );
    assert_eq!(state.take_impulse(), None);
    assert_eq!(state.body().unwrap().impulse, NO_IMPULSE);
}
