use bevy::ecs::entity::Entity;
use jam_core::angle::Angle;
use jam_core::control::control_turn;
use jam_core::crosshair::Crosshair;
use jam_core::input::KeyInput;
use jam_core::player::{PlayerControlCommand, PlayerState};
use jam_core::point::WorldPoint;
use jam_core::steering::ExternalImpulse;

const NO_KEYS: KeyInput = KeyInput { forward: false, left: false, back: false, right: false };

#[test]
fn raycast_scenario_aims_at_the_projected_point() {
    let mut crosshair = Some(Crosshair::new());
    let mut players = PlayerState::new();
    players.register(Entity::from_raw(1));
    let commands = control_turn(NO_KEYS, Some(WorldPoint { x: 3, y: 7, z: -2 }), &mut crosshair, &mut players);
    assert_eq!(crosshair.unwrap().world_pos, Some(WorldPoint { x: 3, y: 0, z: -2 }));
    assert_eq!(commands, vec![PlayerControlCommand::Aim(WorldPoint { x: 3, y: 0, z: -2 })]);
    // Applied in the same turn.
    assert_eq!(players.body().unwrap().aim, Some(WorldPoint { x: 3, y: 0, z: -2 }));
    // The next turn, with the same hit, has nothing new to say.
    let commands = control_turn(NO_KEYS, Some(WorldPoint { x: 3, y: 7, z: -2 }), &mut crosshair, &mut players);
    assert_eq!(commands, vec![]);
}

#[test]
fn keys_and_ray_of_one_turn_are_applied_in_that_turn() {
    let mut crosshair = Some(Crosshair::new());
    let mut players = PlayerState::new();
    players.register(Entity::from_raw(1));
    let keys = KeyInput { forward: true, left: true, back: false, right: false };
    let commands = control_turn(keys, Some(WorldPoint { x: -8, y: 1, z: 8 }), &mut crosshair, &mut players);
    assert_eq!(
        commands,
        vec![
            PlayerControlCommand::Move(Angle::from_degrees(45)),
            PlayerControlCommand::Aim(WorldPoint { x: -8, y: 0, z: 8 }),
        ]
    );
    let body = players.body().unwrap();
    assert_eq!(body.impulse, ExternalImpulse { impulse: 1000, torque_impulse: 45_000_000_000_000 });
    assert_eq!(body.aim, Some(WorldPoint { x: -8, y: 0, z: 8 }));
    // The physics takes the impulse once.
    assert_eq!(
        players.take_impulse(),
        Some(ExternalImpulse { impulse: 1000, torque_impulse: 45_000_000_000_000 })
    );
    assert_eq!(players.take_impulse(), None);
}

#[test]
fn a_turn_without_a_player_still_reads_the_input() {
    let mut crosshair = Some(Crosshair::new());
    let mut players = PlayerState::new();
    let keys = KeyInput { forward: false, left: false, back: true, right: false };
    let commands = control_turn(keys, Some(WorldPoint { x: 1, y: 1, z: 1 }), &mut crosshair, &mut players);
    assert_eq!(commands.len(), 2);
    assert_eq!(players.current(), None);
    assert!(!crosshair.unwrap().world_pos_changed);
}

#[test]
fn a_turn_without_a_crosshair_only_moves() {
    let mut crosshair = None;
    let mut players = PlayerState::new();
    players.register(Entity::from_raw(1));
    let keys = KeyInput { forward: false, left: false, back: false, right: true };
    let commands = control_turn(keys, Some(WorldPoint { x: 1, y: 1, z: 1 }), &mut crosshair, &mut players);
    assert_eq!(commands, vec![PlayerControlCommand::Move(Angle::from_degrees(270))]);
    assert_eq!(crosshair, None);
    assert_eq!(players.body().unwrap().aim, None);
}
