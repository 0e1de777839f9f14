use jam_core::angle::Angle;
use jam_core::crosshair::Crosshair;
use jam_core::input::{course, read_input, KeyInput};
use jam_core::player::PlayerControlCommand;
use jam_core::point::WorldPoint;

fn keys(forward: bool, left: bool, back: bool, right: bool) -> KeyInput {
    KeyInput { forward, left, back, right }
}

#[test]
fn each_key_alone_gives_its_axis() {
    assert_eq!(course(keys(true, false, false, false)), Some(Angle::from_degrees(0)));
    assert_eq!(course(keys(false, true, false, false)), Some(Angle::from_degrees(90)));
    assert_eq!(course(keys(false, false, true, false)), Some(Angle::from_degrees(180)));
    assert_eq!(course(keys(false, false, false, true)), Some(Angle::from_degrees(270)));
}

#[test]
fn two_neighbouring_keys_give_the_diagonal() {
    assert_eq!(course(keys(true, true, false, false)), Some(Angle::from_degrees(45)));
    assert_eq!(course(keys(false, true, true, false)), Some(Angle::from_degrees(135)));
    assert_eq!(course(keys(false, false, true, true)), Some(Angle::from_degrees(225)));
    assert_eq!(course(keys(true, false, false, true)), Some(Angle::from_degrees(315)));
}

#[test]
fn opposite_keys_cancel() {
    assert_eq!(course(keys(false, false, false, false)), None);
    assert_eq!(course(keys(true, false, true, false)), None);
    assert_eq!(course(keys(false, true, false, true)), None);
    assert_eq!(course(keys(true, true, true, true)), None);
    assert_eq!(course(keys(true, true, true, false)), Some(Angle::from_degrees(90)));
    assert_eq!(course(keys(true, true, false, true)), Some(Angle::from_degrees(0)));
    assert_eq!(course(keys(true, false, true, true)), Some(Angle::from_degrees(270)));
    assert_eq!(course(keys(false, true, true, true)), Some(Angle::from_degrees(180)));
}

#[test]
fn no_keys_and_no_crosshair_give_no_command() {
    let mut crosshair = None;
    assert_eq!(read_input(keys(false, false, false, false), &mut crosshair), vec![]);
    assert_eq!(crosshair, None);
}

#[test]
fn keys_give_one_move_even_without_a_crosshair() {
    let mut crosshair = None;
    assert_eq!(
        read_input(keys(true, false, false, true), &mut crosshair),
        vec![PlayerControlCommand::Move(Angle::from_degrees(315))]
    );
}

#[test]
fn a_changed_place_gives_one_aim_once() {
    let mut c = Crosshair::new();
    c.update_crosshair_world_pos(Some(WorldPoint { x: 3, y: 7, z: -2 }));
    let mut crosshair = Some(c);
    assert_eq!(
        read_input(keys(false, false, false, false), &mut crosshair),
        vec![PlayerControlCommand::Aim(WorldPoint { x: 3, y: 0, z: -2 })]
    );
    assert!(!crosshair.unwrap().world_pos_changed);
    assert_eq!(crosshair.unwrap().world_pos, Some(WorldPoint { x: 3, y: 0, z: -2 }));
    assert_eq!(read_input(keys(false, false, false, false), &mut crosshair), vec![]);
}

#[test]
fn the_move_comes_before_the_aim() {
    let mut c = Crosshair::new();
    c.update_crosshair_world_pos(Some(WorldPoint { x: 1, y: 1, z: 1 }));
    let mut crosshair = Some(c);
    assert_eq!(
        read_input(keys(false, false, true, false), &mut crosshair),
        vec![
            PlayerControlCommand::Move(Angle::from_degrees(180)),
            PlayerControlCommand::Aim(WorldPoint { x: 1, y: 0, z: 1 }),
        ]
    );
}

#[test]
fn a_crosshair_without_a_place_gives_no_aim() {
    let mut crosshair = Some(Crosshair::new());
    assert_eq!(read_input(keys(false, false, false, false), &mut crosshair), vec![]);
    assert_eq!(crosshair, Some(Crosshair::new()));
}
