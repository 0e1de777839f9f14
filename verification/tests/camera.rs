use jam_core::camera::{follow_target, PidCamera, FOLLOW_TOLERANCE};
use jam_core::player::Gains;
use jam_core::point::WorldPoint;

fn camera() -> PidCamera {
    PidCamera { pid: Gains { x: 0, y: 0, z: 0 }, offset: None }
}

#[test]
fn the_first_follow_finds_the_offset_and_moves() {
    let mut cam = camera();
    let mut at = WorldPoint { x: 0, y: 10, z: 10 };
    follow_target(&mut cam, &mut at, WorldPoint { x: 0, y: -1, z: -1 }, Some(WorldPoint { x: 5, y: 0, z: 5 }));
    assert_eq!(cam.offset, Some(WorldPoint { x: 0, y: -10, z: -10 }));
    assert_eq!(at, WorldPoint { x: 5, y: 10, z: 15 });
}

#[test]
fn the_length_of_the_direction_does_not_matter() {
    let mut cam = camera();
    let mut at = WorldPoint { x: 0, y: 10, z: 10 };
    follow_target(&mut cam, &mut at, WorldPoint { x: 0, y: -700, z: -700 }, Some(WorldPoint { x: 5, y: 0, z: 5 }));
    assert_eq!(cam.offset, Some(WorldPoint { x: 0, y: -10, z: -10 }));
}

#[test]
fn the_offset_is_rounded_towards_zero() {
    let mut cam = camera();
    let mut at = WorldPoint { x: 0, y: 10, z: 0 };
    follow_target(&mut cam, &mut at, WorldPoint { x: 2, y: -3, z: -2 }, None);
    assert_eq!(cam.offset, None);
    follow_target(&mut cam, &mut at, WorldPoint { x: 2, y: -3, z: -2 }, Some(WorldPoint { x: 0, y: 0, z: 0 }));
    // 10 * 2 / 3 and -(10 * 2 / 3)
    assert_eq!(cam.offset, Some(WorldPoint { x: 6, y: -10, z: -6 }));
    assert_eq!(at, WorldPoint { x: -6, y: 10, z: 6 });
}

#[test]
fn a_kept_offset_is_not_found_again() {
    let mut cam = PidCamera { pid: Gains { x: 1, y: 2, z: 3 }, offset: Some(WorldPoint { x: 1, y: 2, z: 3 }) };
    let mut at = WorldPoint { x: 0, y: 10, z: 10 };
    follow_target(&mut cam, &mut at, WorldPoint { x: 0, y: -1, z: -1 }, Some(WorldPoint { x: 5, y: 0, z: 5 }));
    assert_eq!(cam.offset, Some(WorldPoint { x: 1, y: 2, z: 3 }));
    assert_eq!(cam.pid, Gains { x: 1, y: 2, z: 3 });
    assert_eq!(at, WorldPoint { x: 4, y: -2, z: 2 });
}

#[test]
fn a_level_camera_finds_no_ground_and_stays() {
    let mut cam = camera();
    let mut at = WorldPoint { x: 0, y: 10, z: 10 };
    follow_target(&mut cam, &mut at, WorldPoint { x: 1, y: 0, z: -1 }, Some(WorldPoint { x: 5, y: 0, z: 5 }));
    assert_eq!(cam.offset, None);
    assert_eq!(at, WorldPoint { x: 0, y: 10, z: 10 });
}

#[test]
fn without_a_target_nothing_changes() {
    let mut cam = camera();
    let mut at = WorldPoint { x: 0, y: 10, z: 10 };
    follow_target(&mut cam, &mut at, WorldPoint { x: 0, y: -1, z: -1 }, None);
    assert_eq!(cam, camera());
    assert_eq!(at, WorldPoint { x: 0, y: 10, z: 10 });
}

#[test]
fn within_the_tolerance_the_camera_stays() {
    assert_eq!(FOLLOW_TOLERANCE, 1);
    let offset = WorldPoint { x: 0, y: -10, z: -10 };
    // Exactly on the measured spot, and one unit off it.
    for target in [WorldPoint { x: 0, y: 20, z: 20 }, WorldPoint { x: 1, y: 20, z: 20 }, WorldPoint { x: 0, y: 19, z: 20 }] {
        let mut cam = PidCamera { pid: Gains { x: 0, y: 0, z: 0 }, offset: Some(offset) };
        let mut at = WorldPoint { x: 0, y: 10, z: 10 };
        follow_target(&mut cam, &mut at, WorldPoint { x: 0, y: -1, z: -1 }, Some(target));
        assert_eq!(at, WorldPoint { x: 0, y: 10, z: 10 });
    }
    // Two units off, along one axis or two.
    for target in [WorldPoint { x: 2, y: 20, z: 20 }, WorldPoint { x: 1, y: 21, z: 20 }] {
        let mut cam = PidCamera { pid: Gains { x: 0, y: 0, z: 0 }, offset: Some(offset) };
        let mut at = WorldPoint { x: 0, y: 10, z: 10 };
        follow_target(&mut cam, &mut at, WorldPoint { x: 0, y: -1, z: -1 }, Some(target));
        assert_eq!(at, WorldPoint { x: target.x, y: target.y + 10, z: target.z + 10 });
    }
}

#[test]
fn far_places_are_held_to_the_ends_of_the_numbers() {
    let mut cam = camera();
    let mut at = WorldPoint { x: 0, y: i64::MIN, z: 0 };
    follow_target(&mut cam, &mut at, WorldPoint { x: i64::MAX, y: 1, z: i64::MIN }, Some(WorldPoint { x: 0, y: 0, z: 0 }));
    assert_eq!(cam.offset, Some(WorldPoint { x: i64::MAX, y: i64::MAX, z: i64::MIN }));
    assert_eq!(at, WorldPoint { x: -i64::MAX, y: -i64::MAX, z: i64::MAX });
}
