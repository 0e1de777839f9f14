use jam_core::angle::{Angle, DEGREE, FULL_TURN, HALF_TURN};

#[test]
fn whole_turns_are_dropped() {
    assert_eq!(Angle::from_microdegrees(FULL_TURN).microdegrees(), 0);
    assert_eq!(Angle::from_microdegrees(FULL_TURN + 7).microdegrees(), 7);
    assert_eq!(Angle::from_microdegrees(FULL_TURN - 1).microdegrees(), 359_999_999);
    assert_eq!(Angle::from_microdegrees(u32::MAX).microdegrees(), u32::MAX % FULL_TURN);
    assert_eq!(Angle::from_degrees(450).microdegrees(), 90 * DEGREE);
    assert_eq!(Angle::from_degrees(360).microdegrees(), 0);
    assert_eq!(Angle::from_degrees(180).microdegrees(), HALF_TURN);
}

#[test]
fn equal_bearings_are_equal_angles() {
    assert_eq!(Angle::from_degrees(90), Angle::from_microdegrees(90_000_000));
    assert_eq!(Angle::from_degrees(0), Angle::from_microdegrees(FULL_TURN));
    assert_ne!(Angle::from_degrees(90), Angle::from_degrees(270));
}

#[test]
fn turn_goes_round_through_growing_bearings() {
    let bow = Angle::from_degrees(350);
    let course = Angle::from_degrees(10);
    assert_eq!(bow.turn_to(course).microdegrees(), 20 * DEGREE);
    assert_eq!(course.turn_to(bow).microdegrees(), 340 * DEGREE);
    assert_eq!(bow.turn_to(bow).microdegrees(), 0);
}

#[test]
fn turn_from_the_z_axis_is_the_bearing_itself() {
    let z = Angle::from_degrees(0);
    for degrees in [0u32, 1, 45, 135, 180, 225, 359] {
        assert_eq!(z.turn_to(Angle::from_degrees(degrees)).microdegrees(), degrees * DEGREE);
    }
}
