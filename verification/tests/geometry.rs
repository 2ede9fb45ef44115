use sandplot::config::Config;
use sandplot::geometry::{Angle, Move, MoveKind, Point, FULL_TURN, HALF_TURN, MICRO_PER_DEGREE};

#[test]
fn degrees_are_counted_in_micro_degrees() {
    assert_eq!(Angle::from_degrees(0).micro, 0);
    assert_eq!(Angle::from_degrees(20).micro, 20 * MICRO_PER_DEGREE);
    assert_eq!(Angle::from_degrees(359).micro, 359_000_000);
}

#[test]
fn degrees_are_reduced_to_one_turn() {
    assert_eq!(Angle::from_degrees(360).micro, 0);
    assert_eq!(Angle::from_degrees(365).micro, 5_000_000);
    assert_eq!(Angle::from_degrees(u32::MAX).micro, (u32::MAX % 360) * MICRO_PER_DEGREE);
}

#[test]
fn micro_degrees_are_reduced_to_one_turn() {
    assert_eq!(Angle::from_micro(FULL_TURN - 1).micro, FULL_TURN - 1);
    assert_eq!(Angle::from_micro(FULL_TURN).micro, 0);
    assert_eq!(Angle::from_micro(FULL_TURN + 7).micro, 7);
}

#[test]
fn opposite_is_half_a_turn_on() {
    assert_eq!(Angle::from_degrees(0).opposite().micro, HALF_TURN);
    assert_eq!(Angle::from_degrees(20).opposite(), Angle::from_degrees(200));
    assert_eq!(Angle::from_degrees(200).opposite(), Angle::from_degrees(20));
    assert_eq!(Angle::from_degrees(345).opposite(), Angle::from_degrees(165));
}

#[test]
fn opposite_of_opposite_is_the_angle() {
    for degrees in 0..360u32 {
        let angle = Angle::from_degrees(degrees);
        assert_eq!(angle.opposite().opposite(), angle);
    }
}

#[test]
fn opposite_of_an_unreduced_angle_is_reduced() {
    let angle = Angle { micro: u32::MAX };
    let expected = ((u32::MAX as u64 + HALF_TURN as u64) % FULL_TURN as u64) as u32;
    assert_eq!(angle.opposite().micro, expected);
    assert!(angle.opposite().micro < FULL_TURN);
}

#[test]
fn travel_moves_leave_the_height_alone() {
    let target = Point::Grid { x: 3, y: -4 };
    let m = Move::travel(target, 3500);
    assert_eq!(m, Move { kind: MoveKind::Linear, target, depth: None, feed: 3500 });
}

#[test]
fn drawing_moves_carry_the_depth() {
    let target = Point::Rim { radius: 75, angle: Angle::from_degrees(90) };
    let m = Move::draw(target, 42, 6000);
    assert_eq!(m, Move { kind: MoveKind::Linear, target, depth: Some(42), feed: 6000 });
}

#[test]
fn standard_configuration_is_the_reference_machine() {
    let config = Config::standard();
    assert_eq!(config.depth, 42);
    assert_eq!(config.min_speed, 3000);
    assert_eq!(config.max_speed, 6000);
    assert_eq!(config.max_radius, 75);
    assert_eq!(config.approach_feed, 3000);
    assert_eq!(config.sweep_step, 20);
    assert_eq!(config.sweep_offset, 5);
    assert_eq!(config.ack_deadline_ms, 10_000);
    assert!(config.is_valid());
}

#[test]
fn configuration_needs_a_range_of_speeds_and_a_step() {
    let mut config = Config::standard();
    config.max_speed = config.min_speed;
    assert!(!config.is_valid());
    let mut config = Config::standard();
    config.sweep_step = 0;
    assert!(!config.is_valid());
    let mut config = Config::standard();
    config.max_speed = config.min_speed + 1;
    config.sweep_step = 1;
    assert!(config.is_valid());
}
