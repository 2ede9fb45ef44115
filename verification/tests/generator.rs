use rand::rngs::StdRng;
use rand::SeedableRng;
use sandplot::config::Config;
use sandplot::generator::{
    chord, circle, draw_angle, draw_speed, draw_speed_below, radial_sweep, random_chord, spoke,
};
use sandplot::geometry::{Angle, Move, MoveKind, Point, FULL_TURN};

fn rim_xy(point: Point) -> (f64, f64) {
    match point {
        Point::Rim { radius, angle } => {
            let degrees = angle.micro as f64 / 1_000_000.0;
            let theta = degrees * std::f64::consts::PI / 180.0;
            (radius as f64 * theta.cos(), radius as f64 * theta.sin())
        }
        Point::Grid { x, y } => (x as f64, y as f64),
    }
}

#[test]
fn circle_is_an_approach_and_an_arc() {
    let config = Config::standard();
    let moves = circle(5, 4000, &config);
    let entry = Point::Grid { x: -5, y: 0 };
    assert_eq!(
        moves,
        vec![
            Move { kind: MoveKind::Linear, target: entry, depth: Some(42), feed: 3000 },
            Move { kind: MoveKind::Arc { i: 5, j: 0 }, target: entry, depth: Some(42), feed: 4000 },
        ]
    );
}

#[test]
fn circle_offset_has_the_length_of_the_radius() {
    let config = Config::standard();
    for radius in 0..=config.max_radius {
        let moves = circle(radius, 3000, &config);
        assert_eq!(moves.len(), 2);
        match moves[1].kind {
            MoveKind::Arc { i, j } => {
                assert_eq!(i * i + j * j, (radius as i64) * (radius as i64));
                assert_eq!(i, radius as i64);
                assert_eq!(j, 0);
            }
            MoveKind::Linear => panic!("the second move of a circle is an arc"),
        }
        assert_eq!(moves[0].target, Point::Grid { x: -(radius as i64), y: 0 });
    }
}

#[test]
fn circle_takes_the_extreme_radii() {
    let config = Config::standard();
    let moves = circle(i32::MIN, 1, &config);
    assert_eq!(moves[0].target, Point::Grid { x: 2_147_483_648, y: 0 });
    assert_eq!(moves[1].kind, MoveKind::Arc { i: -2_147_483_648, j: 0 });
    let moves = circle(i32::MAX, 1, &config);
    assert_eq!(moves[0].target, Point::Grid { x: -2_147_483_647, y: 0 });
}

#[test]
fn circle_keeps_the_speed_it_is_given() {
    let config = Config::standard();
    assert_eq!(circle(10, 0, &config)[1].feed, 0);
    assert_eq!(circle(10, u32::MAX, &config)[1].feed, u32::MAX);
    assert_eq!(circle(10, u32::MAX, &config)[0].feed, config.approach_feed);
}

#[test]
fn speed_draws_stay_within_the_bounds() {
    let config = Config::standard();
    let mut rng = StdRng::seed_from_u64(11);
    for _ in 0..2000 {
        let inclusive = draw_speed(&mut rng, &config);
        assert!(config.min_speed <= inclusive && inclusive <= config.max_speed);
        let exclusive = draw_speed_below(&mut rng, &config);
        assert!(config.min_speed <= exclusive && exclusive < config.max_speed);
    }
}

#[test]
fn speed_draws_reach_both_ends_of_a_narrow_range() {
    let mut config = Config::standard();
    config.min_speed = 3000;
    config.max_speed = 3001;
    let mut rng = StdRng::seed_from_u64(5);
    let mut low = false;
    let mut high = false;
    for _ in 0..200 {
        assert_eq!(draw_speed_below(&mut rng, &config), 3000);
        match draw_speed(&mut rng, &config) {
            3000 => low = true,
            3001 => high = true,
            other => panic!("speed {} out of range", other),
        }
    }
    assert!(low && high);
}

#[test]
fn speed_draws_vary() {
    let config = Config::standard();
    let mut rng = StdRng::seed_from_u64(3);
    let first = draw_speed(&mut rng, &config);
    let mut varied = false;
    for _ in 0..100 {
        if draw_speed(&mut rng, &config) != first {
            varied = true;
        }
    }
    assert!(varied);
    let first = draw_speed_below(&mut rng, &config);
    let mut varied = false;
    for _ in 0..100 {
        if draw_speed_below(&mut rng, &config) != first {
            varied = true;
        }
    }
    assert!(varied);
}

#[test]
fn angle_draws_stay_within_one_turn_and_vary() {
    let mut rng = StdRng::seed_from_u64(17);
    let first = draw_angle(&mut rng);
    let mut varied = false;
    for _ in 0..2000 {
        let angle = draw_angle(&mut rng);
        assert!(angle.micro < FULL_TURN);
        if angle != first {
            varied = true;
        }
    }
    assert!(varied);
}

#[test]
fn chord_is_a_travel_and_a_draw() {
    let config = Config::standard();
    let first = Angle::from_degrees(10);
    let second = Angle::from_degrees(250);
    let moves = chord(75, first, second, 3100, 5900, &config);
    assert_eq!(
        moves,
        vec![
            Move {
                kind: MoveKind::Linear,
                target: Point::Rim { radius: 75, angle: first },
                depth: None,
                feed: 3100
            },
            Move {
                kind: MoveKind::Linear,
                target: Point::Rim { radius: 75, angle: second },
                depth: Some(42),
                feed: 5900
            },
        ]
    );
}

#[test]
fn chord_may_have_no_length() {
    let config = Config::standard();
    let angle = Angle::from_degrees(33);
    let moves = chord(75, angle, angle, 3000, 3000, &config);
    assert_eq!(moves.len(), 2);
    assert_eq!(moves[0].target, moves[1].target);
}

#[test]
fn random_chord_points_lie_on_the_circle() {
    let config = Config::standard();
    let mut rng = StdRng::seed_from_u64(75);
    for _ in 0..200 {
        let moves = random_chord(&mut rng, 75, &config);
        assert_eq!(moves.len(), 2);
        for m in &moves {
            let (x, y) = rim_xy(m.target);
            assert!(((x * x + y * y).sqrt() - 75.0).abs() < 1e-9);
            assert_eq!(m.kind, MoveKind::Linear);
            assert!(config.min_speed <= m.feed && m.feed < config.max_speed);
            match m.target {
                Point::Rim { radius, angle } => {
                    assert_eq!(radius, 75);
                    assert!(angle.micro < FULL_TURN);
                }
                Point::Grid { .. } => panic!("a chord runs between rim points"),
            }
        }
        assert_eq!(moves[0].depth, None);
        assert_eq!(moves[1].depth, Some(config.depth));
    }
}

#[test]
fn random_chord_repeats_under_one_seed() {
    let config = Config::standard();
    let mut first = StdRng::seed_from_u64(2024);
    let mut second = StdRng::seed_from_u64(2024);
    for _ in 0..20 {
        assert_eq!(random_chord(&mut first, 75, &config), random_chord(&mut second, 75, &config));
    }
}

#[test]
fn random_chords_differ_from_draw_to_draw() {
    let config = Config::standard();
    let mut rng = StdRng::seed_from_u64(9);
    let first = random_chord(&mut rng, 75, &config);
    let mut varied = false;
    for _ in 0..20 {
        if random_chord(&mut rng, 75, &config) != first {
            varied = true;
        }
    }
    assert!(varied);
}

#[test]
fn spoke_is_four_moves_in_fixed_order() {
    let config = Config::standard();
    let moves = spoke(75, 40, (3001, 3002, 3003, 3004), &config);
    let rim = |degrees: u32| Point::Rim { radius: 75, angle: Angle::from_degrees(degrees) };
    assert_eq!(
        moves,
        vec![
            Move { kind: MoveKind::Linear, target: rim(40), depth: Some(42), feed: 3001 },
            Move { kind: MoveKind::Linear, target: rim(220), depth: None, feed: 3002 },
            Move { kind: MoveKind::Linear, target: rim(45), depth: None, feed: 3003 },
            Move { kind: MoveKind::Linear, target: rim(225), depth: None, feed: 3004 },
        ]
    );
}

#[test]
fn spoke_wraps_around_the_full_turn() {
    let mut config = Config::standard();
    config.sweep_offset = u32::MAX;
    let moves = spoke(1, u32::MAX, (1, 2, 3, 4), &config);
    let lead = u32::MAX % 360;
    let back = ((u32::MAX as u64 * 2) % 360) as u32;
    assert_eq!(moves[0].target, Point::Rim { radius: 1, angle: Angle::from_degrees(lead) });
    assert_eq!(moves[1].target, Point::Rim { radius: 1, angle: Angle::from_degrees(lead + 180) });
    assert_eq!(moves[2].target, Point::Rim { radius: 1, angle: Angle::from_degrees(back) });
    assert_eq!(moves[3].target, Point::Rim { radius: 1, angle: Angle::from_degrees(back + 180) });
}

#[test]
fn radial_sweep_covers_the_half_turn_once() {
    let config = Config::standard();
    let mut rng = StdRng::seed_from_u64(1);
    let moves = radial_sweep(&mut rng, 75, &config);
    assert_eq!(moves.len(), 36);
    assert_eq!(moves.len() % 4, 0);
    let swept: Vec<u32> =
        (0..moves.len() / 4).map(|k| match moves[4 * k].target {
            Point::Rim { angle, .. } => angle.micro,
            Point::Grid { .. } => panic!("a sweep runs between rim points"),
        }).collect();
    let expected: Vec<u32> = (0..180).step_by(20).map(|d| d * 1_000_000).collect();
    assert_eq!(swept, expected);
}

#[test]
fn radial_sweep_spokes_have_the_fixed_shape() {
    let config = Config::standard();
    let mut rng = StdRng::seed_from_u64(8);
    let moves = radial_sweep(&mut rng, 60, &config);
    for k in 0..moves.len() / 4 {
        let degrees = 20 * k as u32;
        let group = &moves[4 * k..4 * k + 4];
        let feeds = (group[0].feed, group[1].feed, group[2].feed, group[3].feed);
        assert_eq!(group, &spoke(60, degrees, feeds, &config)[..]);
        for m in group {
            assert!(config.min_speed <= m.feed && m.feed <= config.max_speed);
        }
        assert_eq!(group[0].depth, Some(42));
        assert_eq!(group[1].depth, None);
        assert_eq!(group[2].depth, None);
        assert_eq!(group[3].depth, None);
    }
}

#[test]
fn radial_sweep_antipodes_are_opposite_points() {
    let config = Config::standard();
    let mut rng = StdRng::seed_from_u64(21);
    let moves = radial_sweep(&mut rng, 75, &config);
    for k in 0..moves.len() / 4 {
        let (x0, y0) = rim_xy(moves[4 * k].target);
        let (x1, y1) = rim_xy(moves[4 * k + 1].target);
        assert!((x0 + x1).abs() < 1e-9 && (y0 + y1).abs() < 1e-9);
        let (x2, y2) = rim_xy(moves[4 * k + 2].target);
        let (x3, y3) = rim_xy(moves[4 * k + 3].target);
        assert!((x2 + x3).abs() < 1e-9 && (y2 + y3).abs() < 1e-9);
    }
}

#[test]
fn radial_sweep_counts_the_steps_below_a_half_turn() {
    let mut rng = StdRng::seed_from_u64(4);
    for (step, spokes) in [(1u32, 180usize), (7, 26), (20, 9), (60, 3), (90, 2), (179, 2),
        (180, 1), (181, 1), (u32::MAX, 1)]
    {
        let mut config = Config::standard();
        config.sweep_step = step;
        let moves = radial_sweep(&mut rng, 75, &config);
        assert_eq!(moves.len(), 4 * spokes);
        for k in 0..spokes {
            assert_eq!(
                moves[4 * k].target,
                Point::Rim { radius: 75, angle: Angle::from_degrees(step * k as u32) }
            );
        }
    }
}

#[test]
fn radial_sweep_takes_a_single_speed() {
    let mut config = Config::standard();
    config.min_speed = 4500;
    config.max_speed = 4500;
    assert!(!config.is_valid());
    let mut rng = StdRng::seed_from_u64(12);
    let moves = radial_sweep(&mut rng, 75, &config);
    assert_eq!(moves.len(), 36);
    assert!(moves.iter().all(|m| m.feed == 4500));
    assert_eq!(draw_speed(&mut rng, &config), 4500);
}

#[test]
fn radial_sweep_draws_each_speed_afresh() {
    let config = Config::standard();
    let mut rng = StdRng::seed_from_u64(6);
    let moves = radial_sweep(&mut rng, 75, &config);
    let first = moves[0].feed;
    assert!(moves.iter().any(|m| m.feed != first));
}
