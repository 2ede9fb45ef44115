use sandplot::command::Command;
use sandplot::config::Config;
use sandplot::encoder::{encode, encode_all_exact, encode_exact, place, place_exact, Coordinate};
use sandplot::generator::{chord, circle};
use sandplot::geometry::{Angle, Move, MoveKind, Point};
use sandplot::numeral::{check_numeral, push_decimal, push_signed_decimal};

fn numeral(text: &str) -> Coordinate {
    Coordinate::parse(text.as_bytes()).expect("a numeral")
}

fn decimal_of(n: u64) -> String {
    let mut out = Vec::new();
    push_decimal(&mut out, n);
    String::from_utf8(out).expect("digits")
}

fn signed_decimal_of(v: i64) -> String {
    let mut out = Vec::new();
    push_signed_decimal(&mut out, v);
    String::from_utf8(out).expect("digits")
}

#[test]
fn naturals_are_written_in_decimal() {
    assert_eq!(decimal_of(0), "0");
    assert_eq!(decimal_of(7), "7");
    assert_eq!(decimal_of(10), "10");
    assert_eq!(decimal_of(42), "42");
    assert_eq!(decimal_of(3000), "3000");
    assert_eq!(decimal_of(1_000_000), "1000000");
    assert_eq!(decimal_of(u64::MAX), "18446744073709551615");
}

#[test]
fn integers_are_written_with_their_sign() {
    assert_eq!(signed_decimal_of(0), "0");
    assert_eq!(signed_decimal_of(75), "75");
    assert_eq!(signed_decimal_of(-75), "-75");
    assert_eq!(signed_decimal_of(-1), "-1");
    assert_eq!(signed_decimal_of(i64::MAX), "9223372036854775807");
    assert_eq!(signed_decimal_of(i64::MIN), "-9223372036854775808");
}

#[test]
fn numerals_are_appended_to_what_is_there() {
    let mut out = b"F".to_vec();
    push_decimal(&mut out, 6000);
    assert_eq!(out, b"F6000");
    push_signed_decimal(&mut out, -3);
    assert_eq!(out, b"F6000-3");
}

#[test]
fn decimal_formatting_agrees_with_the_standard_library() {
    for n in (0..100_000u64).step_by(37) {
        assert_eq!(decimal_of(n), n.to_string());
        assert_eq!(signed_decimal_of(-(n as i64)), (-(n as i64)).to_string());
    }
}

#[test]
fn finite_numbers_are_numerals() {
    for text in ["0", "75", "-75", "0.5", "-0.5", "12.375", "-0.000000000000004592425496802574",
        "1000000000000000000000", "007", "1.50"]
    {
        assert!(check_numeral(text.as_bytes()), "{}", text);
        assert_eq!(numeral(text).as_bytes(), text.as_bytes());
    }
}

#[test]
fn anything_else_is_no_numeral() {
    for text in ["", "-", ".", "-.", "1.", ".5", "-.5", "1..2", "1.2.3", "--1", "+1", "1-", "1e5",
        "NaN", "inf", "-inf", " 1", "1 ", "1 2", "1\n", "0x10", "1,5"]
    {
        assert!(!check_numeral(text.as_bytes()), "{:?}", text);
        assert!(Coordinate::parse(text.as_bytes()).is_none(), "{:?}", text);
    }
}

#[test]
fn floating_point_output_is_taken_when_finite() {
    for value in [0.0f64, -0.0, 75.0, -75.0, 0.1, 1.0 / 3.0, 4.592425496802574e-15, 1e21,
        f64::MAX, f64::MIN_POSITIVE]
    {
        let text = format!("{}", value);
        let coordinate = Coordinate::parse(text.as_bytes()).expect("finite");
        assert_eq!(coordinate.as_bytes(), text.as_bytes());
    }
    for value in [f64::NAN, f64::INFINITY, f64::NEG_INFINITY] {
        assert!(Coordinate::parse(format!("{}", value).as_bytes()).is_none());
    }
}

#[test]
fn whole_coordinates_are_written_exactly() {
    assert_eq!(Coordinate::from_integer(0).as_bytes(), b"0");
    assert_eq!(Coordinate::from_integer(-5).as_bytes(), b"-5");
    assert_eq!(Coordinate::from_integer(i64::MIN).as_bytes(), b"-9223372036854775808");
}

#[test]
fn travel_move_has_no_depth_word() {
    let m = Move::travel(Point::Rim { radius: 75, angle: Angle::from_degrees(0) }, 3500);
    let placed = place(&m, numeral("75"), numeral("0"));
    assert_eq!(encode(&placed).as_bytes(), b"G1 X75 Y0 F3500");
}

#[test]
fn drawing_move_has_the_depth_word() {
    let m = Move::draw(Point::Rim { radius: 75, angle: Angle::from_degrees(120) }, 42, 5999);
    let placed = place(&m, numeral("-37.49999999999998"), numeral("64.9519052838329"));
    assert_eq!(encode(&placed).as_bytes(), b"G1 X-37.49999999999998 Y64.9519052838329 Z42 F5999");
}

#[test]
fn arc_is_written_with_its_offset() {
    let m = Move {
        kind: MoveKind::Arc { i: 5, j: 0 },
        target: Point::Grid { x: -5, y: 0 },
        depth: Some(42),
        feed: 4000,
    };
    assert_eq!(encode_exact(&m).expect("exact").as_bytes(), b"G2 I5 J0 Z42 F4000");
    let m = Move { kind: MoveKind::Arc { i: -12, j: 7 }, depth: None, ..m };
    assert_eq!(encode_exact(&m).expect("exact").as_bytes(), b"G2 I-12 J7 F4000");
}

#[test]
fn extreme_values_are_written_in_full() {
    let m = Move {
        kind: MoveKind::Linear,
        target: Point::Grid { x: i64::MIN, y: i64::MAX },
        depth: Some(u32::MAX),
        feed: u32::MAX,
    };
    assert_eq!(
        encode_exact(&m).expect("exact").as_bytes(),
        &b"G1 X-9223372036854775808 Y9223372036854775807 Z4294967295 F4294967295"[..]
    );
    let m = Move { depth: Some(0), feed: 0, target: Point::Grid { x: 0, y: 0 }, ..m };
    assert_eq!(encode_exact(&m).expect("exact").as_bytes(), b"G1 X0 Y0 Z0 F0");
}

#[test]
fn encoding_twice_gives_the_same_text() {
    let m = Move::draw(Point::Grid { x: 12, y: -7 }, 42, 3333);
    let first = encode_exact(&m).expect("exact");
    let second = encode_exact(&m).expect("exact");
    assert_eq!(first.as_bytes(), second.as_bytes());
    let placed = place(&m, numeral("1.25"), numeral("-0.75"));
    assert_eq!(encode(&placed).as_bytes(), encode(&placed).as_bytes());
    assert_eq!(encode(&placed).as_bytes(), b"G1 X1.25 Y-0.75 Z42 F3333");
}

#[test]
fn lattice_points_are_placed_exactly() {
    let m = Move::travel(Point::Grid { x: -5, y: 0 }, 3000);
    let placed = place_exact(&m).expect("exact");
    assert_eq!(placed.x.as_bytes(), b"-5");
    assert_eq!(placed.y.as_bytes(), b"0");
    assert_eq!(placed.kind, MoveKind::Linear);
    assert_eq!(placed.depth, None);
    assert_eq!(placed.feed, 3000);
}

#[test]
fn rim_points_are_left_to_the_caller() {
    let m = Move::travel(Point::Rim { radius: 75, angle: Angle::from_degrees(0) }, 3000);
    assert!(place_exact(&m).is_none());
    assert!(encode_exact(&m).is_none());
}

#[test]
fn circle_is_encoded_as_two_lines() {
    let config = Config::standard();
    let commands = encode_all_exact(&circle(5, 4000, &config)).expect("exact");
    let texts: Vec<&[u8]> = commands.iter().map(Command::as_bytes).collect();
    assert_eq!(texts, vec![&b"G1 X-5 Y0 Z42 F3000"[..], &b"G2 I5 J0 Z42 F4000"[..]]);
    let commands = encode_all_exact(&circle(75, 6000, &config)).expect("exact");
    let texts: Vec<&[u8]> = commands.iter().map(Command::as_bytes).collect();
    assert_eq!(texts, vec![&b"G1 X-75 Y0 Z42 F3000"[..], &b"G2 I75 J0 Z42 F6000"[..]]);
}

#[test]
fn a_run_with_a_rim_point_is_not_encoded_exactly() {
    let config = Config::standard();
    let mut moves = circle(5, 4000, &config);
    moves.extend(chord(5, Angle::from_degrees(1), Angle::from_degrees(2), 3000, 3000, &config));
    assert!(encode_all_exact(&moves).is_none());
    assert_eq!(encode_all_exact(&Vec::new()).expect("empty").len(), 0);
}
