//! Procedural toolpaths: full circles, random chords and the radial sweep.
//!
//! Every function returns structured moves in the order in which they are to
//! be sent. Randomness comes from one generator handle that the caller
//! threads through, so a seeded handle reproduces a run.

use crate::config::Config;
use crate::geometry::{Angle, Move, MoveKind, Point, FULL_TURN};
use rand::rngs::StdRng;
use rand::Rng;
use vstd::prelude::*;

verus! {

/// The pseudo-random generator of the `rand` crate that this module draws
/// from. Nothing of its state is visible to the proofs.
#[verifier::external_type_specification]
#[verifier::external_body]
pub struct ExStdRng(rand::rngs::StdRng);

/// Calls `Rng::gen_range` of the `rand` crate on the closed range
/// `low..=high`. Trusted: the call returns a value of the range; on an empty
/// range it panics, so an empty range is not admitted.
#[verifier::external_body]
fn uniform_through(rng: &mut StdRng, low: u32, high: u32) -> (drawn: u32)
    requires
        low <= high,
    ensures
        low <= drawn <= high,
{
    rng.gen_range(low..=high)
}

/// Draws a feed rate from `[min_speed, max_speed]`.
pub fn draw_speed(rng: &mut StdRng, config: &Config) -> (speed: u32)
    requires
        config.has_speeds(),
    ensures
        config.min_speed <= speed <= config.max_speed,
{
    uniform_through(rng, config.min_speed, config.max_speed)
}

/// Draws a feed rate from `[min_speed, max_speed)`.
pub fn draw_speed_below(rng: &mut StdRng, config: &Config) -> (speed: u32)
    requires
        config.has_speeds_below(),
    ensures
        config.min_speed <= speed < config.max_speed,
{
    uniform_through(rng, config.min_speed, config.max_speed - 1)
}

/// Draws a direction from `[0°, 360°)`.
pub fn draw_angle(rng: &mut StdRng) -> (angle: Angle)
    ensures
        angle.wf(),
{
    Angle { micro: uniform_through(rng, 0, FULL_TURN - 1) }
}

/// The two moves of the circle of `radius`: the straight approach from the
/// origin to the leftmost point of the circle at the approach feed rate,
/// then the full arc around the origin at `speed`.
pub open spec fn circle_moves(radius: i32, speed: u32, config: Config) -> Seq<Move> {
    let entry = Point::Grid { x: (-(radius as int)) as i64, y: 0 };
    seq![
        Move::draw_to(entry, config.depth, config.approach_feed),
        Move {
            kind: MoveKind::Arc { i: radius as i64, j: 0 },
            target: entry,
            depth: Some(config.depth),
            feed: speed,
        },
    ]
}

/// Generates the circle of `radius` around the origin, traced at `speed`.
pub fn circle(radius: i32, speed: u32, config: &Config) -> (moves: Vec<Move>)
    ensures
        moves@ == circle_moves(radius, speed, *config),
{
    let entry: Point = Point::Grid { x: -(radius as i64), y: 0 };
    let mut moves: Vec<Move> = Vec::new();
    moves.push(Move::draw(entry, config.depth, config.approach_feed));
    moves.push(
        Move {
            kind: MoveKind::Arc { i: radius as i64, j: 0 },
            target: entry,
            depth: Some(config.depth),
            feed: speed,
        },
    );
    moves
}

/// `length` is the length of the vector `(i, j)`.
pub open spec fn is_length_of(length: int, i: int, j: int) -> bool {
    length >= 0 && length * length == i * i + j * j
}

/// A circle is exactly two moves, the second of which is an arc whose
/// offset to the centre has the length of the radius; this holds of every
/// radius from zero up to the configured maximum.
pub proof fn lemma_circle_shape(radius: i32, speed: u32, config: Config)
    requires
        0 <= radius <= config.max_radius,
    ensures
        circle_moves(radius, speed, config).len() == 2,
        circle_moves(radius, speed, config)[1].kind matches MoveKind::Arc { i, j } && is_length_of(
            radius as int,
            i as int,
            j as int,
        ),
{
}

/// The two moves of a chord: travel to the rim at `first`, then draw to the
/// rim at `second`.
pub open spec fn chord_moves(
    radius: i32,
    first: Angle,
    second: Angle,
    travel_feed: u32,
    draw_feed: u32,
    config: Config,
) -> Seq<Move> {
    seq![
        Move::travel_to(Point::Rim { radius, angle: first }, travel_feed),
        Move::draw_to(Point::Rim { radius, angle: second }, config.depth, draw_feed),
    ]
}

/// Builds the chord between two directions from values that were drawn
/// beforehand.
pub fn chord(
    radius: i32,
    first: Angle,
    second: Angle,
    travel_feed: u32,
    draw_feed: u32,
    config: &Config,
) -> (moves: Vec<Move>)
    ensures
        moves@ == chord_moves(radius, first, second, travel_feed, draw_feed, *config),
{
    let mut moves: Vec<Move> = Vec::new();
    moves.push(Move::travel(Point::Rim { radius, angle: first }, travel_feed));
    moves.push(Move::draw(Point::Rim { radius, angle: second }, config.depth, draw_feed));
    moves
}

/// `moves` is a random chord of `radius`: a chord between two normalised
/// directions, both feed rates in `[min_speed, max_speed)`.
pub open spec fn is_random_chord(moves: Seq<Move>, radius: i32, config: Config) -> bool {
    &&& moves.len() == 2
    &&& moves == chord_moves(
        radius,
        moves[0].target.direction(),
        moves[1].target.direction(),
        moves[0].feed,
        moves[1].feed,
        config,
    )
    &&& moves[0].target.direction().wf()
    &&& moves[1].target.direction().wf()
    &&& config.min_speed <= moves[0].feed < config.max_speed
    &&& config.min_speed <= moves[1].feed < config.max_speed
}

/// Generates a random chord of the circle of `radius`: two directions are
/// drawn independently from `[0°, 360°)`, then one feed rate for each move
/// from `[min_speed, max_speed)`. The directions may coincide.
pub fn random_chord(rng: &mut StdRng, radius: i32, config: &Config) -> (moves: Vec<Move>)
    requires
        config.has_speeds_below(),
    ensures
        is_random_chord(moves@, radius, *config),
{
    let first: Angle = draw_angle(rng);
    let second: Angle = draw_angle(rng);
    let travel_feed: u32 = draw_speed_below(rng, config);
    let draw_feed: u32 = draw_speed_below(rng, config);
    chord(radius, first, second, travel_feed, draw_feed, config)
}

/// The four moves of the spoke at `degrees`: draw to the rim, cross to the
/// antipode, step on by the sweep offset and cross back.
pub open spec fn spoke_moves(
    radius: i32,
    degrees: int,
    feeds: (u32, u32, u32, u32),
    config: Config,
) -> Seq<Move> {
    let lead = Angle::of_degrees(degrees);
    let back = Angle::of_degrees(degrees + config.sweep_offset);
    seq![
        Move::draw_to(Point::Rim { radius, angle: lead }, config.depth, feeds.0),
        Move::travel_to(Point::Rim { radius, angle: lead.antipode() }, feeds.1),
        Move::travel_to(Point::Rim { radius, angle: back }, feeds.2),
        Move::travel_to(Point::Rim { radius, angle: back.antipode() }, feeds.3),
    ]
}

/// Builds the four moves of one spoke from feed rates that were drawn
/// beforehand.
pub fn spoke(radius: i32, degrees: u32, feeds: (u32, u32, u32, u32), config: &Config) -> (moves:
    Vec<Move>)
    ensures
        moves@ == spoke_moves(radius, degrees as int, feeds, *config),
{
    let lead: Angle = Angle::from_degrees(degrees);
    let turned: u64 = (degrees as u64 + config.sweep_offset as u64) % 360;
    let back: Angle = Angle::from_degrees(turned as u32);
    let mut moves: Vec<Move> = Vec::new();
    moves.push(Move::draw(Point::Rim { radius, angle: lead }, config.depth, feeds.0));
    moves.push(Move::travel(Point::Rim { radius, angle: lead.opposite() }, feeds.1));
    moves.push(Move::travel(Point::Rim { radius, angle: back }, feeds.2));
    moves.push(Move::travel(Point::Rim { radius, angle: back.opposite() }, feeds.3));
    moves
}

/// The span of a sweep in degrees: a half turn.
pub const SWEEP_SPAN: u32 = 180;

/// Number of spokes of a sweep: one for each multiple of the step below a
/// half turn.
pub open spec fn spoke_count(config: Config) -> int {
    (SWEEP_SPAN - 1) / (config.sweep_step as int) + 1
}

/// The four moves of the spoke with number `k` in `moves`.
pub open spec fn spoke_at(moves: Seq<Move>, k: int) -> Seq<Move> {
    moves.subrange(4 * k, 4 * k + 4)
}

/// The feed rates of the spoke with number `k` in `moves`.
pub open spec fn feeds_at(moves: Seq<Move>, k: int) -> (u32, u32, u32, u32) {
    (moves[4 * k].feed, moves[4 * k + 1].feed, moves[4 * k + 2].feed, moves[4 * k + 3].feed)
}

/// `moves` is a radial sweep of `radius`: spoke after spoke at the multiples
/// of the step, every feed rate within the configured bounds.
pub open spec fn is_sweep(moves: Seq<Move>, radius: i32, config: Config) -> bool {
    &&& moves.len() == 4 * spoke_count(config)
    &&& forall|k: int|
        0 <= k < spoke_count(config) ==> #[trigger] spoke_at(moves, k) == spoke_moves(
            radius,
            k * config.sweep_step,
            feeds_at(moves, k),
            config,
        )
    &&& forall|i: int|
        0 <= i < moves.len() ==> config.min_speed <= (#[trigger] moves[i]).feed
            <= config.max_speed
}

/// For a positive step, `k` spokes lie below a half turn exactly when
/// `k` is less than the spoke count.
pub proof fn lemma_spoke_count(config: Config, k: int)
    requires
        config.sweep_step > 0,
        0 <= k,
    ensures
        k * config.sweep_step < SWEEP_SPAN <==> k < spoke_count(config),
        spoke_count(config) >= 1,
        spoke_count(config) <= SWEEP_SPAN,
{
    let step = config.sweep_step as int;
    let q = 179int / step;
    let r = 179int % step;
    assert(179 == step * q + r && 0 <= r < step) by {
        vstd::arithmetic::div_mod::lemma_fundamental_div_mod(179, step);
    }
    assert(0 <= q <= 179) by (nonlinear_arith)
        requires
            179 == step * q + r,
            0 <= r < step,
            step > 0,
    ;
    if k <= q {
        assert(k * step <= q * step) by (nonlinear_arith)
            requires
                0 <= k <= q,
                step > 0,
        ;
        assert(q * step == step * q) by (nonlinear_arith);
    } else {
        assert(k * step >= (q + 1) * step) by (nonlinear_arith)
            requires
                k >= q + 1,
                step > 0,
        ;
        assert((q + 1) * step == step * q + step) by (nonlinear_arith);
    }
}

/// The direction of the spoke with number `k` in `moves`.
pub open spec fn swept_angle(moves: Seq<Move>, k: int) -> Angle {
    moves[4 * k].target.direction()
}

/// A sweep is made of whole spokes: its length is four times the spoke
/// count.
pub proof fn lemma_sweep_length(moves: Seq<Move>, radius: i32, config: Config)
    requires
        config.has_sweep(),
        is_sweep(moves, radius, config),
    ensures
        moves.len() % 4 == 0,
        moves.len() / 4 == spoke_count(config),
        4 <= moves.len() <= 720,
{
    lemma_spoke_count(config, 0);
}

/// Every spoke of a sweep starts with a drawing move to the rim at a
/// multiple of the step that lies in `[0°, 180°)`.
pub proof fn lemma_sweep_stays_in_half_turn(moves: Seq<Move>, radius: i32, config: Config, k: int)
    requires
        config.has_sweep(),
        is_sweep(moves, radius, config),
        0 <= k < spoke_count(config),
    ensures
        0 <= k * config.sweep_step < SWEEP_SPAN,
        swept_angle(moves, k) == Angle::of_degrees(k * config.sweep_step),
        moves[4 * k] == Move::draw_to(
            Point::Rim { radius, angle: Angle::of_degrees(k * config.sweep_step) },
            config.depth,
            moves[4 * k].feed,
        ),
{
    lemma_spoke_count(config, k);
    assert(k * config.sweep_step >= 0) by (nonlinear_arith)
        requires
            k >= 0,
            config.sweep_step > 0,
    ;
    assert(spoke_at(moves, k)[0] == moves[4 * k]);
}

/// Every multiple of the step in `[0°, 180°)` is swept by exactly one
/// spoke of a sweep.
pub proof fn lemma_sweep_covers_half_turn(
    moves: Seq<Move>,
    radius: i32,
    config: Config,
    degrees: int,
)
    requires
        config.has_sweep(),
        is_sweep(moves, radius, config),
        0 <= degrees < SWEEP_SPAN,
        degrees % (config.sweep_step as int) == 0,
    ensures
        0 <= degrees / (config.sweep_step as int) < spoke_count(config),
        swept_angle(moves, degrees / (config.sweep_step as int)) == Angle::of_degrees(degrees),
        forall|j: int|
            0 <= j < spoke_count(config) && swept_angle(moves, j) == Angle::of_degrees(degrees)
                ==> j == degrees / (config.sweep_step as int),
{
    let step = config.sweep_step as int;
    let k = degrees / step;
    assert(degrees == step * k + degrees % step) by {
        vstd::arithmetic::div_mod::lemma_fundamental_div_mod(degrees, step);
    }
    assert(k >= 0) by (nonlinear_arith)
        requires
            degrees == step * k,
            degrees >= 0,
            step > 0,
    ;
    assert(k * step == degrees) by (nonlinear_arith)
        requires
            degrees == step * k,
    ;
    lemma_spoke_count(config, k);
    lemma_sweep_stays_in_half_turn(moves, radius, config, k);
    assert forall|j: int|
        0 <= j < spoke_count(config) && swept_angle(moves, j) == Angle::of_degrees(
            degrees,
        ) implies j == k by {
        lemma_sweep_stays_in_half_turn(moves, radius, config, j);
        assert(j * step == degrees);
        assert(j == k) by (nonlinear_arith)
            requires
                j * step == k * step,
                step > 0,
        ;
    }
}

/// Generates the radial sweep of `radius`: for each multiple of the sweep
/// step below a half turn, in rising order, the four moves of its spoke,
/// each at a feed rate drawn from `[min_speed, max_speed]`.
pub fn radial_sweep(rng: &mut StdRng, radius: i32, config: &Config) -> (moves: Vec<Move>)
    requires
        config.has_speeds(),
        config.has_sweep(),
    ensures
        is_sweep(moves@, radius, *config),
{
    let mut moves: Vec<Move> = Vec::new();
    let mut degrees: u32 = 0;
    let ghost mut k: int = 0;
    proof {
        lemma_spoke_count(*config, 0);
    }
    loop
        invariant_except_break
            0 <= k < spoke_count(*config),
            degrees == k * config.sweep_step,
            degrees < SWEEP_SPAN,
        invariant
            config.has_speeds(),
            config.has_sweep(),
            moves@.len() == 4 * k,
            forall|j: int|
                0 <= j < k ==> #[trigger] spoke_at(moves@, j) == spoke_moves(
                    radius,
                    j * config.sweep_step,
                    feeds_at(moves@, j),
                    *config,
                ),
            forall|i: int|
                0 <= i < moves@.len() ==> config.min_speed <= (#[trigger] moves@[i]).feed
                    <= config.max_speed,
        ensures
            is_sweep(moves@, radius, *config),
        decreases SWEEP_SPAN - degrees,
    {
        let first: u32 = draw_speed(rng, config);
        let second: u32 = draw_speed(rng, config);
        let third: u32 = draw_speed(rng, config);
        let fourth: u32 = draw_speed(rng, config);
        let four: Vec<Move> = spoke(radius, degrees, (first, second, third, fourth), config);
        let ghost before = moves@;
        moves.push(four[0]);
        moves.push(four[1]);
        moves.push(four[2]);
        moves.push(four[3]);
        proof {
            assert(spoke_at(moves@, k) =~= four@);
            assert forall|j: int| 0 <= j < k implies #[trigger] spoke_at(moves@, j)
                == spoke_moves(radius, j * config.sweep_step, feeds_at(moves@, j), *config) by {
                assert(spoke_at(moves@, j) =~= spoke_at(before, j));
            }
            assert((k + 1) * config.sweep_step == k * config.sweep_step + config.sweep_step)
                by (nonlinear_arith);
            lemma_spoke_count(*config, k + 1);
            k = k + 1;
        }
        if config.sweep_step >= SWEEP_SPAN - degrees {
            break ;
        }
        degrees = degrees + config.sweep_step;
    }
    moves
}

} // verus!
