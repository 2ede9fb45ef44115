//! Angles, points and structured moves.
//!
//! Positions are kept exact: a point is either a lattice point of the
//! machine frame or a point on a circle around the origin, named by its
//! radius and its angle in whole micro-degrees.

use vstd::prelude::*;

verus! {

/// Micro-degrees in one degree.
pub const MICRO_PER_DEGREE: u32 = 1_000_000;

/// Micro-degrees in a half turn.
pub const HALF_TURN: u32 = 180_000_000;

/// Micro-degrees in a full turn.
pub const FULL_TURN: u32 = 360_000_000;

/// A direction in the plane, counted counter-clockwise from the positive X
/// axis in micro-degrees.
#[derive(Clone, Copy, Debug, PartialEq, Eq, Structural)]
pub struct Angle {
    pub micro: u32,
}

impl Angle {
    /// A normalised angle lies in `[0°, 360°)`.
    pub open spec fn wf(self) -> bool {
        self.micro < FULL_TURN
    }

    /// The normalised angle of a whole number of degrees.
    pub open spec fn of_degrees(degrees: int) -> Angle {
        Angle { micro: ((degrees % 360) * MICRO_PER_DEGREE) as u32 }
    }

    /// The angle half a turn further on.
    pub open spec fn antipode(self) -> Angle {
        Angle { micro: ((self.micro + HALF_TURN) % (FULL_TURN as int)) as u32 }
    }

    /// Builds the angle of `degrees`, reduced to `[0°, 360°)`.
    pub fn from_degrees(degrees: u32) -> (angle: Angle)
        ensures
            angle == Angle::of_degrees(degrees as int),
            angle.wf(),
    {
        let reduced: u32 = degrees % 360;
        Angle { micro: reduced * MICRO_PER_DEGREE }
    }

    /// Builds the angle of `micro` micro-degrees, reduced to `[0°, 360°)`.
    pub fn from_micro(micro: u32) -> (angle: Angle)
        ensures
            angle.micro == micro % FULL_TURN,
            angle.wf(),
    {
        Angle { micro: micro % FULL_TURN }
    }

    /// The diametrically opposite direction.
    pub fn opposite(self) -> (angle: Angle)
        ensures
            angle == self.antipode(),
            angle.wf(),
    {
        let shifted: u64 = self.micro as u64 + HALF_TURN as u64;
        Angle { micro: (shifted % (FULL_TURN as u64)) as u32 }
    }
}

/// A position in the machine's plane.
#[derive(Clone, Copy, Debug, PartialEq, Eq, Structural)]
pub enum Point {
    /// The lattice point `(x, y)`.
    Grid { x: i64, y: i64 },
    /// The point of the circle of `radius` around the origin that lies in
    /// direction `angle`.
    Rim { radius: i32, angle: Angle },
}

impl Point {
    /// The direction of a rim point; a lattice point has none and yields
    /// the zero angle.
    pub open spec fn direction(self) -> Angle {
        match self {
            Point::Rim { angle, .. } => angle,
            Point::Grid { .. } => Angle { micro: 0 },
        }
    }
}

/// How the tool travels to the target of a move.
#[derive(Clone, Copy, Debug, PartialEq, Eq, Structural)]
pub enum MoveKind {
    /// Along a straight line.
    Linear,
    /// Clockwise along a full circle whose centre lies at `(i, j)` from the
    /// start point; the move ends where it began.
    Arc { i: i64, j: i64 },
}

/// One structured motion command, not yet serialised.
#[derive(Clone, Copy, Debug, PartialEq, Eq, Structural)]
pub struct Move {
    pub kind: MoveKind,
    pub target: Point,
    /// The vertical coordinate of a drawing move; a travel move has none.
    pub depth: Option<u32>,
    /// Feed rate in mm/min.
    pub feed: u32,
}

impl Move {
    /// A straight repositioning that leaves the tool at its height.
    pub open spec fn travel_to(target: Point, feed: u32) -> Move {
        Move { kind: MoveKind::Linear, target, depth: None, feed }
    }

    /// A straight move at working depth.
    pub open spec fn draw_to(target: Point, depth: u32, feed: u32) -> Move {
        Move { kind: MoveKind::Linear, target, depth: Some(depth), feed }
    }

    /// Whether the move carries the working depth.
    pub open spec fn is_drawing(self) -> bool {
        self.depth is Some
    }

    /// Builds a travel move.
    pub fn travel(target: Point, feed: u32) -> (m: Move)
        ensures
            m == Move::travel_to(target, feed),
    {
        Move { kind: MoveKind::Linear, target, depth: None, feed }
    }

    /// Builds a drawing move.
    pub fn draw(target: Point, depth: u32, feed: u32) -> (m: Move)
        ensures
            m == Move::draw_to(target, depth, feed),
    {
        Move { kind: MoveKind::Linear, target, depth: Some(depth), feed }
    }
}

} // verus!
