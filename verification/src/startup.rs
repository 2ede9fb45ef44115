//! The commands that prepare the machine for a run.

use crate::command::Command;
use crate::encoder::{encode, place, wire_text, Coordinate, PlacedMove};
use crate::geometry::{Move, MoveKind, Point};
use crate::numeral::{decimal, signed_decimal};
use vstd::prelude::*;

verus! {

/// Number of commands in the startup sequence.
pub const STARTUP_LENGTH: usize = 3;

/// Height above the bed at which the tool waits over the origin.
pub const HOVER_HEIGHT: u32 = 50;

/// Feed rate of the move to the waiting position, in mm/min.
pub const HOVER_FEED: u32 = 8000;

/// The move to the waiting position over the origin.
pub open spec fn hover_move() -> Move {
    Move::draw_to(Point::Grid { x: 0, y: 0 }, HOVER_HEIGHT, HOVER_FEED)
}

/// The text of the startup command with number `index`: `M107 S1` for the
/// fan, `G28` to home the axes, `G1 X0 Y0 Z50 F8000` to wait over the
/// origin.
pub open spec fn startup_text(index: int) -> Seq<u8> {
    if index == 0 {
        seq!['M' as u8, '1' as u8, '0' as u8, '7' as u8, ' ' as u8, 'S' as u8, '1' as u8]
    } else if index == 1 {
        seq!['G' as u8, '2' as u8, '8' as u8]
    } else {
        seq![
            'G' as u8,
            '1' as u8,
            ' ' as u8,
            'X' as u8,
            '0' as u8,
            ' ' as u8,
            'Y' as u8,
            '0' as u8,
            ' ' as u8,
            'Z' as u8,
            '5' as u8,
            '0' as u8,
            ' ' as u8,
            'F' as u8,
            '8' as u8,
            '0' as u8,
            '0' as u8,
            '0' as u8,
        ]
    }
}

/// The last startup command is the encoding of the move to the waiting
/// position.
pub proof fn lemma_hover_text()
    ensures
        wire_text(
            MoveKind::Linear,
            signed_decimal(0),
            signed_decimal(0),
            Some(HOVER_HEIGHT),
            HOVER_FEED,
        ) == startup_text(2),
{
    reveal_with_fuel(decimal, 5);
    assert(decimal(0) =~= seq!['0' as u8]);
    assert(decimal(50) =~= seq!['5' as u8, '0' as u8]);
    assert(decimal(8000) =~= seq!['8' as u8, '0' as u8, '0' as u8, '0' as u8]);
    assert(wire_text(
        MoveKind::Linear,
        signed_decimal(0),
        signed_decimal(0),
        Some(HOVER_HEIGHT),
        HOVER_FEED,
    ) =~= startup_text(2));
}

/// Builds the startup sequence, in sending order.
pub fn startup_commands() -> (commands: Vec<Command>)
    ensures
        commands@.len() == STARTUP_LENGTH,
        forall|i: int| 0 <= i < commands@.len() ==> (#[trigger] commands@[i])@ == startup_text(i),
{
    let mut commands: Vec<Command> = Vec::new();
    commands.push(
        Command::new(
            vec!['M' as u8, '1' as u8, '0' as u8, '7' as u8, ' ' as u8, 'S' as u8, '1' as u8],
        ),
    );
    commands.push(Command::new(vec!['G' as u8, '2' as u8, '8' as u8]));
    let hover: Move = Move::draw(Point::Grid { x: 0, y: 0 }, HOVER_HEIGHT, HOVER_FEED);
    let placed: PlacedMove = place(&hover, Coordinate::from_integer(0), Coordinate::from_integer(0));
    proof {
        lemma_hover_text();
    }
    commands.push(encode(&placed));
    commands
}

} // verus!
