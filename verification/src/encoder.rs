//! The wire grammar: from a placed move to the text of its command.
//!
//! A move is placed once its target is known as a pair of decimal numerals.
//! A lattice point is placed here, exactly. A rim point needs trigonometry,
//! which the caller supplies as numerals of its own.

use crate::command::Command;
use crate::geometry::{Move, MoveKind, Point};
use crate::numeral::{check_numeral, decimal, is_numeral, lemma_signed_decimal_is_numeral,
    push_decimal, push_signed_decimal, signed_decimal};
use vstd::prelude::*;
use vstd::slice::slice_to_vec;

verus! {

/// One coordinate of a placed move: the numeral of a finite number.
#[derive(Debug)]
pub struct Coordinate {
    text: Vec<u8>,
}

impl View for Coordinate {
    type V = Seq<u8>;

    closed spec fn view(&self) -> Seq<u8> {
        self.text@
    }
}

impl Coordinate {
    #[verifier::type_invariant]
    spec fn holds_numeral(&self) -> bool {
        is_numeral(self.text@)
    }

    /// The coordinate of a whole number.
    pub fn from_integer(value: i64) -> (coordinate: Coordinate)
        ensures
            coordinate@ == signed_decimal(value as int),
    {
        let mut text: Vec<u8> = Vec::new();
        push_signed_decimal(&mut text, value);
        proof {
            lemma_signed_decimal_is_numeral(value as int);
            assert(text@ =~= signed_decimal(value as int));
        }
        Coordinate { text }
    }

    /// Takes `text` as a coordinate if it is the numeral of a finite
    /// number, and refuses it otherwise.
    pub fn parse(text: &[u8]) -> (parsed: Option<Coordinate>)
        ensures
            is_numeral(text@) ==> parsed is Some && parsed->0@ == text@,
            !is_numeral(text@) ==> parsed is None,
    {
        if check_numeral(text) {
            Some(Coordinate { text: slice_to_vec(text) })
        } else {
            None
        }
    }

    /// The bytes of the numeral.
    pub fn as_bytes(&self) -> (bytes: &[u8])
        ensures
            bytes@ == self@,
            is_numeral(self@),
    {
        proof {
            use_type_invariant(self);
        }
        self.text.as_slice()
    }
}

/// A move whose target is known in Cartesian coordinates.
#[derive(Debug)]
pub struct PlacedMove {
    pub kind: MoveKind,
    pub x: Coordinate,
    pub y: Coordinate,
    /// The vertical coordinate of a drawing move; a travel move has none.
    pub depth: Option<u32>,
    /// Feed rate in mm/min.
    pub feed: u32,
}

/// A word of a command: a blank, the word's letter and its value.
pub open spec fn word(letter: char, value: Seq<u8>) -> Seq<u8> {
    seq![' ' as u8, letter as u8] + value
}

/// The text of a move's command.
///
/// A straight move is `G1` with the target as `X` and `Y`. An arc is `G2`
/// with the offset to its centre as `I` and `J`; it closes on its start
/// point, so its target is not written. A drawing move then has its depth
/// as `Z`, and every move ends with its feed rate as `F`.
pub open spec fn wire_text(
    kind: MoveKind,
    x: Seq<u8>,
    y: Seq<u8>,
    depth: Option<u32>,
    feed: u32,
) -> Seq<u8> {
    let head = match kind {
        MoveKind::Linear => seq!['G' as u8, '1' as u8] + word('X', x) + word('Y', y),
        MoveKind::Arc { i, j } => seq!['G' as u8, '2' as u8] + word('I', signed_decimal(i as int))
            + word('J', signed_decimal(j as int)),
    };
    let height = match depth {
        Some(z) => word('Z', decimal(z as nat)),
        None => Seq::<u8>::empty(),
    };
    head + height + word('F', decimal(feed as nat))
}

impl PlacedMove {
    /// The text of this move's command.
    pub open spec fn text(&self) -> Seq<u8> {
        wire_text(self.kind, self.x@, self.y@, self.depth, self.feed)
    }
}

/// Appends a blank and `letter` to `out`.
fn push_letter(out: &mut Vec<u8>, letter: char)
    requires
        letter as u32 <= 127,
    ensures
        final(out)@ == old(out)@ + seq![' ' as u8, letter as u8],
{
    out.push(' ' as u8);
    out.push(letter as u8);
    proof {
        assert(out@ =~= old(out)@ + seq![' ' as u8, letter as u8]);
    }
}

/// Appends `bytes` to `out`.
fn push_bytes(out: &mut Vec<u8>, bytes: &[u8])
    ensures
        final(out)@ == old(out)@ + bytes@,
{
    let mut i: usize = 0;
    while i < bytes.len()
        invariant
            i <= bytes@.len(),
            out@ == old(out)@ + bytes@.take(i as int),
        decreases bytes@.len() - i,
    {
        out.push(bytes[i]);
        proof {
            assert(bytes@.take(i + 1) =~= bytes@.take(i as int).push(bytes@[i as int]));
            assert(out@ =~= old(out)@ + bytes@.take(i + 1));
        }
        i = i + 1;
    }
    proof {
        assert(bytes@.take(i as int) =~= bytes@);
    }
}

/// Formats a placed move as the text of its command.
pub fn encode(placed: &PlacedMove) -> (command: Command)
    ensures
        command@ == placed.text(),
{
    let mut out: Vec<u8> = Vec::new();
    out.push('G' as u8);
    match placed.kind {
        MoveKind::Linear => {
            out.push('1' as u8);
            push_letter(&mut out, 'X');
            push_bytes(&mut out, placed.x.as_bytes());
            push_letter(&mut out, 'Y');
            push_bytes(&mut out, placed.y.as_bytes());
        },
        MoveKind::Arc { i, j } => {
            out.push('2' as u8);
            push_letter(&mut out, 'I');
            push_signed_decimal(&mut out, i);
            push_letter(&mut out, 'J');
            push_signed_decimal(&mut out, j);
        },
    }
    let ghost head = out@;
    proof {
        match placed.kind {
            MoveKind::Linear => {
                assert(head =~= seq!['G' as u8, '1' as u8] + word('X', placed.x@) + word(
                    'Y',
                    placed.y@,
                ));
            },
            MoveKind::Arc { i, j } => {
                assert(head =~= seq!['G' as u8, '2' as u8] + word('I', signed_decimal(i as int))
                    + word('J', signed_decimal(j as int)));
            },
        }
    }
    match placed.depth {
        Some(z) => {
            push_letter(&mut out, 'Z');
            push_decimal(&mut out, z as u64);
        },
        None => {},
    }
    let ghost body = out@;
    proof {
        match placed.depth {
            Some(z) => {
                assert(body =~= head + word('Z', decimal(z as nat)));
            },
            None => {
                assert(body =~= head + Seq::<u8>::empty());
            },
        }
    }
    push_letter(&mut out, 'F');
    push_decimal(&mut out, placed.feed as u64);
    proof {
        assert(out@ =~= body + word('F', decimal(placed.feed as nat)));
    }
    Command::new(out)
}

/// The numerals of a point's coordinates where they are known exactly: a
/// lattice point has them, a rim point has not.
pub open spec fn exact_place(target: Point) -> Option<(Seq<u8>, Seq<u8>)> {
    match target {
        Point::Grid { x, y } => Some((signed_decimal(x as int), signed_decimal(y as int))),
        Point::Rim { .. } => None,
    }
}

/// Places a move at coordinates that the caller worked out for its target.
pub fn place(m: &Move, x: Coordinate, y: Coordinate) -> (placed: PlacedMove)
    ensures
        placed.kind == m.kind,
        placed.x@ == x@,
        placed.y@ == y@,
        placed.depth == m.depth,
        placed.feed == m.feed,
        placed.text() == wire_text(m.kind, x@, y@, m.depth, m.feed),
{
    PlacedMove { kind: m.kind, x, y, depth: m.depth, feed: m.feed }
}

/// Places a move whose target is a lattice point; a rim point is left to
/// the caller.
pub fn place_exact(m: &Move) -> (placed: Option<PlacedMove>)
    ensures
        match exact_place(m.target) {
            Some((x, y)) => placed is Some && placed->0.text() == wire_text(
                m.kind,
                x,
                y,
                m.depth,
                m.feed,
            ) && placed->0.x@ == x && placed->0.y@ == y && placed->0.kind == m.kind
                && placed->0.depth == m.depth && placed->0.feed == m.feed,
            None => placed is None,
        },
{
    match m.target {
        Point::Grid { x, y } => Some(
            place(m, Coordinate::from_integer(x), Coordinate::from_integer(y)),
        ),
        Point::Rim { .. } => None,
    }
}

/// The text of a move that can be placed exactly.
pub open spec fn exact_text(m: Move) -> Option<Seq<u8>> {
    match exact_place(m.target) {
        Some((x, y)) => Some(wire_text(m.kind, x, y, m.depth, m.feed)),
        None => None,
    }
}

/// Formats a move whose target is a lattice point; a rim point yields
/// nothing.
pub fn encode_exact(m: &Move) -> (command: Option<Command>)
    ensures
        match exact_text(*m) {
            Some(text) => command is Some && command->0@ == text,
            None => command is None,
        },
{
    match place_exact(m) {
        Some(placed) => Some(encode(&placed)),
        None => None,
    }
}

/// Formats a run of moves whose targets are all lattice points, in order;
/// a run with a rim point in it yields nothing.
pub fn encode_all_exact(moves: &Vec<Move>) -> (commands: Option<Vec<Command>>)
    ensures
        (forall|i: int| 0 <= i < moves@.len() ==> exact_text(#[trigger] moves@[i]) is Some) ==> {
            &&& commands is Some
            &&& commands->0@.len() == moves@.len()
            &&& forall|i: int|
                0 <= i < moves@.len() ==> Some((#[trigger] commands->0@[i])@) == exact_text(
                    moves@[i],
                )
        },
        (exists|i: int| 0 <= i < moves@.len() && exact_text(#[trigger] moves@[i]) is None)
            ==> commands is None,
{
    let mut commands: Vec<Command> = Vec::new();
    let mut i: usize = 0;
    while i < moves.len()
        invariant
            i <= moves@.len(),
            commands@.len() == i,
            forall|k: int| 0 <= k < i ==> exact_text(#[trigger] moves@[k]) is Some,
            forall|k: int|
                0 <= k < i ==> Some((#[trigger] commands@[k])@) == exact_text(moves@[k]),
        decreases moves@.len() - i,
    {
        match encode_exact(&moves[i]) {
            Some(command) => {
                commands.push(command);
            },
            None => {
                return None;
            },
        }
        i = i + 1;
    }
    Some(commands)
}

/// Encoding is a function of the move: equal moves give equal text.
pub proof fn lemma_encoding_is_repeatable(first: PlacedMove, second: PlacedMove)
    requires
        first.kind == second.kind,
        first.x@ == second.x@,
        first.y@ == second.y@,
        first.depth == second.depth,
        first.feed == second.feed,
    ensures
        first.text() == second.text(),
{
}

} // verus!
