//! The four directions a snake can move in, and the step each one makes.

use vstd::prelude::*;
use crate::models::{Coordinate, Position};

verus! {

/// One of the four moves.
#[derive(Clone, Copy, Debug, PartialEq, Eq, Structural)]
pub enum Direction {
    Up,
    Down,
    Left,
    Right,
}

/// Whether both coordinates of a cell fit in 32 signed bits.
pub open spec fn representable(p: Position) -> bool {
    i32::MIN <= p.x <= i32::MAX && i32::MIN <= p.y <= i32::MAX
}

impl Direction {
    /// The four directions in the order in which they are tried.
    pub open spec fn all() -> Seq<Direction> {
        seq![Direction::Up, Direction::Down, Direction::Left, Direction::Right]
    }

    /// The lower-case English word for the direction.
    pub open spec fn name(self) -> Seq<char> {
        match self {
            Direction::Up => "up"@,
            Direction::Down => "down"@,
            Direction::Left => "left"@,
            Direction::Right => "right"@,
        }
    }

    /// The cell reached by one step from `from`: up and down change `y` by
    /// `+1` and `-1`, left and right change `x` by `-1` and `+1`.
    pub open spec fn step(self, from: Position) -> Position {
        match self {
            Direction::Up => Position { x: from.x, y: from.y + 1 },
            Direction::Down => Position { x: from.x, y: from.y - 1 },
            Direction::Left => Position { x: from.x - 1, y: from.y },
            Direction::Right => Position { x: from.x + 1, y: from.y },
        }
    }

    /// The word for the direction, as it is sent in an answer.
    pub fn as_str(self) -> (word: &'static str)
        ensures
            word@ == self.name(),
    {
        match self {
            Direction::Up => "up",
            Direction::Down => "down",
            Direction::Left => "left",
            Direction::Right => "right",
        }
    }

    /// The coordinate one step away from `from`, or `None` where that cell has
    /// a coordinate beyond the 32-bit range.
    pub fn apply(self, from: &Coordinate) -> (to: Option<Coordinate>)
        ensures
            match to {
                Some(c) => c@ == self.step(from@),
                None => !representable(self.step(from@)),
            },
    {
        match self {
            Direction::Up => match from.y.checked_add(1) {
                Some(y) => Some(Coordinate { x: from.x, y }),
                None => None,
            },
            Direction::Down => match from.y.checked_sub(1) {
                Some(y) => Some(Coordinate { x: from.x, y }),
                None => None,
            },
            Direction::Left => match from.x.checked_sub(1) {
                Some(x) => Some(Coordinate { x, y: from.y }),
                None => None,
            },
            Direction::Right => match from.x.checked_add(1) {
                Some(x) => Some(Coordinate { x, y: from.y }),
                None => None,
            },
        }
    }
}

/// No two directions share a word.
pub proof fn lemma_names_distinct(a: Direction, b: Direction)
    ensures
        a.name() == b.name() <==> a == b,
{
    reveal_strlit("up");
    reveal_strlit("down");
    reveal_strlit("left");
    reveal_strlit("right");
    if a != b {
        let na = a.name();
        let nb = b.name();
        assert(na.len() != nb.len() || na[0] != nb[0]);
    }
}

} // verus!
