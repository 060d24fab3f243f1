//! The snapshot of one turn, and the mathematical view of each of its parts.

use vstd::prelude::*;

verus! {

/// A cell of the unbounded integer grid: what a [`Coordinate`] stands for, and
/// what a step from a cell leads to.
pub struct Position {
    pub x: int,
    pub y: int,
}

/// A cell given by two 32-bit signed coordinates.
#[derive(Clone, Copy, Debug, PartialEq, Eq, Structural)]
pub struct Coordinate {
    pub x: i32,
    pub y: i32,
}

impl View for Coordinate {
    type V = Position;

    open spec fn view(&self) -> Position {
        Position { x: self.x as int, y: self.y as int }
    }
}

/// The cells that a list of coordinates stands for, in order.
pub open spec fn positions(coordinates: Seq<Coordinate>) -> Seq<Position> {
    coordinates.map_values(|c: Coordinate| c@)
}

/// One snake: its identifier, its body from head to tail, and its head.
/// Health and length are carried along; no rule reads them.
#[derive(Clone, Debug)]
pub struct Snake {
    pub id: String,
    pub health: i32,
    pub body: Vec<Coordinate>,
    pub head: Coordinate,
    pub length: i32,
}

/// What a [`Snake`] stands for.
pub struct SnakeView {
    pub id: Seq<char>,
    pub health: int,
    pub body: Seq<Position>,
    pub head: Position,
    pub length: int,
}

impl View for Snake {
    type V = SnakeView;

    open spec fn view(&self) -> SnakeView {
        SnakeView {
            id: self.id@,
            health: self.health as int,
            body: positions(self.body@),
            head: self.head@,
            length: self.length as int,
        }
    }
}

/// What a list of snakes stands for, in order.
pub open spec fn snake_views(snakes: Seq<Snake>) -> Seq<SnakeView> {
    snakes.map_values(|s: Snake| s@)
}

/// The game a turn belongs to.
#[derive(Clone, Debug)]
pub struct Game {
    pub id: String,
}

impl View for Game {
    type V = Seq<char>;

    open spec fn view(&self) -> Seq<char> {
        self.id@
    }
}

/// The grid of one turn: cells `(x, y)` with `0 <= x < width` and
/// `0 <= y < height`, the food on it and every snake alive.
#[derive(Clone, Debug)]
pub struct Board {
    pub height: i32,
    pub width: i32,
    pub food: Vec<Coordinate>,
    pub snakes: Vec<Snake>,
}

/// What a [`Board`] stands for.
pub struct BoardView {
    pub height: int,
    pub width: int,
    pub food: Seq<Position>,
    pub snakes: Seq<SnakeView>,
}

impl View for Board {
    type V = BoardView;

    open spec fn view(&self) -> BoardView {
        BoardView {
            height: self.height as int,
            width: self.width as int,
            food: positions(self.food@),
            snakes: snake_views(self.snakes@),
        }
    }
}

/// Everything known at one turn: the game, the turn's number, the board and
/// the snake that is to move.
#[derive(Clone, Debug)]
pub struct GameStatus {
    pub game: Game,
    pub turn: i32,
    pub board: Board,
    pub you: Snake,
}

/// What a [`GameStatus`] stands for.
pub struct GameStatusView {
    pub game: Seq<char>,
    pub turn: int,
    pub board: BoardView,
    pub you: SnakeView,
}

impl View for GameStatus {
    type V = GameStatusView;

    open spec fn view(&self) -> GameStatusView {
        GameStatusView {
            game: self.game@,
            turn: self.turn as int,
            board: self.board@,
            you: self.you@,
        }
    }
}

/// The description a snake gives of itself.
#[derive(Clone, Debug)]
pub struct RootResponse {
    pub apiversion: String,
    pub author: String,
    pub color: String,
    pub head: String,
    pub tail: String,
    pub version: String,
}

/// What a [`RootResponse`] stands for.
pub struct RootResponseView {
    pub apiversion: Seq<char>,
    pub author: Seq<char>,
    pub color: Seq<char>,
    pub head: Seq<char>,
    pub tail: Seq<char>,
    pub version: Seq<char>,
}

impl View for RootResponse {
    type V = RootResponseView;

    open spec fn view(&self) -> RootResponseView {
        RootResponseView {
            apiversion: self.apiversion@,
            author: self.author@,
            color: self.color@,
            head: self.head@,
            tail: self.tail@,
            version: self.version@,
        }
    }
}

/// The answer to a turn: the word for the chosen direction.
#[derive(Clone, Debug)]
pub struct MoveResponse {
    pub direction: String,
}

impl View for MoveResponse {
    type V = Seq<char>;

    open spec fn view(&self) -> Seq<char> {
        self.direction@
    }
}

} // verus!
