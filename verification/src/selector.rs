//! The selector: which moves are valid at a turn, and which one is made.

use vstd::prelude::*;
use vstd::seq_lib::lemma_seq_contains_after_push;
use crate::direction::{representable, Direction};
use crate::models::{positions, Coordinate, GameStatus, GameStatusView, MoveResponse, Position};
use crate::random::choose_move;
use crate::rules::{
    is_answer, is_next_to, is_opponent, is_valid_move, lemma_valid_among_push, names,
    opponent_cells, risky_positions, valid_among, valid_move_names, valid_moves,
};
use crate::validation::{violation, GameStateError};
use rand::rngs::StdRng;

verus! {

/// What a list of words says, word by word.
pub open spec fn words(moves: Seq<&'static str>) -> Seq<Seq<char>> {
    moves.map_values(|word: &'static str| word@)
}

/// Whether the head of an opponent among the first `n` snakes of the board can
/// reach `p` with its next move.
spec fn risky_among(state: GameStatusView, n: int, p: Position) -> bool {
    exists|i: int|
        i < n && #[trigger] is_opponent(state, i) && is_next_to(state.board.snakes[i].head, p)
}

/// Whether the body of an opponent among the first `n` snakes of the board
/// covers `p`.
spec fn covered_among(state: GameStatusView, n: int, p: Position) -> bool {
    exists|i: int|
        i < n && #[trigger] is_opponent(state, i) && state.board.snakes[i].body.contains(p)
}

/// Whether `cells` holds `target`.
fn contains_coordinate(cells: &Vec<Coordinate>, target: &Coordinate) -> (found: bool)
    ensures
        found == positions(cells@).contains(target@),
{
    let mut i: usize = 0;
    while i < cells.len()
        invariant
            i <= cells.len(),
            forall|j: int| 0 <= j < i ==> cells@[j] != *target,
        decreases cells.len() - i,
    {
        if cells[i] == *target {
            assert(positions(cells@)[i as int] == target@);
            return true;
        }
        i += 1;
    }
    assert forall|j: int| 0 <= j < positions(cells@).len() implies positions(cells@)[j]
        != target@ by {
        assert(positions(cells@)[j] == cells@[j]@);
    }
    false
}

/// Whether `cells` holds the risky cells of a turn, as far as they have
/// coordinates, and no other cell.
spec fn holds_risky(cells: Seq<Coordinate>, state: GameStatusView) -> bool {
    forall|p: Position| #[trigger]
        positions(cells).contains(p) <==> representable(p) && risky_positions(state).contains(p)
}

/// Adds to `cells` the coordinate one step in direction `d` from `head`, where
/// it has one.
fn push_step(cells: &mut Vec<Coordinate>, head: &Coordinate, d: Direction)
    ensures
        forall|p: Position|
            #![trigger positions(final(cells)@).contains(p)]
            #![trigger positions(old(cells)@).contains(p)]
            positions(final(cells)@).contains(p) <==> positions(old(cells)@).contains(p) || (p
                == d.step(head@) && representable(p)),
{
    match d.apply(head) {
        Some(c) => {
            cells.push(c);
            proof {
                let before = positions(old(cells)@);
                assert(positions(cells@) =~= before.push(c@));
                assert forall|p: Position| #[trigger]
                    before.push(c@).contains(p) <==> before.contains(p) || p == c@ by {
                    lemma_seq_contains_after_push(before, c@, p);
                }
            }
        },
        None => {},
    }
}

/// The cells that the head of some opponent can reach with its next move, as
/// far as they have coordinates.
fn risky_coords(game_status: &GameStatus) -> (risky: Vec<Coordinate>)
    ensures
        holds_risky(risky@, game_status@),
{
    let ghost state = game_status@;
    let mut risky: Vec<Coordinate> = Vec::new();
    let mut i: usize = 0;
    while i < game_status.board.snakes.len()
        invariant
            i <= game_status.board.snakes.len(),
            state == game_status@,
            forall|p: Position| #[trigger]
                positions(risky@).contains(p) <==> representable(p) && risky_among(
                    state,
                    i as int,
                    p,
                ),
        decreases game_status.board.snakes.len() - i,
    {
        let snake = &game_status.board.snakes[i];
        let ghost earlier = positions(risky@);
        assert(state.board.snakes[i as int] == snake@);
        if snake.id != game_status.you.id {
            push_step(&mut risky, &snake.head, Direction::Up);
            push_step(&mut risky, &snake.head, Direction::Down);
            push_step(&mut risky, &snake.head, Direction::Left);
            push_step(&mut risky, &snake.head, Direction::Right);
        }
        assert forall|p: Position| #[trigger]
            positions(risky@).contains(p) <==> representable(p) && risky_among(
                state,
                i + 1,
                p,
            ) by {
            assert(positions(risky@).contains(p) <==> earlier.contains(p) || (is_opponent(
                state,
                i as int,
            ) && is_next_to(snake@.head, p) && representable(p)));
            assert(risky_among(state, i + 1, p) <==> risky_among(state, i as int, p) || (
                is_opponent(state, i as int) && is_next_to(snake@.head, p)));
        }
        i += 1;
    }
    assert forall|p: Position|
        risky_among(state, i as int, p) <==> risky_positions(state).contains(p) by {
        if risky_positions(state).contains(p) {
            let j = choose|j: int| #[trigger]
                is_opponent(state, j) && is_next_to(state.board.snakes[j].head, p);
            assert(j < i);
        }
    }
    risky
}

/// Whether the body of some opponent covers `target`.
fn hits_opponent(game_status: &GameStatus, target: &Coordinate) -> (hit: bool)
    ensures
        hit == opponent_cells(game_status@).contains(target@),
{
    let ghost state = game_status@;
    let mut i: usize = 0;
    while i < game_status.board.snakes.len()
        invariant
            i <= game_status.board.snakes.len(),
            state == game_status@,
            !covered_among(state, i as int, target@),
        decreases game_status.board.snakes.len() - i,
    {
        let snake = &game_status.board.snakes[i];
        assert(state.board.snakes[i as int] == snake@);
        if snake.id != game_status.you.id && contains_coordinate(&snake.body, target) {
            assert(is_opponent(state, i as int));
            return true;
        }
        proof {
            if covered_among(state, i + 1, target@) {
                let j = choose|j: int|
                    j < i + 1 && #[trigger] is_opponent(state, j)
                        && state.board.snakes[j].body.contains(target@);
                assert(covered_among(state, i as int, target@));
            }
        }
        i += 1;
    }
    proof {
        if opponent_cells(state).contains(target@) {
            let j = choose|j: int| #[trigger]
                is_opponent(state, j) && state.board.snakes[j].body.contains(target@);
            assert(covered_among(state, i as int, target@));
        }
    }
    false
}

/// Whether the acting snake survives one step in direction `d`, given the
/// risky cells of the turn.
fn is_valid(game_status: &GameStatus, risky: &Vec<Coordinate>, d: Direction) -> (valid: bool)
    requires
        holds_risky(risky@, game_status@),
    ensures
        valid == is_valid_move(game_status@, d),
{
    match d.apply(&game_status.you.head) {
        Some(target) => {
            assert(representable(target@));
            target.x >= 0 && target.y >= 0 && target.x < game_status.board.width && target.y
                < game_status.board.height && !contains_coordinate(&game_status.you.body, &target)
                && !contains_coordinate(risky, &target) && !hits_opponent(game_status, &target)
        },
        None => false,
    }
}

/// The valid moves of a turn as words, in the order up, down, left, right.
///
/// A move is valid exactly if the cell it leads to lies on the board, is no
/// part of the acting snake's body, cannot be reached by the head of another
/// snake in one move, and is no part of another snake's body.
pub fn get_valid_moves(game_status: &GameStatus) -> (moves: Vec<&'static str>)
    ensures
        words(moves@) == valid_move_names(game_status@),
{
    let possible_moves = [Direction::Up, Direction::Down, Direction::Left, Direction::Right];
    let risky = risky_coords(game_status);
    let mut moves: Vec<&'static str> = Vec::new();
    let mut k: usize = 0;
    assert(possible_moves@ =~= Direction::all());
    assert(Direction::all().take(0) =~= Seq::empty());
    assert(valid_among(game_status@, Seq::empty()) =~= Seq::empty()) by {
        reveal(Seq::filter);
    }
    while k < 4
        invariant
            k <= 4,
            possible_moves@ == Direction::all(),
            holds_risky(risky@, game_status@),
            words(moves@) == names(valid_among(game_status@, Direction::all().take(k as int))),
        decreases 4 - k,
    {
        let d = possible_moves[k];
        let ghost tried = Direction::all().take(k as int);
        let ghost found = moves@;
        proof {
            lemma_valid_among_push(game_status@, tried, d);
            assert(Direction::all().take(k + 1) =~= tried.push(d));
        }
        if is_valid(game_status, &risky, d) {
            moves.push(d.as_str());
            assert(words(moves@) =~= words(found).push(d.name()));
            assert(names(valid_among(game_status@, tried).push(d)) =~= names(
                valid_among(game_status@, tried),
            ).push(d.name()));
        }
        k += 1;
    }
    assert(Direction::all().take(4) =~= Direction::all());
    moves
}

/// The answer for what the random source chose among the valid moves: the
/// chosen word, or `up` where it had nothing to choose from.
pub fn response_for(choice: Option<&'static str>) -> (response: MoveResponse)
    ensures
        response@ == match choice {
            Some(word) => word@,
            None => Direction::Up.name(),
        },
{
    let word = choice.unwrap_or("up");
    MoveResponse { direction: word.to_string() }
}

/// Picks the answer to a turn, whatever the turn holds: one of the valid moves,
/// chosen by `rng`, or `up` where no move is valid.
fn pick_move(game_status: &GameStatus, rng: &mut StdRng) -> (response: MoveResponse)
    ensures
        is_answer(game_status@, response@),
{
    let moves = get_valid_moves(game_status);
    let random_move = choose_move(&moves, rng);
    proof {
        let state = game_status@;
        assert(words(moves@).len() == moves@.len());
        assert(valid_move_names(state).len() == valid_moves(state).len());
        if let Some(word) = random_move {
            let i = choose|i: int| 0 <= i < moves@.len() && moves@[i] == word;
            assert(words(moves@)[i] == word@);
        }
    }
    response_for(random_move)
}

/// Answers a turn.
///
/// A turn that is no valid game state gets no move: the result is the error
/// that names the first rule it breaks. A valid one gets one of its valid
/// moves, chosen by `rng`, or `up` where no move is valid.
pub fn make_move(game_status: &GameStatus, rng: &mut StdRng) -> (result: Result<
    MoveResponse,
    GameStateError,
>)
    ensures
        match result {
            Ok(response) => violation(game_status@) is None && is_answer(
                game_status@,
                response@,
            ),
            Err(e) => violation(game_status@) == Some(e),
        },
{
    match game_status.validate() {
        Ok(()) => Ok(pick_move(game_status, rng)),
        Err(e) => Err(e),
    }
}

} // verus!
