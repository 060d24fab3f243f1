//! What makes a move valid: the rules, stated over the views of the models.

use vstd::prelude::*;
use vstd::seq_lib::lemma_seq_concat_contains_all_elements;
use crate::direction::{lemma_names_distinct, Direction};
use crate::models::{BoardView, GameStatusView, Position};

verus! {

/// Whether a cell lies on the board.
pub open spec fn on_board(board: BoardView, p: Position) -> bool {
    0 <= p.x < board.width && 0 <= p.y < board.height
}

/// Whether the board holds a snake at index `i` that is not the acting snake:
/// one whose identifier differs from the acting snake's.
pub open spec fn is_opponent(state: GameStatusView, i: int) -> bool {
    0 <= i < state.board.snakes.len() && state.board.snakes[i].id != state.you.id
}

/// Whether one step in some direction leads from `head` to `p`.
pub open spec fn is_next_to(head: Position, p: Position) -> bool {
    ||| p == Direction::Up.step(head)
    ||| p == Direction::Down.step(head)
    ||| p == Direction::Left.step(head)
    ||| p == Direction::Right.step(head)
}

/// The cells that the head of some opponent can reach with its next move.
pub open spec fn risky_positions(state: GameStatusView) -> Set<Position> {
    Set::new(
        |p: Position|
            exists|i: int| #[trigger]
                is_opponent(state, i) && is_next_to(state.board.snakes[i].head, p),
    )
}

/// The cells that some opponent's body covers, its head included.
pub open spec fn opponent_cells(state: GameStatusView) -> Set<Position> {
    Set::new(
        |p: Position|
            exists|i: int| #[trigger]
                is_opponent(state, i) && state.board.snakes[i].body.contains(p),
    )
}

/// Whether the acting snake survives one step in direction `d`: the cell it
/// reaches lies on the board, is no part of its own body (the head counts),
/// cannot be reached by an opponent's head in one move, and is no part of an
/// opponent's body.
pub open spec fn is_valid_move(state: GameStatusView, d: Direction) -> bool {
    let target = d.step(state.you.head);
    &&& on_board(state.board, target)
    &&& !state.you.body.contains(target)
    &&& !risky_positions(state).contains(target)
    &&& !opponent_cells(state).contains(target)
}

/// The valid ones among `candidates`, in their order.
pub open spec fn valid_among(state: GameStatusView, candidates: Seq<Direction>) -> Seq<
    Direction,
> {
    candidates.filter(|d: Direction| is_valid_move(state, d))
}

/// The valid moves of a turn, in the order up, down, left, right.
pub open spec fn valid_moves(state: GameStatusView) -> Seq<Direction> {
    valid_among(state, Direction::all())
}

/// The list that holds `d` if it is a valid move, and nothing if it is not.
pub open spec fn kept(state: GameStatusView, d: Direction) -> Seq<Direction> {
    if is_valid_move(state, d) {
        seq![d]
    } else {
        Seq::empty()
    }
}

/// The words for a list of directions.
pub open spec fn names(directions: Seq<Direction>) -> Seq<Seq<char>> {
    directions.map_values(|d: Direction| d.name())
}

/// The valid moves of a turn as words.
pub open spec fn valid_move_names(state: GameStatusView) -> Seq<Seq<char>> {
    names(valid_moves(state))
}

/// Whether `word` may be the answer to a turn: the word of one of the valid
/// moves or, where no move is valid, `up`.
pub open spec fn is_answer(state: GameStatusView, word: Seq<char>) -> bool {
    if valid_moves(state).len() == 0 {
        word == Direction::Up.name()
    } else {
        valid_move_names(state).contains(word)
    }
}

/// One more candidate adds itself to the valid ones exactly if it is valid.
pub proof fn lemma_valid_among_push(state: GameStatusView, candidates: Seq<Direction>, d: Direction)
    ensures
        valid_among(state, candidates.push(d)) == if is_valid_move(state, d) {
            valid_among(state, candidates).push(d)
        } else {
            valid_among(state, candidates)
        },
{
    reveal(Seq::filter);
    assert(candidates.push(d).drop_last() =~= candidates);
}

/// One more candidate adds to the valid ones what is kept of it.
proof fn lemma_valid_among_kept(state: GameStatusView, candidates: Seq<Direction>, d: Direction)
    ensures
        valid_among(state, candidates.push(d)) == valid_among(state, candidates) + kept(state, d),
{
    lemma_valid_among_push(state, candidates, d);
    let before = valid_among(state, candidates);
    assert(before.push(d) =~= before + seq![d]);
    assert(before =~= before + Seq::<Direction>::empty());
}

/// The valid moves are the valid ones among up, down, left and right, in this
/// order: each direction stands there once if it is valid, and not at all if
/// it is not.
pub proof fn lemma_valid_moves_in_order(state: GameStatusView)
    ensures
        valid_moves(state) == kept(state, Direction::Up) + kept(state, Direction::Down) + kept(
            state,
            Direction::Left,
        ) + kept(state, Direction::Right),
{
    let none = Seq::<Direction>::empty();
    let one = none.push(Direction::Up);
    let two = one.push(Direction::Down);
    let three = two.push(Direction::Left);
    assert(valid_among(state, none) =~= none) by {
        reveal(Seq::filter);
    }
    lemma_valid_among_kept(state, none, Direction::Up);
    lemma_valid_among_kept(state, one, Direction::Down);
    lemma_valid_among_kept(state, two, Direction::Left);
    lemma_valid_among_kept(state, three, Direction::Right);
    assert(three.push(Direction::Right) =~= Direction::all());
    assert(none + kept(state, Direction::Up) =~= kept(state, Direction::Up));
}

/// A direction is among the valid moves, and its word among their words,
/// exactly if it is a valid move.
pub proof fn lemma_valid_moves_members(state: GameStatusView, d: Direction)
    ensures
        valid_moves(state).contains(d) <==> is_valid_move(state, d),
        valid_move_names(state).contains(d.name()) <==> is_valid_move(state, d),
{
    let moves = valid_moves(state);
    let words = valid_move_names(state);
    let up = kept(state, Direction::Up);
    let down = kept(state, Direction::Down);
    let left = kept(state, Direction::Left);
    let right = kept(state, Direction::Right);
    lemma_valid_moves_in_order(state);
    lemma_seq_concat_contains_all_elements(up + down + left, right, d);
    lemma_seq_concat_contains_all_elements(up + down, left, d);
    lemma_seq_concat_contains_all_elements(up, down, d);
    assert forall|e: Direction| #[trigger] kept(state, e).contains(d) <==> e == d && is_valid_move(
        state,
        d,
    ) by {
        if e == d && is_valid_move(state, d) {
            assert(kept(state, e)[0] == d);
        }
    }
    if moves.contains(d) {
        let i = choose|i: int| 0 <= i < moves.len() && moves[i] == d;
        assert(words[i] == d.name());
    }
    if words.contains(d.name()) {
        let i = choose|i: int| 0 <= i < words.len() && words[i] == d.name();
        lemma_names_distinct(moves[i], d);
    }
}

/// A move that leads off the board is not among the valid moves.
pub proof fn lemma_off_board_excluded(state: GameStatusView, d: Direction)
    requires
        !on_board(state.board, d.step(state.you.head)),
    ensures
        !valid_moves(state).contains(d),
        !valid_move_names(state).contains(d.name()),
{
    lemma_valid_moves_members(state, d);
}

/// A move that leads onto a cell of the acting snake's own body, its present
/// head included, is not among the valid moves.
pub proof fn lemma_own_body_excluded(state: GameStatusView, d: Direction)
    requires
        state.you.body.contains(d.step(state.you.head)),
    ensures
        !valid_moves(state).contains(d),
        !valid_move_names(state).contains(d.name()),
{
    lemma_valid_moves_members(state, d);
}

/// A move that leads onto a cell which the head of an opponent, the snake at
/// index `i` of the board, reaches by a step in some direction `e`, is not
/// among the valid moves.
pub proof fn lemma_opponent_reach_excluded(
    state: GameStatusView,
    d: Direction,
    i: int,
    e: Direction,
)
    requires
        is_opponent(state, i),
        e.step(state.board.snakes[i].head) == d.step(state.you.head),
    ensures
        !valid_moves(state).contains(d),
        !valid_move_names(state).contains(d.name()),
{
    lemma_valid_moves_members(state, d);
    assert(is_next_to(state.board.snakes[i].head, d.step(state.you.head)));
    assert(risky_positions(state).contains(d.step(state.you.head)));
}

/// A move that leads onto a cell of the body of an opponent, the snake at
/// index `i` of the board, is not among the valid moves.
pub proof fn lemma_opponent_body_excluded(state: GameStatusView, d: Direction, i: int)
    requires
        is_opponent(state, i),
        state.board.snakes[i].body.contains(d.step(state.you.head)),
    ensures
        !valid_moves(state).contains(d),
        !valid_move_names(state).contains(d.name()),
{
    lemma_valid_moves_members(state, d);
    assert(opponent_cells(state).contains(d.step(state.you.head)));
}

/// Where some move is valid, an answer is the word of a valid move.
pub proof fn lemma_answer_is_valid_move(state: GameStatusView, word: Seq<char>)
    requires
        is_answer(state, word),
        exists|d: Direction| is_valid_move(state, d),
    ensures
        exists|d: Direction| is_valid_move(state, d) && word == #[trigger] d.name(),
{
    let v = choose|d: Direction| is_valid_move(state, d);
    lemma_valid_moves_members(state, v);
    let words = valid_move_names(state);
    let i = choose|i: int| 0 <= i < words.len() && words[i] == word;
    let d = valid_moves(state)[i];
    assert(valid_moves(state).contains(d));
    lemma_valid_moves_members(state, d);
    assert(is_valid_move(state, d) && word == d.name());
}

/// Where no move is valid, the answer is `up`.
pub proof fn lemma_answer_without_valid_move(state: GameStatusView, word: Seq<char>)
    requires
        is_answer(state, word),
        forall|d: Direction| !is_valid_move(state, d),
    ensures
        word == Direction::Up.name(),
{
    lemma_valid_moves_in_order(state);
}

/// Where at most one move is valid, the turn has one answer only: what the
/// random source does has no influence on it.
pub proof fn lemma_answer_forced(state: GameStatusView, first: Seq<char>, second: Seq<char>)
    requires
        valid_moves(state).len() <= 1,
        is_answer(state, first),
        is_answer(state, second),
    ensures
        first == second,
{
    let words = valid_move_names(state);
    if words.len() == 1 {
        let i = choose|i: int| 0 <= i < words.len() && words[i] == first;
        let j = choose|j: int| 0 <= j < words.len() && words[j] == second;
        assert(i == j);
    }
}

/// Whether two turns agree in all that the rules read: the board's width and
/// height, the acting snake's identifier, head and body, and the identifier,
/// head and body of each snake on the board.
pub open spec fn same_situation(a: GameStatusView, b: GameStatusView) -> bool {
    &&& a.board.width == b.board.width
    &&& a.board.height == b.board.height
    &&& a.you.id == b.you.id
    &&& a.you.head == b.you.head
    &&& a.you.body == b.you.body
    &&& a.board.snakes.len() == b.board.snakes.len()
    &&& forall|i: int|
        0 <= i < a.board.snakes.len() ==> {
            &&& (#[trigger] a.board.snakes[i]).id == b.board.snakes[i].id
            &&& a.board.snakes[i].head == b.board.snakes[i].head
            &&& a.board.snakes[i].body == b.board.snakes[i].body
        }
}

/// Two turns that agree in all that the rules read have the same valid moves,
/// in the same order, and the same answers: the game, the turn's number, the
/// food, and the health and length of the snakes have no influence, and a
/// random source that picks the same entry picks the same move.
pub proof fn lemma_same_situation_same_answers(a: GameStatusView, b: GameStatusView)
    requires
        same_situation(a, b),
    ensures
        forall|d: Direction| is_valid_move(a, d) == is_valid_move(b, d),
        valid_moves(a) == valid_moves(b),
        forall|word: Seq<char>| is_answer(a, word) == is_answer(b, word),
{
    assert forall|i: int| is_opponent(a, i) == is_opponent(b, i) by {
        if 0 <= i < a.board.snakes.len() {
            assert(a.board.snakes[i].id == b.board.snakes[i].id);
        }
    }
    assert forall|p: Position| risky_positions(a).contains(p) == risky_positions(b).contains(p) by {
        if risky_positions(a).contains(p) {
            let i = choose|i: int| #[trigger]
                is_opponent(a, i) && is_next_to(a.board.snakes[i].head, p);
            assert(is_opponent(b, i) && a.board.snakes[i].head == b.board.snakes[i].head);
        }
        if risky_positions(b).contains(p) {
            let i = choose|i: int| #[trigger]
                is_opponent(b, i) && is_next_to(b.board.snakes[i].head, p);
            assert(is_opponent(a, i) && a.board.snakes[i].head == b.board.snakes[i].head);
        }
    }
    assert forall|p: Position| opponent_cells(a).contains(p) == opponent_cells(b).contains(p) by {
        if opponent_cells(a).contains(p) {
            let i = choose|i: int| #[trigger]
                is_opponent(a, i) && a.board.snakes[i].body.contains(p);
            assert(is_opponent(b, i) && a.board.snakes[i].body == b.board.snakes[i].body);
        }
        if opponent_cells(b).contains(p) {
            let i = choose|i: int| #[trigger]
                is_opponent(b, i) && b.board.snakes[i].body.contains(p);
            assert(is_opponent(a, i) && a.board.snakes[i].body == b.board.snakes[i].body);
        }
    }
    assert forall|d: Direction| is_valid_move(a, d) == is_valid_move(b, d) by {
        let p = d.step(a.you.head);
        assert(risky_positions(a).contains(p) == risky_positions(b).contains(p));
        assert(opponent_cells(a).contains(p) == opponent_cells(b).contains(p));
    }
    lemma_valid_moves_in_order(a);
    lemma_valid_moves_in_order(b);
}

} // verus!
