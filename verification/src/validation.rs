//! What a turn must satisfy before a move is selected for it, and the error
//! that names the first rule it breaks.

use vstd::prelude::*;
use crate::models::{positions, BoardView, GameStatus, GameStatusView, Snake, SnakeView};

verus! {

/// Why a turn is no valid game state.
#[derive(Clone, Copy, Debug, PartialEq, Eq, Structural)]
pub enum GameStateError {
    /// The board's width or height is not positive.
    BadDimensions,
    /// The head of some snake is not the first cell of its body.
    HeadMismatch,
    /// No snake on the board has the acting snake's identifier.
    SelfNotFound,
    /// More than one snake on the board has the acting snake's identifier.
    SelfAmbiguous,
}

/// Whether the board has at least one cell.
pub open spec fn has_room(board: BoardView) -> bool {
    board.width > 0 && board.height > 0
}

/// Whether the head of a snake is the first cell of its body.
pub open spec fn head_leads(snake: SnakeView) -> bool {
    snake.body.len() > 0 && snake.body[0] == snake.head
}

/// Whether the head of every snake, the acting one and each one on the board,
/// is the first cell of its body.
pub open spec fn heads_lead(state: GameStatusView) -> bool {
    &&& head_leads(state.you)
    &&& forall|i: int|
        0 <= i < state.board.snakes.len() ==> head_leads(#[trigger] state.board.snakes[i])
}

/// Those among `snakes` that have the acting snake's identifier.
pub open spec fn namesakes(state: GameStatusView, snakes: Seq<SnakeView>) -> Seq<SnakeView> {
    snakes.filter(|s: SnakeView| s.id == state.you.id)
}

/// How many snakes on the board have the acting snake's identifier.
pub open spec fn occurrences(state: GameStatusView) -> nat {
    namesakes(state, state.board.snakes).len()
}

/// Whether a turn is a valid game state: the board has room, every head leads
/// its body, and exactly one snake on the board is the acting one.
pub open spec fn well_formed(state: GameStatusView) -> bool {
    &&& has_room(state.board)
    &&& heads_lead(state)
    &&& occurrences(state) == 1
}

/// The first rule that a turn breaks, if it breaks one: the dimensions are
/// looked at first, then the heads, then the acting snake's place on the board.
pub open spec fn violation(state: GameStatusView) -> Option<GameStateError> {
    if !has_room(state.board) {
        Some(GameStateError::BadDimensions)
    } else if !heads_lead(state) {
        Some(GameStateError::HeadMismatch)
    } else if occurrences(state) == 0 {
        Some(GameStateError::SelfNotFound)
    } else if occurrences(state) > 1 {
        Some(GameStateError::SelfAmbiguous)
    } else {
        None
    }
}

/// A turn breaks no rule exactly if it is a valid game state.
pub proof fn lemma_no_violation_iff_well_formed(state: GameStatusView)
    ensures
        violation(state) is None <==> well_formed(state),
{
}

/// One more snake adds itself to the namesakes exactly if it has the acting
/// snake's identifier.
proof fn lemma_namesakes_push(state: GameStatusView, snakes: Seq<SnakeView>, s: SnakeView)
    ensures
        namesakes(state, snakes.push(s)) == if s.id == state.you.id {
            namesakes(state, snakes).push(s)
        } else {
            namesakes(state, snakes)
        },
{
    reveal(Seq::filter);
    assert(snakes.push(s).drop_last() =~= snakes);
}

/// Whether the head of `snake` is the first cell of its body.
fn head_is_first(snake: &Snake) -> (ok: bool)
    ensures
        ok == head_leads(snake@),
{
    if snake.body.len() == 0 {
        false
    } else {
        assert(positions(snake.body@)[0] == snake.body@[0]@);
        snake.body[0] == snake.head
    }
}

impl GameStatus {
    /// Checks that the turn is a valid game state, and names the first rule it
    /// breaks where it is none.
    pub fn validate(&self) -> (result: Result<(), GameStateError>)
        ensures
            result == match violation(self@) {
                Some(e) => Err::<(), GameStateError>(e),
                None => Ok(()),
            },
    {
        if self.board.width <= 0 || self.board.height <= 0 {
            return Err(GameStateError::BadDimensions);
        }
        let ghost state = self@;
        let mut heads_ok = head_is_first(&self.you);
        let mut seen_twice = false;
        let mut seen = false;
        let mut i: usize = 0;
        assert(state.board.snakes.take(0) =~= Seq::empty());
        assert(namesakes(state, Seq::empty()) =~= Seq::empty()) by {
            reveal(Seq::filter);
        }
        while i < self.board.snakes.len()
            invariant
                i <= self.board.snakes.len(),
                state == self@,
                heads_ok == (head_leads(state.you) && forall|j: int|
                    0 <= j < i ==> head_leads(#[trigger] state.board.snakes[j])),
                seen == (namesakes(state, state.board.snakes.take(i as int)).len() > 0),
                seen_twice == (namesakes(state, state.board.snakes.take(i as int)).len() > 1),
            decreases self.board.snakes.len() - i,
        {
            let snake = &self.board.snakes[i];
            proof {
                assert(state.board.snakes[i as int] == snake@);
                lemma_namesakes_push(state, state.board.snakes.take(i as int), snake@);
                assert(state.board.snakes.take(i + 1) =~= state.board.snakes.take(i as int).push(
                    snake@,
                ));
            }
            if !head_is_first(snake) {
                heads_ok = false;
            }
            if snake.id == self.you.id {
                if seen {
                    seen_twice = true;
                }
                seen = true;
            }
            i += 1;
        }
        assert(state.board.snakes.take(i as int) =~= state.board.snakes);
        if !heads_ok {
            Err(GameStateError::HeadMismatch)
        } else if !seen {
            Err(GameStateError::SelfNotFound)
        } else if seen_twice {
            Err(GameStateError::SelfAmbiguous)
        } else {
            Ok(())
        }
    }
}

} // verus!
