//! The move-sequence model of a game and the laws proved over it: a
//! game is determined by the sequence of accepted moves made on a
//! fresh board, players alternate strictly, and a filled cell is
//! never overwritten.

use vstd::prelude::*;

use crate::game::fresh_board;
use crate::game::toggled;
use crate::game::board_winner;
use crate::game::GameView;
use crate::game::Symbol;

verus! {

/// The player to move after the accepted moves in `moves` have been
/// made on a fresh game: `Cross` first, toggling on every move.
pub open spec fn run_player(moves: Seq<int>) -> Symbol
    decreases moves.len(),
{
    if moves.len() == 0 {
        Symbol::Cross
    } else {
        toggled(run_player(moves.drop_last()))
    }
}

/// The board after the accepted moves in `moves` have been made on a
/// fresh game, each filling its cell with the mover's symbol.
pub open spec fn run_board(moves: Seq<int>) -> Seq<Symbol>
    decreases moves.len(),
{
    if moves.len() == 0 {
        fresh_board()
    } else {
        run_board(moves.drop_last()).update(moves.last(), run_player(moves.drop_last()))
    }
}

/// Whether every move in `moves`, made in order on a fresh game, is
/// accepted: each lands inside the board and on a cell still `Empty`.
pub open spec fn moves_accepted(moves: Seq<int>) -> bool
    decreases moves.len(),
{
    if moves.len() == 0 {
        true
    } else {
        moves_accepted(moves.drop_last()) && 0 <= moves.last() < 9 && run_board(
            moves.drop_last(),
        )[moves.last()] == Symbol::Empty
    }
}

/// Unrolls the model one accepted move at a time: extending `moves`
/// by `i` toggles the player, updates cell `i`, and is accepted
/// exactly when `moves` was and `i` names an `Empty` cell in range.
pub proof fn lemma_run_push(moves: Seq<int>, i: int)
    ensures
        run_player(moves.push(i)) == toggled(run_player(moves)),
        run_board(moves.push(i)) == run_board(moves).update(i, run_player(moves)),
        moves_accepted(moves.push(i)) <==> (moves_accepted(moves) && 0 <= i < 9 && run_board(
            moves,
        )[i] == Symbol::Empty),
{
    assert(moves.push(i).drop_last() =~= moves);
    assert(moves.push(i).last() == i);
    assert(run_player(moves.push(i)) == toggled(run_player(moves.push(i).drop_last())));
    assert(run_board(moves.push(i)) == run_board(moves.push(i).drop_last()).update(
        moves.push(i).last(),
        run_player(moves.push(i).drop_last()),
    ));
    assert(moves_accepted(moves.push(i)) <==> (moves_accepted(moves.push(i).drop_last()) && 0 <= i
        < 9 && run_board(moves.push(i).drop_last())[i] == Symbol::Empty));
}

/// The board never changes size: after any run of accepted moves it
/// still has exactly nine cells.
pub proof fn lemma_run_board_len(moves: Seq<int>)
    requires
        moves_accepted(moves),
    ensures
        run_board(moves).len() == 9,
    decreases moves.len(),
{
    if moves.len() > 0 {
        lemma_run_board_len(moves.drop_last());
    }
}

/// The player to move is never `Empty`: only the two real players
/// ever hold the turn.
pub proof fn lemma_run_player_not_empty(moves: Seq<int>)
    ensures
        run_player(moves) != Symbol::Empty,
    decreases moves.len(),
{
    if moves.len() > 0 {
        lemma_run_player_not_empty(moves.drop_last());
    }
}

/// The alternation law: the mover at move `n` (0-indexed) is `Cross`
/// when `n` is even and `Naught` when `n` is odd, so after `n`
/// accepted moves the turn belongs to `Cross` exactly when `n` is
/// even.
pub proof fn lemma_alternation(moves: Seq<int>)
    ensures
        run_player(moves) == if moves.len() % 2 == 0 {
            Symbol::Cross
        } else {
            Symbol::Naught
        },
    decreases moves.len(),
{
    if moves.len() > 0 {
        lemma_alternation(moves.drop_last());
    }
}

/// One accepted call of `play` advances a game exactly as the
/// move-sequence model does: a game whose state matches `moves` and
/// whose `play(i)` succeeds moves to the state of `moves` extended
/// by `i`.
pub proof fn lemma_play_advances_run(moves: Seq<int>, i: int, pre: GameView, post: GameView)
    requires
        moves_accepted(moves),
        pre.board == run_board(moves),
        pre.player == run_player(moves),
        0 <= i < 9,
        pre.board[i] == Symbol::Empty,
        post.board == pre.board.update(i, pre.player),
        post.player == toggled(pre.player),
    ensures
        moves_accepted(moves.push(i)),
        post.board == run_board(moves.push(i)),
        post.player == run_player(moves.push(i)),
{
    lemma_run_push(moves, i);
}

/// The first move on a fresh game: an accepted `play(i)` places
/// `Cross` at `i` and leaves every other cell `Empty`.
pub proof fn lemma_first_play(i: int)
    requires
        0 <= i < 9,
    ensures
        moves_accepted(seq![i]),
        run_board(seq![i])[i] == Symbol::Cross,
        forall|j: int| 0 <= j < 9 && j != i ==> run_board(seq![i])[j] == Symbol::Empty,
{
    let none: Seq<int> = Seq::empty();
    assert(seq![i] =~= none.push(i));
    lemma_run_push(none, i);
    assert(run_board(none) == fresh_board());
    assert(run_board(seq![i]) == fresh_board().update(i, Symbol::Cross));
}

/// A cell, once set by an accepted move, is never overwritten: any
/// later accepted move leaves it exactly as it was.
pub proof fn lemma_cell_preserved(moves: Seq<int>, i: int, j: int)
    requires
        moves_accepted(moves.push(i)),
        0 <= j < 9,
        run_board(moves)[j] != Symbol::Empty,
    ensures
        run_board(moves.push(i))[j] == run_board(moves)[j],
{
    lemma_run_push(moves, i);
    lemma_run_board_len(moves);
}

/// A second play at an index an accepted move has filled finds the
/// cell occupied, so `play` there meets exactly its `SquareTaken`
/// case and leaves the game unchanged.
pub proof fn lemma_replay_rejected(moves: Seq<int>, i: int)
    requires
        moves_accepted(moves.push(i)),
    ensures
        run_board(moves.push(i))[i] != Symbol::Empty,
{
    lemma_run_push(moves, i);
    lemma_run_board_len(moves);
    lemma_run_player_not_empty(moves);
}

/// Reading the winner is pure: any two results of `get_winner` on one
/// unmodified game are the same, because each equals the winner of
/// the game's board.
pub proof fn lemma_winner_idempotent(g: GameView, r1: Option<Symbol>, r2: Option<Symbol>)
    requires
        r1 == board_winner(g.board),
        r2 == board_winner(g.board),
    ensures
        r1 == r2,
{
}

} // verus!
