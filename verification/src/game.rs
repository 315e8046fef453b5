//! A 3x3 two-player board game engine: board state, move legality,
//! strict player alternation, and winner detection over the eight
//! fixed winning lines.

use vstd::prelude::*;

verus! {

/// The mark occupying a board cell.
#[derive(Clone, Copy, PartialEq, Eq, Structural, Debug)]
pub enum Symbol {
    Empty,
    Cross,
    Naught,
}

/// Why a move was rejected. Either way the game is left unchanged.
#[derive(Clone, Copy, PartialEq, Eq, Structural, Debug)]
pub enum PlayError {
    SquareTaken,
    OutOfRange,
}

/// The board of a game that has not started: nine `Empty` cells.
pub open spec fn fresh_board() -> Seq<Symbol> {
    Seq::new(9, |i: int| Symbol::Empty)
}

/// The player who moves after `p` has moved. Only meaningful for the
/// two real players; an `Empty` "player" never occurs in a game.
pub open spec fn toggled(p: Symbol) -> Symbol {
    match p {
        Symbol::Cross => Symbol::Naught,
        Symbol::Naught => Symbol::Cross,
        Symbol::Empty => Symbol::Empty,
    }
}

/// The cell indices of the `k`-th winning line, in the fixed
/// evaluation order: three rows, three columns, the two diagonals.
pub open spec fn line_cells(k: int) -> (int, int, int) {
    if k == 0 {
        (0, 1, 2)
    } else if k == 1 {
        (3, 4, 5)
    } else if k == 2 {
        (6, 7, 8)
    } else if k == 3 {
        (0, 3, 6)
    } else if k == 4 {
        (1, 4, 7)
    } else if k == 5 {
        (2, 5, 8)
    } else if k == 6 {
        (0, 4, 8)
    } else {
        (2, 4, 6)
    }
}

/// The winner shown by line `k` alone: the symbol filling all three of
/// its cells, provided that symbol is not `Empty`.
pub open spec fn line_winner(b: Seq<Symbol>, k: int) -> Option<Symbol> {
    let (x, y, z) = line_cells(k);
    if b[x] != Symbol::Empty && b[y] == b[x] && b[z] == b[x] {
        Some(b[x])
    } else {
        None
    }
}

/// The first match among lines `k..8`, in evaluation order.
pub open spec fn winner_from(b: Seq<Symbol>, k: int) -> Option<Symbol>
    decreases 8 - k,
{
    if k < 0 || k >= 8 {
        None
    } else if line_winner(b, k) is Some {
        line_winner(b, k)
    } else {
        winner_from(b, k + 1)
    }
}

/// The winner of a board: the symbol of the first matching line in the
/// fixed evaluation order, or `None` when no line matches.
pub open spec fn board_winner(b: Seq<Symbol>) -> Option<Symbol> {
    winner_from(b, 0)
}

/// The abstract state of a game: the nine cells and the player to move.
#[verifier::ext_equal]
pub struct GameView {
    pub board: Seq<Symbol>,
    pub player: Symbol,
}

/// A game in progress: a 3x3 board stored row by row (row `r`, column
/// `c` at index `3*r + c`) and the player whose turn it is.
pub struct Game {
    board: [Symbol; 9],
    current_player: Symbol,
}

impl View for Game {
    type V = GameView;

    closed spec fn view(&self) -> GameView {
        GameView { board: self.board@, player: self.current_player }
    }
}

impl Game {
    /// A well-formed game always has nine cells and a real player
    /// (never `Empty`) to move. Constructors establish this and
    /// `play` preserves it.
    pub open spec fn wf(self) -> bool {
        self@.board.len() == 9 && self@.player != Symbol::Empty
    }

    /// A new game: all nine cells `Empty`, `Cross` to move first.
    pub fn start() -> (g: Game)
        ensures
            g.wf(),
            g@.board == fresh_board(),
            g@.player == Symbol::Cross,
    {
        let g = Game { board: [Symbol::Empty; 9], current_player: Symbol::Cross };
        proof {
            assert(g@.board =~= fresh_board());
        }
        g
    }

    /// A game resumed from a given board position with `current_player`
    /// to move. The player to move must be one of the two real players.
    pub fn with_board(board: [Symbol; 9], current_player: Symbol) -> (g: Game)
        requires
            current_player != Symbol::Empty,
        ensures
            g.wf(),
            g@.board == board@,
            g@.player == current_player,
    {
        Game { board, current_player }
    }

    /// Attempt a move at `index` for the player whose turn it is.
    ///
    /// The first failing check wins: an index above 8 is `OutOfRange`,
    /// an occupied cell is `SquareTaken`; either error leaves the game
    /// untouched. An accepted move fills the cell with the current
    /// player's symbol and passes the turn to the other player.
    pub fn play(&mut self, index: usize) -> (r: Result<(), PlayError>)
        requires
            old(self).wf(),
        ensures
            final(self).wf(),
            index > 8 ==> {
                &&& r == Err::<(), PlayError>(PlayError::OutOfRange)
                &&& final(self)@ == old(self)@
            },
            index <= 8 && old(self)@.board[index as int] != Symbol::Empty ==> {
                &&& r == Err::<(), PlayError>(PlayError::SquareTaken)
                &&& final(self)@ == old(self)@
            },
            index <= 8 && old(self)@.board[index as int] == Symbol::Empty ==> {
                &&& r == Ok::<(), PlayError>(())
                &&& final(self)@.board == old(self)@.board.update(index as int, old(self)@.player)
                &&& final(self)@.player == toggled(old(self)@.player)
            },
    {
        if index > 8 {
            return Err(PlayError::OutOfRange);
        }
        if self.board[index] != Symbol::Empty {
            return Err(PlayError::SquareTaken);
        }
        self.board[index] = self.current_player;
        self.toggle_player();
        Ok(())
    }

    /// The winner on the current board: the symbol of the first line
    /// (rows, then columns, then the two diagonals) whose three cells
    /// all hold the same non-`Empty` symbol, or `None` when no line
    /// does. A pure read; the game is not modified.
    pub fn get_winner(&self) -> (winner: Option<Symbol>)
        ensures
            winner == board_winner(self@.board),
    {
        let mut k: usize = 0;
        while k < 8
            invariant
                k <= 8,
                board_winner(self@.board) == winner_from(self@.board, k as int),
            decreases 8 - k,
        {
            let (x, y, z) = Self::nth_line(k);
            let s = self.board[x];
            if s != Symbol::Empty && self.board[y] == s && self.board[z] == s {
                proof {
                    assert(winner_from(self@.board, k as int) == Some::<Symbol>(s));
                }
                return Some(s);
            }
            proof {
                assert(winner_from(self@.board, k as int) == winner_from(
                    self@.board,
                    k as int + 1,
                ));
            }
            k = k + 1;
        }
        None
    }

    /// A copy of the nine cells, row by row.
    pub fn cells(&self) -> (r: [Symbol; 9])
        ensures
            r@ == self@.board,
    {
        self.board
    }

    /// The player whose turn it is.
    pub fn current_player(&self) -> (r: Symbol)
        ensures
            r == self@.player,
    {
        self.current_player
    }

    /// Pass the turn to the other player.
    fn toggle_player(&mut self)
        requires
            old(self).wf(),
        ensures
            final(self)@.player == toggled(old(self)@.player),
            final(self)@.board == old(self)@.board,
    {
        self.current_player = if self.current_player == Symbol::Cross {
            Symbol::Naught
        } else {
            Symbol::Cross
        };
    }

    /// The cell indices of the `k`-th winning line, as `line_cells`
    /// gives them.
    fn nth_line(k: usize) -> (r: (usize, usize, usize))
        requires
            k < 8,
        ensures
            (r.0 as int, r.1 as int, r.2 as int) == line_cells(k as int),
            r.0 < 9 && r.1 < 9 && r.2 < 9,
    {
        match k {
            0 => (0, 1, 2),
            1 => (3, 4, 5),
            2 => (6, 7, 8),
            3 => (0, 3, 6),
            4 => (1, 4, 7),
            5 => (2, 5, 8),
            6 => (0, 4, 8),
            _ => (2, 4, 6),
        }
    }
}

} // verus!
