//! One round of play: applying the current player's move to the board and
//! deciding rejection, win, draw, or continuation. The I/O loop around it
//! only reads coordinates, calls `play`, and prints what came back.

use vstd::prelude::*;
use crate::board::{idx, winning_line, empty_board, Board};
use crate::player::{marker_of, other, Player};

verus! {

/// What one submitted move led to.
#[derive(Clone, Copy, Debug, PartialEq, Eq, Structural)]
pub enum Outcome {
    /// The target cell was occupied: nothing changed, same player's turn.
    CellOccupied,
    /// The move completed a line; the given player won.
    Won(Player),
    /// The move filled the ninth cell without completing a line.
    Draw,
    /// The move was applied and the game goes on.
    InProgress,
}

/// A game in progress: the board and whose turn it is.
pub struct Game {
    pub board: Board,
    pub turn: Player,
}

impl Game {
    pub open spec fn wf(&self) -> bool {
        self.board.wf()
    }

    /// A fresh game: empty board, player A to move.
    pub fn new() -> (g: Game)
        ensures
            g.wf(),
            g.board@ == empty_board(),
            g.board.marked_count == 0,
            g.turn == Player::A,
    {
        Game { board: Board::new(), turn: Player::A }
    }

    /// Submits the current player's move at (row, col).
    ///
    /// An occupied target cell rejects the move: the board and the turn are
    /// left untouched. Otherwise the current player's figure is placed, the
    /// turn flips, and the outcome is a win for the mover if the board now
    /// has a winning line, a draw if instead all 9 cells are occupied, and
    /// in-progress otherwise: a move that fills the board and completes a
    /// line at once is a win, not a draw.
    pub fn play(&mut self, row: usize, col: usize) -> (o: Outcome)
        requires
            old(self).wf(),
            row < 3,
            col < 3,
        ensures
            final(self).wf(),
            o is CellOccupied <==> old(self).board@[idx(row as int, col as int)] is Some,
            old(self).board@[idx(row as int, col as int)] is Some ==> *final(self) == *old(self),
            old(self).board@[idx(row as int, col as int)] is None ==> {
                &&& final(self).board@ == old(self).board@.update(
                    idx(row as int, col as int),
                    Some(marker_of(old(self).turn)),
                )
                &&& final(self).board.marked_count == old(self).board.marked_count + 1
                &&& final(self).turn == other(old(self).turn)
                &&& (o matches Outcome::Won(p) ==> p == old(self).turn)
                &&& (o is Won <==> winning_line(final(self).board@))
                &&& (o is Draw <==> !winning_line(final(self).board@)
                    && final(self).board.marked_count == 9)
                &&& (o is InProgress <==> !winning_line(final(self).board@)
                    && final(self).board.marked_count < 9)
            },
    {
        let mover = self.turn;
        let fig = mover.marker();
        let count = match self.board.mark_cell(fig, row, col) {
            Ok(c) => c,
            Err(_) => {
                return Outcome::CellOccupied;
            },
        };
        self.turn = mover.change();
        if self.board.complete_line() {
            return Outcome::Won(mover);
        }
        if count == 9 {
            return Outcome::Draw;
        }
        Outcome::InProgress
    }
}

} // verus!
