use vstd::prelude::*;
use crate::board::{
    apply_move, cell, col_of, full, is_full_field, mark_of, on_board, other, placed, row_of,
    Field, Grid, Player,
};
use crate::rules::{check_win, winner};

verus! {

/// What one turn came to, and so what the game loop does next.
#[derive(Copy, Clone, Debug, PartialEq, Eq, Structural)]
pub enum Turn {
    /// The input named no cell: ask again, nothing changed.
    Invalid,
    /// The named cell holds a mark already: say so and ask the same player again.
    Occupied,
    /// The mark was placed and the game goes on with the other player.
    Placed,
    /// The mark was placed and this player owns a whole line: the game is over.
    Won(Player),
    /// The mark was placed, nobody won and no cell is left: the game is over.
    Full,
}

/// The state of a game: the board and the player to move.
#[derive(Copy, Clone, Debug)]
pub struct Game {
    pub board: Grid,
    pub player: Player,
}

/// Whether the board holds no mark at all.
pub open spec fn empty_board(g: Grid) -> bool {
    forall|r: int, c: int| on_board(r, c) ==> cell(g, r, c) == Field::Empty
}

/// Whether the input names a cell, that is a number from 1 to 9.
pub open spec fn names_cell(choice: Option<u8>) -> bool {
    choice matches Some(n) && 1 <= n <= 9
}

impl Game {
    /// A new game: an empty board, with X to move.
    pub fn new() -> (r: Game)
        ensures
            empty_board(r.board),
            r.player == Player::X,
    {
        Game { board: [[Field::Empty; 3]; 3], player: Player::X }
    }

    /// Plays one turn with the cell number read from the player (`None` where
    /// the input was no number). A move only ever lands on an empty cell; the
    /// turn passes to the other player only after a move that ends nothing.
    pub fn play(&mut self, choice: Option<u8>) -> (r: Turn)
        ensures
            !names_cell(choice) ==> r == Turn::Invalid && *final(self) == *old(self),
            names_cell(choice) ==> {
                let n = choice->Some_0 as int;
                let target = cell(old(self).board, row_of(n), col_of(n));
                &&& target != Field::Empty ==> r == Turn::Occupied && *final(self) == *old(self)
                &&& target == Field::Empty ==> {
                    &&& placed(
                        old(self).board,
                        final(self).board,
                        row_of(n),
                        col_of(n),
                        mark_of(old(self).player),
                    )
                    &&& winner(final(self).board) matches Some(p) ==> r == Turn::Won(p)
                        && final(self).player == old(self).player
                    &&& winner(final(self).board) is None ==> final(self).player == other(
                        old(self).player,
                    ) && r == if full(final(self).board) {
                        Turn::Full
                    } else {
                        Turn::Placed
                    }
                }
            },
    {
        let n = match choice {
            Some(n) => n,
            None => {
                return Turn::Invalid;
            },
        };
        if n < 1 || n > 9 {
            return Turn::Invalid;
        }
        match apply_move(&mut self.board, n, self.player) {
            Err(_) => Turn::Occupied,
            Ok(()) => match check_win(&self.board) {
                Some(p) => Turn::Won(p),
                None => {
                    self.player.switch_player();
                    if is_full_field(&self.board) {
                        Turn::Full
                    } else {
                        Turn::Placed
                    }
                },
            },
        }
    }
}

} // verus!
