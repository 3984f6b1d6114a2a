use vstd::prelude::*;
use crate::board::{cell, full, is_full_field, mark_of, Field, Grid, Player};

verus! {

/// The outcome of a board.
#[derive(Copy, Clone, Debug, PartialEq, Eq, Structural)]
pub enum Outcome {
    InProgress,
    Win(Player),
    Draw,
}

/// The three cells of line `k` of the board, in the order in which the lines
/// are checked: the rows (0 to 2), the columns (3 to 5), the diagonal from the
/// top left (6), and the diagonal from the top right (7).
pub open spec fn line(g: Grid, k: int) -> (Field, Field, Field) {
    if k < 3 {
        (cell(g, k, 0), cell(g, k, 1), cell(g, k, 2))
    } else if k < 6 {
        (cell(g, 0, k - 3), cell(g, 1, k - 3), cell(g, 2, k - 3))
    } else if k == 6 {
        (cell(g, 0, 0), cell(g, 1, 1), cell(g, 2, 2))
    } else {
        (cell(g, 0, 2), cell(g, 1, 1), cell(g, 2, 0))
    }
}

/// Whether all three cells of `t` hold `f`.
pub open spec fn all_of(t: (Field, Field, Field), f: Field) -> bool {
    t.0 == f && t.1 == f && t.2 == f
}

/// Whether some row, column or diagonal holds `p`'s mark in all three cells.
pub open spec fn has_line(g: Grid, p: Player) -> bool {
    exists|k: int| 0 <= k < 8 && #[trigger] all_of(line(g, k), mark_of(p))
}

/// The first player found to own a whole line, checking the lines from `k`
/// on in order, and in each line the mark O before the mark X.
pub open spec fn winner_from(g: Grid, k: int) -> Option<Player>
    decreases 8 - k,
{
    if k >= 8 {
        None
    } else if all_of(line(g, k), Field::O) {
        Some(Player::O)
    } else if all_of(line(g, k), Field::X) {
        Some(Player::X)
    } else {
        winner_from(g, k + 1)
    }
}

/// The winner of the board, as found by checking all lines in order.
pub open spec fn winner(g: Grid) -> Option<Player> {
    winner_from(g, 0)
}

/// The outcome of the board: its winner if it has one, else a draw when it
/// is full, else a game in progress.
pub open spec fn outcome(g: Grid) -> Outcome {
    match winner(g) {
        Some(p) => Outcome::Win(p),
        None => if full(g) {
            Outcome::Draw
        } else {
            Outcome::InProgress
        },
    }
}

/// A winner found from line `k` on owns one of those lines, and where some
/// line from `k` on is owned by a player, a winner is found.
proof fn lemma_winner_from(g: Grid, k: int)
    requires
        0 <= k <= 8,
    ensures
        forall|p: Player|
            winner_from(g, k) == Some(p) ==> exists|j: int|
                k <= j < 8 && #[trigger] all_of(line(g, j), mark_of(p)),
        forall|j: int, p: Player|
            k <= j < 8 && #[trigger] all_of(line(g, j), mark_of(p)) ==> winner_from(g, k) is Some,
    decreases 8 - k,
{
    if k < 8 {
        lemma_winner_from(g, k + 1);
        assert forall|j: int, p: Player|
            k <= j < 8 && #[trigger] all_of(line(g, j), mark_of(p)) implies winner_from(g, k) is Some by {
            if j > k {
            } else {
                assert(all_of(line(g, k), Field::O) || all_of(line(g, k), Field::X));
            }
        }
        assert forall|p: Player| winner_from(g, k) == Some(p) implies exists|j: int|
            k <= j < 8 && #[trigger] all_of(line(g, j), mark_of(p)) by {
            if all_of(line(g, k), Field::O) {
                assert(all_of(line(g, k), mark_of(p)));
            } else if all_of(line(g, k), Field::X) {
                assert(all_of(line(g, k), mark_of(p)));
            }
        }
    }
}

/// Whoever wins a board owns a whole row, column or diagonal.
pub proof fn lemma_win_implies_line(g: Grid, p: Player)
    ensures
        outcome(g) == Outcome::Win(p) ==> has_line(g, p),
{
    lemma_winner_from(g, 0);
}

/// On a board where the two players do not both own a line, a player wins
/// exactly when some row, column or diagonal is entirely that player's mark.
pub proof fn lemma_win_iff_line(g: Grid, p: Player)
    requires
        !(has_line(g, Player::O) && has_line(g, Player::X)),
    ensures
        outcome(g) == Outcome::Win(p) <==> has_line(g, p),
{
    lemma_winner_from(g, 0);
    if has_line(g, p) {
        assert(winner(g) is Some);
        let q = winner(g)->Some_0;
        assert(has_line(g, q));
        assert(q == p);
    }
}

/// A full board on which no row, column or diagonal belongs to one player
/// is a draw.
pub proof fn lemma_full_without_line_is_draw(g: Grid)
    requires
        full(g),
        !has_line(g, Player::O),
        !has_line(g, Player::X),
    ensures
        outcome(g) == Outcome::Draw,
{
    lemma_winner_from(g, 0);
    if winner(g) is Some {
        assert(has_line(g, winner(g)->Some_0));
    }
}

/// Whether the three cells all hold `f`.
fn all_three(a: Field, b: Field, c: Field, f: Field) -> (r: bool)
    ensures
        r == all_of((a, b, c), f),
{
    a == f && b == f && c == f
}

/// The first player owning a whole line: the rows first, then the columns,
/// then the two diagonals.
pub fn check_win(game_field: &Grid) -> (r: Option<Player>)
    ensures
        r == winner(*game_field),
{
    let ghost g = *game_field;
    let mut row: usize = 0;
    while row < 3
        invariant
            0 <= row <= 3,
            g == *game_field,
            winner(g) == winner_from(g, row as int),
        decreases 3 - row,
    {
        let (a, b, c) = (game_field[row][0], game_field[row][1], game_field[row][2]);
        if all_three(a, b, c, Field::O) {
            return Some(Player::O);
        }
        if all_three(a, b, c, Field::X) {
            return Some(Player::X);
        }
        row = row + 1;
    }
    let mut column: usize = 0;
    while column < 3
        invariant
            0 <= column <= 3,
            g == *game_field,
            winner(g) == winner_from(g, 3 + column),
        decreases 3 - column,
    {
        let (a, b, c) = (game_field[0][column], game_field[1][column], game_field[2][column]);
        if all_three(a, b, c, Field::O) {
            return Some(Player::O);
        }
        if all_three(a, b, c, Field::X) {
            return Some(Player::X);
        }
        column = column + 1;
    }
    assert(winner(g) == winner_from(g, 6));
    let (a, b, c) = (game_field[0][0], game_field[1][1], game_field[2][2]);
    if all_three(a, b, c, Field::O) {
        return Some(Player::O);
    }
    if all_three(a, b, c, Field::X) {
        return Some(Player::X);
    }
    assert(winner(g) == winner_from(g, 7));
    let (a, b, c) = (game_field[0][2], game_field[1][1], game_field[2][0]);
    if all_three(a, b, c, Field::O) {
        return Some(Player::O);
    }
    if all_three(a, b, c, Field::X) {
        return Some(Player::X);
    }
    assert(winner_from(g, 8) == None::<Player>);
    None
}

/// The outcome of the board, computed afresh from its cells.
pub fn evaluate(game_field: &Grid) -> (r: Outcome)
    ensures
        r == outcome(*game_field),
{
    match check_win(game_field) {
        Some(p) => Outcome::Win(p),
        None => if is_full_field(game_field) {
            Outcome::Draw
        } else {
            Outcome::InProgress
        },
    }
}

} // verus!
