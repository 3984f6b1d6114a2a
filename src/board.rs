use vstd::prelude::*;

verus! {

/// A move was refused: its cell already holds a mark.
#[derive(Copy, Clone, Debug, PartialEq, Eq, Structural)]
pub struct OccupiedError;

/// The content of one cell of the board.
#[derive(Copy, Clone, Debug, PartialEq, Eq, Structural)]
pub enum Field {
    Empty,
    O,
    X,
}

/// One of the two players.
#[derive(Copy, Clone, Debug, PartialEq, Eq, Structural)]
pub enum Player {
    O,
    X,
}

/// The board: three rows of three cells, row-major.
pub type Grid = [[Field; 3]; 3];

/// The mark that a player leaves on a cell.
pub open spec fn mark_of(p: Player) -> Field {
    match p {
        Player::O => Field::O,
        Player::X => Field::X,
    }
}

/// The player who moves after `p`.
pub open spec fn other(p: Player) -> Player {
    match p {
        Player::O => Player::X,
        Player::X => Player::O,
    }
}

impl Player {
    /// The mark this player leaves on a cell.
    pub fn field(&self) -> (r: Field)
        ensures
            r == mark_of(*self),
            r != Field::Empty,
    {
        match self {
            Player::O => Field::O,
            Player::X => Field::X,
        }
    }

    /// Hands the turn to the other player.
    pub fn switch_player(&mut self)
        ensures
            *final(self) == other(*old(self)),
            *final(self) != *old(self),
    {
        match self {
            Player::O => {
                *self = Player::X;
            },
            Player::X => {
                *self = Player::O;
            },
        }
    }
}

/// The cell in row `r` and column `c`.
pub open spec fn cell(g: Grid, r: int, c: int) -> Field {
    g[r][c]
}

/// Whether `(r, c)` names a cell of the board.
pub open spec fn on_board(r: int, c: int) -> bool {
    0 <= r < 3 && 0 <= c < 3
}

/// Whether no cell of the board is empty.
pub open spec fn full(g: Grid) -> bool {
    forall|r: int, c: int| on_board(r, c) ==> cell(g, r, c) != Field::Empty
}

/// Whether `after` is `before` with the cell `(r, c)` set to `f` and every
/// other cell left as it was.
pub open spec fn placed(before: Grid, after: Grid, r: int, c: int, f: Field) -> bool {
    forall|i: int, j: int|
        on_board(i, j) ==> #[trigger] cell(after, i, j) == if i == r && j == c {
            f
        } else {
            cell(before, i, j)
        }
}

/// The position `(row, column)` of the cell numbered `n` (1 to 9, row by row).
pub open spec fn position_of(n: int) -> (int, int) {
    ((n - 1) / 3, (n - 1) % 3)
}

/// The number (1 to 9) of the cell in row `r` and column `c`.
pub open spec fn number_at(r: int, c: int) -> int {
    3 * r + c + 1
}

/// Numbering the cells 1 to 9 row by row is a bijection onto the positions
/// of the board: each number names a position on it, and the two mappings
/// undo each other.
pub proof fn lemma_cell_numbering_bijective()
    ensures
        forall|n: int| 1 <= n <= 9 ==> {
            let (r, c) = #[trigger] position_of(n);
            on_board(r, c) && number_at(r, c) == n
        },
        forall|r: int, c: int| on_board(r, c) ==> position_of(#[trigger] number_at(r, c)) == (r, c),
        position_of(1) == (0int, 0int),
        position_of(5) == (1int, 1int),
        position_of(9) == (2int, 2int),
{
}

/// The position of the cell numbered `n`, or `None` where `n` lies outside 1 to 9.
pub fn cell_position(n: u8) -> (r: Option<(usize, usize)>)
    ensures
        r is None <==> !(1 <= n <= 9),
        r matches Some((row, col)) ==> position_of(n as int) == (row as int, col as int),
{
    if n >= 1 && n <= 9 {
        let i: usize = (n - 1) as usize;
        Some((i / 3, i % 3))
    } else {
        None
    }
}

/// The row of the cell numbered `n`.
pub open spec fn row_of(n: int) -> int {
    position_of(n).0
}

/// The column of the cell numbered `n`.
pub open spec fn col_of(n: int) -> int {
    position_of(n).1
}

/// Puts `player`'s mark on the cell numbered `number`. An occupied cell
/// refuses the move and the board stays as it was.
pub fn apply_move(board: &mut Grid, number: u8, player: Player) -> (r: Result<(), OccupiedError>)
    requires
        1 <= number <= 9,
    ensures
        cell(*old(board), row_of(number as int), col_of(number as int)) != Field::Empty ==> {
            &&& r == Err::<(), OccupiedError>(OccupiedError)
            &&& *final(board) == *old(board)
        },
        cell(*old(board), row_of(number as int), col_of(number as int)) == Field::Empty ==> {
            &&& r is Ok
            &&& cell(*final(board), row_of(number as int), col_of(number as int)) != cell(
                *old(board),
                row_of(number as int),
                col_of(number as int),
            )
            &&& placed(
                *old(board),
                *final(board),
                row_of(number as int),
                col_of(number as int),
                mark_of(player),
            )
        },
{
    let i: usize = (number - 1) as usize;
    let x: usize = i / 3;
    let y: usize = i % 3;
    if board[x][y] == Field::Empty {
        board[x][y] = player.field();
        Ok(())
    } else {
        Err(OccupiedError)
    }
}

/// Whether every cell of the board holds a mark.
pub fn is_full_field(game_field: &Grid) -> (r: bool)
    ensures
        r == full(*game_field),
{
    let mut x: usize = 0;
    while x < 3
        invariant
            0 <= x <= 3,
            forall|r: int, c: int|
                0 <= r < x && 0 <= c < 3 ==> cell(*game_field, r, c) != Field::Empty,
        decreases 3 - x,
    {
        let mut y: usize = 0;
        while y < 3
            invariant
                0 <= x < 3,
                0 <= y <= 3,
                forall|r: int, c: int|
                    0 <= r < x && 0 <= c < 3 ==> cell(*game_field, r, c) != Field::Empty,
                forall|c: int| 0 <= c < y ==> cell(*game_field, x as int, c) != Field::Empty,
            decreases 3 - y,
        {
            if game_field[x][y] == Field::Empty {
                assert(on_board(x as int, y as int));
                assert(cell(*game_field, x as int, y as int) == Field::Empty);
                return false;
            }
            y = y + 1;
        }
        x = x + 1;
    }
    true
}

} // verus!
