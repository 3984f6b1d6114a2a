use vstd::prelude::*;
use joinery::JoinableIterator;
use crate::board::{cell, Field, Grid};

verus! {

/// The character that shows a cell's content.
pub open spec fn symbol_of(f: Field) -> char {
    match f {
        Field::Empty => ' ',
        Field::O => 'O',
        Field::X => 'X',
    }
}

/// The text of row `r`: its three cells separated by `" | "`, then a newline.
pub open spec fn row_text(g: Grid, r: int) -> Seq<char> {
    seq![
        symbol_of(cell(g, r, 0)), ' ', '|', ' ',
        symbol_of(cell(g, r, 1)), ' ', '|', ' ',
        symbol_of(cell(g, r, 2)), '\n',
    ]
}

/// The line drawn between two rows.
pub open spec fn separator_text() -> Seq<char> {
    seq!['-', '-', '+', '-', '-', '-', '+', '-', '-', '\n']
}

/// The text of the board: its three rows with the separator line between each
/// two of them.
pub open spec fn board_text(g: Grid) -> Seq<char> {
    row_text(g, 0) + separator_text() + row_text(g, 1) + separator_text() + row_text(g, 2)
}

/// The parts one after the other, with `sep` between each two of them.
pub open spec fn joined(parts: Seq<Seq<char>>, sep: Seq<char>) -> Seq<char>
    decreases parts.len(),
{
    if parts.len() == 0 {
        Seq::empty()
    } else if parts.len() == 1 {
        parts[0]
    } else {
        joined(parts.drop_last(), sep) + sep + parts.last()
    }
}

/// Relies on joinery's `JoinableIterator::join_with` and the `Display` of the
/// resulting `Join`: the first part, then the separator and the next part for
/// each further part.
#[verifier::external_body]
fn join_with_separator(parts: &Vec<String>, sep: &String) -> (r: String)
    ensures
        r@ == joined(parts@.map_values(|s: String| s@), sep@),
{
    parts.iter().join_with(sep).to_string()
}

/// Relies on std's `FromIterator<char>` for `String`: the characters in order.
#[verifier::external_body]
fn string_from_chars(chars: Vec<char>) -> (r: String)
    ensures
        r@ == chars@,
{
    chars.into_iter().collect()
}

impl Field {
    /// The character that shows this cell's content.
    pub fn symbol(&self) -> (r: char)
        ensures
            r == symbol_of(*self),
    {
        match self {
            Field::Empty => ' ',
            Field::O => 'O',
            Field::X => 'X',
        }
    }
}

/// The text of row `r` of the board.
fn render_row(game_field: &Grid, r: usize) -> (s: String)
    requires
        r < 3,
    ensures
        s@ == row_text(*game_field, r as int),
{
    let a = game_field[r][0].symbol();
    let b = game_field[r][1].symbol();
    let c = game_field[r][2].symbol();
    let chars: Vec<char> = vec![a, ' ', '|', ' ', b, ' ', '|', ' ', c, '\n'];
    let s = string_from_chars(chars);
    assert(s@ =~= row_text(*game_field, r as int));
    s
}

/// The board as text: three rows of three cells separated by `" | "`, with the
/// line `"--+---+--"` between each two rows.
pub fn render_field(game_field: &Grid) -> (s: String)
    ensures
        s@ == board_text(*game_field),
{
    let mut rows: Vec<String> = Vec::new();
    rows.push(render_row(game_field, 0));
    rows.push(render_row(game_field, 1));
    rows.push(render_row(game_field, 2));
    let sep_chars: Vec<char> = vec!['-', '-', '+', '-', '-', '-', '+', '-', '-', '\n'];
    let sep = string_from_chars(sep_chars);
    assert(sep@ =~= separator_text());
    let s = join_with_separator(&rows, &sep);
    proof {
        let parts = rows@.map_values(|t: String| t@);
        assert(parts.drop_last().drop_last() =~= seq![row_text(*game_field, 0)]);
        assert(parts.drop_last() =~= seq![row_text(*game_field, 0), row_text(*game_field, 1)]);
        assert(parts =~= seq![row_text(*game_field, 0), row_text(*game_field, 1), row_text(*game_field, 2)]);
        reveal_with_fuel(joined, 3);
    }
    s
}

} // verus!
