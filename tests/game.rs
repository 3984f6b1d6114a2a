use tic_tac_toe::board::{apply_move, cell_position, is_full_field, Field, Grid, OccupiedError, Player};
use tic_tac_toe::game::{Game, Turn};
use tic_tac_toe::render::render_field;
use tic_tac_toe::rules::{check_win, evaluate, Outcome};

const E: Field = Field::Empty;
const O: Field = Field::O;
const X: Field = Field::X;

fn parse_choice(input: &str) -> Option<u8> {
    input.trim().parse().ok()
}

#[test]
fn middle_row_wins_for_x_on_fifth_move() {
    let mut game = Game::new();
    assert_eq!(game.play(Some(5)), Turn::Placed);
    assert_eq!(game.play(Some(1)), Turn::Placed);
    assert_eq!(game.play(Some(6)), Turn::Placed);
    assert_eq!(game.play(Some(9)), Turn::Placed);
    assert_eq!(game.play(Some(4)), Turn::Won(Player::X));
    assert_eq!(game.board[1], [X, X, X]);
    assert_eq!(evaluate(&game.board), Outcome::Win(Player::X));
}

#[test]
fn full_board_without_line_ends_in_draw() {
    let mut game = Game::new();
    for n in [1u8, 2, 3, 5, 4, 6, 8, 7] {
        assert_eq!(game.play(Some(n)), Turn::Placed);
    }
    assert_eq!(game.play(Some(9)), Turn::Full);
    assert_eq!(game.board, [[X, O, X], [X, O, O], [O, X, X]]);
    assert_eq!(evaluate(&game.board), Outcome::Draw);
    assert_eq!(check_win(&game.board), None);
}

#[test]
fn occupied_cell_keeps_player_and_board() {
    let mut game = Game::new();
    assert_eq!(game.play(parse_choice("5\n")), Turn::Placed);
    assert_eq!(game.player, Player::O);
    let before = game.board;
    assert_eq!(game.play(parse_choice("5\n")), Turn::Occupied);
    assert_eq!(game.player, Player::O);
    assert_eq!(game.board, before);
    assert_eq!(game.play(parse_choice("1\n")), Turn::Placed);
    assert_eq!(game.board[0][0], O);
}

#[test]
fn malformed_or_out_of_range_input_is_refused() {
    let mut game = Game::new();
    let empty: Grid = [[E; 3]; 3];
    for input in ["abc\n", "10\n", "0\n", "\n", "5x\n", "-1\n", "300\n"] {
        assert_eq!(game.play(parse_choice(input)), Turn::Invalid);
        assert_eq!(game.board, empty);
        assert_eq!(game.player, Player::X);
    }
    assert_eq!(game.play(Some(10)), Turn::Invalid);
    assert_eq!(game.play(Some(0)), Turn::Invalid);
    assert_eq!(game.board, empty);
}

#[test]
fn new_game_is_empty_with_x_to_move() {
    let game = Game::new();
    assert_eq!(game.board, [[E; 3]; 3]);
    assert_eq!(game.player, Player::X);
    assert_eq!(evaluate(&game.board), Outcome::InProgress);
}

#[test]
fn cell_numbers_map_row_by_row() {
    assert_eq!(cell_position(1), Some((0, 0)));
    assert_eq!(cell_position(3), Some((0, 2)));
    assert_eq!(cell_position(4), Some((1, 0)));
    assert_eq!(cell_position(5), Some((1, 1)));
    assert_eq!(cell_position(8), Some((2, 1)));
    assert_eq!(cell_position(9), Some((2, 2)));
    assert_eq!(cell_position(0), None);
    assert_eq!(cell_position(10), None);
    assert_eq!(cell_position(255), None);
    let mut seen = Vec::new();
    for n in 1u8..=9 {
        let (r, c) = cell_position(n).unwrap();
        assert!(r < 3 && c < 3);
        assert_eq!(3 * r + c + 1, n as usize);
        assert!(!seen.contains(&(r, c)));
        seen.push((r, c));
    }
}

#[test]
fn apply_move_sets_exactly_one_empty_cell() {
    let mut board: Grid = [[E; 3]; 3];
    assert_eq!(apply_move(&mut board, 6, Player::O), Ok(()));
    assert_eq!(board, [[E, E, E], [E, E, O], [E, E, E]]);
    assert_eq!(apply_move(&mut board, 7, Player::X), Ok(()));
    assert_eq!(board, [[E, E, E], [E, E, O], [X, E, E]]);
}

#[test]
fn apply_move_refuses_occupied_cell() {
    let mut board: Grid = [[E, E, E], [E, E, O], [X, E, E]];
    let before = board;
    assert_eq!(apply_move(&mut board, 6, Player::X), Err(OccupiedError));
    assert_eq!(apply_move(&mut board, 7, Player::O), Err(OccupiedError));
    assert_eq!(board, before);
}

#[test]
fn every_line_is_detected() {
    let lines: [[(usize, usize); 3]; 8] = [
        [(0, 0), (0, 1), (0, 2)],
        [(1, 0), (1, 1), (1, 2)],
        [(2, 0), (2, 1), (2, 2)],
        [(0, 0), (1, 0), (2, 0)],
        [(0, 1), (1, 1), (2, 1)],
        [(0, 2), (1, 2), (2, 2)],
        [(0, 0), (1, 1), (2, 2)],
        [(0, 2), (1, 1), (2, 0)],
    ];
    for (mark, player) in [(O, Player::O), (X, Player::X)] {
        for line in lines.iter() {
            let mut board: Grid = [[E; 3]; 3];
            for &(r, c) in line.iter() {
                board[r][c] = mark;
            }
            assert_eq!(check_win(&board), Some(player));
            assert_eq!(evaluate(&board), Outcome::Win(player));
        }
    }
}

#[test]
fn two_of_a_line_is_no_win() {
    let board: Grid = [[X, X, E], [O, O, E], [E, E, E]];
    assert_eq!(check_win(&board), None);
    assert_eq!(evaluate(&board), Outcome::InProgress);
    let mixed: Grid = [[X, O, X], [E, E, E], [E, E, E]];
    assert_eq!(evaluate(&mixed), Outcome::InProgress);
}

#[test]
fn win_on_full_board_is_a_win() {
    let board: Grid = [[X, O, X], [O, X, O], [O, X, X]];
    assert!(is_full_field(&board));
    assert_eq!(evaluate(&board), Outcome::Win(Player::X));
}

#[test]
fn first_line_in_order_decides_between_two_winners() {
    let board: Grid = [[O, O, O], [X, X, X], [E, E, E]];
    assert_eq!(check_win(&board), Some(Player::O));
    let board: Grid = [[X, X, X], [O, O, O], [E, E, E]];
    assert_eq!(check_win(&board), Some(Player::X));
    let board: Grid = [[X, O, E], [X, O, E], [X, O, E]];
    assert_eq!(check_win(&board), Some(Player::X));
    let board: Grid = [[E, O, X], [E, O, X], [E, O, X]];
    assert_eq!(check_win(&board), Some(Player::O));
}

#[test]
fn full_field_detection() {
    assert!(!is_full_field(&[[E; 3]; 3]));
    assert!(!is_full_field(&[[X, O, X], [X, O, O], [O, X, E]]));
    assert!(!is_full_field(&[[E, O, X], [X, O, O], [O, X, X]]));
    assert!(is_full_field(&[[X, O, X], [X, O, O], [O, X, X]]));
}

#[test]
fn players_alternate_and_mark_cells() {
    let mut p = Player::X;
    assert_eq!(p.field(), X);
    p.switch_player();
    assert_eq!(p, Player::O);
    assert_eq!(p.field(), O);
    p.switch_player();
    assert_eq!(p, Player::X);
}

#[test]
fn symbols_of_cells() {
    assert_eq!(E.symbol(), ' ');
    assert_eq!(O.symbol(), 'O');
    assert_eq!(X.symbol(), 'X');
}

#[test]
fn render_empty_board() {
    let text = render_field(&[[E; 3]; 3]);
    assert_eq!(text, "  |   |  \n--+---+--\n  |   |  \n--+---+--\n  |   |  \n");
}

#[test]
fn render_marked_board() {
    let board: Grid = [[X, E, O], [E, X, E], [O, E, X]];
    let text = render_field(&board);
    assert_eq!(text, "X |   | O\n--+---+--\n  | X |  \n--+---+--\nO |   | X\n");
}

#[test]
fn occupied_retry_then_turn_passes() {
    let mut game = Game::new();
    assert_eq!(game.play(Some(1)), Turn::Placed);
    assert_eq!(game.play(Some(1)), Turn::Occupied);
    assert_eq!(game.player, Player::O);
    assert_eq!(game.play(Some(2)), Turn::Placed);
    assert_eq!(game.player, Player::X);
    assert_eq!(game.board[0], [X, O, E]);
}
