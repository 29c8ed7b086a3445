use tictactoe::board::Figure;
use tictactoe::game::{Game, Outcome};
use tictactoe::player::Player;

#[test]
fn a_new_game_starts_with_player_a() {
    let g = Game::new();
    assert_eq!(g.turn, Player::A);
    assert_eq!(g.board.marked_count, 0);
}

#[test]
fn the_turn_alternates_on_successful_moves() {
    let mut g = Game::new();
    assert_eq!(g.play(0, 0), Outcome::InProgress);
    assert_eq!(g.turn, Player::B);
    assert_eq!(g.play(1, 0), Outcome::InProgress);
    assert_eq!(g.turn, Player::A);
    assert_eq!(g.play(2, 0), Outcome::InProgress);
    assert_eq!(g.turn, Player::B);
}

#[test]
fn a_rejected_move_advances_nothing() {
    let mut g = Game::new();
    assert_eq!(g.play(1, 1), Outcome::InProgress);
    assert_eq!(g.turn, Player::B);
    // Same cell again: rejected, board and turn untouched.
    assert_eq!(g.play(1, 1), Outcome::CellOccupied);
    assert_eq!(g.turn, Player::B);
    assert_eq!(g.board.marked_count, 1);
    // The next accepted move is still B's, so it places a circle.
    assert_eq!(g.play(0, 0), Outcome::InProgress);
    assert_eq!(g.board.get_cell(0, 0), Some(Figure::Circle));
}

#[test]
fn completing_a_row_wins_for_the_mover() {
    let mut g = Game::new();
    assert_eq!(g.play(0, 0), Outcome::InProgress); // A: x
    assert_eq!(g.play(1, 0), Outcome::InProgress); // B: o
    assert_eq!(g.play(0, 1), Outcome::InProgress); // A: x
    assert_eq!(g.play(1, 1), Outcome::InProgress); // B: o
    assert_eq!(g.play(0, 2), Outcome::Won(Player::A));
    assert!(g.board.complete_line());
}

#[test]
fn the_second_player_can_win_too() {
    let mut g = Game::new();
    assert_eq!(g.play(0, 0), Outcome::InProgress); // A: x
    assert_eq!(g.play(1, 0), Outcome::InProgress); // B: o
    assert_eq!(g.play(0, 1), Outcome::InProgress); // A: x
    assert_eq!(g.play(1, 1), Outcome::InProgress); // B: o
    assert_eq!(g.play(2, 2), Outcome::InProgress); // A: x
    assert_eq!(g.play(1, 2), Outcome::Won(Player::B));
}

#[test]
fn a_full_board_without_a_line_is_a_draw() {
    // Ends as x o x / o o x / x x o: no line of one figure.
    let mut g = Game::new();
    assert_eq!(g.play(0, 0), Outcome::InProgress); // A: x
    assert_eq!(g.play(0, 1), Outcome::InProgress); // B: o
    assert_eq!(g.play(0, 2), Outcome::InProgress); // A: x
    assert_eq!(g.play(1, 0), Outcome::InProgress); // B: o
    assert_eq!(g.play(1, 2), Outcome::InProgress); // A: x
    assert_eq!(g.play(1, 1), Outcome::InProgress); // B: o
    assert_eq!(g.play(2, 0), Outcome::InProgress); // A: x
    assert_eq!(g.play(2, 2), Outcome::InProgress); // B: o
    assert_eq!(g.play(2, 1), Outcome::Draw); // A: x, ninth cell
    assert_eq!(g.board.marked_count, 9);
    assert!(!g.board.complete_line());
}

#[test]
fn a_line_on_the_ninth_cell_is_a_win_not_a_draw() {
    // Ends as x o x / o o x / o x x: the last move fills the board and
    // completes the third column at once.
    let mut g = Game::new();
    assert_eq!(g.play(0, 0), Outcome::InProgress); // A: x
    assert_eq!(g.play(0, 1), Outcome::InProgress); // B: o
    assert_eq!(g.play(0, 2), Outcome::InProgress); // A: x
    assert_eq!(g.play(1, 0), Outcome::InProgress); // B: o
    assert_eq!(g.play(1, 2), Outcome::InProgress); // A: x
    assert_eq!(g.play(1, 1), Outcome::InProgress); // B: o
    assert_eq!(g.play(2, 1), Outcome::InProgress); // A: x
    assert_eq!(g.play(2, 0), Outcome::InProgress); // B: o
    assert_eq!(g.play(2, 2), Outcome::Won(Player::A));
    assert_eq!(g.board.marked_count, 9);
}

#[test]
fn change_flips_the_player() {
    assert_eq!(Player::A.change(), Player::B);
    assert_eq!(Player::B.change(), Player::A);
    assert_eq!(Player::A.change().change(), Player::A);
}

#[test]
fn each_player_has_a_fixed_marker() {
    assert_eq!(Player::A.marker(), Figure::Cross);
    assert_eq!(Player::B.marker(), Figure::Circle);
}

#[test]
fn each_player_has_a_display_name() {
    assert_eq!(Player::A.name(), "Player A");
    assert_eq!(Player::B.name(), "Player B");
}
