use tictactoe_hub::board::{Board, Square, Turn};

#[test]
fn default_square_is_empty() {
    assert_eq!(Square::default(), Square::Empty);
}

#[test]
fn fresh_board_is_empty_and_inactive() {
    let board = Board::default();
    assert!(!board.is_active());
    assert_eq!(board.get_empty_squares(), 9);
    for row in 0..3 {
        for column in 0..3 {
            assert_eq!(board.get_square(row, column), Square::Empty);
        }
    }
}

#[test]
fn turn_follows_parity_of_empty_squares() {
    let mut board = Board::default();
    // nine empty squares: odd
    assert_eq!(board.get_current_turn(), Turn::X);
    board.set_square(0, 0, Square::X);
    assert_eq!(board.get_empty_squares(), 8);
    assert_eq!(board.get_current_turn(), Turn::O);
    board.set_square(1, 1, Square::O);
    assert_eq!(board.get_empty_squares(), 7);
    assert_eq!(board.get_current_turn(), Turn::X);
}

#[test]
fn turn_is_o_exactly_when_empty_count_is_even() {
    let mut board = Board::default();
    let marks = [Square::X, Square::O];
    for index in 0..9usize {
        let even = board.get_empty_squares() % 2 == 0;
        assert_eq!(board.get_current_turn() == Turn::O, even);
        board.set_square(index / 3, index % 3, marks[index % 2]);
    }
    assert_eq!(board.get_empty_squares(), 0);
    assert_eq!(board.get_current_turn(), Turn::O);
}

#[test]
fn start_twice_is_start_once() {
    let mut once = Board::default();
    once.set_square(2, 1, Square::O);
    once.start();
    let mut twice = once;
    twice.start();
    assert!(once.is_active());
    assert!(twice.is_active());
    assert_eq!(once, twice);
}

#[test]
fn set_square_writes_one_square_only() {
    let mut board = Board::default();
    board.set_square(1, 2, Square::O);
    for row in 0..3 {
        for column in 0..3 {
            let expected = if (row, column) == (1, 2) { Square::O } else { Square::Empty };
            assert_eq!(board.get_square(row, column), expected);
        }
    }
    assert!(!board.is_active());
}

#[test]
fn set_square_overwrites_without_asking() {
    let mut board = Board::default();
    board.set_square(0, 0, Square::X);
    board.set_square(0, 0, Square::O);
    assert_eq!(board.get_square(0, 0), Square::O);
    board.set_square(0, 0, Square::Empty);
    assert_eq!(board.get_square(0, 0), Square::Empty);
    assert_eq!(board.get_empty_squares(), 9);
}
