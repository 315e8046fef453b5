use tic_tac_toe::Game;
use tic_tac_toe::PlayError;
use tic_tac_toe::Symbol;
use tic_tac_toe::Symbol::Cross;
use tic_tac_toe::Symbol::Empty;
use tic_tac_toe::Symbol::Naught;

#[test]
fn initial_board_representation_is_created() {
    let game = Game::start();

    assert_eq!(
        game.cells(),
        [Empty, Empty, Empty, Empty, Empty, Empty, Empty, Empty, Empty]
    );
}

#[test]
fn when_position_is_out_of_range_board_is_unchanged_and_error_is_reported() {
    let mut game = Game::start();

    let is_out_of_range = match game.play(9) {
        Err(PlayError::OutOfRange) => true,
        _ => false,
    };

    assert!(is_out_of_range, "Out of range error should be returned");
    assert_eq!(
        game.cells(),
        [Empty, Empty, Empty, Empty, Empty, Empty, Empty, Empty, Empty]
    );
}

#[test]
fn cannot_play_in_a_square_thats_already_taken() {
    let mut game = Game::start();
    game.play(0).ok();

    let is_square_taken = match game.play(0) {
        Err(PlayError::SquareTaken) => true,
        _ => false,
    };

    assert!(is_square_taken, "SquareTakenError should be returned");
    assert_eq!(
        game.cells(),
        [Cross, Empty, Empty, Empty, Empty, Empty, Empty, Empty, Empty]
    );
}

#[test]
fn x_and_o_alternate_with_each_play() {
    let mut game = Game::start();

    for index in 0usize..4usize {
        game.play(index).ok();
    }

    assert_eq!(
        game.cells(),
        [Cross, Naught, Cross, Naught, Empty, Empty, Empty, Empty, Empty]
    );
}

#[test]
fn x_goes_first_in_any_position() {
    for index in 0usize..9usize {
        let mut game = Game::start();
        assert_eq!(game.play(index), Ok(()));

        let cells = game.cells();
        for j in 0usize..9usize {
            if j == index {
                assert_eq!(cells[j], Cross);
            } else {
                assert_eq!(cells[j], Empty);
            }
        }
    }
}

#[test]
fn winning_boards_return_correct_winner() {
    let cases: [([Symbol; 9], Symbol); 4] = [
        (
            [Cross, Cross, Cross, Empty, Empty, Empty, Empty, Naught, Naught],
            Cross,
        ),
        (
            [Empty, Empty, Empty, Cross, Cross, Cross, Empty, Naught, Naught],
            Cross,
        ),
        (
            [Empty, Empty, Empty, Naught, Naught, Empty, Cross, Cross, Cross],
            Cross,
        ),
        (
            [Naught, Naught, Naught, Empty, Empty, Cross, Empty, Cross, Cross],
            Naught,
        ),
    ];

    for (initial_board, expected_winner) in cases {
        let game = Game::with_board(initial_board, Cross);
        assert_eq!(game.get_winner(), Some(expected_winner));
    }
}

#[test]
fn top_row_of_crosses_wins() {
    let game = Game::with_board(
        [Cross, Cross, Cross, Empty, Empty, Empty, Empty, Empty, Empty],
        Naught,
    );
    assert_eq!(game.get_winner(), Some(Cross));
}

#[test]
fn first_column_of_naughts_wins() {
    let game = Game::with_board(
        [Naught, Empty, Empty, Naught, Empty, Empty, Naught, Empty, Empty],
        Cross,
    );
    assert_eq!(game.get_winner(), Some(Naught));
}

#[test]
fn main_diagonal_of_crosses_wins() {
    let game = Game::with_board(
        [Cross, Empty, Empty, Empty, Cross, Empty, Empty, Empty, Cross],
        Naught,
    );
    assert_eq!(game.get_winner(), Some(Cross));
}

#[test]
fn anti_diagonal_of_naughts_wins() {
    let game = Game::with_board(
        [Empty, Empty, Naught, Empty, Naught, Empty, Naught, Empty, Empty],
        Cross,
    );
    assert_eq!(game.get_winner(), Some(Naught));
}

#[test]
fn empty_board_has_no_winner() {
    let game = Game::start();
    assert_eq!(game.get_winner(), None);
}

#[test]
fn drawn_board_has_no_winner() {
    let game = Game::with_board(
        [Cross, Naught, Cross, Cross, Naught, Naught, Naught, Cross, Cross],
        Cross,
    );
    assert_eq!(game.get_winner(), None);
}

#[test]
fn earlier_row_wins_the_tie_break() {
    // Both row 0 (Naught) and row 1 (Cross) match: the first line in
    // evaluation order decides.
    let game = Game::with_board(
        [Naught, Naught, Naught, Cross, Cross, Cross, Empty, Empty, Empty],
        Cross,
    );
    assert_eq!(game.get_winner(), Some(Naught));
}

#[test]
fn earlier_column_wins_the_tie_break() {
    // Both column 0 (Cross) and column 1 (Naught) match: the first in
    // evaluation order decides.
    let game = Game::with_board(
        [Cross, Naught, Empty, Cross, Naught, Empty, Cross, Naught, Empty],
        Cross,
    );
    assert_eq!(game.get_winner(), Some(Cross));
}

#[test]
fn get_winner_is_idempotent() {
    let mut game = Game::start();
    for index in [0usize, 3, 1, 4, 2] {
        game.play(index).ok();
    }

    let first = game.get_winner();
    let second = game.get_winner();
    assert_eq!(first, Some(Cross));
    assert_eq!(first, second);
}

#[test]
fn any_index_above_eight_is_out_of_range() {
    let mut game = Game::start();
    assert_eq!(game.play(9), Err(PlayError::OutOfRange));
    assert_eq!(game.play(100), Err(PlayError::OutOfRange));
    assert_eq!(game.play(usize::MAX), Err(PlayError::OutOfRange));
    assert_eq!(
        game.cells(),
        [Empty, Empty, Empty, Empty, Empty, Empty, Empty, Empty, Empty]
    );
}

#[test]
fn boundary_index_eight_is_in_range() {
    let mut game = Game::start();
    assert_eq!(game.play(8), Ok(()));
    assert_eq!(
        game.cells(),
        [Empty, Empty, Empty, Empty, Empty, Empty, Empty, Empty, Cross]
    );
}

#[test]
fn full_board_rejects_every_play_as_taken() {
    let full_board = [Cross, Naught, Cross, Cross, Naught, Naught, Naught, Cross, Cross];
    for index in 0usize..9usize {
        let mut game = Game::with_board(full_board, Cross);
        assert_eq!(game.play(index), Err(PlayError::SquareTaken));
        assert_eq!(game.cells(), full_board);
    }
}

#[test]
fn turn_passes_to_the_other_player_after_each_accepted_play() {
    let mut game = Game::start();
    assert_eq!(game.current_player(), Cross);

    game.play(4).ok();
    assert_eq!(game.current_player(), Naught);

    game.play(0).ok();
    assert_eq!(game.current_player(), Cross);

    // A rejected play does not pass the turn.
    game.play(4).ok();
    assert_eq!(game.current_player(), Cross);
}
