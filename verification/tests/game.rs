use tictactoe::{Mark, TicTacToeError, TicTacToeState, Winner};

const EMPTY_BOARD: [[Option<Mark>; 3]; 3] = [[None, None, None], [None, None, None], [None, None, None]];

#[test]
fn game() {
    let mut state = TicTacToeState::default();
    assert!(state.place(0, 0).expect("vacant").is_none());
    assert!(state.place(0, 1).expect("vacant").is_none());
    assert!(state.place(1, 0).expect("vacant").is_none());
    assert!(state.place(1, 1).expect("vacant").is_none());
    assert!(matches!(
        state.place(2, 0),
        Ok(Some(Winner::Player(Mark::X)))
    ));
}

#[test]
fn fresh_game_accessors() {
    let state = TicTacToeState::default();
    assert_eq!(state.board(), EMPTY_BOARD);
    assert_eq!(state.turn(), Mark::X);
    assert_eq!(state.winner(), None);
}

#[test]
fn row_out_of_bounds_on_fresh_board() {
    let mut state = TicTacToeState::default();
    assert_eq!(state.place(3, 0), Err(TicTacToeError::RowOutOfBounds));
    assert_eq!(state.board(), EMPTY_BOARD);
    assert_eq!(state.turn(), Mark::X);
    assert_eq!(state.winner(), None);
}

#[test]
fn out_of_bounds_leaves_state_unchanged() {
    let mut state = TicTacToeState::default();
    state.place(1, 1).expect("vacant");
    let board = state.board();
    let turn = state.turn();
    assert_eq!(state.place(7, 0), Err(TicTacToeError::RowOutOfBounds));
    assert_eq!(state.place(0, 3), Err(TicTacToeError::ColOutOfBounds));
    assert_eq!(state.place(0, 99), Err(TicTacToeError::ColOutOfBounds));
    // Row bounds are checked before column bounds.
    assert_eq!(state.place(3, 3), Err(TicTacToeError::RowOutOfBounds));
    assert_eq!(state.board(), board);
    assert_eq!(state.turn(), turn);
    assert_eq!(state.winner(), None);
}

#[test]
fn position_taken_leaves_state_unchanged() {
    let mut state = TicTacToeState::default();
    state.place(0, 0).expect("vacant");
    let board = state.board();
    let turn = state.turn();
    assert_eq!(state.place(0, 0), Err(TicTacToeError::PositionTaken));
    assert_eq!(state.board(), board);
    assert_eq!(state.turn(), turn);
    assert_eq!(state.winner(), None);
}

#[test]
fn concluded_game_rejects_every_placement() {
    let mut state = TicTacToeState::default();
    // X takes row 0; O answers in row 1.
    state.place(0, 0).expect("vacant");
    state.place(1, 0).expect("vacant");
    state.place(0, 1).expect("vacant");
    state.place(1, 1).expect("vacant");
    assert_eq!(state.place(0, 2), Ok(Some(Winner::Player(Mark::X))));
    let board = state.board();
    let turn = state.turn();
    // The vacant cell (2, 2) is rejected too: the game is over.
    assert_eq!(state.place(2, 2), Err(TicTacToeError::GameConcluded));
    assert_eq!(state.board(), board);
    assert_eq!(state.turn(), turn);
    assert_eq!(state.winner(), Some(Winner::Player(Mark::X)));
}

#[test]
fn turn_alternates_after_each_success() {
    let mut state = TicTacToeState::default();
    assert_eq!(state.turn(), Mark::X);
    state.place(0, 0).expect("vacant");
    assert_eq!(state.turn(), Mark::O);
    state.place(0, 1).expect("vacant");
    assert_eq!(state.turn(), Mark::X);
    state.place(1, 1).expect("vacant");
    assert_eq!(state.turn(), Mark::O);
    // A failed placement does not advance the turn.
    assert_eq!(state.place(1, 1), Err(TicTacToeError::PositionTaken));
    assert_eq!(state.turn(), Mark::O);
    state.place(2, 2).expect("vacant");
    assert_eq!(state.turn(), Mark::X);
}

#[test]
fn full_board_without_line_is_draw() {
    let mut state = TicTacToeState::default();
    // Final position, with no line for either player:
    //   X O X
    //   X O O
    //   O X X
    let moves = [
        (0, 0), // X
        (0, 1), // O
        (0, 2), // X
        (1, 1), // O
        (1, 0), // X
        (1, 2), // O
        (2, 1), // X
        (2, 0), // O
    ];
    for (row, col) in moves {
        assert_eq!(state.place(row, col), Ok(None));
    }
    assert_eq!(state.place(2, 2), Ok(Some(Winner::Draw)));
    assert_eq!(state.winner(), Some(Winner::Draw));
}

#[test]
fn left_column_win_for_first_player() {
    let mut state = TicTacToeState::default();
    assert_eq!(state.place(0, 0), Ok(None));
    assert_eq!(state.place(0, 1), Ok(None));
    assert_eq!(state.place(1, 0), Ok(None));
    assert_eq!(state.place(1, 1), Ok(None));
    // X completes the left column (0,0),(1,0),(2,0).
    assert_eq!(state.place(2, 0), Ok(Some(Winner::Player(Mark::X))));
    assert_eq!(state.winner(), Some(Winner::Player(Mark::X)));
}

#[test]
fn forward_diagonal_win_for_first_player() {
    let mut state = TicTacToeState::default();
    assert_eq!(state.place(0, 0), Ok(None));
    assert_eq!(state.place(0, 1), Ok(None));
    assert_eq!(state.place(1, 1), Ok(None));
    assert_eq!(state.place(1, 0), Ok(None));
    // X completes the forward diagonal (0,0),(1,1),(2,2).
    assert_eq!(state.place(2, 2), Ok(Some(Winner::Player(Mark::X))));
    assert_eq!(state.winner(), Some(Winner::Player(Mark::X)));
}

#[test]
fn backward_diagonal_win_for_first_player() {
    let mut state = TicTacToeState::default();
    assert_eq!(state.place(0, 2), Ok(None));
    assert_eq!(state.place(0, 0), Ok(None));
    assert_eq!(state.place(1, 1), Ok(None));
    assert_eq!(state.place(1, 0), Ok(None));
    // X completes the backward diagonal (0,2),(1,1),(2,0).
    assert_eq!(state.place(2, 0), Ok(Some(Winner::Player(Mark::X))));
    assert_eq!(state.winner(), Some(Winner::Player(Mark::X)));
}

#[test]
fn middle_row_win_for_second_player() {
    let mut state = TicTacToeState::default();
    assert_eq!(state.place(0, 0), Ok(None));
    assert_eq!(state.place(1, 0), Ok(None));
    assert_eq!(state.place(0, 1), Ok(None));
    assert_eq!(state.place(1, 1), Ok(None));
    assert_eq!(state.place(2, 2), Ok(None));
    // O completes the middle row (1,0),(1,1),(1,2).
    assert_eq!(state.place(1, 2), Ok(Some(Winner::Player(Mark::O))));
    assert_eq!(state.winner(), Some(Winner::Player(Mark::O)));
}

#[test]
fn repeated_invalid_placement_fails_identically() {
    let mut state = TicTacToeState::default();
    state.place(2, 1).expect("vacant");
    let board = state.board();
    let turn = state.turn();
    assert_eq!(state.place(3, 0), Err(TicTacToeError::RowOutOfBounds));
    assert_eq!(state.place(3, 0), Err(TicTacToeError::RowOutOfBounds));
    assert_eq!(state.place(2, 1), Err(TicTacToeError::PositionTaken));
    assert_eq!(state.place(2, 1), Err(TicTacToeError::PositionTaken));
    assert_eq!(state.board(), board);
    assert_eq!(state.turn(), turn);
    assert_eq!(state.winner(), None);
}
