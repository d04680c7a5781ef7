//! Rules engine for the 3x3 two-player marking game.
//!
//! A [`TicTacToeState`] owns the board, the player whose turn it is, and the
//! outcome reached so far. The single mutating operation, [`TicTacToeState::place`],
//! validates a move, marks the cell, alternates the turn, and recomputes the
//! outcome; every failure leaves the state untouched.
use vstd::prelude::*;

verus! {

/// Why a placement was rejected. Each failure leaves the game unchanged,
/// so the caller may retry with corrected input.
#[derive(Copy, Clone, Debug, PartialEq, Eq, Structural)]
pub enum TicTacToeError {
    RowOutOfBounds,
    ColOutOfBounds,
    GameConcluded,
    PositionTaken,
}

/// A player's mark. `X` moves first.
#[derive(Copy, Clone, Debug, PartialEq, Eq, Structural)]
pub enum Mark {
    X,
    O,
}

impl Mark {
    /// The opposing player's mark.
    pub open spec fn flip(self) -> Mark {
        match self {
            Mark::X => Mark::O,
            Mark::O => Mark::X,
        }
    }

    fn toggle(&mut self)
        ensures
            *final(self) == old(self).flip(),
    {
        *self = if matches!(*self, Mark::X) {
            Mark::O
        } else {
            Mark::X
        };
    }
}

/// A concluded game: either one player completed a line, or the board
/// filled with no line completed.
#[derive(Copy, Clone, Debug, PartialEq, Eq, Structural)]
pub enum Winner {
    Player(Mark),
    Draw,
}

/// The complete state of one game: the 3x3 grid, whose turn is next,
/// and the outcome (`None` while the game is still in progress).
pub struct TicTacToeState {
    board: [[Option<Mark>; 3]; 3],
    turn: Mark,
    winner: Option<Winner>,
}

impl TicTacToeState {
    /// The mark in the cell at `(row, col)`, or `None` while it is vacant.
    pub closed spec fn spec_cell(self, row: int, col: int) -> Option<Mark> {
        self.board[row][col]
    }

    /// The player who makes the next placement.
    pub closed spec fn spec_turn(self) -> Mark {
        self.turn
    }

    /// The outcome recorded so far: `None` while the game is in progress.
    pub closed spec fn spec_winner(self) -> Option<Winner> {
        self.winner
    }

    /// Row `row` is entirely marked by `p`.
    pub open spec fn row_won(self, row: int, p: Mark) -> bool {
        &&& self.spec_cell(row, 0) == Some(p)
        &&& self.spec_cell(row, 1) == Some(p)
        &&& self.spec_cell(row, 2) == Some(p)
    }

    /// Column `col` is entirely marked by `p`.
    pub open spec fn col_won(self, col: int, p: Mark) -> bool {
        &&& self.spec_cell(0, col) == Some(p)
        &&& self.spec_cell(1, col) == Some(p)
        &&& self.spec_cell(2, col) == Some(p)
    }

    /// The forward diagonal (0,0),(1,1),(2,2) is entirely marked by `p`.
    pub open spec fn forward_diagonal_won(self, p: Mark) -> bool {
        &&& self.spec_cell(0, 0) == Some(p)
        &&& self.spec_cell(1, 1) == Some(p)
        &&& self.spec_cell(2, 2) == Some(p)
    }

    /// The backward diagonal (0,2),(1,1),(2,0) is entirely marked by `p`.
    pub open spec fn backward_diagonal_won(self, p: Mark) -> bool {
        &&& self.spec_cell(0, 2) == Some(p)
        &&& self.spec_cell(1, 1) == Some(p)
        &&& self.spec_cell(2, 0) == Some(p)
    }

    /// `p` owns one of the eight winning lines: a diagonal, a row, or a column.
    pub open spec fn has_win(self, p: Mark) -> bool {
        ||| self.forward_diagonal_won(p)
        ||| self.backward_diagonal_won(p)
        ||| self.row_won(0, p)
        ||| self.row_won(1, p)
        ||| self.row_won(2, p)
        ||| self.col_won(0, p)
        ||| self.col_won(1, p)
        ||| self.col_won(2, p)
    }

    /// All nine cells are marked.
    pub open spec fn board_full(self) -> bool {
        forall|row: int, col: int|
            0 <= row < 3 && 0 <= col < 3 ==> (#[trigger] self.spec_cell(row, col)) is Some
    }

    /// 1 if the cell at `(row, col)` is marked, else 0.
    pub open spec fn cell_weight(self, row: int, col: int) -> int {
        if self.spec_cell(row, col) is Some {
            1
        } else {
            0
        }
    }

    /// How many of the nine cells are marked. Equals the number of
    /// successful placements made since the game began.
    pub open spec fn mark_count(self) -> int {
        self.cell_weight(0, 0) + self.cell_weight(0, 1) + self.cell_weight(0, 2)
            + self.cell_weight(1, 0) + self.cell_weight(1, 1) + self.cell_weight(1, 2)
            + self.cell_weight(2, 0) + self.cell_weight(2, 1) + self.cell_weight(2, 2)
    }

    /// The outcome the detection algorithm assigns to the current board:
    /// a win if a player owns a line, a draw if the board is full without
    /// one, otherwise still in progress.
    pub open spec fn outcome_of(self) -> Option<Winner> {
        if self.has_win(Mark::X) {
            Some(Winner::Player(Mark::X))
        } else if self.has_win(Mark::O) {
            Some(Winner::Player(Mark::O))
        } else if self.board_full() {
            Some(Winner::Draw)
        } else {
            None
        }
    }

    /// The error `place(row, col)` fails with, or `None` when the placement
    /// is accepted. Checks are short-circuiting in this exact precedence:
    /// row bounds, column bounds, game concluded, cell taken.
    pub open spec fn place_err(self, row: int, col: int) -> Option<TicTacToeError> {
        if !(0 <= row < 3) {
            Some(TicTacToeError::RowOutOfBounds)
        } else if !(0 <= col < 3) {
            Some(TicTacToeError::ColOutOfBounds)
        } else if self.spec_winner() is Some {
            Some(TicTacToeError::GameConcluded)
        } else if self.spec_cell(row, col) is Some {
            Some(TicTacToeError::PositionTaken)
        } else {
            None
        }
    }

    /// Every state reachable through `default` and `place` satisfies this:
    /// the two players never both own a line, the recorded outcome is the
    /// one the detection algorithm assigns to the board, and the turn
    /// alternates with the number of marks (`X` exactly when it is even).
    pub open spec fn wf(self) -> bool {
        &&& !(self.has_win(Mark::X) && self.has_win(Mark::O))
        &&& self.spec_winner() == self.outcome_of()
        &&& (self.spec_turn() == Mark::X <==> self.mark_count() % 2 == 0)
    }

    /// A fresh game: empty board, `X` to move, no outcome yet.
    pub fn default() -> (s: TicTacToeState)
        ensures
            s.wf(),
            s.spec_turn() == Mark::X,
            s.spec_winner() is None,
            forall|row: int, col: int|
                0 <= row < 3 && 0 <= col < 3 ==> (#[trigger] s.spec_cell(row, col)) is None,
            s.mark_count() == 0,
    {
        TicTacToeState {
            turn: Mark::X,
            winner: None,
            board: [[None, None, None], [None, None, None], [None, None, None]],
        }
    }

    /// Attempt to mark the cell at `(row, col)` for the player whose turn
    /// it is. On success the turn flips, the outcome is recomputed, and the
    /// new outcome is returned; on failure nothing changes.
    pub fn place(&mut self, row: usize, col: usize) -> (r: Result<Option<Winner>, TicTacToeError>)
        requires
            old(self).wf(),
        ensures
            final(self).wf(),
            old(self).place_err(row as int, col as int) matches Some(e)
                ==> r == Err::<Option<Winner>, TicTacToeError>(e) && *final(self) == *old(self),
            old(self).place_err(row as int, col as int) is None ==> {
                &&& forall|i: int, j: int|
                    0 <= i < 3 && 0 <= j < 3 ==> (#[trigger] final(self).spec_cell(i, j)) == (
                        if i == row && j == col {
                            Some(old(self).spec_turn())
                        } else {
                            old(self).spec_cell(i, j)
                        })
                &&& final(self).spec_turn() == old(self).spec_turn().flip()
                &&& final(self).spec_winner() == final(self).outcome_of()
                &&& final(self).mark_count() == old(self).mark_count() + 1
                &&& r == Ok::<Option<Winner>, TicTacToeError>(final(self).spec_winner())
            },
    {
        if row >= 3 {
            Err(TicTacToeError::RowOutOfBounds)
        } else if col >= 3 {
            Err(TicTacToeError::ColOutOfBounds)
        } else if self.winner.is_some() {
            Err(TicTacToeError::GameConcluded)
        } else if self.board[row][col].is_some() {
            Err(TicTacToeError::PositionTaken)
        } else {
            let ghost prev = *self;
            self.mark_cell(row, col);
            let ghost marked = *self;
            self.turn.toggle();
            proof {
                assert forall|i: int, j: int| 0 <= i < 3 && 0 <= j < 3
                    implies (#[trigger] self.spec_cell(i, j)) == (
                        if i == row && j == col {
                            Some(prev.spec_turn())
                        } else {
                            prev.spec_cell(i, j)
                        }) by {
                    assert(self.spec_cell(i, j) == marked.spec_cell(i, j));
                }
                Self::lemma_mark_preserves_wf(prev, *self, row as int, col as int);
            }
            let ghost mid = *self;
            let w = self.find_winner();
            proof {
                Self::lemma_same_board_same_outcome(mid, *self);
                assert forall|i: int, j: int| 0 <= i < 3 && 0 <= j < 3
                    implies (#[trigger] self.spec_cell(i, j)) == (
                        if i == row && j == col {
                            Some(prev.spec_turn())
                        } else {
                            prev.spec_cell(i, j)
                        }) by {
                    assert(self.spec_cell(i, j) == mid.spec_cell(i, j));
                }
            }
            Ok(w)
        }
    }

    /// Mark the vacant cell at `(row, col)` for the player whose turn it is;
    /// every other cell, the turn, and the recorded outcome are untouched.
    fn mark_cell(&mut self, row: usize, col: usize)
        requires
            row < 3,
            col < 3,
        ensures
            forall|i: int, j: int|
                0 <= i < 3 && 0 <= j < 3 ==> (#[trigger] final(self).spec_cell(i, j)) == (
                    if i == row && j == col {
                        Some(old(self).spec_turn())
                    } else {
                        old(self).spec_cell(i, j)
                    }),
            final(self).turn == old(self).turn,
            final(self).winner == old(self).winner,
    {
        self.board[row][col] = Some(self.turn);
    }

    /// After an in-progress game gains one mark from the player whose turn
    /// it was, the opponent still owns no line, the mark count has grown by
    /// one, and the flipped turn still matches the count's parity.
    proof fn lemma_mark_preserves_wf(pre: Self, post: Self, row: int, col: int)
        requires
            pre.wf(),
            pre.spec_winner() is None,
            0 <= row < 3,
            0 <= col < 3,
            pre.spec_cell(row, col) is None,
            forall|i: int, j: int|
                0 <= i < 3 && 0 <= j < 3 ==> (#[trigger] post.spec_cell(i, j)) == (
                    if i == row && j == col {
                        Some(pre.spec_turn())
                    } else {
                        pre.spec_cell(i, j)
                    }),
            post.spec_turn() == pre.spec_turn().flip(),
        ensures
            !(post.has_win(Mark::X) && post.has_win(Mark::O)),
            post.mark_count() == pre.mark_count() + 1,
            post.spec_turn() == Mark::X <==> post.mark_count() % 2 == 0,
    {
        // The previous outcome was in progress, so neither player owned a
        // line; the one new mark belongs to the mover, so the opponent
        // cannot own a line now either.
        assert(!pre.has_win(Mark::X) && !pre.has_win(Mark::O));
        assert(!post.has_win(pre.spec_turn().flip()));
        assert(post.mark_count() == pre.mark_count() + 1);
    }

    /// Two states with equal boards assign equal outcomes.
    proof fn lemma_same_board_same_outcome(a: Self, b: Self)
        requires
            a.board == b.board,
        ensures
            a.has_win(Mark::X) == b.has_win(Mark::X),
            a.has_win(Mark::O) == b.has_win(Mark::O),
            a.board_full() == b.board_full(),
            a.outcome_of() == b.outcome_of(),
            a.mark_count() == b.mark_count(),
    {
        assert forall|i: int, j: int| 0 <= i < 3 && 0 <= j < 3
            implies #[trigger] a.spec_cell(i, j) == b.spec_cell(i, j) by {}
    }

    /// Recompute and record the outcome of the current board. The caller
    /// guarantees that the two players do not both own a line — a board on
    /// which both do would be an internal-consistency fault, unreachable
    /// through legal placements.
    fn find_winner(&mut self) -> (w: Option<Winner>)
        requires
            !(old(self).has_win(Mark::X) && old(self).has_win(Mark::O)),
        ensures
            final(self).board == old(self).board,
            final(self).turn == old(self).turn,
            final(self).winner == w,
            w == old(self).outcome_of(),
    {
        let is_x = self.is_winner(Mark::X);
        let is_o = self.is_winner(Mark::O);
        let w = if is_x {
            Some(Winner::Player(Mark::X))
        } else if is_o {
            Some(Winner::Player(Mark::O))
        } else if self.is_full() {
            Some(Winner::Draw)
        } else {
            None
        };
        self.winner = w;
        w
    }

    fn is_winner(&self, winner: Mark) -> (r: bool)
        ensures
            r == self.has_win(winner),
    {
        self.is_winner_forward_diagonal(winner)
            || self.is_winner_backward_diagonal(winner)
            || self.is_winner_rows(winner)
            || self.is_winner_cols(winner)
    }

    fn is_winner_forward_diagonal(&self, winner: Mark) -> (r: bool)
        ensures
            r == self.forward_diagonal_won(winner),
    {
        is_some_and_matches_winner(self.board[0][0], winner)
            && is_some_and_matches_winner(self.board[1][1], winner)
            && is_some_and_matches_winner(self.board[2][2], winner)
    }

    fn is_winner_backward_diagonal(&self, winner: Mark) -> (r: bool)
        ensures
            r == self.backward_diagonal_won(winner),
    {
        is_some_and_matches_winner(self.board[0][2], winner)
            && is_some_and_matches_winner(self.board[1][1], winner)
            && is_some_and_matches_winner(self.board[2][0], winner)
    }

    fn is_winner_rows(&self, winner: Mark) -> (r: bool)
        ensures
            r == (self.row_won(0, winner) || self.row_won(1, winner) || self.row_won(2, winner)),
    {
        let mut row: usize = 0;
        while row < 3
            invariant
                row <= 3,
                forall|i: int| 0 <= i < row ==> !self.row_won(i, winner),
            decreases 3 - row,
        {
            if is_some_and_matches_winner(self.board[row][0], winner)
                && is_some_and_matches_winner(self.board[row][1], winner)
                && is_some_and_matches_winner(self.board[row][2], winner) {
                return true;
            }
            row = row + 1;
        }
        false
    }

    fn is_winner_cols(&self, winner: Mark) -> (r: bool)
        ensures
            r == (self.col_won(0, winner) || self.col_won(1, winner) || self.col_won(2, winner)),
    {
        let mut col: usize = 0;
        while col < 3
            invariant
                col <= 3,
                forall|j: int| 0 <= j < col ==> !self.col_won(j, winner),
            decreases 3 - col,
        {
            if is_some_and_matches_winner(self.board[0][col], winner)
                && is_some_and_matches_winner(self.board[1][col], winner)
                && is_some_and_matches_winner(self.board[2][col], winner) {
                return true;
            }
            col = col + 1;
        }
        false
    }

    fn is_full(&self) -> (r: bool)
        ensures
            r == self.board_full(),
    {
        let mut row: usize = 0;
        while row < 3
            invariant
                row <= 3,
                forall|i: int, j: int|
                    0 <= i < row && 0 <= j < 3 ==> (#[trigger] self.spec_cell(i, j)) is Some,
            decreases 3 - row,
        {
            if self.board[row][0].is_none()
                || self.board[row][1].is_none()
                || self.board[row][2].is_none() {
                proof {
                    assert(self.spec_cell(row as int, 0) is None
                        || self.spec_cell(row as int, 1) is None
                        || self.spec_cell(row as int, 2) is None);
                }
                return false;
            }
            row = row + 1;
        }
        true
    }

    /// The current board contents, row by row, for a rendering layer.
    pub fn board(&self) -> (b: [[Option<Mark>; 3]; 3])
        ensures
            forall|i: int, j: int|
                0 <= i < 3 && 0 <= j < 3 ==> #[trigger] b[i][j] == self.spec_cell(i, j),
    {
        self.board
    }

    /// The player who makes the next placement.
    pub fn turn(&self) -> (t: Mark)
        ensures
            t == self.spec_turn(),
    {
        self.turn
    }

    /// The outcome reached so far, `None` while the game is in progress.
    pub fn winner(&self) -> (w: Option<Winner>)
        ensures
            w == self.spec_winner(),
    {
        self.winner
    }

    /// The two players never both own a line in a reachable state: a single
    /// placement marks one cell for one player, and the game concludes as
    /// soon as a line is completed.
    pub proof fn lemma_no_double_win(self)
        requires
            self.wf(),
        ensures
            !(self.has_win(Mark::X) && self.has_win(Mark::O)),
    {
    }

    /// Turns alternate strictly: starting from the empty board, after `n`
    /// successful placements the mark count is `n`, and the first player
    /// `X` is active exactly when `n` is even.
    pub proof fn lemma_turn_parity(self)
        requires
            self.wf(),
        ensures
            self.spec_turn() == Mark::X <==> self.mark_count() % 2 == 0,
            self.spec_turn() == Mark::O <==> self.mark_count() % 2 != 0,
    {
    }

    /// A full board on which neither player owns a line is a draw.
    pub proof fn lemma_full_without_win_is_draw(self)
        requires
            self.board_full(),
            !self.has_win(Mark::X),
            !self.has_win(Mark::O),
        ensures
            self.outcome_of() == Some(Winner::Draw),
    {
    }

    /// Failure is idempotent: a rejected placement leaves the state
    /// unchanged (by `place`'s contract), so repeating the same invalid
    /// placement against the resulting state yields the same error again.
    pub proof fn lemma_failure_idempotent(self, after: Self, row: int, col: int)
        requires
            self.place_err(row, col) is Some,
            after == self,
        ensures
            after.place_err(row, col) == self.place_err(row, col),
            after.place_err(row, col) is Some,
    {
    }
}

/// The cell holds a mark and it is `winner`'s.
fn is_some_and_matches_winner(mark: Option<Mark>, winner: Mark) -> (r: bool)
    ensures
        r == (mark == Some(winner)),
{
    match mark {
        None => false,
        Some(Mark::X) => matches!(winner, Mark::X),
        Some(Mark::O) => matches!(winner, Mark::O),
    }
}

} // verus!
