//! The game state: a 3×3 grid of squares and the flag that says whether the
//! game has started. Whose turn it is follows from the grid alone.

use vstd::prelude::*;

verus! {

/// The content of one square of the grid.
#[derive(Copy, Clone, Debug, PartialEq, Eq, Structural)]
pub enum Square {
    Empty,
    X,
    O,
}

impl Default for Square {
    fn default() -> (square: Square)
        ensures
            square == Square::Empty,
    {
        Square::Empty
    }
}

/// A player's mark: whose move is next, or the role given to a connection.
#[derive(Copy, Clone, Debug, PartialEq, Eq, Structural)]
pub enum Turn {
    X,
    O,
}

/// The number of rows, and of columns, of the grid.
pub const SIDE: usize = 3;

/// The number of empty squares among the first `n` of `cells`.
pub open spec fn count_empty(cells: Seq<Square>, n: int) -> nat
    decreases n,
{
    if n <= 0 {
        0
    } else {
        count_empty(cells, n - 1) + if cells[n - 1] == Square::Empty {
            1nat
        } else {
            0nat
        }
    }
}

/// The turn that belongs to a number of empty squares: O when it is even,
/// X when it is odd.
pub open spec fn turn_of(empty: nat) -> Turn {
    if empty % 2 == 0 {
        Turn::O
    } else {
        Turn::X
    }
}

/// The grid together with the flag that says whether the game has started.
#[derive(Copy, Clone, Debug, PartialEq, Eq)]
pub struct Board {
    pub rows: [[Square; 3]; 3],
    pub active: bool,
}

/// The mathematical value of a board: its nine squares in row-major order,
/// and the flag.
pub struct BoardView {
    pub cells: Seq<Square>,
    pub active: bool,
}

impl BoardView {
    /// The board on which nothing has happened yet.
    pub open spec fn fresh() -> BoardView {
        BoardView { cells: Seq::new(9, |i: int| Square::Empty), active: false }
    }

    /// The square at a row and a column.
    pub open spec fn at(self, row: int, column: int) -> Square {
        self.cells[row * 3 + column]
    }

    /// This board with one square replaced.
    pub open spec fn put(self, row: int, column: int, square: Square) -> BoardView {
        BoardView { cells: self.cells.update(row * 3 + column, square), active: self.active }
    }

    /// This board with the game started.
    pub open spec fn started(self) -> BoardView {
        BoardView { cells: self.cells, active: true }
    }

    /// The number of empty squares.
    pub open spec fn empty_count(self) -> nat {
        count_empty(self.cells, 9)
    }

    /// Whose turn it is.
    pub open spec fn turn(self) -> Turn {
        turn_of(self.empty_count())
    }
}

/// The nine squares of a grid in row-major order.
pub open spec fn grid_cells(rows: [[Square; 3]; 3]) -> Seq<Square> {
    Seq::new(9, |i: int| rows[i / 3][i % 3])
}

impl View for Board {
    type V = BoardView;

    open spec fn view(&self) -> BoardView {
        BoardView { cells: grid_cells(self.rows), active: self.active }
    }
}

impl Default for Board {
    fn default() -> (board: Board)
        ensures
            board@ == BoardView::fresh(),
    {
        let board = Board { rows: [[Square::Empty; 3]; 3], active: false };
        assert(board@.cells =~= BoardView::fresh().cells);
        board
    }
}

impl Board {
    /// Starts the game. Starting a started game changes nothing.
    pub fn start(&mut self)
        ensures
            final(self)@ == old(self)@.started(),
    {
        self.active = true;
    }

    /// Whether the game has started.
    pub fn is_active(&self) -> (active: bool)
        ensures
            active == self@.active,
    {
        self.active
    }

    /// Whose turn it is: O when the number of empty squares is even, X when
    /// it is odd.
    pub fn get_current_turn(&self) -> (turn: Turn)
        ensures
            turn == self@.turn(),
            turn == Turn::O <==> self@.empty_count() % 2 == 0,
    {
        if self.get_empty_squares() % 2 == 0 {
            Turn::O
        } else {
            Turn::X
        }
    }

    /// The number of empty squares.
    pub fn get_empty_squares(&self) -> (count: usize)
        ensures
            count == self@.empty_count(),
            count <= 9,
    {
        let mut count: usize = 0;
        let mut index: usize = 0;
        while index < 9
            invariant
                index <= 9,
                count <= index,
                count == count_empty(self@.cells, index as int),
            decreases 9 - index,
        {
            if self.rows[index / 3][index % 3] == Square::Empty {
                count = count + 1;
            }
            index = index + 1;
        }
        count
    }

    /// The square at a row and a column of the grid.
    pub fn get_square(&self, row: usize, column: usize) -> (square: Square)
        requires
            row < 3,
            column < 3,
        ensures
            square == self@.at(row as int, column as int),
    {
        self.rows[row][column]
    }

    /// Writes a square of the grid, whatever it held and whoever's turn it is.
    pub fn set_square(&mut self, row: usize, column: usize, square: Square)
        requires
            row < 3,
            column < 3,
        ensures
            final(self)@ == old(self)@.put(row as int, column as int, square),
    {
        let mut line = self.rows[row];
        line[column] = square;
        self.rows[row] = line;
        assert(self@.cells =~= old(self)@.put(row as int, column as int, square).cells);
    }
}

/// The turn is O exactly when the number of empty squares is even.
pub proof fn lemma_turn_parity(board: BoardView)
    ensures
        board.turn() == Turn::O <==> board.empty_count() % 2 == 0,
{
}

/// A board on which nothing has happened has nine empty squares, and nine
/// being odd, the turn on it is X.
pub proof fn lemma_fresh_turn()
    ensures
        BoardView::fresh().empty_count() == 9,
        BoardView::fresh().turn() == Turn::X,
{
    reveal_with_fuel(count_empty, 10);
}

/// Starting a started game changes nothing: the flag stays set and the
/// squares stay as the first start left them.
pub proof fn lemma_start_idempotent(board: BoardView)
    ensures
        board.started().started() == board.started(),
        board.started().active,
        board.started().cells == board.cells,
{
}

/// Replacing one square changes the number of empty squares among the first
/// `n` by what that square adds or takes away, if it is among them.
pub proof fn lemma_count_after_update(cells: Seq<Square>, at: int, square: Square, n: int)
    requires
        0 <= at < cells.len(),
        0 <= n <= cells.len(),
    ensures
        count_empty(cells.update(at, square), n) + (if at < n && cells[at] == Square::Empty {
            1int
        } else {
            0int
        }) == count_empty(cells, n) + (if at < n && square == Square::Empty {
            1int
        } else {
            0int
        }),
    decreases n,
{
    if n > 0 {
        lemma_count_after_update(cells, at, square, n - 1);
    }
}

/// A mark written to an empty square takes one from the number of empty
/// squares and passes the turn to the other player.
pub proof fn lemma_move_passes_turn(board: BoardView, row: int, column: int, square: Square)
    requires
        board.cells.len() == 9,
        0 <= row < 3,
        0 <= column < 3,
        board.at(row, column) == Square::Empty,
        square != Square::Empty,
    ensures
        board.put(row, column, square).empty_count() + 1 == board.empty_count(),
        board.put(row, column, square).turn() != board.turn(),
{
    lemma_count_after_update(board.cells, row * 3 + column, square, 9);
}

} // verus!
