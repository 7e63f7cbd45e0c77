//! The grid of locked cells.
//!
//! A board is `GRID_HEIGHT` rows of `GRID_WIDTH` cells. Row 0 is the top row;
//! `y` grows downward. In contracts a board is seen as its [`Grid`], the
//! sequence of its rows from top to bottom.

use vstd::prelude::*;
use crate::color::Color;
use crate::constants::{GRID_HEIGHT, GRID_WIDTH};

verus! {

/// One row of cells, from left to right. `None` is an empty cell.
pub type Row = Seq<Option<Color>>;

/// The rows of a board, from top to bottom.
pub type Grid = Seq<Seq<Option<Color>>>;

/// A row of `GRID_WIDTH` empty cells.
pub open spec fn empty_row() -> Row {
    Seq::new(GRID_WIDTH as nat, |x: int| None::<Color>)
}

/// A grid of `GRID_HEIGHT` empty rows.
pub open spec fn empty_grid() -> Grid {
    Seq::new(GRID_HEIGHT as nat, |y: int| empty_row())
}

/// The grid has the dimensions of a board.
pub open spec fn grid_wf(grid: Grid) -> bool {
    &&& grid.len() == GRID_HEIGHT
    &&& forall|y: int| 0 <= y < GRID_HEIGHT ==> (#[trigger] grid[y]).len() == GRID_WIDTH
}

/// Every cell of the row is occupied.
pub open spec fn row_full(row: Row) -> bool {
    forall|x: int| 0 <= x < row.len() ==> (#[trigger] row[x]) is Some
}

/// The grid with cell (`x`, `y`) replaced by `cell`.
pub open spec fn cell_set(grid: Grid, x: int, y: int, cell: Option<Color>) -> Grid {
    grid.update(y, grid[y].update(x, cell))
}

/// The grid with row `y` emptied.
pub open spec fn line_cleared(grid: Grid, y: int) -> Grid {
    grid.update(y, empty_row())
}

/// The grid with row `from_line` taken out, the rows above it moved down by
/// one, and an empty row put in at the top.
pub open spec fn lines_shifted(grid: Grid, from_line: int) -> Grid {
    seq![empty_row()] + grid.take(from_line) + grid.skip(from_line + 1)
}

/// `count` empty rows.
pub open spec fn empty_rows(count: nat) -> Grid {
    Seq::new(count, |y: int| empty_row())
}

/// The test that a row passes when it is not full.
pub open spec fn not_full() -> spec_fn(Row) -> bool {
    |row: Row| !row_full(row)
}

/// Number of full rows of the grid.
pub open spec fn full_row_count(grid: Grid) -> nat {
    (grid.len() - grid.filter(not_full()).len()) as nat
}

/// The grid without its full rows: the other rows keep their order and sink
/// to the bottom, under as many empty rows as full rows were taken out.
pub open spec fn full_rows_removed(grid: Grid) -> Grid {
    empty_rows(full_row_count(grid)) + grid.filter(not_full())
}

/// No row of the grid is full.
pub open spec fn no_full_row(grid: Grid) -> bool {
    forall|y: int| 0 <= y < grid.len() ==> !row_full(#[trigger] grid[y])
}

/// Taking the full rows out of a grid that has none changes nothing.
pub proof fn lemma_nothing_to_remove(grid: Grid)
    requires
        no_full_row(grid),
    ensures
        grid.filter(not_full()) == grid,
        full_row_count(grid) == 0,
        full_rows_removed(grid) == grid,
    decreases grid.len(),
{
    if grid.len() == 0 {
        reveal(Seq::filter);
    } else {
        let front = grid.drop_last();
        assert forall|y: int| 0 <= y < front.len() implies !row_full(#[trigger] front[y]) by {
            assert(front[y] == grid[y]);
        }
        lemma_nothing_to_remove(front);
        assert(front.push(grid.last()) =~= grid);
        front.lemma_filter_push(grid.last(), not_full());
        assert(not_full()(grid.last()));
    }
    assert(full_rows_removed(grid) =~= grid);
}

/// The empty grid has the dimensions of a board and no full row.
pub proof fn lemma_empty_grid()
    ensures
        grid_wf(empty_grid()),
        no_full_row(empty_grid()),
        full_row_count(empty_grid()) == 0,
        full_rows_removed(empty_grid()) == empty_grid(),
{
    assert(empty_row()[0] is None);
    lemma_nothing_to_remove(empty_grid());
}

/// Taking the full rows out of a grid comes to taking out its lowest full
/// row, by clearing it and shifting down from it, and then the full rows
/// of what is left.
pub proof fn lemma_remove_lowest_first(grid: Grid, r: int)
    requires
        grid_wf(grid),
        0 <= r < GRID_HEIGHT,
        row_full(grid[r]),
        forall|y: int| r < y < GRID_HEIGHT ==> !row_full(#[trigger] grid[y]),
    ensures
        full_row_count(grid) == 1 + full_row_count(lines_shifted(grid, r)),
        full_rows_removed(grid) == full_rows_removed(lines_shifted(grid, r)),
{
    let above = grid.take(r);
    let below = grid.skip(r + 1);
    let shifted = lines_shifted(grid, r);
    let kept_above = above.filter(not_full());
    assert(empty_row()[0] is None);
    assert(Seq::<Row>::empty().filter(not_full()) =~= Seq::<Row>::empty()) by {
        reveal(Seq::filter);
    }
    Seq::<Row>::empty().lemma_filter_prepend(grid[r], not_full());
    Seq::<Row>::empty().lemma_filter_prepend(empty_row(), not_full());
    assert(seq![grid[r]] + Seq::<Row>::empty() =~= seq![grid[r]]);
    assert(seq![empty_row()] + Seq::<Row>::empty() =~= seq![empty_row()]);
    assert forall|y: int| 0 <= y < below.len() implies !row_full(#[trigger] below[y]) by {
        assert(below[y] == grid[r + 1 + y]);
    }
    lemma_nothing_to_remove(below);
    assert(grid =~= above + seq![grid[r]] + below);
    assert(grid.filter(not_full()) =~= kept_above + below);
    assert(shifted.filter(not_full()) =~= seq![empty_row()] + kept_above + below);
    above.lemma_filter_len(not_full());
    assert(full_rows_removed(grid) =~= full_rows_removed(shifted));
}

/// With exactly one full row, taking the full rows out is clearing that
/// row and shifting down from it.
pub proof fn lemma_single_full_row(grid: Grid, r: int)
    requires
        grid_wf(grid),
        0 <= r < GRID_HEIGHT,
        row_full(grid[r]),
        forall|y: int| 0 <= y < GRID_HEIGHT && y != r ==> !row_full(#[trigger] grid[y]),
    ensures
        full_row_count(grid) == 1,
        full_rows_removed(grid) == lines_shifted(grid, r),
{
    let shifted = lines_shifted(grid, r);
    lemma_remove_lowest_first(grid, r);
    assert(empty_row()[0] is None);
    assert forall|y: int| 0 <= y < shifted.len() implies !row_full(#[trigger] shifted[y]) by {
        if y == 0 {
        } else if y <= r {
            assert(shifted[y] == grid[y - 1]);
        } else {
            assert(shifted[y] == grid[y]);
        }
    }
    lemma_nothing_to_remove(shifted);
}

/// A grid with its full rows taken out is a grid of the same size without
/// a full row.
pub proof fn lemma_full_rows_removed(grid: Grid)
    requires
        grid_wf(grid),
    ensures
        grid_wf(full_rows_removed(grid)),
        no_full_row(full_rows_removed(grid)),
        full_row_count(grid) <= GRID_HEIGHT,
{
    let kept = grid.filter(not_full());
    let count = full_row_count(grid);
    let result = full_rows_removed(grid);
    grid.lemma_filter_len(not_full());
    assert forall|y: int| 0 <= y < result.len() implies (#[trigger] result[y]).len() == GRID_WIDTH
        && !row_full(result[y]) by {
        if y < count {
            assert(result[y] == empty_row());
            assert(empty_row()[0] is None);
        } else {
            assert(result[y] == kept[y - count]);
            grid.lemma_filter_pred(not_full(), y - count);
            grid.lemma_filter_contains_rev(not_full(), kept[y - count]);
            let at = choose|at: int| 0 <= at < grid.len() && grid[at] == kept[y - count];
            assert(grid[at].len() == GRID_WIDTH);
        }
    }
}

/// Clearing a row and then shifting down from it empties row 0, moves every
/// row above the cleared one down by exactly one, and leaves the rows below
/// it alone.
pub proof fn lemma_clear_then_shift(grid: Grid, r: int)
    requires
        grid_wf(grid),
        0 <= r < GRID_HEIGHT,
    ensures
        lines_shifted(line_cleared(grid, r), r) == lines_shifted(grid, r),
        grid_wf(lines_shifted(line_cleared(grid, r), r)),
        lines_shifted(line_cleared(grid, r), r)[0] == empty_row(),
        forall|y: int| 1 <= y <= r ==> lines_shifted(line_cleared(grid, r), r)[y] == grid[y - 1],
        forall|y: int| r < y < GRID_HEIGHT ==> lines_shifted(line_cleared(grid, r), r)[y] == grid[y],
{
    assert(lines_shifted(line_cleared(grid, r), r) =~= lines_shifted(grid, r));
}

/// The locked cells of the playing field.
#[derive(Clone, Copy, Debug)]
pub struct GameBoard {
    /// `cells[y][x]` is the cell in row `y`, column `x`.
    pub cells: [[Option<Color>; GRID_WIDTH]; GRID_HEIGHT],
}

impl View for GameBoard {
    type V = Grid;

    open spec fn view(&self) -> Grid {
        Seq::new(GRID_HEIGHT as nat, |y: int| self.cells[y]@)
    }
}

/// A row of cells, all empty.
fn blank_row() -> (row: [Option<Color>; GRID_WIDTH])
    ensures
        row@ == empty_row(),
{
    let row: [Option<Color>; GRID_WIDTH] = [None; GRID_WIDTH];
    assert(row@ =~= empty_row());
    row
}

impl Default for GameBoard {
    /// A board with every cell empty.
    fn default() -> (board: GameBoard)
        ensures
            board@ == empty_grid(),
    {
        let board = GameBoard { cells: [blank_row(); GRID_HEIGHT] };
        assert(board@ =~= empty_grid());
        board
    }
}

impl GameBoard {
    /// The view of a board always has the board's dimensions.
    pub proof fn lemma_view_wf(&self)
        ensures
            grid_wf(self@),
    {
    }

    /// `true` when cell (`x`, `y`) holds no color.
    pub fn is_empty(&self, x: usize, y: usize) -> (empty: bool)
        requires
            x < GRID_WIDTH,
            y < GRID_HEIGHT,
        ensures
            empty == (self@[y as int][x as int] is None),
    {
        self.cells[y][x].is_none()
    }

    /// Writes `color` into cell (`x`, `y`), whatever it held.
    pub fn set_cell(&mut self, x: usize, y: usize, color: Option<Color>)
        requires
            x < GRID_WIDTH,
            y < GRID_HEIGHT,
        ensures
            final(self)@ == cell_set(old(self)@, x as int, y as int, color),
    {
        self.cells[y][x] = color;
        assert(self@ =~~= cell_set(old(self)@, x as int, y as int, color));
    }

    /// Empties row `line`.
    pub fn clear_line(&mut self, line: usize)
        requires
            line < GRID_HEIGHT,
        ensures
            final(self)@ == line_cleared(old(self)@, line as int),
    {
        self.cells[line] = blank_row();
        assert(self@ =~~= line_cleared(old(self)@, line as int));
    }

    /// Copies each row from `from_line - 1` up to row 0 into the row below it,
    /// then empties row 0.
    pub fn shift_lines_down(&mut self, from_line: usize)
        requires
            from_line < GRID_HEIGHT,
        ensures
            final(self)@ == lines_shifted(old(self)@, from_line as int),
    {
        let mut y: usize = from_line;
        while y >= 1
            invariant
                y <= from_line < GRID_HEIGHT,
                forall|r: int| 0 <= r <= y ==> (#[trigger] self@[r]) == old(self)@[r],
                forall|r: int| y < r <= from_line ==> (#[trigger] self@[r]) == old(self)@[r - 1],
                forall|r: int|
                    from_line < r < GRID_HEIGHT ==> (#[trigger] self@[r]) == old(self)@[r],
            decreases y,
        {
            let ghost before = self@;
            self.cells[y] = self.cells[y - 1];
            assert(self@[y as int] == before[y - 1]);
            assert(forall|r: int|
                0 <= r < GRID_HEIGHT && r != y ==> (#[trigger] self@[r]) == before[r]);
            y = y - 1;
        }
        let ghost above = self@;
        self.cells[0] = blank_row();
        proof {
            let shifted = lines_shifted(old(self)@, from_line as int);
            assert forall|r: int| 0 <= r < GRID_HEIGHT implies self@[r] == shifted[r] by {
                if r > 0 {
                    assert(self@[r] == above[r]);
                }
            }
            assert(self@ =~= shifted);
        }
    }

    /// `true` when some row of the board is full.
    pub fn has_full_line(&self) -> (found: bool)
        ensures
            found == !no_full_row(self@),
    {
        let mut y: usize = 0;
        while y < GRID_HEIGHT
            invariant
                y <= GRID_HEIGHT,
                forall|r: int| 0 <= r < y ==> !row_full(#[trigger] self@[r]),
            decreases GRID_HEIGHT - y,
        {
            if self.is_line_full(y) {
                return true;
            }
            y = y + 1;
        }
        false
    }

    /// `true` when every cell of row `line` is occupied.
    pub fn is_line_full(&self, line: usize) -> (full: bool)
        requires
            line < GRID_HEIGHT,
        ensures
            full == row_full(self@[line as int]),
    {
        let mut x: usize = 0;
        while x < GRID_WIDTH
            invariant
                x <= GRID_WIDTH,
                line < GRID_HEIGHT,
                forall|c: int| 0 <= c < x ==> (#[trigger] self@[line as int][c]) is Some,
            decreases GRID_WIDTH - x,
        {
            if self.cells[line][x].is_none() {
                return false;
            }
            x = x + 1;
        }
        true
    }
}

} // verus!
