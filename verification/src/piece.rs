//! The falling piece: where it is, which cells it covers, and whether a
//! position is blocked.

use vstd::prelude::*;
use crate::board::{empty_grid, GameBoard, Grid};
use crate::constants::{GRID_HEIGHT, GRID_WIDTH};
use crate::tetromino::{rotated, TetrominoType};

verus! {

/// A piece in play. (`x`, `y`) is its anchor in grid coordinates, `y` growing
/// downward; `rotation` counts clockwise quarter turns, and only its value
/// modulo 4 matters.
#[derive(Clone, Copy, PartialEq, Eq, Debug, Structural)]
pub struct ActivePiece {
    pub tetromino_type: TetrominoType,
    pub x: i32,
    pub y: i32,
    pub rotation: u8,
}

/// A piece may not have a cell at (`x`, `y`): the cell lies left or right of
/// the grid, or below it, or is a cell of the grid that is occupied. Cells
/// above the grid are free.
pub open spec fn cell_blocked(grid: Grid, x: int, y: int) -> bool {
    ||| x < 0
    ||| x >= GRID_WIDTH
    ||| y >= GRID_HEIGHT
    ||| (y >= 0 && grid[y][x] is Some)
}

impl ActivePiece {
    /// The piece of type `t` at the spawn anchor, unrotated: two columns
    /// left of the middle of the top row.
    pub open spec fn spawned(t: TetrominoType) -> ActivePiece {
        ActivePiece { tetromino_type: t, x: (GRID_WIDTH / 2 - 2) as i32, y: 0, rotation: 0 }
    }

    /// The anchor is far enough from the limits of `i32` for every cell of
    /// the piece to have `i32` coordinates.
    pub open spec fn in_range(self) -> bool {
        &&& i32::MIN + 3 <= self.x <= i32::MAX - 3
        &&& i32::MIN + 3 <= self.y <= i32::MAX - 3
    }

    /// The piece lies within the field: its anchor is in range, and none of
    /// its cells lies left of, right of or below the grid. Cells above the
    /// grid are within the field.
    pub open spec fn in_field(self) -> bool {
        self.in_range() && !self.collides(0, 0, empty_grid())
    }

    /// Cell `i` of the shape, rotated, relative to the anchor.
    pub open spec fn offset(self, i: int) -> (int, int) {
        let base = self.tetromino_type.spec_shape()[i];
        rotated(self.rotation as int, (base.0 as int, base.1 as int))
    }

    /// The grid coordinates of cell `i` of the piece.
    pub open spec fn cell(self, i: int) -> (int, int) {
        (self.x + self.offset(i).0, self.y + self.offset(i).1)
    }

    /// Moved by (`dx`, `dy`), some cell of the piece would be blocked.
    pub open spec fn collides(self, dx: int, dy: int, grid: Grid) -> bool {
        ||| cell_blocked(grid, self.cell(0).0 + dx, self.cell(0).1 + dy)
        ||| cell_blocked(grid, self.cell(1).0 + dx, self.cell(1).1 + dy)
        ||| cell_blocked(grid, self.cell(2).0 + dx, self.cell(2).1 + dy)
        ||| cell_blocked(grid, self.cell(3).0 + dx, self.cell(3).1 + dy)
    }

    /// The piece with its anchor moved by (`dx`, `dy`).
    pub open spec fn moved(self, dx: int, dy: int) -> ActivePiece {
        ActivePiece { x: (self.x + dx) as i32, y: (self.y + dy) as i32, ..self }
    }

    /// The piece turned clockwise by one more quarter turn.
    pub open spec fn turned(self) -> ActivePiece {
        ActivePiece { rotation: ((self.rotation % 4 + 1) % 4) as u8, ..self }
    }

    /// How many rows the piece can go straight down before the next step
    /// would collide.
    pub open spec fn drop_distance(self, grid: Grid) -> nat
        decreases GRID_HEIGHT + 3 - self.y,
    {
        if self.collides(0, 1, grid) {
            0
        } else {
            proof {
                self.lemma_free_below(grid);
            }
            1 + self.moved(0, 1).drop_distance(grid)
        }
    }

    /// A piece that can go down by one row has its anchor above row
    /// `GRID_HEIGHT + 2`.
    pub proof fn lemma_free_below(self, grid: Grid)
        requires
            !self.collides(0, 1, grid),
        ensures
            self.y < GRID_HEIGHT + 2,
            self.moved(0, 1).y == self.y + 1,
    {
        self.lemma_offset_bounds(0);
        assert(!cell_blocked(grid, self.cell(0).0, self.cell(0).1 + 1));
    }

    /// A piece none of whose cells is blocked lies within reach of the
    /// grid: its anchor is at most three columns outside it and above row
    /// `GRID_HEIGHT + 3`.
    pub proof fn lemma_fitting_bounds(self, grid: Grid)
        requires
            !self.collides(0, 0, grid),
        ensures
            -3 <= self.x < GRID_WIDTH + 3,
            self.y < GRID_HEIGHT + 3,
    {
        self.lemma_offset_bounds(0);
        assert(!cell_blocked(grid, self.cell(0).0, self.cell(0).1));
    }

    /// A piece none of whose cells is blocked on some grid has no cell left
    /// of, right of or below the grid.
    pub proof fn lemma_fitting_in_field(self, grid: Grid)
        requires
            self.in_range(),
            !self.collides(0, 0, grid),
        ensures
            self.in_field(),
    {
    }

    /// The cells of a piece within the field that are not above the grid
    /// are cells of the grid.
    pub proof fn lemma_in_field_cells(self, i: int)
        requires
            self.in_field(),
            0 <= i < 4,
        ensures
            0 <= self.cell(i).0 < GRID_WIDTH,
            self.cell(i).1 < GRID_HEIGHT,
    {
    }

    /// Moving the anchor moves every cell by as much, as long as the anchor
    /// stays an `i32`.
    pub proof fn lemma_moved_cells(self, dx: int, dy: int)
        requires
            i32::MIN <= self.x + dx <= i32::MAX,
            i32::MIN <= self.y + dy <= i32::MAX,
        ensures
            forall|i: int|
                0 <= i < 4 ==> (#[trigger] self.moved(dx, dy).cell(i)) == (
                    self.cell(i).0 + dx,
                    self.cell(i).1 + dy,
                ),
            forall|grid: Grid, ex: int, ey: int|
                #[trigger] self.moved(dx, dy).collides(ex, ey, grid) == self.collides(
                    dx + ex,
                    dy + ey,
                    grid,
                ),
    {
        let m = self.moved(dx, dy);
        assert forall|i: int| 0 <= i < 4 implies (#[trigger] m.cell(i)) == (
            self.cell(i).0 + dx,
            self.cell(i).1 + dy,
        ) by {
            assert(m.offset(i) == self.offset(i));
        }
    }

    /// The drop distance is the first depth at which the piece is grounded:
    /// there the next step down collides, and at no depth before it.
    pub proof fn lemma_drop_distance(self, grid: Grid)
        ensures
            self.y + self.drop_distance(grid) <= i32::MAX,
            self.moved(0, self.drop_distance(grid) as int).collides(0, 1, grid),
            forall|k: int|
                0 <= k < self.drop_distance(grid) ==> !(#[trigger] self.moved(0, k)).collides(
                    0,
                    1,
                    grid,
                ),
        decreases GRID_HEIGHT + 3 - self.y,
    {
        if self.collides(0, 1, grid) {
            assert(self.moved(0, 0) == self);
        } else {
            self.lemma_free_below(grid);
            let next = self.moved(0, 1);
            next.lemma_drop_distance(grid);
            let d = next.drop_distance(grid) as int;
            assert(next.moved(0, d) == self.moved(0, d + 1));
            assert forall|k: int| 0 <= k < d + 1 implies !(#[trigger] self.moved(0, k)).collides(
                0,
                1,
                grid,
            ) by {
                if k == 0 {
                    assert(self.moved(0, 0) == self);
                } else {
                    assert(next.moved(0, k - 1) == self.moved(0, k));
                }
            }
        }
    }

    /// No other depth than the drop distance has the piece grounded with
    /// nothing in its way down to it.
    pub proof fn lemma_drop_distance_unique(self, grid: Grid, depth: int)
        requires
            0 <= depth,
            self.moved(0, depth).collides(0, 1, grid),
            forall|k: int| 0 <= k < depth ==> !(#[trigger] self.moved(0, k)).collides(0, 1, grid),
        ensures
            self.drop_distance(grid) == depth,
    {
        self.lemma_drop_distance(grid);
        let found = self.drop_distance(grid) as int;
        if found < depth {
            assert(!self.moved(0, found).collides(0, 1, grid));
        } else if depth < found {
            assert(!self.moved(0, depth).collides(0, 1, grid));
        }
    }

    /// On the empty board a hard drop ends on the bottom row: the dropped
    /// piece lies within the field, and its lowest cell in the last row.
    pub proof fn lemma_hard_drop_on_empty_board(self)
        requires
            self.in_field(),
        ensures
            ({
                let dropped = self.moved(0, self.drop_distance(empty_grid()) as int);
                &&& dropped.in_field()
                &&& dropped.cell(0).1 == GRID_HEIGHT - 1 || dropped.cell(1).1 == GRID_HEIGHT - 1
                    || dropped.cell(2).1 == GRID_HEIGHT - 1 || dropped.cell(3).1 == GRID_HEIGHT
                    - 1
            }),
    {
        let depth = self.drop_distance(empty_grid()) as int;
        let dropped = self.moved(0, depth);
        self.lemma_drop_distance(empty_grid());
        self.lemma_fitting_bounds(empty_grid());
        self.lemma_moved_cells(0, depth);
        if depth == 0 {
            assert(dropped == self);
        } else {
            let above = self.moved(0, depth - 1);
            self.lemma_moved_cells(0, depth - 1);
            assert(!above.collides(0, 1, empty_grid()));
        }
    }

    /// Every rotated offset lies between -3 and 3.
    pub proof fn lemma_offset_bounds(self, i: int)
        requires
            0 <= i < 4,
        ensures
            -3 <= self.offset(i).0 <= 3,
            -3 <= self.offset(i).1 <= 3,
    {
        self.tetromino_type.lemma_shape_bounds();
    }

    /// A piece with a cell left of, right of or below the grid collides.
    pub proof fn lemma_outside_collides(self, grid: Grid, i: int)
        requires
            0 <= i < 4,
            self.cell(i).0 < 0 || self.cell(i).0 >= GRID_WIDTH || self.cell(i).1 >= GRID_HEIGHT,
        ensures
            self.collides(0, 0, grid),
    {
    }

    /// A piece with a cell on an occupied cell of the grid collides.
    pub proof fn lemma_occupied_collides(self, grid: Grid, i: int)
        requires
            0 <= i < 4,
            0 <= self.cell(i).0 < GRID_WIDTH,
            0 <= self.cell(i).1 < GRID_HEIGHT,
            grid[self.cell(i).1][self.cell(i).0] is Some,
        ensures
            self.collides(0, 0, grid),
    {
    }

    /// A freshly spawned piece of any type fits on the empty board.
    pub proof fn lemma_spawn_fits_empty_board(t: TetrominoType)
        ensures
            !Self::spawned(t).collides(0, 0, empty_grid()),
    {
        let piece = Self::spawned(t);
        assert forall|i: int| 0 <= i < 4 implies !cell_blocked(
            empty_grid(),
            (#[trigger] piece.cell(i)).0,
            piece.cell(i).1,
        ) by {
            t.lemma_shape_bounds();
            let c = piece.cell(i);
            assert(3 <= c.0 <= 6);
            assert(0 <= c.1 <= 3);
            assert(empty_grid()[c.1][c.0] is None);
        }
        assert(!cell_blocked(empty_grid(), piece.cell(0).0, piece.cell(0).1));
    }

    /// A piece of the given type at the spawn anchor: in column
    /// `GRID_WIDTH / 2 - 2` of row 0, unrotated.
    pub fn new(tetromino_type: TetrominoType) -> (piece: ActivePiece)
        ensures
            piece == Self::spawned(tetromino_type),
    {
        ActivePiece { tetromino_type, x: (GRID_WIDTH as i32) / 2 - 2, y: 0, rotation: 0 }
    }

    /// The offset (`x`, `y`) turned by the piece's rotation.
    pub fn rotate_point(&self, x: i32, y: i32) -> (p: (i32, i32))
        requires
            x > i32::MIN,
            y > i32::MIN,
        ensures
            (p.0 as int, p.1 as int) == rotated(self.rotation as int, (x as int, y as int)),
    {
        let turns: u8 = self.rotation % 4;
        if turns == 0 {
            (x, y)
        } else if turns == 1 {
            (-y, x)
        } else if turns == 2 {
            (-x, -y)
        } else {
            (y, -x)
        }
    }

    /// The grid coordinates of the four cells of the piece.
    pub fn blocks(&self) -> (cells: Vec<(i32, i32)>)
        requires
            self.in_range(),
        ensures
            cells@.len() == 4,
            forall|i: int|
                0 <= i < 4 ==> (#[trigger] cells@[i]).0 == self.cell(i).0 && cells@[i].1
                    == self.cell(i).1,
    {
        let shape = self.tetromino_type.shape();
        let mut cells: Vec<(i32, i32)> = Vec::new();
        let mut i: usize = 0;
        while i < 4
            invariant
                i <= 4,
                self.in_range(),
                shape@ == self.tetromino_type.spec_shape(),
                cells@.len() == i,
                forall|j: int|
                    0 <= j < i ==> (#[trigger] cells@[j]).0 == self.cell(j).0 && cells@[j].1
                        == self.cell(j).1,
            decreases 4 - i,
        {
            proof {
                self.tetromino_type.lemma_shape_bounds();
                self.lemma_offset_bounds(i as int);
            }
            let base: (i32, i32) = shape[i];
            let turned: (i32, i32) = self.rotate_point(base.0, base.1);
            cells.push((self.x + turned.0, self.y + turned.1));
            i = i + 1;
        }
        cells
    }

    /// The piece dropped straight down as far as it goes: one row at a time
    /// until the next step would collide.
    pub fn hard_drop(&self, board: &GameBoard) -> (dropped: ActivePiece)
        ensures
            dropped == self.moved(0, self.drop_distance(board@) as int),
            dropped.collides(0, 1, board@),
            forall|k: int|
                0 <= k < self.drop_distance(board@) ==> !(#[trigger] self.moved(0, k)).collides(
                    0,
                    1,
                    board@,
                ),
    {
        proof {
            self.lemma_drop_distance(board@);
        }
        let mut dropped: ActivePiece = *self;
        let ghost mut depth: int = 0;
        assert(self.moved(0, 0) == *self);
        while !dropped.check_collision(0, 1, board)
            invariant
                depth >= 0,
                dropped == self.moved(0, depth),
                dropped.y == self.y + depth,
                self.drop_distance(board@) == depth + dropped.drop_distance(board@),
            decreases GRID_HEIGHT + 3 - dropped.y,
        {
            proof {
                dropped.lemma_free_below(board@);
                assert(dropped.moved(0, 1) == self.moved(0, depth + 1));
                depth = depth + 1;
            }
            dropped = ActivePiece { y: dropped.y + 1, ..dropped };
        }
        dropped
    }

    /// `true` when the piece, moved by (`dx`, `dy`) with its rotation kept,
    /// would have a cell left of, right of or below the grid, or on an
    /// occupied cell of the board.
    pub fn check_collision(&self, dx: i32, dy: i32, board: &GameBoard) -> (blocked: bool)
        ensures
            blocked == self.collides(dx as int, dy as int, board@),
    {
        let shape = self.tetromino_type.shape();
        let mut i: usize = 0;
        while i < 4
            invariant
                i <= 4,
                shape@ == self.tetromino_type.spec_shape(),
                forall|j: int|
                    0 <= j < i ==> !cell_blocked(
                        board@,
                        (#[trigger] self.cell(j)).0 + dx,
                        self.cell(j).1 + dy,
                    ),
            decreases 4 - i,
        {
            proof {
                self.tetromino_type.lemma_shape_bounds();
                self.lemma_offset_bounds(i as int);
            }
            let base: (i32, i32) = shape[i];
            let turned: (i32, i32) = self.rotate_point(base.0, base.1);
            let new_x: i64 = self.x as i64 + turned.0 as i64 + dx as i64;
            let new_y: i64 = self.y as i64 + turned.1 as i64 + dy as i64;
            assert(new_x == self.cell(i as int).0 + dx);
            assert(new_y == self.cell(i as int).1 + dy);
            if new_x < 0 || new_x >= GRID_WIDTH as i64 {
                return true;
            }
            if new_y >= GRID_HEIGHT as i64 {
                return true;
            }
            if new_y >= 0 && !board.is_empty(new_x as usize, new_y as usize) {
                return true;
            }
            i = i + 1;
        }
        false
    }
}

} // verus!
