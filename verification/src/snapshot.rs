//! What the presentation gets to see of a game: a copy, never the live
//! state.

use vstd::prelude::*;
use crate::board::GameBoard;
use crate::color::Color;
use crate::constants::{GRID_HEIGHT, GRID_WIDTH};
use crate::state::GameState;

verus! {

/// The state of a game at the end of a tick, for drawing.
pub struct Snapshot {
    /// The locked cells.
    pub board: GameBoard,
    /// The grid coordinates of the four cells of the piece in play; empty
    /// when no piece is in play. Cells above the grid are among them.
    pub active_cells: Vec<(i32, i32)>,
    /// The color of the piece in play, if there is one.
    pub active_color: Option<Color>,
    /// The four cell offsets of the unrotated piece to come.
    pub next_cells: Vec<(i32, i32)>,
    /// The color of the piece to come.
    pub next_color: Color,
    pub score: u32,
    pub paused: bool,
    pub game_over: bool,
}

/// (`x`, `y`) is a cell of the grid.
pub open spec fn spec_in_grid(x: int, y: int) -> bool {
    0 <= x < GRID_WIDTH && 0 <= y < GRID_HEIGHT
}

/// `true` when (`x`, `y`) is a cell of the grid, so that it can be drawn.
pub fn in_grid(x: i32, y: i32) -> (inside: bool)
    ensures
        inside == spec_in_grid(x as int, y as int),
{
    x >= 0 && x < GRID_WIDTH as i32 && y >= 0 && y < GRID_HEIGHT as i32
}

/// A copy of all that the presentation shows of the game.
pub fn snapshot(game_state: &GameState, board: &GameBoard) -> (shot: Snapshot)
    requires
        game_state.current_piece matches Some(piece) ==> piece.in_range(),
    ensures
        shot.board@ == board@,
        shot.score == game_state.score,
        shot.paused == game_state.paused,
        shot.game_over == game_state.game_over,
        shot.next_cells@ == game_state.next_piece.spec_shape(),
        shot.next_color == game_state.next_piece.spec_color(),
        match game_state.current_piece {
            Some(piece) => {
                &&& shot.active_color == Some(piece.tetromino_type.spec_color())
                &&& shot.active_cells@.len() == 4
                &&& forall|i: int|
                    0 <= i < 4 ==> (#[trigger] shot.active_cells@[i]).0 == piece.cell(i).0
                        && shot.active_cells@[i].1 == piece.cell(i).1
            },
            None => shot.active_color is None && shot.active_cells@.len() == 0,
        },
{
    let (active_cells, active_color) = match game_state.current_piece {
        Some(piece) => (piece.blocks(), Some(piece.tetromino_type.color())),
        None => (Vec::new(), None),
    };
    Snapshot {
        board: *board,
        active_cells,
        active_color,
        next_cells: game_state.next_piece.shape(),
        next_color: game_state.next_piece.color(),
        score: game_state.score,
        paused: game_state.paused,
        game_over: game_state.game_over,
    }
}

} // verus!
