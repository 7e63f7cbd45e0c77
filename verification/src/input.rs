//! What the player asks for, and what becomes of it.
//!
//! The host decodes its input devices into [`Intents`], one set per tick.
//! Of the intents of one tick at most one is carried out, by this order:
//! pause, quit, restart, and then the moves of the piece in the order left,
//! right, soft drop, rotate, hard drop.

use vstd::prelude::*;
use crate::board::{empty_grid, GameBoard, Grid};
use crate::engine::{consistent, playable};
use crate::piece::ActivePiece;
use crate::state::{GameState, GameStateView};

verus! {

/// The intents of one tick: each flag says whether the player asked for it.
#[derive(Clone, Copy, PartialEq, Eq, Debug, Structural)]
pub struct Intents {
    pub move_left: bool,
    pub move_right: bool,
    pub soft_drop: bool,
    pub rotate: bool,
    pub hard_drop: bool,
    pub toggle_pause: bool,
    pub restart: bool,
    pub quit: bool,
}

/// The piece that the first move among the intents asks for, before it is
/// checked against the grid; `None` when the intents hold no move.
pub open spec fn candidate(piece: ActivePiece, intents: Intents, grid: Grid) -> Option<
    ActivePiece,
> {
    if intents.move_left {
        Some(piece.moved(-1, 0))
    } else if intents.move_right {
        Some(piece.moved(1, 0))
    } else if intents.soft_drop {
        Some(piece.moved(0, 1))
    } else if intents.rotate {
        Some(piece.turned())
    } else if intents.hard_drop {
        Some(piece.moved(0, piece.drop_distance(grid) as int))
    } else {
        None
    }
}

/// A move of the piece in play: the candidate replaces the piece if it does
/// not collide, and is dropped if it does. There is no partial move.
pub open spec fn move_step(state: GameStateView, grid: Grid, intents: Intents) -> GameStateView {
    match state.current_piece {
        Some(piece) => match candidate(piece, intents, grid) {
            Some(moved) => if moved.collides(0, 0, grid) {
                state
            } else {
                GameStateView { current_piece: Some(moved), ..state }
            },
            None => state,
        },
        None => state,
    }
}

/// The intents of one tick take the game from (`before`, `grid`) to
/// (`after`, `after_grid`); `quit` says whether the host is asked to end.
///
/// Pause toggles the pause flag unless the game is over. Else quit asks the
/// host to end. Else a game that is over takes only restart, which starts a
/// new game on an empty board, whose first piece spawns with the next tick;
/// a paused game takes nothing; and a running game takes one move.
pub open spec fn input_step(
    before: GameStateView,
    grid: Grid,
    intents: Intents,
    after: GameStateView,
    after_grid: Grid,
    quit: bool,
) -> bool {
    if intents.toggle_pause && !before.game_over {
        &&& after == (GameStateView { paused: !before.paused, ..before })
        &&& after_grid == grid
        &&& !quit
    } else if intents.quit {
        after == before && after_grid == grid && quit
    } else if before.game_over {
        if intents.restart {
            after.is_fresh() && after_grid == empty_grid() && !quit
        } else {
            after == before && after_grid == grid && !quit
        }
    } else if before.paused {
        after == before && after_grid == grid && !quit
    } else {
        after == move_step(before, grid, intents) && after_grid == grid && !quit
    }
}

impl Intents {
    /// No intent at all.
    pub fn none() -> (intents: Intents)
        ensures
            intents == (Intents {
                move_left: false,
                move_right: false,
                soft_drop: false,
                rotate: false,
                hard_drop: false,
                toggle_pause: false,
                restart: false,
                quit: false,
            }),
    {
        Intents {
            move_left: false,
            move_right: false,
            soft_drop: false,
            rotate: false,
            hard_drop: false,
            toggle_pause: false,
            restart: false,
            quit: false,
        }
    }
}

/// Carries out the intents of one tick and says whether the host is asked
/// to end.
pub fn handle_player_input(
    intents: Intents,
    game_state: &mut GameState,
    board: &mut GameBoard,
) -> (quit: bool)
    requires
        playable(old(game_state)@),
    ensures
        input_step(
            old(game_state)@,
            old(board)@,
            intents,
            final(game_state)@,
            final(board)@,
            quit,
        ),
        playable(final(game_state)@),
        consistent(old(game_state)@, old(board)@) ==> consistent(
            final(game_state)@,
            final(board)@,
        ),
{
    if intents.toggle_pause && !game_state.game_over {
        game_state.paused = !game_state.paused;
        return false;
    }
    if intents.quit {
        return true;
    }
    if game_state.game_over {
        if intents.restart {
            game_state.reset();
            *board = GameBoard::default();
        }
        return false;
    }
    if game_state.paused {
        return false;
    }
    if let Some(piece) = game_state.current_piece {
        proof {
            piece.lemma_fitting_bounds(empty_grid());
        }
        let moved: ActivePiece = if intents.move_left {
            ActivePiece { x: piece.x - 1, ..piece }
        } else if intents.move_right {
            ActivePiece { x: piece.x + 1, ..piece }
        } else if intents.soft_drop {
            ActivePiece { y: piece.y + 1, ..piece }
        } else if intents.rotate {
            ActivePiece { rotation: (piece.rotation % 4 + 1) % 4, ..piece }
        } else if intents.hard_drop {
            proof {
                piece.lemma_drop_distance(board@);
            }
            piece.hard_drop(board)
        } else {
            return false;
        };
        if !moved.check_collision(0, 0, board) {
            proof {
                moved.lemma_fitting_in_field(board@);
            }
            game_state.current_piece = Some(moved);
        }
    }
    false
}

} // verus!
