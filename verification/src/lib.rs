//! The rules of a falling-block puzzle: the board, the seven tetrominoes,
//! the falling piece, the 7-bag piece supply and the per-tick state machine.
//!
//! The host owns a [`GameBoard`], a [`GameState`] and a [`FallTimer`]. Once
//! per frame it hands the player's [`Intents`] to [`handle_player_input`]
//! and the time that has passed to [`update_game_logic`], and draws what
//! [`snapshot`] returns.

pub mod constants;
pub mod color;
pub mod random;
pub mod board;
pub mod tetromino;
pub mod piece;
pub mod bag;
pub mod timer;
pub mod state;
pub mod engine;
pub mod input;
pub mod snapshot;

pub use crate::bag::{shuffled_types, Bag};
pub use crate::board::GameBoard;
pub use crate::color::Color;
pub use crate::constants::{
    FALL_INTERVAL_NANOS, GRID_HEIGHT, GRID_WIDTH, LOCK_DELAY_NANOS, SCORE_1_LINE, SCORE_2_LINES,
    SCORE_3_LINES, SCORE_4_LINES,
};
pub use crate::engine::{
    check_consistent, check_playable, handle_clear_lines, handle_fall, handle_lock, handle_spawn,
    lock_piece, update_game_logic,
};
pub use crate::input::{handle_player_input, Intents};
pub use crate::piece::ActivePiece;
pub use crate::snapshot::{in_grid, snapshot, Snapshot};
pub use crate::state::GameState;
pub use crate::tetromino::TetrominoType;
pub use crate::timer::FallTimer;
