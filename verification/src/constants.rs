//! Sizes, timings and the score table. All of them are fixed at build time.

use vstd::prelude::*;

verus! {

/// Number of columns of the board.
pub const GRID_WIDTH: usize = 10;

/// Number of rows of the board. Row 0 is the top row.
pub const GRID_HEIGHT: usize = 20;

/// Time between two gravity steps, in nanoseconds.
pub const FALL_INTERVAL_NANOS: u64 = 800_000_000;

/// Time a grounded piece may still be moved before it locks, in nanoseconds.
pub const LOCK_DELAY_NANOS: u64 = 500_000_000;

/// Score for clearing one line in a tick.
pub const SCORE_1_LINE: u32 = 100;

/// Score for clearing two lines in a tick.
pub const SCORE_2_LINES: u32 = 300;

/// Score for clearing three lines in a tick.
pub const SCORE_3_LINES: u32 = 500;

/// Score for clearing four lines in a tick.
pub const SCORE_4_LINES: u32 = 800;

} // verus!
