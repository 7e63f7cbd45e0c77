//! The state of a game besides the board: the piece in play, the piece to
//! come, the score, the flags, the lock timer and the bag.

use vstd::prelude::*;
use crate::bag::{bag_draw, is_full_bag, Bag};
use crate::constants::{SCORE_1_LINE, SCORE_2_LINES, SCORE_3_LINES, SCORE_4_LINES};
use crate::piece::ActivePiece;
use crate::tetromino::TetrominoType;

verus! {

/// The score for clearing `lines` lines in one tick.
pub open spec fn line_score(lines: int) -> int {
    if lines == 1 {
        SCORE_1_LINE as int
    } else if lines == 2 {
        SCORE_2_LINES as int
    } else if lines == 3 {
        SCORE_3_LINES as int
    } else if lines == 4 {
        SCORE_4_LINES as int
    } else {
        0
    }
}

/// A game state as contracts see it: the fields of [`GameState`], with the
/// bag as the sequence of its pending pieces.
pub struct GameStateView {
    pub current_piece: Option<ActivePiece>,
    pub next_piece: TetrominoType,
    pub score: u32,
    pub game_over: bool,
    pub paused: bool,
    pub lock_timer: Option<u64>,
    pub bag: Seq<TetrominoType>,
}

impl GameStateView {
    /// No piece in play, no score, running, with nothing left of the bag that
    /// `next_piece` was drawn from but the other six types.
    pub open spec fn is_fresh(self) -> bool {
        &&& self.current_piece is None
        &&& self.score == 0
        &&& !self.game_over
        &&& !self.paused
        &&& self.lock_timer is None
        &&& is_full_bag(self.bag.push(self.next_piece))
    }
}

/// The state of a game besides the board.
pub struct GameState {
    /// The falling piece, if there is one.
    pub current_piece: Option<ActivePiece>,
    /// The type of the piece that spawns next.
    pub next_piece: TetrominoType,
    pub score: u32,
    pub game_over: bool,
    pub paused: bool,
    /// Nanoseconds for which the piece has been grounded; `None` while it is
    /// not.
    pub lock_timer: Option<u64>,
    /// The pieces still to come after `next_piece`, up to the next refill.
    pub bag: Bag,
}

impl View for GameState {
    type V = GameStateView;

    open spec fn view(&self) -> GameStateView {
        GameStateView {
            current_piece: self.current_piece,
            next_piece: self.next_piece,
            score: self.score,
            game_over: self.game_over,
            paused: self.paused,
            lock_timer: self.lock_timer,
            bag: self.bag@,
        }
    }
}

impl Default for GameState {
    /// The state at the start of a game. The first piece to come is already
    /// drawn.
    fn default() -> (state: GameState)
        ensures
            state@.is_fresh(),
    {
        let mut bag = Bag::new();
        let next_piece = bag.draw();
        GameState {
            current_piece: None,
            next_piece,
            score: 0,
            game_over: false,
            paused: false,
            lock_timer: None,
            bag,
        }
    }
}

impl GameState {
    /// Puts the state back to the start of a game: no piece in play, no
    /// score, running, a new bag, and the first piece to come drawn from it.
    pub fn reset(&mut self)
        ensures
            final(self)@.is_fresh(),
    {
        self.score = 0;
        self.game_over = false;
        self.paused = false;
        self.current_piece = None;
        self.lock_timer = None;
        self.bag = Bag::new();
        self.next_piece = self.next_from_bag();
    }

    /// Draws the next piece from the bag. An empty bag is first refilled with
    /// one of each type in random order.
    pub fn next_from_bag(&mut self) -> (drawn: TetrominoType)
        ensures
            bag_draw(old(self)@.bag, drawn, final(self)@.bag),
            final(self)@ == (GameStateView { bag: final(self)@.bag, ..old(self)@ }),
    {
        self.bag.draw()
    }

    /// Adds the score for `lines_cleared` lines cleared in one tick.
    pub fn add_score(&mut self, lines_cleared: u32)
        requires
            old(self).score + line_score(lines_cleared as int) <= u32::MAX,
        ensures
            final(self)@ == (GameStateView {
                score: (old(self).score + line_score(lines_cleared as int)) as u32,
                ..old(self)@
            }),
    {
        let gained: u32 = match lines_cleared {
            1 => SCORE_1_LINE,
            2 => SCORE_2_LINES,
            3 => SCORE_3_LINES,
            4 => SCORE_4_LINES,
            _ => 0,
        };
        self.score = self.score + gained;
    }
}

} // verus!
