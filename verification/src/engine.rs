//! The per-tick state machine: gravity, locking, line clearing and spawning.
//!
//! Each phase is described by a function on the views of the state and the
//! board, and carried out by an executable function whose contract is that
//! function.

use vstd::prelude::*;
use crate::bag::bag_draw;
use crate::board::{
    empty_grid, empty_rows, full_row_count, full_rows_removed, lemma_empty_grid,
    lemma_full_rows_removed, lemma_nothing_to_remove, no_full_row, not_full, GameBoard, Grid,
};
use crate::constants::{GRID_HEIGHT, GRID_WIDTH, LOCK_DELAY_NANOS, SCORE_4_LINES};
use crate::piece::ActivePiece;
use crate::state::{line_score, GameState, GameStateView};
use crate::timer::FallTimer;

verus! {

/// The piece in play, if there is one, lies within the field. No function
/// of the engine asks for more of the game it is given.
pub open spec fn playable(state: GameStateView) -> bool {
    state.current_piece matches Some(piece) ==> piece.in_field()
}

/// The state and the grid go together. While a piece is in play, none of
/// its cells is blocked, its anchor is in range, and no row of the grid is
/// full: rows fill up only when a piece locks, and are cleared before the
/// next one spawns. A game that starts like this stays like this.
pub open spec fn consistent(state: GameStateView, grid: Grid) -> bool {
    state.current_piece matches Some(piece) ==> {
        &&& piece.in_range()
        &&& !piece.collides(0, 0, grid)
        &&& no_full_row(grid)
    }
}

/// Gravity: when the fall timer has fired and the piece can go down, it goes
/// down by one row.
pub open spec fn fall_step(state: GameStateView, grid: Grid, fired: bool) -> GameStateView {
    match state.current_piece {
        Some(piece) => if fired && !piece.collides(0, 1, grid) {
            GameStateView { current_piece: Some(piece.moved(0, 1)), ..state }
        } else {
            state
        },
        None => state,
    }
}

/// There is a piece in play and it cannot go down.
pub open spec fn grounded(state: GameStateView, grid: Grid) -> bool {
    state.current_piece matches Some(piece) && piece.collides(0, 1, grid)
}

/// The time for which the piece has been grounded once `elapsed` more
/// nanoseconds have run.
pub open spec fn grounded_for(state: GameStateView, elapsed: int) -> int {
    match state.lock_timer {
        Some(so_far) => so_far + elapsed,
        None => elapsed,
    }
}

/// One of the first `count` cells of the piece lies at (`x`, `y`).
pub open spec fn covers_among(piece: ActivePiece, count: int, x: int, y: int) -> bool {
    ||| count > 0 && piece.cell(0) == (x, y)
    ||| count > 1 && piece.cell(1) == (x, y)
    ||| count > 2 && piece.cell(2) == (x, y)
    ||| count > 3 && piece.cell(3) == (x, y)
}

/// Some cell of the piece lies at (`x`, `y`).
pub open spec fn covers(piece: ActivePiece, x: int, y: int) -> bool {
    covers_among(piece, 4, x, y)
}

/// One of the first `count` cells of the piece lies above the grid.
pub open spec fn sticks_out_among(piece: ActivePiece, count: int) -> bool {
    ||| count > 0 && piece.cell(0).1 < 0
    ||| count > 1 && piece.cell(1).1 < 0
    ||| count > 2 && piece.cell(2).1 < 0
    ||| count > 3 && piece.cell(3).1 < 0
}

/// Some cell of the piece lies above the grid.
pub open spec fn sticks_out(piece: ActivePiece) -> bool {
    sticks_out_among(piece, 4)
}

/// The grid with the color of the piece written into every cell of the grid
/// that the piece covers.
pub open spec fn piece_locked(grid: Grid, piece: ActivePiece) -> Grid {
    Seq::new(
        GRID_HEIGHT as nat,
        |y: int|
            Seq::new(
                GRID_WIDTH as nat,
                |x: int|
                    if covers(piece, x, y) {
                        Some(piece.tetromino_type.spec_color())
                    } else {
                        grid[y][x]
                    },
            ),
    )
}

/// Locking. A piece that is not grounded resets the lock timer. A grounded
/// piece runs it; once it has run for the lock delay the piece is written
/// into the grid and leaves play, and the game is over if a cell of the
/// piece lies above the grid.
pub open spec fn lock_step(state: GameStateView, grid: Grid, elapsed: int) -> (
    GameStateView,
    Grid,
) {
    if !grounded(state, grid) {
        (GameStateView { lock_timer: None, ..state }, grid)
    } else if grounded_for(state, elapsed) < LOCK_DELAY_NANOS {
        (GameStateView { lock_timer: Some(grounded_for(state, elapsed) as u64), ..state }, grid)
    } else {
        let piece = state.current_piece->0;
        (
            GameStateView {
                current_piece: None,
                lock_timer: None,
                game_over: state.game_over || sticks_out(piece),
                ..state
            },
            piece_locked(grid, piece),
        )
    }
}

/// Line clearing: every full row leaves the grid, and the score grows by
/// what the number of rows cleared at once is worth.
pub open spec fn clear_step(state: GameStateView, grid: Grid) -> (GameStateView, Grid) {
    (
        GameStateView {
            score: (state.score + line_score(full_row_count(grid) as int)) as u32,
            ..state
        },
        full_rows_removed(grid),
    )
}

/// Spawning, from `before` to `after`. With a piece in play nothing
/// happens. Else the piece to come is put at the spawn anchor: if it
/// collides there the game is over and no piece is in play; if it fits it is
/// the piece in play, and the piece to come is drawn from the bag.
pub open spec fn spawn_step(before: GameStateView, grid: Grid, after: GameStateView) -> bool {
    let piece = ActivePiece::spawned(before.next_piece);
    if before.current_piece is Some {
        after == before
    } else if piece.collides(0, 0, grid) {
        after == (GameStateView { game_over: true, ..before })
    } else {
        &&& bag_draw(before.bag, after.next_piece, after.bag)
        &&& after == (GameStateView {
            current_piece: Some(piece),
            next_piece: after.next_piece,
            bag: after.bag,
            ..before
        })
    }
}

/// One tick of `elapsed` nanoseconds, from (`before`, `grid`, `timer`) to
/// (`after`, `after_grid`, `after_timer`). A game that is over or paused
/// stands still. Else gravity, locking, line clearing and spawning follow
/// one another; a lock that ends the game ends the tick.
pub open spec fn tick_step(
    before: GameStateView,
    grid: Grid,
    timer: FallTimer,
    elapsed: int,
    after: GameStateView,
    after_grid: Grid,
    after_timer: FallTimer,
) -> bool {
    if before.game_over || before.paused {
        after == before && after_grid == grid && after_timer == timer
    } else {
        let fallen = fall_step(before, grid, timer.fires(elapsed));
        let (locked, locked_grid) = lock_step(fallen, grid, elapsed);
        &&& after_timer == timer.advanced(elapsed)
        &&& if locked.game_over {
            after == locked && after_grid == locked_grid
        } else {
            let (cleared, cleared_grid) = clear_step(locked, locked_grid);
            after_grid == cleared_grid && spawn_step(cleared, cleared_grid, after)
        }
    }
}

/// The score that one tick of `elapsed` nanoseconds adds: what the rows that
/// are full after locking are worth, and nothing when the game stands
/// still or the lock ends it.
pub open spec fn tick_gain(state: GameStateView, grid: Grid, timer: FallTimer, elapsed: int) -> int {
    if state.game_over || state.paused {
        0
    } else {
        let fallen = fall_step(state, grid, timer.fires(elapsed));
        let (locked, locked_grid) = lock_step(fallen, grid, elapsed);
        if locked.game_over {
            0
        } else {
            line_score(full_row_count(locked_grid) as int)
        }
    }
}

/// No tick adds more than four lines are worth.
pub proof fn lemma_tick_gain_bound(state: GameStateView, grid: Grid, timer: FallTimer, elapsed: int)
    ensures
        0 <= tick_gain(state, grid, timer, elapsed) <= SCORE_4_LINES,
{
}

/// The first tick of a new game puts the first piece in play: on the empty
/// grid the piece to come enters at the spawn anchor, the game runs on, and
/// the grid stays empty.
pub proof fn lemma_first_tick_spawns(
    before: GameStateView,
    timer: FallTimer,
    elapsed: int,
    after: GameStateView,
    after_grid: Grid,
    after_timer: FallTimer,
)
    requires
        before.is_fresh(),
        tick_step(before, empty_grid(), timer, elapsed, after, after_grid, after_timer),
    ensures
        after.current_piece == Some(ActivePiece::spawned(before.next_piece)),
        !after.game_over,
        after.score == 0,
        after_grid == empty_grid(),
        consistent(after, after_grid),
{
    lemma_empty_grid();
    ActivePiece::lemma_spawn_fits_empty_board(before.next_piece);
}

/// A consistent game is playable.
pub proof fn lemma_consistent_is_playable(state: GameStateView, grid: Grid)
    requires
        consistent(state, grid),
    ensures
        playable(state),
{
    if let Some(piece) = state.current_piece {
        piece.lemma_fitting_in_field(grid);
    }
}

/// `true` when the piece in play, if there is one, lies within the field:
/// see [`playable`].
pub fn check_playable(game_state: &GameState) -> (ok: bool)
    ensures
        ok == playable(game_state@),
{
    match game_state.current_piece {
        Some(piece) => {
            let empty = GameBoard::default();
            piece.x >= i32::MIN + 3 && piece.x <= i32::MAX - 3 && piece.y >= i32::MIN + 3 && piece.y
                <= i32::MAX - 3 && !piece.check_collision(0, 0, &empty)
        },
        None => true,
    }
}

/// `true` when the state and the board go together: see [`consistent`].
pub fn check_consistent(game_state: &GameState, board: &GameBoard) -> (ok: bool)
    ensures
        ok == consistent(game_state@, board@),
{
    match game_state.current_piece {
        Some(piece) => {
            piece.x >= i32::MIN + 3 && piece.x <= i32::MAX - 3 && piece.y >= i32::MIN + 3 && piece.y
                <= i32::MAX - 3 && !piece.check_collision(0, 0, board) && !board.has_full_line()
        },
        None => true,
    }
}

/// Writes the color of the piece into every cell of the board that the
/// piece covers, and says whether a cell of the piece lies above the grid.
pub fn lock_piece(piece: &ActivePiece, board: &mut GameBoard) -> (above: bool)
    requires
        piece.in_field(),
    ensures
        final(board)@ == piece_locked(old(board)@, *piece),
        above == sticks_out(*piece),
{
    let color = piece.tetromino_type.color();
    let cells = piece.blocks();
    let mut above = false;
    let mut i: usize = 0;
    while i < 4
        invariant
            i <= 4,
            cells@.len() == 4,
            forall|j: int|
                0 <= j < 4 ==> (#[trigger] cells@[j]).0 == piece.cell(j).0 && cells@[j].1
                    == piece.cell(j).1,
            piece.in_field(),
            color == piece.tetromino_type.spec_color(),
            above == sticks_out_among(*piece, i as int),
            forall|x: int, y: int|
                0 <= x < GRID_WIDTH && 0 <= y < GRID_HEIGHT ==> #[trigger] board@[y][x] == (
                if covers_among(*piece, i as int, x, y) {
                    Some(color)
                } else {
                    old(board)@[y][x]
                }),
        decreases 4 - i,
    {
        let cell: (i32, i32) = cells[i];
        assert(cell.0 == piece.cell(i as int).0 && cell.1 == piece.cell(i as int).1);
        proof {
            piece.lemma_in_field_cells(i as int);
        }
        let ghost before = board@;
        if cell.1 < 0 {
            above = true;
        } else {
            board.set_cell(cell.0 as usize, cell.1 as usize, Some(color));
        }
        proof {
            let n = i as int;
            assert forall|x: int, y: int|
                0 <= x < GRID_WIDTH && 0 <= y < GRID_HEIGHT implies #[trigger] board@[y][x] == (
            if covers_among(*piece, n + 1, x, y) {
                Some(color)
            } else {
                old(board)@[y][x]
            }) by {
                assert(before[y][x] == (if covers_among(*piece, n, x, y) {
                    Some(color)
                } else {
                    old(board)@[y][x]
                }));
            }
        }
        i = i + 1;
    }
    assert(board@ =~~= piece_locked(old(board)@, *piece));
    above
}

/// Locking: a piece that cannot go down runs the lock timer by
/// `elapsed_nanos`, and locks into the board once the timer reaches the
/// lock delay; a piece that can go down resets the timer.
pub fn handle_lock(elapsed_nanos: u64, game_state: &mut GameState, board: &mut GameBoard)
    requires
        playable(old(game_state)@),
    ensures
        (final(game_state)@, final(board)@) == lock_step(
            old(game_state)@,
            old(board)@,
            elapsed_nanos as int,
        ),
        playable(final(game_state)@),
        consistent(old(game_state)@, old(board)@) ==> consistent(
            final(game_state)@,
            final(board)@,
        ),
{
    let is_grounded = match game_state.current_piece {
        Some(piece) => piece.check_collision(0, 1, board),
        None => false,
    };
    if is_grounded {
        let so_far: u64 = match game_state.lock_timer {
            Some(nanos) => nanos,
            None => 0,
        };
        let total: u128 = so_far as u128 + elapsed_nanos as u128;
        if total >= LOCK_DELAY_NANOS as u128 {
            if let Some(piece) = game_state.current_piece {
                game_state.current_piece = None;
                let above = lock_piece(&piece, board);
                if above {
                    game_state.game_over = true;
                }
            }
            game_state.lock_timer = None;
        } else {
            game_state.lock_timer = Some(total as u64);
        }
    } else {
        game_state.lock_timer = None;
    }
}

/// Line clearing: scans the rows from the bottom up; each full row is
/// cleared and everything above it shifted down, and the row that came down
/// is looked at in its turn. The lines cleared are scored together.
pub fn handle_clear_lines(game_state: &mut GameState, board: &mut GameBoard)
    requires
        old(game_state).score + line_score(full_row_count(old(board)@) as int) <= u32::MAX,
    ensures
        (final(game_state)@, final(board)@) == clear_step(old(game_state)@, old(board)@),
        no_full_row(old(board)@) ==> final(game_state)@ == old(game_state)@ && final(board)@
            == old(board)@,
        no_full_row(final(board)@),
        consistent(old(game_state)@, old(board)@) ==> consistent(
            final(game_state)@,
            final(board)@,
        ),
{
    let ghost start = board@;
    proof {
        old(board).lemma_view_wf();
        lemma_full_rows_removed(start);
        if no_full_row(start) {
            lemma_nothing_to_remove(start);
        }
    }
    let mut lines_cleared: u32 = 0;
    // Rows from `y` down are done; the top `lines_cleared` rows are empty.
    let mut y: usize = GRID_HEIGHT;
    assert(board@ =~= empty_rows(0) + start.take(GRID_HEIGHT as int) + start.skip(
        GRID_HEIGHT as int,
    ).filter(not_full())) by {
        reveal(Seq::filter);
    }
    while y > lines_cleared as usize
        invariant
            lines_cleared <= y <= GRID_HEIGHT,
            start.len() == GRID_HEIGHT,
            board@ == empty_rows(lines_cleared as nat) + start.take(y - lines_cleared)
                + start.skip(y - lines_cleared).filter(not_full()),
        decreases y - lines_cleared,
    {
        let ghost before = board@;
        let ghost left = y - lines_cleared;
        let ghost kept = start.skip(left).filter(not_full());
        proof {
            assert(before[y - 1] == start[left - 1]);
            assert(start.skip(left - 1) =~= seq![start[left - 1]] + start.skip(left));
            start.skip(left).lemma_filter_prepend(start[left - 1], not_full());
        }
        if board.is_line_full(y - 1) {
            board.clear_line(y - 1);
            lines_cleared = lines_cleared + 1;
            board.shift_lines_down(y - 1);
            proof {
                assert(start.skip(left - 1).filter(not_full()) =~= kept);
                assert(before.take(y - 1) =~= empty_rows((lines_cleared - 1) as nat) + start.take(
                    left - 1,
                ));
                assert(before.skip(y as int) =~= kept);
                assert(board@ =~= empty_rows(lines_cleared as nat) + start.take(left - 1) + kept);
            }
        } else {
            y = y - 1;
            proof {
                assert(start.skip(left - 1).filter(not_full()) =~= seq![start[left - 1]] + kept);
                assert(board@ =~= empty_rows(lines_cleared as nat) + start.take(left - 1)
                    + start.skip(left - 1).filter(not_full()));
            }
        }
    }
    proof {
        assert(start.skip(0) =~= start);
        assert(board@ =~= empty_rows(lines_cleared as nat) + start.filter(not_full()));
        assert(lines_cleared == full_row_count(start));
    }
    if lines_cleared > 0 {
        game_state.add_score(lines_cleared);
    }
}

/// Gravity: advances the fall timer by `elapsed_nanos` and, when it fires,
/// moves the piece down by one row if it is free to go.
pub fn handle_fall(
    elapsed_nanos: u64,
    timer: &mut FallTimer,
    game_state: &mut GameState,
    board: &GameBoard,
)
    requires
        playable(old(game_state)@),
    ensures
        *final(timer) == old(timer).advanced(elapsed_nanos as int),
        final(game_state)@ == fall_step(
            old(game_state)@,
            board@,
            old(timer).fires(elapsed_nanos as int),
        ),
        playable(final(game_state)@),
        consistent(old(game_state)@, board@) ==> consistent(final(game_state)@, board@),
{
    let fired = timer.tick(elapsed_nanos);
    if fired {
        if let Some(piece) = game_state.current_piece {
            if !piece.check_collision(0, 1, board) {
                proof {
                    piece.lemma_free_below(board@);
                    piece.lemma_moved_cells(0, 1);
                    piece.moved(0, 1).lemma_fitting_in_field(board@);
                }
                game_state.current_piece = Some(ActivePiece { y: piece.y + 1, ..piece });
            }
        }
    }
}

/// Spawning: when no piece is in play, the piece to come enters at the
/// spawn anchor and a new piece to come is drawn; if it collides there, the
/// game is over instead.
pub fn handle_spawn(game_state: &mut GameState, board: &GameBoard)
    ensures
        spawn_step(old(game_state)@, board@, final(game_state)@),
        playable(old(game_state)@) ==> playable(final(game_state)@),
        consistent(old(game_state)@, board@) && no_full_row(board@) ==> consistent(
            final(game_state)@,
            board@,
        ),
{
    if game_state.current_piece.is_none() {
        let new_piece = ActivePiece::new(game_state.next_piece);
        proof {
            ActivePiece::lemma_spawn_fits_empty_board(game_state.next_piece);
        }
        if new_piece.check_collision(0, 0, board) {
            game_state.game_over = true;
            return ;
        }
        game_state.current_piece = Some(new_piece);
        game_state.next_piece = game_state.next_from_bag();
    }
}

/// Advances the game by one tick of `elapsed_nanos` nanoseconds: gravity,
/// then locking, then line clearing, then spawning. Nothing moves while the
/// game is over or paused.
pub fn update_game_logic(
    elapsed_nanos: u64,
    timer: &mut FallTimer,
    game_state: &mut GameState,
    board: &mut GameBoard,
)
    requires
        playable(old(game_state)@),
        old(game_state).score + tick_gain(
            old(game_state)@,
            old(board)@,
            *old(timer),
            elapsed_nanos as int,
        ) <= u32::MAX,
    ensures
        tick_step(
            old(game_state)@,
            old(board)@,
            *old(timer),
            elapsed_nanos as int,
            final(game_state)@,
            final(board)@,
            *final(timer),
        ),
        playable(final(game_state)@),
        consistent(old(game_state)@, old(board)@) ==> consistent(
            final(game_state)@,
            final(board)@,
        ),
{
    if game_state.game_over || game_state.paused {
        return ;
    }
    handle_fall(elapsed_nanos, timer, game_state, board);
    handle_lock(elapsed_nanos, game_state, board);
    if game_state.game_over {
        return ;
    }
    handle_clear_lines(game_state, board);
    handle_spawn(game_state, board);
}

} // verus!
