//! Core rules of a falling-block puzzle game: piece geometry, Super Rotation
//! System kick tables, the playing field with line clears and gravity
//! compaction, a seven-bag piece sequencer, and the turn-by-turn game state
//! machine.  All game logic is verified; the host supplies input events and
//! renders from the read accessors.

mod cells;
mod field;
mod mino;
mod game;
mod rng;
mod rotation;
mod srs;

pub use game::{
    bag_ok, full_bag, lemma_bag_fairness, lemma_bag_values, lemma_o_piece_rotation_noop, mino_src,
    spec_absolute_rotation_state, spec_action_post, spec_clear_row, spec_drop_y, spec_erase_grid,
    spec_erase_post, spec_freefall_post, spec_kick_fits, spec_kicked, spec_kind_of_index,
    spec_land_post, spec_lock_post, spec_mino_in_display, spec_minos_src, spec_move_post,
    spec_piece_row, spec_rotate_post, spec_score_after, spec_score_zero, spec_set_cell,
    spec_set_cells, spec_step_post, AbsoluteRotation, Event, Game, GameEvent, Score, TestEvent,
};

pub use cells::{
    cell_table, lemma_cells_bounds, lemma_cells_y_monotone, lemma_o_cells_identical, spec_cells,
    Cell,
};
pub use srs::{
    kick_table, lemma_kick_table_free_first, spec_kick_table, Left, MinoFn, Right, RotatedMino,
    SrsOffset, SrsOffsetExe,
};
pub use mino::{
    lemma_free_placement_in_window, spec_abs_cells, spec_cells_at, spec_form_of, spec_hits,
    spec_hits_at, spec_pos_in_window, withCell, IsState, MinoCore, MinoForm, MinoKind, MinoState,
    NewWith, Position, Rotatable,
};
pub use rotation::{
    lemma_rotation_cycle, spec_left_state, spec_right_state, Rotation, RotationState,
};
pub use field::{
    empty_grid, float_grid, float_stop, lemma_float_empty_above, lemma_row_count_all_false,
    lemma_row_count_bounds, lemma_row_count_update, row_count, Field,
};

use vstd::prelude::*;

verus! {

/// Width of the playing field in cells.
pub const FIELD_W: usize = 10;

/// Height of the visible part of the field.
pub const DISPLAY_FIELD_H: usize = 20;

/// Total height: the visible rows plus two hidden buffer rows above them.
/// Row 0 is rotation space, row 1 is the spawn row, row 2 is the top of the
/// visible area.  Row indices grow downward; gravity pulls toward higher y.
pub const FIELD_H: usize = DISPLAY_FIELD_H + 2;

/// Row index of the top of the visible area.
pub const FIELD_TOP: i8 = 2;

/// Column where a freshly spawned piece's pivot is placed.
pub const MINO_FIRST_X: i8 = 4;

/// Row where a freshly spawned piece's pivot is placed.
pub const MINO_FIRST_Y: i8 = 1;

/// How many ticks a touched-down piece may wait before it locks on its own.
pub const LOCKING_TIME: u8 = 2;

/// How many steps the engine waits after a lock before clearing rows and
/// spawning the next piece.
pub const LOCKING_WAIT_TIME: u8 = 2;

} // verus!
