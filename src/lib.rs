//! Layout of an 8 by 8 chess board drawn in a resizable window.
//!
//! The board is a fixed list of cells, each with a grid coordinate, a size
//! factor and a tone. On every frame each cell's on-screen size and centre are
//! recomputed from the window's dimensions. All screen quantities are exact
//! fixed-point integers (see [`layout::SUBPIXELS_PER_PIXEL`]).

mod board;
mod layout;

pub use board::{
    cell_tone, lemma_tone_alternates, spawn_board, spawned_cell, tone_for, Cell, Extent, Position, Size, Tone,
    Translation, CELL_FACTOR, DESK_HEIGHT, DESK_WIDTH, INITIAL_SIDE,
};
pub use layout::{
    all_on_board, cell_extent, cell_extent_spec, cell_translation, cell_translation_spec,
    center_offset, convert, extent_of, horizontal_of, lemma_extent_depends_on_side,
    lemma_extent_proportional, lemma_position_translation_deterministic,
    lemma_position_translation_idempotent, lemma_size_scaling_idempotent, position_translation,
    scaled, side_of, size_scaling, square_side, translated, vertical_of, Window,
    SUBPIXELS_PER_PIXEL,
};
