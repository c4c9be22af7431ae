//! A 512-bit board for a tile-placement game on a 20 by 20 grid.
//!
//! The board is four 128-bit limbs. Bit `n` of the whole value is field
//! index `n`; a row of the grid takes 21 indices, 20 cells and one padding
//! position. Every operation states what it does to the set of fields
//! that the board holds.

pub mod adjacency;
pub mod bitboard;
pub mod direction;
pub mod fields;
pub mod laws;
pub mod limb;
pub mod ops;
pub mod placement;
pub mod tally;

pub use crate::bitboard::{
    valid_fields, Bitboard, VALID_FIELDS_A, VALID_FIELDS_B, VALID_FIELDS_C, VALID_FIELDS_D,
};
pub use crate::direction::{Direction, DIRECTIONS};
pub use crate::fields::{FIELD_COUNT, ROW_WIDTH};
pub use crate::placement::{
    blue_start_field, decode, red_start_field, BLUE_START, PIECE_SHAPES, RED_START, SHAPE_COUNT,
};
pub use crate::tally::Tally;
