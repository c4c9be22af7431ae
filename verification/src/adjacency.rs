//! Adjacency on the board: the neighbours of a set of fields.
//!
//! A row is 21 field indices wide, so the fields next to field `i` are
//! `i + 1` and `i - 1` in its row, and `i + 21` and `i - 21` in its
//! column. The padding position at the end of each row is not playable,
//! which is why masking with the playable cells removes what a shift
//! carried from one row into the next.

use crate::bitboard::{lemma_valid_fields, valid_fields, Bitboard};
use crate::direction::Direction;
use crate::fields::{diagonal_fields, neighbour_fields, shifted, ROW_WIDTH};
use vstd::prelude::*;

verus! {

impl Bitboard {
    /// The four shifts by one step in a row or a column, joined and
    /// masked with the playable cells.
    pub open spec fn spec_neighbours(&self) -> Bitboard {
        ((*self << 1u8) | (*self >> 1u8) | (*self >> 21u8) | (*self << 21u8)) & valid_fields()
    }

    /// The four shifts by one diagonal step, joined and masked with the
    /// playable cells.
    pub open spec fn spec_diagonal_neighbours(&self) -> Bitboard {
        ((*self << 22u8) | (*self >> 22u8) | (*self >> 20u8) | (*self << 20u8)) & valid_fields()
    }

    /// The one shift that belongs to the direction `d`, not masked.
    pub open spec fn spec_neighbours_in_direction(&self, d: Direction) -> Bitboard {
        match d {
            Direction::LEFT => *self << 1u8,
            Direction::RIGHT => *self >> 1u8,
            Direction::UP => *self << 21u8,
            Direction::DOWN => *self >> 21u8,
        }
    }

    /// `neighbours` holds the playable fields next to a field of the
    /// board in a row or a column.
    pub proof fn lemma_neighbours_view(self)
        ensures
            self.neighbours()@ == neighbour_fields(self@),
    {
        let l = self << 1u8;
        let r = self >> 1u8;
        let d = self >> 21u8;
        let u = self << 21u8;
        self.lemma_shl_view(1);
        self.lemma_shr_view(1);
        self.lemma_shr_view(21);
        self.lemma_shl_view(21);
        l.lemma_or_view(r);
        (l | r).lemma_or_view(d);
        (l | r | d).lemma_or_view(u);
        (l | r | d | u).lemma_and_view(valid_fields());
        lemma_valid_fields();
    }

    /// `diagonal_neighbours` holds the playable fields diagonally next to
    /// a field of the board.
    pub proof fn lemma_diagonal_neighbours_view(self)
        ensures
            self.diagonal_neighbours()@ == diagonal_fields(self@),
    {
        let a = self << 22u8;
        let b = self >> 22u8;
        let c = self >> 20u8;
        let d = self << 20u8;
        self.lemma_shl_view(22);
        self.lemma_shr_view(22);
        self.lemma_shr_view(20);
        self.lemma_shl_view(20);
        a.lemma_or_view(b);
        (a | b).lemma_or_view(c);
        (a | b | c).lemma_or_view(d);
        (a | b | c | d).lemma_and_view(valid_fields());
        lemma_valid_fields();
    }

    /// `neighbours_in_direction` moves every field by the direction's
    /// offset.
    pub proof fn lemma_neighbours_in_direction_view(self, d: Direction)
        ensures
            self.neighbours_in_direction(d)@ == shifted(self@, d.offset()),
    {
        self.lemma_shl_view(1);
        self.lemma_shr_view(1);
        self.lemma_shr_view(21);
        self.lemma_shl_view(21);
    }

    /// Every playable field that is next to a field of the board in its
    /// row or its column. Fields of the board itself are in the result
    /// where they are next to another field of the board.
    #[verifier::when_used_as_spec(spec_neighbours)]
    pub fn neighbours(&self) -> (r: Bitboard)
        ensures
            r == self.spec_neighbours(),
            r@ == neighbour_fields(self@),
    {
        proof {
            self.lemma_neighbours_view();
        }
        ((*self << 1) | (*self >> 1) | (*self >> ROW_WIDTH) | (*self << ROW_WIDTH))
            & valid_fields()
    }

    /// Every playable field that is diagonally next to a field of the
    /// board.
    #[verifier::when_used_as_spec(spec_diagonal_neighbours)]
    pub fn diagonal_neighbours(&self) -> (r: Bitboard)
        ensures
            r == self.spec_diagonal_neighbours(),
            r@ == diagonal_fields(self@),
    {
        proof {
            self.lemma_diagonal_neighbours_view();
        }
        ((*self << (ROW_WIDTH + 1)) | (*self >> (ROW_WIDTH + 1)) | (*self >> (ROW_WIDTH - 1)) | (*self
            << (ROW_WIDTH - 1))) & valid_fields()
    }

    /// The board moved one step in the direction `d`: LEFT and UP raise
    /// the field index by 1 and by 21, RIGHT and DOWN lower it. The
    /// result is not masked with the playable cells.
    #[verifier::when_used_as_spec(spec_neighbours_in_direction)]
    pub fn neighbours_in_direction(&self, d: Direction) -> (r: Bitboard)
        ensures
            r == self.spec_neighbours_in_direction(d),
            r@ == shifted(self@, d.offset()),
    {
        proof {
            self.lemma_neighbours_in_direction_view(d);
        }
        match d {
            Direction::LEFT => *self << 1,
            Direction::RIGHT => *self >> 1,
            Direction::UP => *self << ROW_WIDTH,
            Direction::DOWN => *self >> ROW_WIDTH,
        }
    }
}

} // verus!
