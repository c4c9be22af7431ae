//! Moves: the shape catalog, the packed move code, and the board that a
//! move places.

use crate::bitboard::Bitboard;
use crate::fields::{lemma_shifted_twice, shifted, FIELD_COUNT};
use crate::limb::{lemma_limb_cells_bounded, lemma_limb_single, lemma_limb_zero, limb_cells, limb_has};
use std::ops::ShrAssign;
use vstd::prelude::*;

verus! {

/// Field index of the corner where the first player starts.
pub const RED_START: u16 = 0;

/// Field index of the corner where the second player starts.
pub const BLUE_START: u16 = 418;

/// Number of entries in the shape catalog.
pub const SHAPE_COUNT: u16 = 11;

/// The shape catalog. Each pattern is anchored at bit 0; a cell one row up
/// is 21 bits higher.
pub const PIECE_SHAPES: [u128; 11] = [
    1,  // monomino
    3,  // domino, horizontal
    2097153,  // domino, vertical
    7,  // I-tromino, horizontal
    4398048608257,  // I-tromino, vertical
    15,  // I-tetromino, horizontal
    9223376434903384065,  // I-tetromino, vertical
    31,  // I-pentomino, horizontal
    19342822337210501698682881,  // I-pentomino, vertical
    6291459,  // O-tetromino
    4398053851137,  // X-pentomino
];

/// The cells of catalog entry `k`, as distances from its anchor.
pub open spec fn shape_cells(k: int) -> Set<int> {
    if k == 0 {
        set![0]
    } else if k == 1 {
        set![0, 1]
    } else if k == 2 {
        set![0, 21]
    } else if k == 3 {
        set![0, 1, 2]
    } else if k == 4 {
        set![0, 21, 42]
    } else if k == 5 {
        set![0, 1, 2, 3]
    } else if k == 6 {
        set![0, 21, 42, 63]
    } else if k == 7 {
        set![0, 1, 2, 3, 4]
    } else if k == 8 {
        set![0, 21, 42, 63, 84]
    } else if k == 9 {
        set![0, 1, 21, 22]
    } else if k == 10 {
        set![0, 20, 21, 22, 42]
    } else {
        Set::empty()
    }
}

/// The shape index that a move code holds in its upper bits.
pub open spec fn shape_index(action: u16) -> int {
    action as int / 512
}

/// The destination field that a move code holds in its lower nine bits.
pub open spec fn destination(action: u16) -> int {
    action as int % 512
}

/// The fields that a move covers: the cells of its shape, with the anchor
/// on the destination. Cells that would pass field 511 are dropped.
pub open spec fn footprint(action: u16) -> Set<int> {
    shifted(shape_cells(shape_index(action)), destination(action))
}

/// The patterns of the catalog hold the cells of `shape_cells`.
pub proof fn lemma_shape_cells(k: int)
    requires
        0 <= k < 11,
    ensures
        limb_cells(PIECE_SHAPES[k]) == shape_cells(k),
{
    let c = PIECE_SHAPES[k];
    assert forall|i: int| limb_has(c, i) == shape_cells(k).contains(i) by {
        if 0 <= i < 128 {
            let j = i as u128;
            assert(((1u128 >> j) & 1 == 1) == (j == 0)) by (bit_vector)
                requires
                    j < 128,
            ;
            assert(((3u128 >> j) & 1 == 1) == (j < 2)) by (bit_vector)
                requires
                    j < 128,
            ;
            assert(((2097153u128 >> j) & 1 == 1) == (j == 0 || j == 21)) by (bit_vector)
                requires
                    j < 128,
            ;
            assert(((7u128 >> j) & 1 == 1) == (j < 3)) by (bit_vector)
                requires
                    j < 128,
            ;
            assert(((4398048608257u128 >> j) & 1 == 1) == (j == 0 || j == 21 || j == 42))
                by (bit_vector)
                requires
                    j < 128,
            ;
            assert(((15u128 >> j) & 1 == 1) == (j < 4)) by (bit_vector)
                requires
                    j < 128,
            ;
            assert(((9223376434903384065u128 >> j) & 1 == 1) == (j == 0 || j == 21 || j == 42 || j
                == 63)) by (bit_vector)
                requires
                    j < 128,
            ;
            assert(((31u128 >> j) & 1 == 1) == (j < 5)) by (bit_vector)
                requires
                    j < 128,
            ;
            assert(((19342822337210501698682881u128 >> j) & 1 == 1) == (j == 0 || j == 21 || j
                == 42 || j == 63 || j == 84)) by (bit_vector)
                requires
                    j < 128,
            ;
            assert(((6291459u128 >> j) & 1 == 1) == (j == 0 || j == 1 || j == 21 || j == 22))
                by (bit_vector)
                requires
                    j < 128,
            ;
            assert(((4398053851137u128 >> j) & 1 == 1) == (j == 0 || j == 20 || j == 21 || j == 22
                || j == 42)) by (bit_vector)
                requires
                    j < 128,
            ;
        }
    }
    assert(limb_cells(c) =~= shape_cells(k));
}

/// The two halves of a move code are its quotient and remainder by 512.
proof fn lemma_move_code(action: u16)
    ensures
        action >> 9 == shape_index(action),
        action & 511 == destination(action),
        shape_index(action) < 128,
{
    assert(action >> 9 == action / 512 && action & 511 == action % 512 && (action >> 9) < 128)
        by (bit_vector);
}

/// Splits a move code into its shape index and its destination field.
pub fn decode(action: u16) -> (r: (u16, u16))
    ensures
        r.0 == action >> 9,
        r.1 == action & 511,
        r.0 == shape_index(action),
        r.1 == destination(action),
        action == 512 * r.0 + r.1,
{
    proof {
        lemma_move_code(action);
    }
    (action >> 9, action & 511)
}

impl Bitboard {
    /// The board with `shape` in the limb that starts at field `base`.
    pub open spec fn limb_board(shape: u128, base: int) -> Bitboard {
        if base == 0 {
            Bitboard { one: 0, two: 0, three: 0, four: shape }
        } else if base == 128 {
            Bitboard { one: 0, two: 0, three: shape, four: 0 }
        } else if base == 256 {
            Bitboard { one: 0, two: shape, three: 0, four: 0 }
        } else {
            Bitboard { one: shape, two: 0, three: 0, four: 0 }
        }
    }

    /// The placement of a move, limb by limb: on a limb boundary the
    /// pattern stands in that limb; elsewhere it is put in a limb and the
    /// board is shifted once by less than 128.
    pub open spec fn spec_with_piece(action: u16) -> Bitboard {
        let shape = PIECE_SHAPES[shape_index(action)];
        let to = destination(action);
        if to == 0 || to == 128 || to == 256 || to == 384 {
            Bitboard::limb_board(shape, to)
        } else if to < 128 {
            Bitboard::limb_board(shape, 128) >> ((128 - to) as u8)
        } else if to < 256 {
            Bitboard::limb_board(shape, 256) >> ((256 - to) as u8)
        } else if to < 384 {
            Bitboard::limb_board(shape, 384) >> ((384 - to) as u8)
        } else {
            Bitboard::limb_board(shape, 384) << ((to - 384) as u8)
        }
    }

    /// The board with the bit of field `n` set and no other.
    pub open spec fn spec_bit(n: u16) -> Bitboard {
        if n < 128 {
            Bitboard::limb_board(1u128 << n, 0)
        } else if n < 256 {
            Bitboard::limb_board(1u128 << ((n - 128) as u16), 128)
        } else if n < 384 {
            Bitboard::limb_board(1u128 << ((n - 256) as u16), 256)
        } else {
            Bitboard::limb_board(1u128 << ((n - 384) as u16), 384)
        }
    }

    /// A pattern put in one limb stands on the board at that limb's first
    /// field.
    pub proof fn lemma_limb_board(shape: u128, base: int)
        requires
            base == 0 || base == 128 || base == 256 || base == 384,
        ensures
            Bitboard::limb_board(shape, base)@ == shifted(limb_cells(shape), base),
    {
        lemma_limb_zero();
        assert(Bitboard::limb_board(shape, base)@ =~= shifted(limb_cells(shape), base));
    }

    /// A move places the cells of its shape with the anchor on its
    /// destination.
    pub proof fn lemma_with_piece_view(action: u16)
        requires
            shape_index(action) < 11,
        ensures
            Bitboard::spec_with_piece(action)@ == footprint(action),
    {
        let k = shape_index(action);
        let shape = PIECE_SHAPES[k];
        let to = destination(action);
        let cells = limb_cells(shape);
        lemma_shape_cells(k);
        lemma_limb_cells_bounded(shape);
        if to == 0 || to == 128 || to == 256 || to == 384 {
            Bitboard::lemma_limb_board(shape, to);
        } else if to < 128 {
            Bitboard::lemma_limb_board(shape, 128);
            Bitboard::limb_board(shape, 128).lemma_shr_view((128 - to) as u8);
            lemma_shifted_twice(cells, 128, to - 128);
        } else if to < 256 {
            Bitboard::lemma_limb_board(shape, 256);
            Bitboard::limb_board(shape, 256).lemma_shr_view((256 - to) as u8);
            lemma_shifted_twice(cells, 256, to - 256);
        } else if to < 384 {
            Bitboard::lemma_limb_board(shape, 384);
            Bitboard::limb_board(shape, 384).lemma_shr_view((384 - to) as u8);
            lemma_shifted_twice(cells, 384, to - 384);
        } else {
            Bitboard::lemma_limb_board(shape, 384);
            Bitboard::limb_board(shape, 384).lemma_shl_view((to - 384) as u8);
            lemma_shifted_twice(cells, 384, to - 384);
        }
    }

    /// The board of a single field holds that field and no other.
    pub proof fn lemma_bit_view(n: u16)
        requires
            n < 512,
        ensures
            Bitboard::spec_bit(n)@ == set![n as int],
    {
        if n < 128 {
            lemma_limb_single(n);
            Bitboard::lemma_limb_board(1u128 << n, 0);
        } else if n < 256 {
            lemma_limb_single((n - 128) as u16);
            Bitboard::lemma_limb_board(1u128 << ((n - 128) as u16), 128);
        } else if n < 384 {
            lemma_limb_single((n - 256) as u16);
            Bitboard::lemma_limb_board(1u128 << ((n - 256) as u16), 256);
        } else {
            lemma_limb_single((n - 384) as u16);
            Bitboard::lemma_limb_board(1u128 << ((n - 384) as u16), 384);
        }
        assert(Bitboard::spec_bit(n)@ =~= set![n as int]);
    }

    /// The board that a move places: the shape of index `action >> 9`,
    /// with its anchor on field `action & 511`. Whether the cells are
    /// playable is not looked at.
    #[verifier::when_used_as_spec(spec_with_piece)]
    pub fn with_piece(action: u16) -> (r: Bitboard)
        requires
            shape_index(action) < SHAPE_COUNT,
        ensures
            r == Bitboard::spec_with_piece(action),
            r@ == footprint(action),
    {
        proof {
            Bitboard::lemma_with_piece_view(action);
        }
        let (index, to) = decode(action);
        let piece_shape = PIECE_SHAPES[index as usize];
        if to == 0 {
            return Bitboard::from(0, 0, 0, piece_shape);
        }
        if to == 128 {
            return Bitboard::from(0, 0, piece_shape, 0);
        }
        if to == 256 {
            return Bitboard::from(0, piece_shape, 0, 0);
        }
        if to < 128 {
            let mut board = Bitboard::from(0, 0, piece_shape, 0);
            board.shr_assign((128 - to) as u8);
            return board;
        }
        if to < 256 {
            let mut board = Bitboard::from(0, piece_shape, 0, 0);
            board.shr_assign((256 - to) as u8);
            return board;
        }
        if to < 384 {
            let mut board = Bitboard::from(piece_shape, 0, 0, 0);
            board.shr_assign((384 - to) as u8);
            return board;
        }
        if to == 384 {
            return Bitboard::from(piece_shape, 0, 0, 0);
        }
        Bitboard::from(piece_shape, 0, 0, 0) << (to - 384) as u8
    }

    /// The board with the bit of field `n` set and no other. The bit is
    /// written into its limb directly.
    #[verifier::when_used_as_spec(spec_bit)]
    pub fn bit(n: u16) -> (r: Bitboard)
        requires
            n < FIELD_COUNT,
        ensures
            r == Bitboard::spec_bit(n),
            r@ == set![n as int],
    {
        proof {
            Bitboard::lemma_bit_view(n);
        }
        if n < 128 {
            return Bitboard::from(0, 0, 0, 1u128 << n);
        }
        if n < 256 {
            return Bitboard::from(0, 0, 1u128 << (n - 128), 0);
        }
        if n < 384 {
            return Bitboard::from(0, 1u128 << (n - 256), 0, 0);
        }
        return Bitboard::from(1u128 << (n - 384), 0, 0, 0);
    }
}

/// The board of the first player's starting corner, field 0.
pub fn red_start_field() -> (b: Bitboard)
    ensures
        b == Bitboard::bit(RED_START),
        b@ == set![0int],
{
    Bitboard::bit(RED_START)
}

/// The board of the second player's starting corner, field 418.
pub fn blue_start_field() -> (b: Bitboard)
    ensures
        b == Bitboard::bit(BLUE_START),
        b@ == set![418int],
{
    Bitboard::bit(BLUE_START)
}

} // verus!
