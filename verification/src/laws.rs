//! Laws that relate the board operations to each other.

use crate::bitboard::{lemma_valid_fields, valid_fields, Bitboard};
use crate::direction::Direction;
use crate::fields::{
    is_lowest, lemma_lowest_exists, lemma_lowest_field, lemma_shifted_single,
    lemma_shifted_twice, lemma_shifted_zero, lowest_field, neighbour_fields, playable_fields,
};
use crate::placement::{footprint, shape_index};
use vstd::prelude::*;
use vstd::set_lib::*;

verus! {

/// Field `f` has a field on each of its four sides: `f - 21`, `f - 1`,
/// `f + 1` and `f + 21` are field indices.
pub open spec fn has_four_sides(f: int) -> bool {
    21 <= f < 491
}

/// Field `f` is a playable cell that lies on no edge of the 20 by 20
/// board.
pub open spec fn is_inner_cell(f: int) -> bool {
    21 <= f < 399 && 1 <= f % 21 <= 18
}

/// The board of a single field has that field as its lowest, and one bit
/// set.
pub proof fn law_single_field(i: u16)
    requires
        i < 512,
    ensures
        Bitboard::bit(i).trailing_zeros() == i,
        Bitboard::bit(i).count_ones() == 1,
        Bitboard::bit(i).not_zero(),
{
    let b = Bitboard::bit(i);
    Bitboard::lemma_bit_view(i);
    assert(b@.contains(i as int));
    assert(is_lowest(b@, i as int));
    lemma_lowest_field(b@, i as int);
    assert(set![i as int].len() == 1);
}

/// Two boards are equal exactly when they hold the same fields.
pub proof fn law_board_is_its_fields(a: Bitboard, b: Bitboard)
    ensures
        a == b <==> a@ == b@,
{
    if a@ == b@ {
        a.lemma_view_ext(b);
    }
}

/// The bits of a union: those of the one board and those of the other,
/// less those counted twice.
pub proof fn law_count_union(a: Bitboard, b: Bitboard)
    ensures
        (a | b).count_ones() == a.count_ones() + b.count_ones() - (a & b).count_ones(),
{
    a.lemma_or_view(b);
    a.lemma_and_view(b);
    a.lemma_view_bounded();
    b.lemma_view_bounded();
    (a | b).lemma_view_bounded();
    (a & b).lemma_view_bounded();
    lemma_set_intersect_union_lens(a@, b@);
}

/// Two boards overlap, that is, their intersection is not empty, exactly
/// when some field is in both.
pub proof fn law_overlap(a: Bitboard, b: Bitboard)
    ensures
        (a & b).not_zero() <==> exists|i: int| a@.contains(i) && b@.contains(i),
{
    a.lemma_and_view(b);
    if (a & b).not_zero() {
        let i = choose|i: int| (a & b)@.contains(i);
        assert((a & b)@.contains(i)) by {
            if forall|j: int| !(a & b)@.contains(j) {
                assert((a & b)@ =~= Set::<int>::empty());
            }
        }
        assert(a@.contains(i) && b@.contains(i));
    }
    if exists|i: int| a@.contains(i) && b@.contains(i) {
        let i = choose|i: int| a@.contains(i) && b@.contains(i);
        assert((a & b)@.contains(i));
    }
}

/// Flipping the same fields twice, or all fields twice, gives the board
/// back.
pub proof fn law_flip_twice(a: Bitboard, b: Bitboard)
    ensures
        (a ^ b) ^ b == a,
        a.spec_not().spec_not() == a,
{
    a.lemma_xor_view(b);
    (a ^ b).lemma_xor_view(b);
    assert(((a ^ b) ^ b)@ =~= a@);
    ((a ^ b) ^ b).lemma_view_ext(a);
    a.lemma_not_view();
    a.spec_not().lemma_not_view();
    a.lemma_view_bounded();
    assert(a.spec_not().spec_not()@ =~= a@);
    a.spec_not().spec_not().lemma_view_ext(a);
}

/// A board has no bit outside the playable mask exactly when all its
/// fields are playable cells.
pub proof fn law_mask(b: Bitboard)
    ensures
        (b & valid_fields().spec_not()) == Bitboard::new() <==> b@.subset_of(playable_fields()),
{
    let outside = b & valid_fields().spec_not();
    lemma_valid_fields();
    valid_fields().lemma_not_view();
    b.lemma_and_view(valid_fields().spec_not());
    b.lemma_view_bounded();
    let zero = Bitboard::new();
    Bitboard::lemma_new_view();
    if b@.subset_of(playable_fields()) {
        assert(outside@ =~= zero@);
        outside.lemma_view_ext(zero);
    }
    if outside == zero {
        assert forall|i: int| b@.contains(i) implies playable_fields().contains(i) by {
            if !playable_fields().contains(i) {
                assert(outside@.contains(i));
            }
        }
    }
}

/// The board that a move places has no bit outside the playable mask
/// exactly when every cell of the move's footprint is playable.
pub proof fn law_move_mask(action: u16)
    requires
        shape_index(action) < 11,
    ensures
        (Bitboard::with_piece(action) & valid_fields().spec_not()) == Bitboard::new()
            <==> footprint(action).subset_of(playable_fields()),
{
    Bitboard::lemma_with_piece_view(action);
    law_mask(Bitboard::with_piece(action));
}

/// Boards inside the playable mask stay inside it when they are joined,
/// met or flipped against each other.
pub proof fn law_mask_kept(a: Bitboard, b: Bitboard)
    requires
        a@.subset_of(playable_fields()),
        b@.subset_of(playable_fields()),
    ensures
        (a | b)@.subset_of(playable_fields()),
        (a & b)@.subset_of(playable_fields()),
        (a ^ b)@.subset_of(playable_fields()),
{
    a.lemma_or_view(b);
    a.lemma_and_view(b);
    a.lemma_xor_view(b);
}

/// The neighbours of any board, in rows and columns or diagonally, lie
/// inside the playable mask.
pub proof fn law_neighbours_masked(b: Bitboard)
    ensures
        b.neighbours()@.subset_of(playable_fields()),
        b.diagonal_neighbours()@.subset_of(playable_fields()),
{
    b.lemma_neighbours_view();
    b.lemma_diagonal_neighbours_view();
}

/// A shift moves the board of a single field to the board of the field
/// `n` higher or lower, or to the empty board where there is no such
/// field.
pub proof fn law_shift_of_field(f: u16, n: u8)
    requires
        f < 512,
        1 <= n <= 127,
    ensures
        Bitboard::bit(f) << n == if f + n < 512 {
            Bitboard::bit((f + n) as u16)
        } else {
            Bitboard::new()
        },
        Bitboard::bit(f) >> n == if f >= n {
            Bitboard::bit((f - n) as u16)
        } else {
            Bitboard::new()
        },
{
    let b = Bitboard::bit(f);
    Bitboard::lemma_bit_view(f);
    b.lemma_shl_view(n);
    b.lemma_shr_view(n);
    lemma_shifted_single(f as int, n as int);
    lemma_shifted_single(f as int, -(n as int));
    let zero = Bitboard::new();
    Bitboard::lemma_new_view();
    if f + n < 512 {
        Bitboard::lemma_bit_view((f + n) as u16);
        (b << n).lemma_view_ext(Bitboard::bit((f + n) as u16));
    } else {
        (b << n).lemma_view_ext(zero);
    }
    if f >= n {
        Bitboard::lemma_bit_view((f - n) as u16);
        (b >> n).lemma_view_ext(Bitboard::bit((f - n) as u16));
    } else {
        (b >> n).lemma_view_ext(zero);
    }
}

/// The neighbours in rows and columns are the boards moved one step in
/// each of the four directions, joined and masked with the playable
/// cells.
pub proof fn law_neighbours_by_direction(b: Bitboard)
    ensures
        b.neighbours() == (b.neighbours_in_direction(Direction::LEFT) | b.neighbours_in_direction(
            Direction::RIGHT,
        ) | b.neighbours_in_direction(Direction::DOWN) | b.neighbours_in_direction(
            Direction::UP,
        )) & valid_fields(),
{
}

/// The neighbours of a single field with four sides are the boards of
/// the four fields beside it, joined and masked with the playable cells.
pub proof fn law_neighbours_of_field(f: u16)
    requires
        has_four_sides(f as int),
    ensures
        Bitboard::bit(f).neighbours() == (Bitboard::bit((f + 1) as u16) | Bitboard::bit(
            (f - 1) as u16,
        ) | Bitboard::bit((f - 21) as u16) | Bitboard::bit((f + 21) as u16)) & valid_fields(),
        Bitboard::bit(f).neighbours()@ == set![f + 1, f - 1, f - 21, f + 21].intersect(
            playable_fields(),
        ),
{
    let b = Bitboard::bit(f);
    let l = Bitboard::bit((f + 1) as u16);
    let r = Bitboard::bit((f - 1) as u16);
    let d = Bitboard::bit((f - 21) as u16);
    let u = Bitboard::bit((f + 21) as u16);
    let joined = l | r | d | u;
    Bitboard::lemma_bit_view(f);
    Bitboard::lemma_bit_view((f + 1) as u16);
    Bitboard::lemma_bit_view((f - 1) as u16);
    Bitboard::lemma_bit_view((f - 21) as u16);
    Bitboard::lemma_bit_view((f + 21) as u16);
    b.lemma_neighbours_view();
    lemma_shifted_single(f as int, 1);
    lemma_shifted_single(f as int, -1);
    lemma_shifted_single(f as int, -21);
    lemma_shifted_single(f as int, 21);
    l.lemma_or_view(r);
    (l | r).lemma_or_view(d);
    (l | r | d).lemma_or_view(u);
    joined.lemma_and_view(valid_fields());
    lemma_valid_fields();
    let four = set![f + 1, f - 1, f - 21, f + 21];
    assert(joined@ =~= four);
    assert(neighbour_fields(b@) =~= four.intersect(playable_fields()));
    b.neighbours().lemma_view_ext(joined & valid_fields());
}

/// The neighbours of a single inner cell are the four cells beside it:
/// the mask removes none of them.
pub proof fn law_neighbours_of_inner_cell(f: u16)
    requires
        is_inner_cell(f as int),
    ensures
        Bitboard::bit(f).neighbours()@ == set![f + 1, f - 1, f - 21, f + 21],
        Bitboard::bit(f).neighbours().count_ones() == 4,
{
    law_neighbours_of_field(f);
    let four = set![f + 1, f - 1, f - 21, f + 21];
    assert(four.intersect(playable_fields()) =~= four);
    assert(four.len() == 4);
}

/// A shift to the left and back: a board with no bit among its top `n`
/// fields comes back unchanged.
pub proof fn law_shl_shr(b: Bitboard, n: u8)
    requires
        1 <= n <= 127,
        forall|i: int| b@.contains(i) ==> i < 512 - n,
    ensures
        (b << n) >> n == b,
{
    b.lemma_shl_view(n);
    (b << n).lemma_shr_view(n);
    b.lemma_view_bounded();
    lemma_shifted_twice(b@, n as int, -(n as int));
    lemma_shifted_zero(b@);
    ((b << n) >> n).lemma_view_ext(b);
}

/// A shift to the right and back: a board with no bit among its bottom
/// `n` fields comes back unchanged.
pub proof fn law_shr_shl(b: Bitboard, n: u8)
    requires
        1 <= n <= 127,
        forall|i: int| b@.contains(i) ==> n <= i,
    ensures
        (b >> n) << n == b,
{
    b.lemma_shr_view(n);
    (b >> n).lemma_shl_view(n);
    b.lemma_view_bounded();
    lemma_shifted_twice(b@, -(n as int), n as int);
    lemma_shifted_zero(b@);
    ((b >> n) << n).lemma_view_ext(b);
}

/// Reading the lowest field of a board that is not empty and clearing
/// its bit leaves the other fields, one fewer than before.
pub proof fn law_clear_lowest(b: Bitboard)
    requires
        b.not_zero(),
    ensures
        b.trailing_zeros() < 512,
        b@.contains(b.trailing_zeros() as int),
        (b ^ Bitboard::bit(b.trailing_zeros()))@ == b@.remove(b.trailing_zeros() as int),
        (b ^ Bitboard::bit(b.trailing_zeros())).count_ones() == b.count_ones() - 1,
{
    b.lemma_view_bounded();
    lemma_lowest_exists(b@);
    let m = lowest_field(b@);
    let f = b.trailing_zeros();
    assert(f == m);
    let single = Bitboard::bit(f);
    Bitboard::lemma_bit_view(f);
    b.lemma_xor_view(single);
    assert((b ^ single)@ =~= b@.remove(m));
    (b ^ single).lemma_view_bounded();
}

} // verus!
