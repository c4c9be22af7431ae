use game_sdk::{
    blue_start_field, decode, red_start_field, valid_fields, Bitboard, BLUE_START, PIECE_SHAPES,
    RED_START, SHAPE_COUNT,
};

const CELLS: [&[u16]; 11] = [
    &[0],
    &[0, 1],
    &[0, 21],
    &[0, 1, 2],
    &[0, 21, 42],
    &[0, 1, 2, 3],
    &[0, 21, 42, 63],
    &[0, 1, 2, 3, 4],
    &[0, 21, 42, 63, 84],
    &[0, 1, 21, 22],
    &[0, 20, 21, 22, 42],
];

fn placed_fields_of(b: &Bitboard) -> Vec<u16> {
    let limbs = [b.four, b.three, b.two, b.one];
    let mut out = Vec::new();
    for i in 0..512u16 {
        if (limbs[(i / 128) as usize] >> (i % 128)) & 1 == 1 {
            out.push(i);
        }
    }
    out
}

fn action(shape: u16, to: u16) -> u16 {
    (shape << 9) | to
}

#[test]
fn monomino_at_field_0_is_limb_d_one() {
    assert_eq!(Bitboard::with_piece(action(0, 0)), Bitboard::from(0, 0, 0, 1));
}

#[test]
fn monomino_at_field_384_is_limb_a_one() {
    assert_eq!(Bitboard::with_piece(action(0, 384)), Bitboard::from(1, 0, 0, 0));
}

#[test]
fn horizontal_domino_at_field_417_covers_417_and_418() {
    let b = Bitboard::with_piece(action(1, 417));
    assert_eq!(b, Bitboard::from(3 << 33, 0, 0, 0));
    assert_eq!(placed_fields_of(&b), vec![417, 418]);
    assert_eq!(b & blue_start_field(), blue_start_field());
}

#[test]
fn pattern_on_a_limb_boundary_stands_in_that_limb() {
    let shape = PIECE_SHAPES[10];
    assert_eq!(Bitboard::with_piece(action(10, 0)), Bitboard::from(0, 0, 0, shape));
    assert_eq!(Bitboard::with_piece(action(10, 128)), Bitboard::from(0, 0, shape, 0));
    assert_eq!(Bitboard::with_piece(action(10, 256)), Bitboard::from(0, shape, 0, 0));
    assert_eq!(Bitboard::with_piece(action(10, 384)), Bitboard::from(shape, 0, 0, 0));
}

#[test]
fn pattern_beside_a_limb_boundary_is_shifted_into_place() {
    assert_eq!(Bitboard::with_piece(action(1, 1)), Bitboard::from(0, 0, 0, 3 << 1));
    assert_eq!(Bitboard::with_piece(action(1, 127)), Bitboard::from(0, 0, 1, 1 << 127));
    assert_eq!(Bitboard::with_piece(action(1, 129)), Bitboard::from(0, 0, 3 << 1, 0));
    assert_eq!(Bitboard::with_piece(action(1, 255)), Bitboard::from(0, 1, 1 << 127, 0));
    assert_eq!(Bitboard::with_piece(action(1, 257)), Bitboard::from(0, 3 << 1, 0, 0));
    assert_eq!(Bitboard::with_piece(action(1, 383)), Bitboard::from(1, 1 << 127, 0, 0));
    assert_eq!(Bitboard::with_piece(action(1, 385)), Bitboard::from(3 << 1, 0, 0, 0));
    assert_eq!(Bitboard::with_piece(action(1, 510)), Bitboard::from(3 << 126, 0, 0, 0));
}

#[test]
fn pattern_that_passes_field_511_is_cut() {
    assert_eq!(Bitboard::with_piece(action(1, 511)), Bitboard::from(1 << 127, 0, 0, 0));
    assert_eq!(placed_fields_of(&Bitboard::with_piece(action(8, 450))), vec![450, 471, 492]);
}

#[test]
fn every_shape_lands_on_every_destination() {
    for shape in 0..SHAPE_COUNT {
        for to in 0..512u16 {
            let expected: Vec<u16> = CELLS[shape as usize]
                .iter()
                .map(|c| c + to)
                .filter(|f| *f < 512)
                .collect();
            assert_eq!(placed_fields_of(&Bitboard::with_piece(action(shape, to))), expected);
        }
    }
}

#[test]
fn catalog_holds_eleven_anchored_patterns() {
    assert_eq!(SHAPE_COUNT, 11);
    assert_eq!(PIECE_SHAPES.len(), 11);
    assert_eq!(PIECE_SHAPES[0], 1);
    assert_eq!(PIECE_SHAPES[1], 3);
    assert_eq!(PIECE_SHAPES[2], 1 | 1 << 21);
    assert_eq!(PIECE_SHAPES[9], 3 | 3 << 21);
    assert_eq!(PIECE_SHAPES[10], 1 | 7 << 20 | 1 << 42);
    for (k, shape) in PIECE_SHAPES.iter().enumerate() {
        assert_eq!(shape & 1, 1);
        assert_eq!(placed_fields_of(&Bitboard::from(0, 0, 0, *shape)), CELLS[k].to_vec());
    }
}

#[test]
fn decode_splits_a_move_code() {
    assert_eq!(decode(0), (0, 0));
    assert_eq!(decode(511), (0, 511));
    assert_eq!(decode(512), (1, 0));
    assert_eq!(decode((10 << 9) | 418), (10, 418));
    assert_eq!(decode(0x1ff | (7 << 9)), (7, 0x1ff));
    assert_eq!(decode(u16::MAX), (127, 511));
}

#[test]
fn bit_sets_one_field() {
    for i in 0..512u16 {
        let b = Bitboard::bit(i);
        assert_eq!(b.trailing_zeros(), i);
        assert_eq!(b.count_ones(), 1);
        assert!(b.not_zero());
        assert_eq!(placed_fields_of(&b), vec![i]);
    }
}

#[test]
fn bit_writes_into_the_limb_of_the_field() {
    assert_eq!(Bitboard::bit(0), Bitboard::from(0, 0, 0, 1));
    assert_eq!(Bitboard::bit(127), Bitboard::from(0, 0, 0, 1 << 127));
    assert_eq!(Bitboard::bit(128), Bitboard::from(0, 0, 1, 0));
    assert_eq!(Bitboard::bit(255), Bitboard::from(0, 0, 1 << 127, 0));
    assert_eq!(Bitboard::bit(256), Bitboard::from(0, 1, 0, 0));
    assert_eq!(Bitboard::bit(383), Bitboard::from(0, 1 << 127, 0, 0));
    assert_eq!(Bitboard::bit(384), Bitboard::from(1, 0, 0, 0));
    assert_eq!(Bitboard::bit(511), Bitboard::from(1 << 127, 0, 0, 0));
}

#[test]
fn bit_equals_the_monomino_at_that_field() {
    for i in 0..512u16 {
        assert_eq!(Bitboard::bit(i), Bitboard::with_piece(i));
    }
}

#[test]
fn start_fields_are_the_two_corners() {
    assert_eq!(RED_START, 0);
    assert_eq!(BLUE_START, 418);
    assert_eq!(red_start_field(), Bitboard::from(0, 0, 0, 1));
    assert_eq!(blue_start_field(), Bitboard::from(1 << 34, 0, 0, 0));
    assert_eq!(red_start_field() & valid_fields(), red_start_field());
    assert_eq!(blue_start_field() & valid_fields(), blue_start_field());
}

#[test]
fn move_inside_the_grid_has_no_bit_outside_the_mask() {
    let outside = !valid_fields();
    for shape in 0..SHAPE_COUNT {
        let cells = CELLS[shape as usize];
        for row in 0..20u16 {
            for col in 0..20u16 {
                let to = row * 21 + col;
                let inside = cells.iter().all(|c| {
                    let f = to + c;
                    f < 420 && f % 21 != 20
                });
                let placed = Bitboard::with_piece(action(shape, to));
                assert_eq!(placed & outside == Bitboard::new(), inside);
            }
        }
    }
}

#[test]
fn move_over_the_row_end_has_a_bit_outside_the_mask() {
    let placed = Bitboard::with_piece(action(1, 19));
    assert_eq!(placed & !valid_fields(), Bitboard::bit(20));
    let high = Bitboard::with_piece(action(2, 400));
    assert_eq!(high & !valid_fields(), Bitboard::bit(421));
}
