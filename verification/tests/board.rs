use game_sdk::{valid_fields, Bitboard};

fn fields_of(b: &Bitboard) -> Vec<u16> {
    let limbs = [b.four, b.three, b.two, b.one];
    let mut out = Vec::new();
    for i in 0..512u16 {
        if (limbs[(i / 128) as usize] >> (i % 128)) & 1 == 1 {
            out.push(i);
        }
    }
    out
}

fn board_of(fields: &[u16]) -> Bitboard {
    let mut limbs = [0u128; 4];
    for &f in fields {
        limbs[(f / 128) as usize] |= 1u128 << (f % 128);
    }
    Bitboard::from(limbs[3], limbs[2], limbs[1], limbs[0])
}

fn sample(seed: u64) -> Bitboard {
    let mut state = seed;
    let mut next = || {
        state ^= state << 13;
        state ^= state >> 7;
        state ^= state << 17;
        state
    };
    let mut limb = || ((next() as u128) << 64) | next() as u128;
    let one = limb();
    let two = limb();
    let three = limb();
    let four = limb();
    Bitboard::from(one, two, three, four)
}

#[test]
fn new_board_has_no_bit() {
    let b = Bitboard::new();
    assert_eq!(b, Bitboard::from(0, 0, 0, 0));
    assert_eq!(b.count_ones(), 0);
    assert!(!b.not_zero());
    assert_eq!(fields_of(&b), Vec::<u16>::new());
}

#[test]
fn from_takes_the_limbs_from_high_to_low() {
    let b = Bitboard::from(1, 2, 3, 4);
    assert_eq!(b.one, 1);
    assert_eq!(b.two, 2);
    assert_eq!(b.three, 3);
    assert_eq!(b.four, 4);
    assert_eq!(fields_of(&b), vec![2, 128, 129, 257, 384]);
}

#[test]
fn count_ones_adds_the_limbs() {
    assert_eq!(Bitboard::from(u128::MAX, 0, 1, 3).count_ones(), 131);
    assert_eq!(Bitboard::from(0, 0b1011, 0, 0).count_ones(), 3);
    assert_eq!(Bitboard::from(u128::MAX, u128::MAX, u128::MAX, u128::MAX).count_ones(), 512);
    assert_eq!(Bitboard::from(0, 0, 0, 1 << 127).count_ones(), 1);
}

#[test]
fn count_ones_is_the_number_of_fields() {
    for seed in 1..40u64 {
        let b = sample(seed);
        assert_eq!(b.count_ones() as usize, fields_of(&b).len());
    }
}

#[test]
fn trailing_zeros_of_the_empty_board_is_512() {
    assert_eq!(Bitboard::new().trailing_zeros(), 512);
}

#[test]
fn trailing_zeros_adds_the_offset_of_the_limb() {
    assert_eq!(Bitboard::from(0, 0, 0, 1 << 5).trailing_zeros(), 5);
    assert_eq!(Bitboard::from(0, 0, 1 << 5, 0).trailing_zeros(), 133);
    assert_eq!(Bitboard::from(0, 1 << 5, 0, 0).trailing_zeros(), 261);
    assert_eq!(Bitboard::from(1 << 5, 0, 0, 0).trailing_zeros(), 389);
    assert_eq!(Bitboard::from(1 << 127, 0, 0, 0).trailing_zeros(), 511);
    assert_eq!(Bitboard::from(0, 0, 0, 1).trailing_zeros(), 0);
}

#[test]
fn trailing_zeros_is_the_smallest_field_of_all_limbs() {
    assert_eq!(Bitboard::from(1, 0, 0, 1 << 5).trailing_zeros(), 5);
    assert_eq!(Bitboard::from(1 << 3, 1 << 7, 0, 0).trailing_zeros(), 263);
    assert_eq!(Bitboard::from(1 << 34, 0, 0, 1).trailing_zeros(), 0);
    assert_eq!(Bitboard::from(u128::MAX, u128::MAX, 1 << 100, 0).trailing_zeros(), 228);
    for seed in 1..40u64 {
        let b = sample(seed);
        assert_eq!(b.trailing_zeros(), fields_of(&b)[0]);
    }
}

#[test]
fn not_zero_sees_a_bit_in_any_limb() {
    assert!(Bitboard::from(1, 0, 0, 0).not_zero());
    assert!(Bitboard::from(0, 1, 0, 0).not_zero());
    assert!(Bitboard::from(0, 0, 1, 0).not_zero());
    assert!(Bitboard::from(0, 0, 0, 1).not_zero());
    assert!(!Bitboard::from(0, 0, 0, 0).not_zero());
}

#[test]
fn and_keeps_common_fields() {
    let a = Bitboard::from(0b1100, 0b1010, 0xff, 7);
    let b = Bitboard::from(0b1010, 0b0110, 0x0f, 8);
    assert_eq!(a & b, Bitboard::from(0b1000, 0b0010, 0x0f, 0));
    let x = board_of(&[1, 130, 300, 500]);
    let y = board_of(&[1, 131, 300, 501]);
    assert_eq!(fields_of(&(x & y)), vec![1, 300]);
}

#[test]
fn or_keeps_all_fields() {
    let a = Bitboard::from(0b1100, 0b1010, 0xf0, 7);
    let b = Bitboard::from(0b1010, 0b0110, 0x0f, 8);
    assert_eq!(a | b, Bitboard::from(0b1110, 0b1110, 0xff, 15));
    let x = board_of(&[1, 130, 300, 500]);
    let y = board_of(&[1, 131, 300, 501]);
    assert_eq!(fields_of(&(x | y)), vec![1, 130, 131, 300, 500, 501]);
}

#[test]
fn xor_keeps_fields_of_one_side_only() {
    let a = Bitboard::from(0b1100, 0b1010, 0xf0, 7);
    let b = Bitboard::from(0b1010, 0b0110, 0x0f, 7);
    assert_eq!(a ^ b, Bitboard::from(0b0110, 0b1100, 0xff, 0));
    let x = board_of(&[1, 130, 300, 500]);
    let y = board_of(&[1, 131, 300, 501]);
    assert_eq!(fields_of(&(x ^ y)), vec![130, 131, 500, 501]);
}

#[test]
fn not_flips_all_512_bits() {
    let a = Bitboard::from(0, u128::MAX, 1, !1u128);
    assert_eq!(!a, Bitboard::from(u128::MAX, 0, !1u128, 1));
    assert_eq!((!Bitboard::new()).count_ones(), 512);
    let x = board_of(&[0, 511]);
    let flipped = fields_of(&!x);
    assert_eq!(flipped.len(), 510);
    assert_eq!(flipped[0], 1);
    assert_eq!(flipped[509], 510);
    assert_eq!(!!x, x);
}

#[test]
fn assigning_operators_change_the_receiver_only() {
    let a = sample(11);
    let b = sample(12);
    let mut x = a;
    x &= b;
    assert_eq!(x, a & b);
    let mut y = a;
    y |= b;
    assert_eq!(y, a | b);
    let mut z = a;
    z ^= b;
    assert_eq!(z, a ^ b);
    assert_eq!(a, sample(11));
    assert_eq!(b, sample(12));
}

#[test]
fn union_count_is_sum_less_overlap() {
    for seed in 1..30u64 {
        let a = sample(seed);
        let b = sample(seed + 100);
        assert_eq!(
            (a | b).count_ones(),
            a.count_ones() + b.count_ones() - (a & b).count_ones()
        );
    }
    let a = board_of(&[1, 2, 3, 200]);
    let b = board_of(&[3, 200, 400]);
    assert_eq!((a | b).count_ones(), 5);
    assert_eq!((a & b).count_ones(), 2);
}

#[test]
fn boards_are_equal_when_all_limbs_are() {
    assert_eq!(Bitboard::from(1, 2, 3, 4), Bitboard::from(1, 2, 3, 4));
    assert_ne!(Bitboard::from(1, 2, 3, 4), Bitboard::from(0, 2, 3, 4));
    assert_ne!(Bitboard::from(1, 2, 3, 4), Bitboard::from(1, 0, 3, 4));
    assert_ne!(Bitboard::from(1, 2, 3, 4), Bitboard::from(1, 2, 0, 4));
    assert_ne!(Bitboard::from(1, 2, 3, 4), Bitboard::from(1, 2, 3, 0));
}

#[test]
fn valid_fields_are_the_cells_of_a_20_by_20_grid() {
    let v = valid_fields();
    assert_eq!(
        v,
        Bitboard::from(
            34359721983,
            337623909661717427026139553986326233087,
            329648537884054317714434393650000297983,
            297747050773401880467613752304696557567
        )
    );
    assert_eq!(v.count_ones(), 400);
    let expected: Vec<u16> = (0..512u16).filter(|i| *i < 420 && i % 21 != 20).collect();
    assert_eq!(fields_of(&v), expected);
    assert_eq!(v & !v, Bitboard::new());
}

#[test]
fn clearing_the_lowest_field_walks_through_all_fields() {
    let start = board_of(&[0, 5, 127, 128, 255, 256, 300, 383, 384, 418, 511]);
    let mut rest = start;
    let mut seen = Vec::new();
    while rest.not_zero() {
        let f = rest.trailing_zeros();
        seen.push(f);
        let before = rest.count_ones();
        rest ^= Bitboard::bit(f);
        assert_eq!(rest.count_ones(), before - 1);
    }
    assert_eq!(seen, vec![0, 5, 127, 128, 255, 256, 300, 383, 384, 418, 511]);
    assert_eq!(rest.trailing_zeros(), 512);
}

#[test]
fn boards_overlap_when_they_share_a_field() {
    let a = board_of(&[1, 130, 300]);
    let b = board_of(&[2, 130, 301]);
    let c = board_of(&[2, 131, 301]);
    assert!((a & b).not_zero());
    assert!(!(a & c).not_zero());
    assert_eq!((a & b).trailing_zeros(), 130);
}

#[test]
fn flipping_twice_gives_the_board_back() {
    for seed in 1..20u64 {
        let a = sample(seed);
        let b = sample(seed + 50);
        assert_eq!((a ^ b) ^ b, a);
        assert_eq!(!!a, a);
    }
}
