use game_sdk::Bitboard;

fn shift_fields_of(b: &Bitboard) -> Vec<u16> {
    let limbs = [b.four, b.three, b.two, b.one];
    let mut out = Vec::new();
    for i in 0..512u16 {
        if (limbs[(i / 128) as usize] >> (i % 128)) & 1 == 1 {
            out.push(i);
        }
    }
    out
}

fn shift_board_of(fields: &[u16]) -> Bitboard {
    let mut limbs = [0u128; 4];
    for &f in fields {
        limbs[(f / 128) as usize] |= 1u128 << (f % 128);
    }
    Bitboard::from(limbs[3], limbs[2], limbs[1], limbs[0])
}

fn shift_sample(seed: u64) -> Bitboard {
    let mut state = seed;
    let mut next = || {
        state ^= state << 13;
        state ^= state >> 7;
        state ^= state << 17;
        state
    };
    let mut limb = || ((next() as u128) << 64) | next() as u128;
    let one = limb();
    let two = limb();
    let three = limb();
    let four = limb();
    Bitboard::from(one, two, three, four)
}

#[test]
fn shl_carries_into_the_next_higher_limb() {
    assert_eq!(Bitboard::from(0, 0, 0, 1 << 127) << 1, Bitboard::from(0, 0, 1, 0));
    assert_eq!(Bitboard::from(0, 0, 1 << 127, 0) << 1, Bitboard::from(0, 1, 0, 0));
    assert_eq!(Bitboard::from(0, 1 << 127, 0, 0) << 1, Bitboard::from(1, 0, 0, 0));
    assert_eq!(Bitboard::from(0, 0, 0, 0b11 << 126) << 1, Bitboard::from(0, 0, 1, 1 << 127));
    assert_eq!(Bitboard::from(0, 0, 0, u128::MAX) << 21, Bitboard::from(0, 0, (1 << 21) - 1, u128::MAX << 21));
}

#[test]
fn shl_drops_what_leaves_the_top() {
    assert_eq!(Bitboard::from(1 << 127, 0, 0, 0) << 1, Bitboard::new());
    assert_eq!(Bitboard::from(u128::MAX, 0, 0, 0) << 127, Bitboard::from(1 << 127, 0, 0, 0));
}

#[test]
fn shl_fills_the_low_bits_with_zero() {
    let all = Bitboard::from(u128::MAX, u128::MAX, u128::MAX, u128::MAX);
    assert_eq!(all << 1, Bitboard::from(u128::MAX, u128::MAX, u128::MAX, u128::MAX - 1));
    assert_eq!((all << 22).trailing_zeros(), 22);
    assert_eq!((all << 127).count_ones(), 512 - 127);
}

#[test]
fn shr_carries_into_the_next_lower_limb() {
    assert_eq!(Bitboard::from(1, 0, 0, 0) >> 1, Bitboard::from(0, 1 << 127, 0, 0));
    assert_eq!(Bitboard::from(0, 1, 0, 0) >> 1, Bitboard::from(0, 0, 1 << 127, 0));
    assert_eq!(Bitboard::from(0, 0, 1, 0) >> 1, Bitboard::from(0, 0, 0, 1 << 127));
    assert_eq!(Bitboard::from(0, 0, 0b11, 0) >> 1, Bitboard::from(0, 0, 1, 1 << 127));
    assert_eq!(Bitboard::from(u128::MAX, 0, 0, 0) >> 21, Bitboard::from(u128::MAX >> 21, u128::MAX << 107, 0, 0));
}

#[test]
fn shr_drops_what_leaves_the_bottom() {
    assert_eq!(Bitboard::from(0, 0, 0, 1) >> 1, Bitboard::new());
    assert_eq!(Bitboard::from(0, 0, 0, u128::MAX) >> 127, Bitboard::from(0, 0, 0, 1));
}

#[test]
fn shr_fills_the_high_bits_with_zero() {
    let all = Bitboard::from(u128::MAX, u128::MAX, u128::MAX, u128::MAX);
    assert_eq!(all >> 1, Bitboard::from(u128::MAX >> 1, u128::MAX, u128::MAX, u128::MAX));
    assert_eq!((all >> 20).count_ones(), 492);
    assert_eq!(shift_fields_of(&(all >> 20)).last(), Some(&491));
}

#[test]
fn shl_moves_every_field_up() {
    for seed in 1..6u64 {
        let b = shift_sample(seed);
        let fields = shift_fields_of(&b);
        for n in 1..=127u8 {
            let expected: Vec<u16> =
                fields.iter().map(|f| f + n as u16).filter(|f| *f < 512).collect();
            assert_eq!(shift_fields_of(&(b << n)), expected);
        }
    }
}

#[test]
fn shr_moves_every_field_down() {
    for seed in 1..6u64 {
        let b = shift_sample(seed);
        let fields = shift_fields_of(&b);
        for n in 1..=127u8 {
            let expected: Vec<u16> =
                fields.iter().filter(|f| **f >= n as u16).map(|f| f - n as u16).collect();
            assert_eq!(shift_fields_of(&(b >> n)), expected);
        }
    }
}

#[test]
fn shift_assign_equals_shift() {
    for seed in 1..6u64 {
        let b = shift_sample(seed);
        for n in [1u8, 20, 21, 22, 64, 127] {
            let mut l = b;
            l <<= n;
            assert_eq!(l, b << n);
            let mut r = b;
            r >>= n;
            assert_eq!(r, b >> n);
        }
    }
}

#[test]
fn shl_then_shr_gives_the_board_back() {
    for n in 1..=127u8 {
        let top = 512 - n as u16;
        let b = shift_board_of(&[0, 1, 127, 128, 200, 383, top - 1]);
        assert_eq!((b << n) >> n, b);
    }
    let b = Bitboard::from(1 << 100, 5, 6, 7);
    assert_eq!((b << 27) >> 27, b);
}

#[test]
fn shl_then_shr_loses_the_top_fields() {
    let b = shift_board_of(&[3, 511]);
    assert_eq!((b << 1) >> 1, shift_board_of(&[3]));
    let c = shift_board_of(&[3, 491]);
    assert_eq!((c << 21) >> 21, shift_board_of(&[3]));
    assert_eq!((c << 20) >> 20, c);
}

#[test]
fn shr_then_shl_gives_the_board_back() {
    for n in 1..=127u8 {
        let b = shift_board_of(&[n as u16, 127, 128, 200, 383, 511]);
        assert_eq!((b >> n) << n, b);
    }
    let c = shift_board_of(&[20, 300]);
    assert_eq!((c >> 21) << 21, shift_board_of(&[300]));
}

#[test]
fn shift_moves_a_single_field() {
    for f in [0u16, 1, 100, 127, 128, 255, 256, 383, 384, 418, 511] {
        for n in [1u8, 20, 21, 22, 127] {
            let up = if f + (n as u16) < 512 { Bitboard::bit(f + n as u16) } else { Bitboard::new() };
            let down = if f >= n as u16 { Bitboard::bit(f - n as u16) } else { Bitboard::new() };
            assert_eq!(Bitboard::bit(f) << n, up);
            assert_eq!(Bitboard::bit(f) >> n, down);
        }
    }
}
