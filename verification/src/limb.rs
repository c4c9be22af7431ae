//! A 128-bit limb read as a set of bit positions.
//!
//! Everything the board proves about its limbs goes through `limb_has`:
//! the facts below are the only places where the bit-vector solver is asked
//! about `&`, `|`, `^`, `!`, `<<` and `>>` on `u128`.

use vstd::prelude::*;
use vstd::set_lib::*;

verus! {

/// Whether bit `i` of `x` is set. No position outside `0..128` is set.
pub open spec fn limb_has(x: u128, i: int) -> bool {
    0 <= i < 128 && (x >> (i as u128)) & 1 == 1
}

/// The positions of the set bits of `x`.
pub open spec fn limb_cells(x: u128) -> Set<int> {
    Set::new(|i: int| limb_has(x, i))
}

/// Assumed of `u128::count_ones`: it returns how many bits of the binary
/// representation of `x` are one, that is, how many positions
/// `limb_cells(x)` holds.
pub assume_specification[ u128::count_ones ](x: u128) -> (n: u32)
    ensures
        n == limb_cells(x).len(),
;

/// Assumed of `u128::trailing_zeros`: it returns the number of zero bits
/// below the lowest one bit of `x`, so the result is the position of that
/// bit; for `x == 0` it returns the width, 128.
pub assume_specification[ u128::trailing_zeros ](x: u128) -> (n: u32)
    ensures
        x == 0 ==> n == 128,
        x != 0 ==> n < 128 && limb_has(x, n as int),
        forall|j: int| 0 <= j < n ==> !limb_has(x, j),
;

/// A limb holds at most 128 positions, all in `0..128`.
pub proof fn lemma_limb_cells_bounded(x: u128)
    ensures
        limb_cells(x).subset_of(set_int_range(0, 128)),
        limb_cells(x).finite(),
        limb_cells(x).len() <= 128,
{
    lemma_int_range(0, 128);
    lemma_len_subset(limb_cells(x), set_int_range(0, 128));
}

/// The zero limb has no bit set.
pub proof fn lemma_limb_zero()
    ensures
        forall|i: int| !#[trigger] limb_has(0, i),
{
    assert forall|i: int| !#[trigger] limb_has(0, i) by {
        if 0 <= i < 128 {
            let j = i as u128;
            assert((0u128 >> j) & 1 != 1) by (bit_vector);
        }
    }
}

/// `&` keeps the positions set in both operands.
pub proof fn lemma_limb_and(a: u128, b: u128)
    ensures
        forall|i: int| #[trigger] limb_has(a & b, i) == (limb_has(a, i) && limb_has(b, i)),
{
    assert forall|i: int| #[trigger] limb_has(a & b, i) == (limb_has(a, i) && limb_has(b, i)) by {
        if 0 <= i < 128 {
            let j = i as u128;
            assert((((a & b) >> j) & 1 == 1) == ((a >> j) & 1 == 1 && (b >> j) & 1 == 1))
                by (bit_vector);
        }
    }
}

/// `|` keeps the positions set in either operand.
pub proof fn lemma_limb_or(a: u128, b: u128)
    ensures
        forall|i: int| #[trigger] limb_has(a | b, i) == (limb_has(a, i) || limb_has(b, i)),
{
    assert forall|i: int| #[trigger] limb_has(a | b, i) == (limb_has(a, i) || limb_has(b, i)) by {
        if 0 <= i < 128 {
            let j = i as u128;
            assert((((a | b) >> j) & 1 == 1) == ((a >> j) & 1 == 1 || (b >> j) & 1 == 1))
                by (bit_vector);
        }
    }
}

/// `^` keeps the positions set in exactly one operand.
pub proof fn lemma_limb_xor(a: u128, b: u128)
    ensures
        forall|i: int| #[trigger] limb_has(a ^ b, i) == (limb_has(a, i) != limb_has(b, i)),
{
    assert forall|i: int| #[trigger] limb_has(a ^ b, i) == (limb_has(a, i) != limb_has(b, i)) by {
        if 0 <= i < 128 {
            let j = i as u128;
            assert((((a ^ b) >> j) & 1 == 1) == (((a >> j) & 1 == 1) != ((b >> j) & 1 == 1)))
                by (bit_vector);
        }
    }
}

/// `!` flips every position of `0..128`.
pub proof fn lemma_limb_not(a: u128)
    ensures
        forall|i: int| #[trigger] limb_has(!a, i) == (0 <= i < 128 && !limb_has(a, i)),
{
    assert forall|i: int| #[trigger] limb_has(!a, i) == (0 <= i < 128 && !limb_has(a, i)) by {
        if 0 <= i < 128 {
            let j = i as u128;
            assert((((!a) >> j) & 1 == 1) == !((a >> j) & 1 == 1)) by (bit_vector)
                requires
                    j < 128,
            ;
        }
    }
}

/// `1 << n` has position `n` set and no other.
pub proof fn lemma_limb_single(n: u16)
    requires
        n < 128,
    ensures
        forall|i: int| #[trigger] limb_has(1u128 << n, i) == (i == n),
{
    let m = n as u128;
    assert forall|i: int| #[trigger] limb_has(1u128 << n, i) == (i == n) by {
        if 0 <= i < 128 {
            let j = i as u128;
            assert((((1u128 << m) >> j) & 1 == 1) == (j == m)) by (bit_vector)
                requires
                    m < 128,
                    j < 128,
            ;
        }
    }
}

/// A left shift by `n` that takes its low bits from the top of `lo`:
/// position `i` of the result comes from position `i - n` of `hi`, or,
/// where that is below zero, from position `i - n + 128` of `lo`.
pub proof fn lemma_limb_shl_carry(hi: u128, lo: u128, n: u8)
    requires
        1 <= n <= 127,
    ensures
        forall|i: int|
            0 <= i < 128 ==> #[trigger] limb_has((hi << n) | (lo >> ((128 - n) as u8)), i) == (if i
                >= n {
                limb_has(hi, i - n)
            } else {
                limb_has(lo, i - n + 128)
            }),
{
    let m = n as u128;
    let r = (hi << n) | (lo >> ((128 - n) as u8));
    assert(r == (hi << m) | (lo >> ((128 - m) as u128)));
    assert forall|i: int| 0 <= i < 128 implies #[trigger] limb_has(r, i) == (if i >= n {
        limb_has(hi, i - n)
    } else {
        limb_has(lo, i - n + 128)
    }) by {
        let j = i as u128;
        assert(((((hi << m) | (lo >> ((128 - m) as u128))) >> j) & 1 == 1) == (if j >= m {
            (hi >> ((j - m) as u128)) & 1 == 1
        } else {
            (lo >> ((j + 128 - m) as u128)) & 1 == 1
        })) by (bit_vector)
            requires
                1 <= m <= 127,
                j < 128,
        ;
    }
}

/// A left shift by `n` of the lowest limb: zeros come in from below.
pub proof fn lemma_limb_shl(lo: u128, n: u8)
    requires
        1 <= n <= 127,
    ensures
        forall|i: int| #[trigger] limb_has(lo << n, i) == (n <= i < 128 && limb_has(lo, i - n)),
{
    let m = n as u128;
    assert forall|i: int| #[trigger]
        limb_has(lo << n, i) == (n <= i < 128 && limb_has(lo, i - n)) by {
        if 0 <= i < 128 {
            let j = i as u128;
            assert((((lo << m) >> j) & 1 == 1) == (j >= m && (lo >> ((j - m) as u128)) & 1 == 1))
                by (bit_vector)
                requires
                    1 <= m <= 127,
                    j < 128,
            ;
        }
    }
}

/// A right shift by `n` that takes its high bits from the bottom of `hi`:
/// position `i` of the result comes from position `i + n` of `lo`, or,
/// where that is 128 or more, from position `i + n - 128` of `hi`.
pub proof fn lemma_limb_shr_carry(lo: u128, hi: u128, n: u8)
    requires
        1 <= n <= 127,
    ensures
        forall|i: int|
            0 <= i < 128 ==> #[trigger] limb_has((lo >> n) | (hi << ((128 - n) as u8)), i) == (if i
                + n < 128 {
                limb_has(lo, i + n)
            } else {
                limb_has(hi, i + n - 128)
            }),
{
    let m = n as u128;
    let r = (lo >> n) | (hi << ((128 - n) as u8));
    assert(r == (lo >> m) | (hi << ((128 - m) as u128)));
    assert forall|i: int| 0 <= i < 128 implies #[trigger] limb_has(r, i) == (if i + n < 128 {
        limb_has(lo, i + n)
    } else {
        limb_has(hi, i + n - 128)
    }) by {
        let j = i as u128;
        assert(((((lo >> m) | (hi << ((128 - m) as u128))) >> j) & 1 == 1) == (if j + m < 128 {
            (lo >> ((j + m) as u128)) & 1 == 1
        } else {
            (hi >> ((j + m - 128) as u128)) & 1 == 1
        })) by (bit_vector)
            requires
                1 <= m <= 127,
                j < 128,
        ;
    }
}

/// A right shift by `n` of the highest limb: zeros come in from above.
pub proof fn lemma_limb_shr(hi: u128, n: u8)
    requires
        1 <= n <= 127,
    ensures
        forall|i: int| #[trigger] limb_has(hi >> n, i) == (0 <= i && limb_has(hi, i + n)),
{
    let m = n as u128;
    assert forall|i: int| #[trigger] limb_has(hi >> n, i) == (0 <= i && limb_has(hi, i + n)) by {
        if 0 <= i < 128 {
            let j = i as u128;
            assert((((hi >> m) >> j) & 1 == 1) == (j + m < 128 && (hi >> ((j + m) as u128)) & 1
                == 1)) by (bit_vector)
                requires
                    1 <= m <= 127,
                    j < 128,
            ;
        }
    }
}

/// A witness for a non-zero limb: some position below `width` is set.
proof fn lemma_limb_witness(x: u128, width: u128) -> (j: u128)
    requires
        x != 0,
        width <= 128,
        x >> width == 0,
    ensures
        j < width,
        (x >> j) & 1 == 1,
    decreases width,
{
    assert(width != 0) by (bit_vector)
        requires
            x != 0,
            x >> width == 0,
    ;
    if x & 1 == 1 {
        assert((x >> 0u128) & 1 == 1) by (bit_vector)
            requires
                x & 1 == 1,
        ;
        0
    } else {
        let rest = x >> 1;
        let w = (width - 1) as u128;
        assert(rest != 0 && rest >> w == 0) by (bit_vector)
            requires
                x != 0,
                x & 1 != 1,
                rest == x >> 1,
                0 < width <= 128,
                w == width - 1,
                x >> width == 0,
        ;
        let k = lemma_limb_witness(rest, w);
        let j = (k + 1) as u128;
        assert((x >> j) & 1 == 1) by (bit_vector)
            requires
                rest == x >> 1,
                (rest >> k) & 1 == 1,
                k < 127,
                j == k + 1,
        ;
        j
    }
}

/// A limb is zero exactly when it has no bit set.
pub proof fn lemma_limb_nonzero(x: u128)
    ensures
        x != 0 <==> exists|i: int| limb_has(x, i),
        x == 0 <==> limb_cells(x) =~= Set::<int>::empty(),
{
    lemma_limb_zero();
    if x != 0 {
        assert(x >> 128u128 == 0) by (bit_vector);
        let j = lemma_limb_witness(x, 128);
        assert(limb_has(x, j as int));
        assert(limb_cells(x).contains(j as int));
    }
}

/// Two limbs with the same set bits are the same limb.
pub proof fn lemma_limb_ext(x: u128, y: u128)
    requires
        forall|i: int| 0 <= i < 128 ==> limb_has(x, i) == limb_has(y, i),
    ensures
        x == y,
{
    if x != y {
        let d = x ^ y;
        assert(d != 0) by (bit_vector)
            requires
                x != y,
                d == x ^ y,
        ;
        lemma_limb_nonzero(d);
        let i = choose|i: int| limb_has(d, i);
        lemma_limb_xor(x, y);
        assert(limb_has(x, i) != limb_has(y, i));
    }
}

} // verus!
