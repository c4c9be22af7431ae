//! The board value: 512 bits in four limbs, read as a set of field indices.

use crate::fields::{
    all_fields, is_lowest, lemma_fields_bounded, lemma_lowest_field, lowest_field,
    playable_fields, FIELD_COUNT,
};
use crate::limb::{
    lemma_limb_cells_bounded, lemma_limb_ext, lemma_limb_nonzero, lemma_limb_zero, limb_cells,
    limb_has,
};
use vstd::prelude::*;
use vstd::relations::injective_on;
use vstd::set_lib::*;

verus! {

/// Limb A of the playable mask: field indices 384 to 511.
pub const VALID_FIELDS_A: u128 = 34359721983;

/// Limb B of the playable mask: field indices 256 to 383.
pub const VALID_FIELDS_B: u128 = 337623909661717427026139553986326233087;

/// Limb C of the playable mask: field indices 128 to 255.
pub const VALID_FIELDS_C: u128 = 329648537884054317714434393650000297983;

/// Limb D of the playable mask: field indices 0 to 127.
pub const VALID_FIELDS_D: u128 = 297747050773401880467613752304696557567;

/// A 512-bit board. Bit `n` of the whole value is field index `n`; the
/// limbs are ordered from high to low.
#[derive(Debug, Copy, Clone, PartialEq, Eq, Structural)]
pub struct Bitboard {
    /// Limb A: field indices 384 to 511.
    pub one: u128,
    /// Limb B: field indices 256 to 383.
    pub two: u128,
    /// Limb C: field indices 128 to 255.
    pub three: u128,
    /// Limb D: field indices 0 to 127.
    pub four: u128,
}

impl View for Bitboard {
    type V = Set<int>;

    /// The field indices whose bit is set.
    open spec fn view(&self) -> Set<int> {
        Set::new(|i: int| self.has(i))
    }
}

/// The positions of limb `x`, each raised by `off`.
spec fn raised(x: u128, off: int) -> Set<int> {
    Set::new(|i: int| limb_has(x, i - off))
}

/// Raising the positions of a limb keeps their number.
proof fn lemma_raised_len(x: u128, off: int)
    ensures
        raised(x, off).finite(),
        raised(x, off).len() == limb_cells(x).len(),
{
    let f = |i: int| i + off;
    lemma_limb_cells_bounded(x);
    assert forall|i: int| raised(x, off).contains(i) implies limb_cells(x).map(f).contains(i) by {
        assert(limb_cells(x).contains(i - off) && f(i - off) == i);
    }
    assert(limb_cells(x).map(f) =~= raised(x, off));
    assert(injective_on(f, limb_cells(x)));
    lemma_map_size(limb_cells(x), raised(x, off), f);
}

impl Bitboard {
    /// Whether the bit of field index `i` is set.
    pub open spec fn has(&self, i: int) -> bool {
        if i < 128 {
            limb_has(self.four, i)
        } else if i < 256 {
            limb_has(self.three, i - 128)
        } else if i < 384 {
            limb_has(self.two, i - 256)
        } else {
            limb_has(self.one, i - 384)
        }
    }

    /// The board with no bit set.
    pub open spec fn spec_new() -> Bitboard {
        Bitboard { one: 0, two: 0, three: 0, four: 0 }
    }

    /// The board with the four limbs given, from high to low.
    pub open spec fn spec_from(one: u128, two: u128, three: u128, four: u128) -> Bitboard {
        Bitboard { one, two, three, four }
    }

    /// The number of set bits.
    pub open spec fn spec_count_ones(&self) -> u32 {
        self@.len() as u32
    }

    /// The smallest field index whose bit is set, or 512.
    pub open spec fn spec_trailing_zeros(&self) -> u16 {
        lowest_field(self@) as u16
    }

    /// Whether some bit is set.
    pub open spec fn spec_not_zero(&self) -> bool {
        !self@.is_empty()
    }

    /// The empty board holds no field.
    pub proof fn lemma_new_view()
        ensures
            Bitboard::new()@ == Set::<int>::empty(),
    {
        lemma_limb_zero();
        assert(Bitboard::new()@ =~= Set::<int>::empty());
    }

    /// A board's fields are field indices: at most 512 of them.
    pub proof fn lemma_view_bounded(self)
        ensures
            self@.subset_of(all_fields()),
            self@.finite(),
            self@.len() <= 512,
    {
        lemma_fields_bounded(self@);
    }

    /// Two boards with the same fields are the same board.
    pub proof fn lemma_view_ext(self, other: Bitboard)
        requires
            self@ == other@,
        ensures
            self == other,
    {
        assert forall|i: int| 0 <= i < 128 implies limb_has(self.four, i) == limb_has(
            other.four,
            i,
        ) by {
            assert(self@.contains(i) == self.has(i));
            assert(other@.contains(i) == other.has(i));
        }
        assert forall|i: int| 0 <= i < 128 implies limb_has(self.three, i) == limb_has(
            other.three,
            i,
        ) by {
            assert(self@.contains(i + 128) == self.has(i + 128));
            assert(other@.contains(i + 128) == other.has(i + 128));
        }
        assert forall|i: int| 0 <= i < 128 implies limb_has(self.two, i) == limb_has(
            other.two,
            i,
        ) by {
            assert(self@.contains(i + 256) == self.has(i + 256));
            assert(other@.contains(i + 256) == other.has(i + 256));
        }
        assert forall|i: int| 0 <= i < 128 implies limb_has(self.one, i) == limb_has(
            other.one,
            i,
        ) by {
            assert(self@.contains(i + 384) == self.has(i + 384));
            assert(other@.contains(i + 384) == other.has(i + 384));
        }
        lemma_limb_ext(self.four, other.four);
        lemma_limb_ext(self.three, other.three);
        lemma_limb_ext(self.two, other.two);
        lemma_limb_ext(self.one, other.one);
    }

    /// The number of fields is the sum of the limbs' numbers of set bits.
    pub proof fn lemma_view_len(self)
        ensures
            self@.len() == limb_cells(self.one).len() + limb_cells(self.two).len() + limb_cells(
                self.three,
            ).len() + limb_cells(self.four).len(),
    {
        let d = raised(self.four, 0);
        let c = raised(self.three, 128);
        let b = raised(self.two, 256);
        let a = raised(self.one, 384);
        lemma_raised_len(self.four, 0);
        lemma_raised_len(self.three, 128);
        lemma_raised_len(self.two, 256);
        lemma_raised_len(self.one, 384);
        lemma_set_disjoint_lens(d, c);
        lemma_set_disjoint_lens(d + c, b);
        lemma_set_disjoint_lens(d + c + b, a);
        assert(d.disjoint(c));
        assert((d + c).disjoint(b));
        assert((d + c + b).disjoint(a));
        assert(self@ =~= d + c + b + a);
    }

    /// The empty board.
    #[verifier::when_used_as_spec(spec_new)]
    pub fn new() -> (b: Bitboard)
        ensures
            b == Bitboard::spec_new(),
            b@ == Set::<int>::empty(),
    {
        proof {
            Bitboard::lemma_new_view();
        }
        Bitboard { one: 0, two: 0, three: 0, four: 0 }
    }

    /// The board made of four limbs, given from high to low: `one` holds
    /// field indices 384 to 511, `four` holds 0 to 127.
    #[verifier::when_used_as_spec(spec_from)]
    pub fn from(one: u128, two: u128, three: u128, four: u128) -> (b: Bitboard)
        ensures
            b == Bitboard::spec_from(one, two, three, four),
            forall|i: int| 0 <= i < 128 ==> b@.contains(i) == limb_has(four, i),
            forall|i: int| 128 <= i < 256 ==> b@.contains(i) == limb_has(three, i - 128),
            forall|i: int| 256 <= i < 384 ==> b@.contains(i) == limb_has(two, i - 256),
            forall|i: int| 384 <= i < 512 ==> b@.contains(i) == limb_has(one, i - 384),
    {
        Bitboard { one, two, three, four }
    }

    /// The number of set bits: how many fields the board holds.
    #[verifier::when_used_as_spec(spec_count_ones)]
    pub fn count_ones(&self) -> (n: u32)
        ensures
            n == self@.len(),
            n == self.spec_count_ones(),
            n == limb_cells(self.one).len() + limb_cells(self.two).len() + limb_cells(
                self.three,
            ).len() + limb_cells(self.four).len(),
            n <= 512,
    {
        proof {
            self.lemma_view_len();
            self.lemma_view_bounded();
            lemma_limb_cells_bounded(self.one);
            lemma_limb_cells_bounded(self.two);
            lemma_limb_cells_bounded(self.three);
            lemma_limb_cells_bounded(self.four);
        }
        self.one.count_ones() + self.two.count_ones() + self.three.count_ones()
            + self.four.count_ones()
    }

    /// The smallest field index whose bit is set, or 512 for the empty
    /// board. The limbs are scanned from the lowest to the highest.
    #[verifier::when_used_as_spec(spec_trailing_zeros)]
    pub fn trailing_zeros(&self) -> (n: u16)
        ensures
            n == lowest_field(self@),
            n == self.spec_trailing_zeros(),
            n == 512 <==> self@.is_empty(),
            n != 512 ==> is_lowest(self@, n as int),
    {
        proof {
            lemma_limb_zero();
        }
        if self.four != 0 {
            let t = self.four.trailing_zeros();
            proof {
                assert(self@.contains(t as int));
                lemma_lowest_field(self@, t as int);
            }
            return t as u16;
        }
        if self.three != 0 {
            let t = self.three.trailing_zeros();
            proof {
                assert(self@.contains(t + 128));
                lemma_lowest_field(self@, t + 128);
            }
            return t as u16 + 128;
        }
        if self.two != 0 {
            let t = self.two.trailing_zeros();
            proof {
                assert(self@.contains(t + 256));
                lemma_lowest_field(self@, t + 256);
            }
            return t as u16 + 256;
        }
        if self.one != 0 {
            let t = self.one.trailing_zeros();
            proof {
                assert(self@.contains(t + 384));
                lemma_lowest_field(self@, t + 384);
            }
            return t as u16 + 384;
        }
        proof {
            assert(self@ =~= Set::<int>::empty());
        }
        FIELD_COUNT
    }

    /// Whether some bit is set.
    #[verifier::when_used_as_spec(spec_not_zero)]
    pub fn not_zero(&self) -> (r: bool)
        ensures
            r == !self@.is_empty(),
            r == self.spec_not_zero(),
            r == (*self != Bitboard::spec_new()),
    {
        proof {
            lemma_limb_zero();
            lemma_limb_nonzero(self.one);
            lemma_limb_nonzero(self.two);
            lemma_limb_nonzero(self.three);
            lemma_limb_nonzero(self.four);
            if self.one != 0 {
                let i = choose|i: int| limb_has(self.one, i);
                assert(self@.contains(i + 384));
            } else if self.two != 0 {
                let i = choose|i: int| limb_has(self.two, i);
                assert(self@.contains(i + 256));
            } else if self.three != 0 {
                let i = choose|i: int| limb_has(self.three, i);
                assert(self@.contains(i + 128));
            } else if self.four != 0 {
                let i = choose|i: int| limb_has(self.four, i);
                assert(self@.contains(i));
            } else {
                assert(self@ =~= Set::<int>::empty());
            }
        }
        self.one != 0 || self.two != 0 || self.three != 0 || self.four != 0
    }
}

/// The limbs of the playable mask hold the playable cells.
proof fn lemma_valid_limbs()
    ensures
        forall|i: int| #[trigger] limb_has(VALID_FIELDS_D, i) == (0 <= i < 128 && i % 21 != 20),
        forall|i: int| #[trigger]
            limb_has(VALID_FIELDS_C, i) == (0 <= i < 128 && (i + 128) % 21 != 20),
        forall|i: int| #[trigger]
            limb_has(VALID_FIELDS_B, i) == (0 <= i < 128 && (i + 256) % 21 != 20),
        forall|i: int| #[trigger]
            limb_has(VALID_FIELDS_A, i) == (0 <= i < 36 && (i + 384) % 21 != 20),
{
    assert forall|i: int| #[trigger]
        limb_has(VALID_FIELDS_D, i) == (0 <= i < 128 && i % 21 != 20) by {
        if 0 <= i < 128 {
            let j = i as u128;
            assert(((VALID_FIELDS_D >> j) & 1 == 1) == (j % 21 != 20)) by (bit_vector)
                requires
                    j < 128,
            ;
        }
    }
    assert forall|i: int| #[trigger]
        limb_has(VALID_FIELDS_C, i) == (0 <= i < 128 && (i + 128) % 21 != 20) by {
        if 0 <= i < 128 {
            let j = i as u128;
            assert(((VALID_FIELDS_C >> j) & 1 == 1) == ((j + 128) % 21 != 20)) by (bit_vector)
                requires
                    j < 128,
            ;
        }
    }
    assert forall|i: int| #[trigger]
        limb_has(VALID_FIELDS_B, i) == (0 <= i < 128 && (i + 256) % 21 != 20) by {
        if 0 <= i < 128 {
            let j = i as u128;
            assert(((VALID_FIELDS_B >> j) & 1 == 1) == ((j + 256) % 21 != 20)) by (bit_vector)
                requires
                    j < 128,
            ;
        }
    }
    assert forall|i: int| #[trigger]
        limb_has(VALID_FIELDS_A, i) == (0 <= i < 36 && (i + 384) % 21 != 20) by {
        if 0 <= i < 128 {
            let j = i as u128;
            assert(((VALID_FIELDS_A >> j) & 1 == 1) == (j < 36 && (j + 384) % 21 != 20))
                by (bit_vector)
                requires
                    j < 128,
            ;
        }
    }
}

/// The playable mask as a board value.
pub open spec fn spec_valid_fields() -> Bitboard {
    Bitboard {
        one: VALID_FIELDS_A,
        two: VALID_FIELDS_B,
        three: VALID_FIELDS_C,
        four: VALID_FIELDS_D,
    }
}

/// The playable mask holds exactly the playable cells.
pub proof fn lemma_valid_fields()
    ensures
        spec_valid_fields()@ == playable_fields(),
{
    lemma_valid_limbs();
    assert(spec_valid_fields()@ =~= playable_fields());
}

/// The mask of the playable cells. A board that stands for a position has
/// no bit outside it.
#[verifier::when_used_as_spec(spec_valid_fields)]
pub fn valid_fields() -> (b: Bitboard)
    ensures
        b == spec_valid_fields(),
        b@ == playable_fields(),
{
    proof {
        lemma_valid_fields();
    }
    Bitboard {
        one: VALID_FIELDS_A,
        two: VALID_FIELDS_B,
        three: VALID_FIELDS_C,
        four: VALID_FIELDS_D,
    }
}

} // verus!
