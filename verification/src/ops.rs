//! Bitwise combination and shifts of boards.
//!
//! Each operator has a limb-wise definition (`spec_bitand`, `spec_shl`, ...)
//! and a lemma that says what it does to the set of fields.
//!
//! Verified callers write `a & b`, `a | b`, `a ^ b`, `a << n` and `a >> n`
//! as usual. For `!a` and for the assigning forms they call the method
//! (`a.not()`, `a.bitand_assign(b)`, ...): Verus does not take those
//! operators on a struct.

use crate::bitboard::Bitboard;
use crate::fields::{all_fields, shifted};
use crate::limb::{
    lemma_limb_and, lemma_limb_not, lemma_limb_or, lemma_limb_shl, lemma_limb_shl_carry,
    lemma_limb_shr, lemma_limb_shr_carry, lemma_limb_xor,
};
use std::ops::{
    BitAnd, BitAndAssign, BitOr, BitOrAssign, BitXor, BitXorAssign, Not, Shl, ShlAssign, Shr,
    ShrAssign,
};
use vstd::prelude::*;
use vstd::std_specs::ops::{
    BitAndSpecImpl, BitOrSpecImpl, BitXorSpecImpl, NotSpecImpl, ShlSpecImpl, ShrSpecImpl,
};

verus! {

impl Bitboard {
    /// Limb-wise `&`.
    pub open spec fn spec_bitand(self, other: Bitboard) -> Bitboard {
        Bitboard {
            one: self.one & other.one,
            two: self.two & other.two,
            three: self.three & other.three,
            four: self.four & other.four,
        }
    }

    /// Limb-wise `|`.
    pub open spec fn spec_bitor(self, other: Bitboard) -> Bitboard {
        Bitboard {
            one: self.one | other.one,
            two: self.two | other.two,
            three: self.three | other.three,
            four: self.four | other.four,
        }
    }

    /// Limb-wise `^`.
    pub open spec fn spec_bitxor(self, other: Bitboard) -> Bitboard {
        Bitboard {
            one: self.one ^ other.one,
            two: self.two ^ other.two,
            three: self.three ^ other.three,
            four: self.four ^ other.four,
        }
    }

    /// Limb-wise `!`.
    pub open spec fn spec_not(self) -> Bitboard {
        Bitboard { one: !self.one, two: !self.two, three: !self.three, four: !self.four }
    }

    /// The four limbs shifted left by `n` as one 512-bit value: each limb
    /// takes its low `n` bits from the top of the limb below it.
    pub open spec fn spec_shl(self, n: u8) -> Bitboard {
        Bitboard {
            one: (self.one << n) | (self.two >> ((128 - n) as u8)),
            two: (self.two << n) | (self.three >> ((128 - n) as u8)),
            three: (self.three << n) | (self.four >> ((128 - n) as u8)),
            four: self.four << n,
        }
    }

    /// The four limbs shifted right by `n` as one 512-bit value: each limb
    /// takes its high `n` bits from the bottom of the limb above it.
    pub open spec fn spec_shr(self, n: u8) -> Bitboard {
        Bitboard {
            one: self.one >> n,
            two: (self.two >> n) | (self.one << ((128 - n) as u8)),
            three: (self.three >> n) | (self.two << ((128 - n) as u8)),
            four: (self.four >> n) | (self.three << ((128 - n) as u8)),
        }
    }

    /// `&` keeps the fields that both boards hold.
    pub proof fn lemma_and_view(self, other: Bitboard)
        ensures
            (self & other)@ == self@.intersect(other@),
    {
        lemma_limb_and(self.one, other.one);
        lemma_limb_and(self.two, other.two);
        lemma_limb_and(self.three, other.three);
        lemma_limb_and(self.four, other.four);
        assert((self & other)@ =~= self@.intersect(other@));
    }

    /// `|` keeps the fields that either board holds.
    pub proof fn lemma_or_view(self, other: Bitboard)
        ensures
            (self | other)@ == self@.union(other@),
    {
        lemma_limb_or(self.one, other.one);
        lemma_limb_or(self.two, other.two);
        lemma_limb_or(self.three, other.three);
        lemma_limb_or(self.four, other.four);
        assert((self | other)@ =~= self@.union(other@));
    }

    /// `^` keeps the fields that exactly one of the boards holds.
    pub proof fn lemma_xor_view(self, other: Bitboard)
        ensures
            (self ^ other)@ == self@.union(other@).difference(self@.intersect(other@)),
    {
        lemma_limb_xor(self.one, other.one);
        lemma_limb_xor(self.two, other.two);
        lemma_limb_xor(self.three, other.three);
        lemma_limb_xor(self.four, other.four);
        assert((self ^ other)@ =~= self@.union(other@).difference(self@.intersect(other@)));
    }

    /// `!` keeps the field indices that the board does not hold.
    pub proof fn lemma_not_view(self)
        ensures
            self.spec_not()@ == all_fields().difference(self@),
    {
        lemma_limb_not(self.one);
        lemma_limb_not(self.two);
        lemma_limb_not(self.three);
        lemma_limb_not(self.four);
        assert(self.spec_not()@ =~= all_fields().difference(self@));
    }

    /// `<<` moves every field up by `n`; a field that would pass 511 is
    /// dropped.
    pub proof fn lemma_shl_view(self, n: u8)
        requires
            1 <= n <= 127,
        ensures
            (self << n)@ == shifted(self@, n as int),
    {
        lemma_limb_shl_carry(self.one, self.two, n);
        lemma_limb_shl_carry(self.two, self.three, n);
        lemma_limb_shl_carry(self.three, self.four, n);
        lemma_limb_shl(self.four, n);
        assert((self << n)@ =~= shifted(self@, n as int));
    }

    /// `>>` moves every field down by `n`; a field that would pass 0 is
    /// dropped.
    pub proof fn lemma_shr_view(self, n: u8)
        requires
            1 <= n <= 127,
        ensures
            (self >> n)@ == shifted(self@, -(n as int)),
    {
        lemma_limb_shr(self.one, n);
        lemma_limb_shr_carry(self.two, self.one, n);
        lemma_limb_shr_carry(self.three, self.two, n);
        lemma_limb_shr_carry(self.four, self.three, n);
        assert((self >> n)@ =~= shifted(self@, -(n as int)));
    }
}

impl BitAndSpecImpl for Bitboard {
    open spec fn obeys_bitand_spec() -> bool {
        true
    }

    open spec fn bitand_req(self, other: Bitboard) -> bool {
        true
    }

    open spec fn bitand_spec(self, other: Bitboard) -> Bitboard {
        self.spec_bitand(other)
    }
}

impl BitAnd for Bitboard {
    type Output = Bitboard;

    /// The fields that both boards hold.
    fn bitand(self, other: Bitboard) -> (r: Bitboard)
        ensures
            r == self.spec_bitand(other),
            r@ == self@.intersect(other@),
    {
        proof {
            self.lemma_and_view(other);
        }
        Bitboard {
            one: self.one & other.one,
            two: self.two & other.two,
            three: self.three & other.three,
            four: self.four & other.four,
        }
    }
}

impl BitAndAssign for Bitboard {
    /// Keeps in `self` the fields that `other` holds too.
    fn bitand_assign(&mut self, other: Bitboard)
        ensures
            *final(self) == old(self).spec_bitand(other),
            final(self)@ == old(self)@.intersect(other@),
    {
        proof {
            self.lemma_and_view(other);
        }
        self.one &= other.one;
        self.two &= other.two;
        self.three &= other.three;
        self.four &= other.four;
    }
}

impl BitOrSpecImpl for Bitboard {
    open spec fn obeys_bitor_spec() -> bool {
        true
    }

    open spec fn bitor_req(self, other: Bitboard) -> bool {
        true
    }

    open spec fn bitor_spec(self, other: Bitboard) -> Bitboard {
        self.spec_bitor(other)
    }
}

impl BitOr for Bitboard {
    type Output = Bitboard;

    /// The fields that either board holds.
    fn bitor(self, other: Bitboard) -> (r: Bitboard)
        ensures
            r == self.spec_bitor(other),
            r@ == self@.union(other@),
    {
        proof {
            self.lemma_or_view(other);
        }
        Bitboard {
            one: self.one | other.one,
            two: self.two | other.two,
            three: self.three | other.three,
            four: self.four | other.four,
        }
    }
}

impl BitOrAssign for Bitboard {
    /// Adds to `self` the fields that `other` holds.
    fn bitor_assign(&mut self, other: Bitboard)
        ensures
            *final(self) == old(self).spec_bitor(other),
            final(self)@ == old(self)@.union(other@),
    {
        proof {
            self.lemma_or_view(other);
        }
        self.one |= other.one;
        self.two |= other.two;
        self.three |= other.three;
        self.four |= other.four;
    }
}

impl BitXorSpecImpl for Bitboard {
    open spec fn obeys_bitxor_spec() -> bool {
        true
    }

    open spec fn bitxor_req(self, other: Bitboard) -> bool {
        true
    }

    open spec fn bitxor_spec(self, other: Bitboard) -> Bitboard {
        self.spec_bitxor(other)
    }
}

impl BitXor for Bitboard {
    type Output = Bitboard;

    /// The fields that exactly one of the boards holds.
    fn bitxor(self, other: Bitboard) -> (r: Bitboard)
        ensures
            r == self.spec_bitxor(other),
            r@ == self@.union(other@).difference(self@.intersect(other@)),
    {
        proof {
            self.lemma_xor_view(other);
        }
        Bitboard {
            one: self.one ^ other.one,
            two: self.two ^ other.two,
            three: self.three ^ other.three,
            four: self.four ^ other.four,
        }
    }
}

impl BitXorAssign for Bitboard {
    /// Flips in `self` the fields that `other` holds.
    fn bitxor_assign(&mut self, other: Bitboard)
        ensures
            *final(self) == old(self).spec_bitxor(other),
            final(self)@ == old(self)@.union(other@).difference(old(self)@.intersect(other@)),
    {
        proof {
            self.lemma_xor_view(other);
        }
        self.one ^= other.one;
        self.two ^= other.two;
        self.three ^= other.three;
        self.four ^= other.four;
    }
}

impl NotSpecImpl for Bitboard {
    open spec fn obeys_not_spec() -> bool {
        true
    }

    open spec fn not_req(self) -> bool {
        true
    }

    open spec fn not_spec(self) -> Bitboard {
        self.spec_not()
    }
}

impl Not for Bitboard {
    type Output = Bitboard;

    /// The field indices, of all 512, that the board does not hold.
    fn not(self) -> (r: Bitboard)
        ensures
            r == self.spec_not(),
            r@ == all_fields().difference(self@),
    {
        proof {
            self.lemma_not_view();
        }
        Bitboard { one: !self.one, two: !self.two, three: !self.three, four: !self.four }
    }
}

impl ShlSpecImpl<u8> for Bitboard {
    open spec fn obeys_shl_spec() -> bool {
        true
    }

    open spec fn shl_req(self, n: u8) -> bool {
        1 <= n <= 127
    }

    open spec fn shl_spec(self, n: u8) -> Bitboard {
        self.spec_shl(n)
    }
}

impl Shl<u8> for Bitboard {
    type Output = Bitboard;

    /// The board shifted left by `n`, `1 <= n <= 127`, as one 512-bit
    /// value: every field moves up by `n`.
    fn shl(self, n: u8) -> (r: Bitboard)
        ensures
            r == self.spec_shl(n),
            r@ == shifted(self@, n as int),
    {
        proof {
            self.lemma_shl_view(n);
        }
        Bitboard {
            one: (self.one << n) | (self.two >> (128 - n)),
            two: (self.two << n) | (self.three >> (128 - n)),
            three: (self.three << n) | (self.four >> (128 - n)),
            four: self.four << n,
        }
    }
}

impl ShlAssign<u8> for Bitboard {
    /// Shifts `self` left by `n` as one 512-bit value.
    fn shl_assign(&mut self, n: u8)
        requires
            1 <= n <= 127,
        ensures
            *final(self) == old(self).spec_shl(n),
            final(self)@ == shifted(old(self)@, n as int),
    {
        proof {
            self.lemma_shl_view(n);
        }
        self.one = (self.one << n) | (self.two >> (128 - n));
        self.two = (self.two << n) | (self.three >> (128 - n));
        self.three = (self.three << n) | (self.four >> (128 - n));
        self.four = self.four << n;
    }
}

impl ShrSpecImpl<u8> for Bitboard {
    open spec fn obeys_shr_spec() -> bool {
        true
    }

    open spec fn shr_req(self, n: u8) -> bool {
        1 <= n <= 127
    }

    open spec fn shr_spec(self, n: u8) -> Bitboard {
        self.spec_shr(n)
    }
}

impl Shr<u8> for Bitboard {
    type Output = Bitboard;

    /// The board shifted right by `n`, `1 <= n <= 127`, as one 512-bit
    /// value: every field moves down by `n`.
    fn shr(self, n: u8) -> (r: Bitboard)
        ensures
            r == self.spec_shr(n),
            r@ == shifted(self@, -(n as int)),
    {
        proof {
            self.lemma_shr_view(n);
        }
        Bitboard {
            one: self.one >> n,
            two: (self.two >> n) | (self.one << (128 - n)),
            three: (self.three >> n) | (self.two << (128 - n)),
            four: (self.four >> n) | (self.three << (128 - n)),
        }
    }
}

impl ShrAssign<u8> for Bitboard {
    /// Shifts `self` right by `n` as one 512-bit value.
    fn shr_assign(&mut self, n: u8)
        requires
            1 <= n <= 127,
        ensures
            *final(self) == old(self).spec_shr(n),
            final(self)@ == shifted(old(self)@, -(n as int)),
    {
        proof {
            self.lemma_shr_view(n);
        }
        self.four = (self.four >> n) | (self.three << (128 - n));
        self.three = (self.three >> n) | (self.two << (128 - n));
        self.two = (self.two >> n) | (self.one << (128 - n));
        self.one >>= n;
    }
}

} // verus!
