//! Sets of field indices: the mathematical model of a board.
//!
//! A board stands for the set of the field indices whose bit is set. The
//! functions here say, on such sets, what the board operations compute.

use vstd::prelude::*;
use vstd::set_lib::*;

verus! {

/// Number of field indices that a board addresses.
pub const FIELD_COUNT: u16 = 512;

/// Distance in field indices between a cell and the cell above it: a row
/// holds 20 playable cells and one padding position.
pub const ROW_WIDTH: u8 = 21;

/// Every field index: 0 to 511.
pub open spec fn all_fields() -> Set<int> {
    set_int_range(0, 512)
}

/// The playable cells: 20 rows of 20 cells, a row every 21 indices.
pub open spec fn playable_fields() -> Set<int> {
    Set::new(|i: int| 0 <= i < 420 && i % 21 != 20)
}

/// The set `s` with every index moved by `k`. An index that would leave
/// `0..512` is dropped.
pub open spec fn shifted(s: Set<int>, k: int) -> Set<int> {
    Set::new(|i: int| 0 <= i < 512 && s.contains(i - k))
}

/// Whether `m` is in `s` and no index of `s` is below it.
pub open spec fn is_lowest(s: Set<int>, m: int) -> bool {
    s.contains(m) && forall|j: int| s.contains(j) ==> m <= j
}

/// The smallest index of `s`, or 512 where `s` is empty.
pub open spec fn lowest_field(s: Set<int>) -> int {
    if s.is_empty() {
        512
    } else {
        choose|m: int| is_lowest(s, m)
    }
}

/// The fields next to a field of `s` in its row or its column, as far as
/// they are playable.
pub open spec fn neighbour_fields(s: Set<int>) -> Set<int> {
    shifted(s, 1).union(shifted(s, -1)).union(shifted(s, -21)).union(shifted(s, 21)).intersect(
        playable_fields(),
    )
}

/// The fields diagonally next to a field of `s`, as far as they are
/// playable.
pub open spec fn diagonal_fields(s: Set<int>) -> Set<int> {
    shifted(s, 22).union(shifted(s, -22)).union(shifted(s, -20)).union(shifted(s, 20)).intersect(
        playable_fields(),
    )
}

/// A set of field indices is finite and has at most 512 elements.
pub proof fn lemma_fields_bounded(s: Set<int>)
    requires
        s.subset_of(all_fields()),
    ensures
        s.finite(),
        s.len() <= 512,
{
    lemma_int_range(0, 512);
    lemma_len_subset(s, all_fields());
}

/// `lowest_field` is the one index that `is_lowest` admits.
pub proof fn lemma_lowest_field(s: Set<int>, m: int)
    requires
        is_lowest(s, m),
    ensures
        lowest_field(s) == m,
{
    let c = choose|c: int| is_lowest(s, c);
    assert(is_lowest(s, c));
    assert(c <= m && m <= c);
}

/// A set with an index below `bound`, and none below zero, has a lowest
/// index.
proof fn lemma_lowest_below(s: Set<int>, bound: int)
    requires
        forall|i: int| s.contains(i) ==> 0 <= i,
        exists|i: int| s.contains(i) && i < bound,
    ensures
        exists|m: int| is_lowest(s, m),
    decreases bound,
{
    let e = choose|i: int| s.contains(i) && i < bound;
    if exists|i: int| s.contains(i) && i < e {
        lemma_lowest_below(s, e);
    } else {
        assert(is_lowest(s, e));
    }
}

/// A set of field indices that is not empty has a lowest field, and
/// `lowest_field` is that field.
pub proof fn lemma_lowest_exists(s: Set<int>)
    requires
        s.subset_of(all_fields()),
        !s.is_empty(),
    ensures
        is_lowest(s, lowest_field(s)),
        0 <= lowest_field(s) < 512,
{
    let e = choose|i: int| s.contains(i);
    assert(s.contains(e)) by {
        if forall|i: int| !s.contains(i) {
            assert(s =~= Set::<int>::empty());
        }
    }
    assert(all_fields().contains(e));
    lemma_lowest_below(s, 512);
}

/// Moving by `a` and then by `b` is moving by `a + b`, where the first
/// move drops nothing.
pub proof fn lemma_shifted_twice(s: Set<int>, a: int, b: int)
    requires
        forall|c: int| s.contains(c) ==> 0 <= c + a < 512,
    ensures
        shifted(shifted(s, a), b) == shifted(s, a + b),
{
    assert forall|i: int| shifted(shifted(s, a), b).contains(i) == shifted(s, a + b).contains(
        i,
    ) by {
        assert(i - b - a == i - (a + b));
    }
    assert(shifted(shifted(s, a), b) =~= shifted(s, a + b));
}

/// Moving a set of field indices by zero changes nothing.
pub proof fn lemma_shifted_zero(s: Set<int>)
    requires
        s.subset_of(all_fields()),
    ensures
        shifted(s, 0) == s,
{
    assert(shifted(s, 0) =~= s);
}

/// Moving a single field `f` by `k` gives the single field `f + k`, or
/// nothing where `f + k` is no field index.
pub proof fn lemma_shifted_single(f: int, k: int)
    ensures
        shifted(set![f], k) == if 0 <= f + k < 512 {
            set![f + k]
        } else {
            Set::<int>::empty()
        },
{
    if 0 <= f + k < 512 {
        assert(shifted(set![f], k) =~= set![f + k]);
    } else {
        assert(shifted(set![f], k) =~= Set::<int>::empty());
    }
}

} // verus!
