//! Sets of small numbers, kept by the `bit-set` crate as one bit for each number.
//!
//! Nothing in this file is proved: each function makes one call into the
//! crate, and its contract says what the crate's source shows of the call.

use vstd::prelude::*;

verus! {

/// `bit_set::BitSet`, a set of `usize`. Its inside is not visible here.
#[verifier::external_type_specification]
#[verifier::external_body]
#[verifier::reject_recursive_types(B)]
pub struct ExBitSet<B>(bit_set::BitSet<B>);

/// The numbers that a bit set holds.
pub uninterp spec fn bit_set_members(set: bit_set::BitSet<u32>) -> Set<usize>;

/// Calls `bit_set::BitSet::with_capacity`, which makes a set with no
/// member and room for the numbers below `nbits`.
#[verifier::external_body]
pub(crate) fn bits_with_capacity(nbits: usize) -> (set: bit_set::BitSet<u32>)
    ensures
        bit_set_members(set) == Set::<usize>::empty(),
{
    bit_set::BitSet::with_capacity(nbits)
}

/// Calls `bit_set::BitSet::insert`, which adds the number and says whether
/// it was new. The crate grows the set to `value + 1` bits and panics where
/// that count overflows, so the largest `usize` is left out.
#[verifier::external_body]
pub(crate) fn bits_insert(set: &mut bit_set::BitSet<u32>, value: usize) -> (added: bool)
    requires
        value < usize::MAX,
    ensures
        bit_set_members(*final(set)) == bit_set_members(*old(set)).insert(value),
        added == !bit_set_members(*old(set)).contains(value),
{
    set.insert(value)
}

/// Calls `bit_set::BitSet::remove`, which takes the number out and says
/// whether it was there.
#[verifier::external_body]
pub(crate) fn bits_remove(set: &mut bit_set::BitSet<u32>, value: usize) -> (removed: bool)
    ensures
        bit_set_members(*final(set)) == bit_set_members(*old(set)).remove(value),
        removed == bit_set_members(*old(set)).contains(value),
{
    set.remove(value)
}

/// Calls `bit_set::BitSet::contains`.
#[verifier::external_body]
pub(crate) fn bits_contains(set: &bit_set::BitSet<u32>, value: usize) -> (found: bool)
    ensures
        found == bit_set_members(*set).contains(value),
{
    set.contains(value)
}

/// Calls `bit_set::BitSet::clear`, which takes every number out.
#[verifier::external_body]
pub(crate) fn bits_clear(set: &mut bit_set::BitSet<u32>)
    ensures
        bit_set_members(*final(set)) == Set::<usize>::empty(),
{
    set.clear()
}

} // verus!
