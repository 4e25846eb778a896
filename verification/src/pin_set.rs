//! The index set behind the pin registry, kept in a `bit_set::BitSet` and
//! described to the verifier through a handful of trusted wrappers whose
//! contracts speak of the set's mathematical contents.

use vstd::prelude::*;

verus! {

/// Physical pin indices run from 0 to one below this bound.
pub const PIN_COUNT: usize = 8;

/// An integer set stored as a `bit_set::BitSet`. The verifier sees the
/// value only through [`pin_set_contents`] and the wrappers below.
#[verifier::external_body]
pub struct PinSet {
    inner: bit_set::BitSet,
}

/// The set of indices stored in a [`PinSet`].
pub uninterp spec fn pin_set_contents(s: PinSet) -> Set<usize>;

/// Relies on `bit_set::BitSet::new`: a freshly created set contains
/// nothing.
#[verifier::external_body]
pub(crate) fn pin_set_new() -> (r: PinSet)
    ensures
        pin_set_contents(r) == Set::<usize>::empty(),
{
    PinSet { inner: bit_set::BitSet::new() }
}

/// Relies on `bit_set::BitSet::contains`: membership of one index.
#[verifier::external_body]
pub(crate) fn pin_set_contains(s: &PinSet, value: usize) -> (r: bool)
    ensures
        r == pin_set_contents(*s).contains(value),
{
    s.inner.contains(value)
}

/// Relies on `bit_set::BitSet::insert`: adds the value to the set and
/// reports whether it was absent before the call. Inserting grows the
/// backing bit vector to `value` bits, so the index is kept inside the
/// pin range.
#[verifier::external_body]
pub(crate) fn pin_set_insert(s: &mut PinSet, value: usize) -> (r: bool)
    requires
        value < PIN_COUNT,
    ensures
        pin_set_contents(*final(s)) == pin_set_contents(*old(s)).insert(value),
        r == !pin_set_contents(*old(s)).contains(value),
{
    s.inner.insert(value)
}

/// Relies on `bit_set::BitSet::remove`: takes the value out of the set and
/// reports whether it was present before the call.
#[verifier::external_body]
pub(crate) fn pin_set_remove(s: &mut PinSet, value: usize) -> (r: bool)
    ensures
        pin_set_contents(*final(s)) == pin_set_contents(*old(s)).remove(value),
        r == pin_set_contents(*old(s)).contains(value),
{
    s.inner.remove(value)
}

} // verus!
