//! The sample buffer: a `VecDeque` driven through the slice operations of
//! `strider`.
//!
//! `strider` offers the same three operations on its own `SliceRingImpl`. That
//! ring loses samples when it has to grow while its contents wrap around the
//! end of its storage, so no contract could say what it holds after an append.
//! The operations on `VecDeque` have no such case.

use std::collections::VecDeque;
use strider::SliceRing;
use vstd::prelude::*;

verus! {

/// Appends `values` to the back of `ring`.
///
/// Calls `strider::SliceRing::push_many_back` on a `VecDeque`, which pushes a
/// copy of each value to the back, in order.
#[verifier::external_body]
pub(crate) fn push_many_back(ring: &mut VecDeque<u64>, values: &[u64])
    ensures
        final(ring)@ == old(ring)@ + values@,
{
    ring.push_many_back(values)
}

/// Removes up to `count` values from the front of `ring`.
///
/// Calls `strider::SliceRing::drop_many_front` on a `VecDeque`, which pops
/// `count` values off the front, or all of them where the ring holds fewer,
/// and returns how many it popped.
#[verifier::external_body]
pub(crate) fn drop_many_front(ring: &mut VecDeque<u64>, count: usize) -> (dropped: usize)
    ensures
        count <= old(ring)@.len() ==> dropped == count,
        count > old(ring)@.len() ==> dropped == old(ring)@.len(),
        final(ring)@ == old(ring)@.skip(dropped as int),
{
    ring.drop_many_front(count)
}

/// Copies the front of `ring` over the front of `output`, without removing it
/// from the ring.
///
/// Calls `strider::SliceRing::read_many_front` on a `VecDeque`, which
/// overwrites the first slots of `output` with the front values of the ring,
/// as many as both hold, leaves the other slots as they are and returns how
/// many it copied.
#[verifier::external_body]
pub(crate) fn read_many_front(ring: &VecDeque<u64>, output: &mut Vec<u64>) -> (copied: usize)
    ensures
        old(output)@.len() <= ring@.len() ==> copied == old(output)@.len(),
        old(output)@.len() > ring@.len() ==> copied == ring@.len(),
        final(output)@ == ring@.take(copied as int) + old(output)@.skip(copied as int),
{
    ring.read_many_front(output.as_mut_slice())
}

} // verus!
