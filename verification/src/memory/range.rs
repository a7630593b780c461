//! Bounds of the inclusive address ranges that memory components are
//! assigned.
use std::ops::RangeInclusive;
use vstd::prelude::*;

verus! {

/// The lower bound of a range (`RangeInclusive::start`).
#[verifier::external_body]
pub(crate) fn range_start(r: &RangeInclusive<usize>) -> (s: usize)
    ensures
        s == r@.start,
{
    *r.start()
}

/// The upper bound of a range (`RangeInclusive::end`).
#[verifier::external_body]
pub(crate) fn range_end(r: &RangeInclusive<usize>) -> (e: usize)
    ensures
        e == r@.end,
{
    *r.end()
}

/// Whether a range holds no address: its bounds are the wrong way round,
/// or it has been iterated to its end (`RangeInclusive::is_empty`).
#[verifier::external_body]
pub(crate) fn range_is_empty(r: &RangeInclusive<usize>) -> (b: bool)
    ensures
        b == (r@.start > r@.end || r@.exhausted),
{
    r.is_empty()
}

/// Number of addresses in a range that holds some.
pub open spec fn range_length(r: RangeInclusive<usize>) -> int {
    r@.end - r@.start + 1
}

} // verus!
