//! Fixed-capacity vectors from `arrayvec`, as the processors use them: a
//! two-byte operand latch and a sixteen-entry return stack.
use arrayvec::ArrayVec;
use vstd::prelude::*;

verus! {

#[verifier::external_type_specification]
#[verifier::external_body]
#[verifier::reject_recursive_types(T)]
pub struct ExArrayVec<T, const CAP: usize>(ArrayVec<T, CAP>);

/// What a two-byte latch holds, first pushed first.
pub uninterp spec fn latch_contents(v: ArrayVec<u8, 2>) -> Seq<u8>;

/// An empty latch (`ArrayVec::new`).
#[verifier::external_body]
pub(crate) fn latch_new() -> (r: ArrayVec<u8, 2>)
    ensures
        latch_contents(r) == Seq::<u8>::empty(),
{
    ArrayVec::new()
}

/// Number of bytes in the latch (`ArrayVec::len`); never more than its capacity.
#[verifier::external_body]
pub(crate) fn latch_len(v: &ArrayVec<u8, 2>) -> (r: usize)
    ensures
        r == latch_contents(*v).len(),
        r <= 2,
{
    v.len()
}

/// Appends a byte (`ArrayVec::push`), which panics on a full latch.
#[verifier::external_body]
pub(crate) fn latch_push(v: &mut ArrayVec<u8, 2>, byte: u8)
    requires
        latch_contents(*old(v)).len() < 2,
    ensures
        latch_contents(*final(v)) == latch_contents(*old(v)).push(byte),
{
    v.push(byte)
}

/// Empties the latch (`ArrayVec::clear`).
#[verifier::external_body]
pub(crate) fn latch_clear(v: &mut ArrayVec<u8, 2>)
    ensures
        latch_contents(*final(v)) == Seq::<u8>::empty(),
{
    v.clear()
}

/// The byte at `index` (slice indexing through `Deref`), which panics out of bounds.
#[verifier::external_body]
pub(crate) fn latch_get(v: &ArrayVec<u8, 2>, index: usize) -> (r: u8)
    requires
        index < latch_contents(*v).len(),
    ensures
        r == latch_contents(*v)[index as int],
{
    v[index]
}

/// What a return stack holds, bottom first.
pub uninterp spec fn stack_contents(v: ArrayVec<u16, 16>) -> Seq<u16>;

/// An empty return stack (`ArrayVec::new`).
#[verifier::external_body]
pub(crate) fn stack_new() -> (r: ArrayVec<u16, 16>)
    ensures
        stack_contents(r) == Seq::<u16>::empty(),
{
    ArrayVec::new()
}

/// Number of entries on the stack (`ArrayVec::len`); never more than its capacity.
#[verifier::external_body]
pub(crate) fn stack_len(v: &ArrayVec<u16, 16>) -> (r: usize)
    ensures
        r == stack_contents(*v).len(),
        r <= 16,
{
    v.len()
}

/// Pushes an entry (`ArrayVec::push`), which panics on a full stack.
#[verifier::external_body]
pub(crate) fn stack_push(v: &mut ArrayVec<u16, 16>, value: u16)
    requires
        stack_contents(*old(v)).len() < 16,
    ensures
        stack_contents(*final(v)) == stack_contents(*old(v)).push(value),
{
    v.push(value)
}

/// Removes and returns the top entry (`ArrayVec::pop`); `None` on an empty
/// stack, which it leaves as it is.
#[verifier::external_body]
pub(crate) fn stack_pop(v: &mut ArrayVec<u16, 16>) -> (r: Option<u16>)
    ensures
        stack_contents(*old(v)).len() == 0 ==> r is None && stack_contents(*final(v))
            == stack_contents(*old(v)),
        stack_contents(*old(v)).len() > 0 ==> r == Some(stack_contents(*old(v)).last())
            && stack_contents(*final(v)) == stack_contents(*old(v)).drop_last(),
{
    v.pop()
}

/// The entry at `index` from the bottom (slice indexing through `Deref`),
/// which panics out of bounds.
#[verifier::external_body]
pub(crate) fn stack_get(v: &ArrayVec<u16, 16>, index: usize) -> (r: u16)
    requires
        index < stack_contents(*v).len(),
    ensures
        r == stack_contents(*v)[index as int],
{
    v[index]
}

} // verus!
