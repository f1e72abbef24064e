//! The limit that the allocator sets on the size of a vector, and the
//! capacity operations of `Vec` that depend on it.

use vstd::layout::size_of;
use vstd::prelude::*;

verus! {

/// Whether a vector that holds `len` elements of type `T` can make room for
/// `additional` more: no vector has more than `usize::MAX` elements, and in
/// bytes none is larger than `isize::MAX`.
pub open spec fn can_reserve<T>(len: nat, additional: nat) -> bool {
    &&& len + additional <= usize::MAX
    &&& (len + additional) * size_of::<T>() <= isize::MAX
}

/// Tells whether a vector that holds `len` elements of type `T` can make room
/// for `additional` more.
pub fn reservable<T>(len: usize, additional: usize) -> (fits: bool)
    ensures
        fits == can_reserve::<T>(len as nat, additional as nat),
{
    let size = core::mem::size_of::<T>();
    match len.checked_add(additional) {
        None => false,
        Some(total) => match total.checked_mul(size) {
            None => false,
            Some(bytes) => bytes <= isize::MAX as usize,
        },
    }
}

/// Calls `Vec::reserve_exact`, which makes room for `additional` more
/// elements and leaves the elements as they are. It panics where the new
/// capacity overflows `usize` or, in bytes, exceeds `isize::MAX`, which
/// `requires` rules out.
#[verifier::external_body]
pub(crate) fn reserve_exact<T>(v: &mut Vec<T>, additional: usize)
    requires
        can_reserve::<T>(old(v)@.len(), additional as nat),
    ensures
        final(v)@ == old(v)@,
{
    v.reserve_exact(additional)
}

/// Calls `Vec::shrink_to_fit`, which gives back unused capacity and leaves
/// the elements as they are.
#[verifier::external_body]
pub(crate) fn shrink_to_fit<T>(v: &mut Vec<T>)
    ensures
        final(v)@ == old(v)@,
{
    v.shrink_to_fit()
}

} // verus!
