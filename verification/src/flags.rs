//! A bounded vector of eight flags, kept in an `arrayvec::ArrayVec`.
use arrayvec::ArrayVec;
use vstd::prelude::*;

verus! {

#[verifier::external_type_specification]
#[verifier::external_body]
#[verifier::reject_recursive_types(T)]
pub struct ExArrayVec<T, const CAP: usize>(ArrayVec<T, CAP>);

/// The flags that an `ArrayVec` of capacity eight holds, first pushed first.
pub uninterp spec fn flags8_items(v: ArrayVec<bool, 8>) -> Seq<bool>;

/// Calls `ArrayVec::new`, which makes a vector that holds nothing.
#[verifier::external_body]
pub(crate) fn flags8_new() -> (v: ArrayVec<bool, 8>)
    ensures
        flags8_items(v) == Seq::<bool>::empty(),
{
    ArrayVec::new()
}

/// Calls `ArrayVec::push`, which appends `x` after the flags already held.
/// It panics on a full vector, so the vector must have room.
#[verifier::external_body]
pub(crate) fn flags8_push(v: &mut ArrayVec<bool, 8>, x: bool)
    requires
        flags8_items(*old(v)).len() < 8,
    ensures
        flags8_items(*final(v)) == flags8_items(*old(v)).push(x),
{
    v.push(x)
}

/// Calls `ArrayVec::into_inner`, which hands out the backing array when the
/// vector is full and gives the vector back unchanged otherwise.
#[verifier::external_body]
pub(crate) fn flags8_into_inner(v: ArrayVec<bool, 8>) -> (r: Result<[bool; 8], ArrayVec<bool, 8>>)
    ensures
        r is Ok <==> flags8_items(v).len() == 8,
        r matches Ok(a) ==> a@ == flags8_items(v),
        r matches Err(w) ==> flags8_items(w) == flags8_items(v),
{
    v.into_inner()
}

} // verus!
