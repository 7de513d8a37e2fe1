//! Trusted access to the contract storage vector of `ink_storage`.
//!
//! The vector's contents are named by `stored`; each wrapper below states
//! over that name what the corresponding method of the storage vector does.
use ink_storage::collections::Vec as StorageVec;
use vstd::prelude::*;

verus! {

/// A storage vector of `u64`, seen by the proofs through `stored` alone.
/// The vector is held in a field because Verus cannot declare the type
/// itself: its `PackedLayout` bound is a trait it does not know.
#[verifier::external_body]
pub struct StoredValues {
    inner: StorageVec<u64>,
}

/// The elements held by a storage vector, in index order.
pub uninterp spec fn stored(v: StoredValues) -> Seq<u64>;

/// Relies on `ink_storage::collections::Vec::new`: a new vector holds no element.
#[verifier::external_body]
pub(crate) fn storage_new() -> (r: StoredValues)
    ensures
        stored(r) == Seq::<u64>::empty(),
{
    StoredValues { inner: StorageVec::new() }
}

/// Relies on `ink_storage::collections::Vec::len`: the number of elements held.
#[verifier::external_body]
pub(crate) fn storage_len(v: &StoredValues) -> (r: u32)
    ensures
        r as int == stored(*v).len(),
{
    v.inner.len()
}

/// Relies on `ink_storage::collections::Vec::get`: the element at `index`,
/// or `None` where `index` is past the end.
#[verifier::external_body]
pub(crate) fn storage_get(v: &StoredValues, index: u32) -> (r: Option<u64>)
    ensures
        (index as int) < stored(*v).len() ==> r == Some(stored(*v)[index as int]),
        (index as int) >= stored(*v).len() ==> r is None,
{
    v.inner.get(index).copied()
}

/// Relies on `ink_storage::collections::Vec::push`: appends `value` at the end.
/// It panics once the vector holds `u32::MAX` elements.
#[verifier::external_body]
pub(crate) fn storage_push(v: &mut StoredValues, value: u64)
    requires
        stored(*old(v)).len() < u32::MAX,
    ensures
        stored(*final(v)) == stored(*old(v)).push(value),
{
    v.inner.push(value)
}

} // verus!
