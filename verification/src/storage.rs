//! Fallible reservation and capacity queries of `Vec`, whose results depend
//! on the allocator rather than on the library's own logic.

use vstd::prelude::*;

verus! {

/// Calls `Vec::capacity`. Its documentation promises only that the capacity
/// is at least the length; the exact value is chosen by the allocator and is
/// not stated.
#[verifier::external_body]
pub(crate) fn vec_capacity<T>(values: &Vec<T>) -> (capacity: usize)
    ensures
        capacity >= values@.len(),
{
    values.capacity()
}

/// Calls `Vec::try_reserve_exact`, reporting whether the reservation
/// succeeded. The contents never change; whether the allocator succeeds is
/// not stated.
#[verifier::external_body]
pub(crate) fn vec_try_reserve_exact<T>(values: &mut Vec<T>, additional: usize) -> (reserved: bool)
    ensures
        final(values)@ == old(values)@,
{
    values.try_reserve_exact(additional).is_ok()
}

/// Calls `Arc::clone`, which makes another pointer to the same allocation,
/// so the shared value is the same.
#[verifier::external_body]
pub(crate) fn arc_clone<T>(shared: &std::sync::Arc<T>) -> (copy: std::sync::Arc<T>)
    ensures
        copy == *shared,
{
    std::sync::Arc::clone(shared)
}

} // verus!
