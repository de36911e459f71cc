use vstd::prelude::*;

verus! {

/// The address at which `r` points, as an integer.
///
/// Relies on `std::ptr::from_ref` and the pointer-to-integer cast. Where a value
/// lives is chosen by the compiler and the allocator, so nothing is promised of
/// the number: callers only compare it with numbers taken earlier.
#[verifier::external_body]
pub(crate) fn location_of<T>(r: &T) -> (at: usize) {
    std::ptr::from_ref(r) as usize
}

} // verus!
