use vstd::prelude::*;

verus! {

/// The marker type installed as the host's global allocator. It holds no
/// state of its own: every operation is a direct relay into the external
/// allocator, which owns all heap state across all threads, so the adapter
/// caches and shadows nothing.
///
/// The associated functions compute, for each host allocation operation,
/// the foreign call the adapter forwards it to. Performing that call is
/// foreign code operating on raw memory and belongs to the surrounding
/// shell; the contracts here pin down the step from the host's
/// size-and-alignment descriptor to the external library's flat arguments.
pub struct HardenedMalloc;

/// One call into the external allocator, named by symbol, with the scalar
/// arguments the adapter passes. The relayed pointers stay with the caller:
/// the adapter never owns the memory it touches.
#[derive(Clone, Copy, Debug, PartialEq, Eq, Structural)]
pub enum ForeignCall {
    /// `malloc(size)`; a null return is the host's out-of-memory signal.
    Malloc { size: usize },
    /// `calloc(nmemb, size)`; the external library zero-fills.
    Calloc { nmemb: usize, size: usize },
    /// `realloc(ptr, new_size)` on a pointer this same allocator returned.
    Realloc { new_size: usize },
    /// `free(ptr)` on a pointer this same allocator returned.
    Free,
    /// `free_sized(ptr, expected_size)`: deallocation with the size check
    /// whose mismatch the external library treats as a security fault.
    FreeSized { expected_size: usize },
}

impl HardenedMalloc {
    /// Allocation forwards the requested size unchanged. Alignment beyond
    /// the external library's default guarantee is not independently
    /// enforced by the adapter.
    pub fn alloc_call(size: usize) -> (c: ForeignCall)
        ensures
            c == (ForeignCall::Malloc { size }),
    {
        ForeignCall::Malloc { size }
    }

    /// Zeroed allocation asks for `size` elements of one byte, relying on
    /// the external library to zero-fill them.
    pub fn alloc_zeroed_call(size: usize) -> (c: ForeignCall)
        ensures
            c == (ForeignCall::Calloc { nmemb: size, size: 1 }),
    {
        ForeignCall::Calloc { nmemb: size, size: 1 }
    }

    /// Deallocation forwards the pointer alone: the host's size is accepted
    /// here and dropped, so no size verification can fault on it.
    #[allow(unused_variables)]
    pub fn dealloc_call(size: usize) -> (c: ForeignCall)
        ensures
            c == ForeignCall::Free,
    {
        ForeignCall::Free
    }

    /// The stricter deallocation: the host's size is forwarded for the
    /// external library's allocation-size verification.
    pub fn dealloc_sized_call(size: usize) -> (c: ForeignCall)
        ensures
            c == (ForeignCall::FreeSized { expected_size: size }),
    {
        ForeignCall::FreeSized { expected_size: size }
    }

    /// Reallocation forwards the new size; the old size is informational
    /// only and dropped.
    #[allow(unused_variables)]
    pub fn realloc_call(old_size: usize, new_size: usize) -> (c: ForeignCall)
        ensures
            c == (ForeignCall::Realloc { new_size }),
    {
        ForeignCall::Realloc { new_size }
    }
}

} // verus!
