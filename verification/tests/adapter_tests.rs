use hardened_malloc_sys::{ForeignCall, HardenedMalloc};

#[test]
fn allocation_forwards_the_size_unchanged() {
    assert_eq!(HardenedMalloc::alloc_call(64), ForeignCall::Malloc { size: 64 });
    assert_eq!(HardenedMalloc::alloc_call(0), ForeignCall::Malloc { size: 0 });
}

#[test]
fn zeroed_allocation_asks_for_size_elements_of_one_byte() {
    assert_eq!(
        HardenedMalloc::alloc_zeroed_call(64),
        ForeignCall::Calloc { nmemb: 64, size: 1 }
    );
}

#[test]
fn deallocation_forwards_no_size() {
    assert_eq!(HardenedMalloc::dealloc_call(64), ForeignCall::Free);
}

#[test]
fn sized_deallocation_forwards_the_size_for_verification() {
    assert_eq!(
        HardenedMalloc::dealloc_sized_call(64),
        ForeignCall::FreeSized { expected_size: 64 }
    );
}

#[test]
fn reallocation_forwards_the_new_size_only() {
    assert_eq!(
        HardenedMalloc::realloc_call(64, 128),
        ForeignCall::Realloc { new_size: 128 }
    );
}
