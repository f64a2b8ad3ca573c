use dma_pwm::allocation::DmaMemoryAllocation;
use dma_pwm::mailbox::{PropertyRequest, MEM_FLAG_L1_NONALLOCATING};

#[test]
fn allocate_request_rounds_to_pages_and_asks_for_coherent_memory() {
    let request = DmaMemoryAllocation::allocate_request(100);
    assert_eq!(
        request,
        PropertyRequest::Allocate {
            size: 4096,
            alignment: 4096,
            flags: MEM_FLAG_L1_NONALLOCATING,
        }
    );

    let exact = DmaMemoryAllocation::allocate_request(8192);
    assert_eq!(
        exact,
        PropertyRequest::Allocate {
            size: 8192,
            alignment: 4096,
            flags: MEM_FLAG_L1_NONALLOCATING,
        }
    );
}

#[test]
fn lock_request_names_the_handle() {
    assert_eq!(
        DmaMemoryAllocation::lock_request(42),
        PropertyRequest::Lock { handle: 42 }
    );
}

#[test]
fn first_release_hands_out_teardown_in_order() {
    let mut allocation = DmaMemoryAllocation::new(42, 0xC010_0000, 0x5000, 4096);
    let plan = allocation.release().expect("first release must yield the plan");
    assert_eq!(plan.virtual_address, 0x5000);
    assert_eq!(plan.size, 4096);
    assert_eq!(plan.unlock_request, PropertyRequest::Unlock { handle: 42 });
    assert_eq!(plan.free_request, PropertyRequest::Free { handle: 42 });
}

#[test]
fn second_release_performs_nothing() {
    let mut allocation = DmaMemoryAllocation::new(42, 0xC010_0000, 0x5000, 4096);
    assert!(allocation.release().is_some());
    // A second explicit release, or the automatic release on scope
    // exit, must not unmap again or issue further mailbox calls.
    assert!(allocation.release().is_none());
    assert!(allocation.release().is_none());
    assert!(allocation.released);
}
