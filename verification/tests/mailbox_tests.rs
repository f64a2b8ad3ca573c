use dma_pwm::mailbox::{response_value, PropertyRequest, MEM_FLAG_L1_NONALLOCATING};

#[test]
fn allocate_request_wire_layout() {
    let request = PropertyRequest::Allocate {
        size: 4096,
        alignment: 4096,
        flags: MEM_FLAG_L1_NONALLOCATING,
    };
    let buffer = request.encode();
    let mut expected = vec![0u32; 32];
    expected[0] = 36; // announced buffer size in bytes
    expected[1] = 0; // request code
    expected[2] = 0x3000c; // allocate tag
    expected[3] = 12; // payload capacity
    expected[4] = 12; // payload size
    expected[5] = 4096; // size
    expected[6] = 4096; // alignment
    expected[7] = 0xC; // MEM_FLAG_L1_NONALLOCATING
    assert_eq!(buffer, expected);
}

#[test]
fn lock_request_wire_layout() {
    let buffer = PropertyRequest::Lock { handle: 0xDEAD }.encode();
    let mut expected = vec![0u32; 32];
    expected[0] = 28;
    expected[2] = 0x3000d;
    expected[3] = 4;
    expected[4] = 4;
    expected[5] = 0xDEAD;
    assert_eq!(buffer, expected);
}

#[test]
fn unlock_request_wire_layout() {
    let buffer = PropertyRequest::Unlock { handle: 3 }.encode();
    let mut expected = vec![0u32; 32];
    expected[0] = 28;
    expected[2] = 0x3000e;
    expected[3] = 4;
    expected[4] = 4;
    expected[5] = 3;
    assert_eq!(buffer, expected);
}

#[test]
fn free_request_wire_layout() {
    let buffer = PropertyRequest::Free { handle: 3 }.encode();
    let mut expected = vec![0u32; 32];
    expected[0] = 28;
    expected[2] = 0x3000f;
    expected[3] = 4;
    expected[4] = 4;
    expected[5] = 3;
    assert_eq!(buffer, expected);
}

#[test]
fn response_value_reads_overwritten_payload_word() {
    let mut buffer = PropertyRequest::Lock { handle: 8 }.encode();
    // The firmware overwrites word 5 in place with the bus address.
    buffer[5] = 0xC010_0000;
    assert_eq!(response_value(&buffer), 0xC010_0000);
}
