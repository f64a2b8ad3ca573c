//! Framing for the firmware mailbox property protocol.
//!
//! Every privileged memory operation (allocate, lock, unlock, free) is one
//! property call: a fixed-length buffer of 32-bit words is written with a
//! header and the tag's payload, handed to the firmware through a single
//! ioctl on the mailbox device node, and overwritten in place with the
//! response. This module builds those buffers and reads the answer back;
//! the ioctl itself happens outside the library.

use vstd::prelude::*;

verus! {

/// Length, in 32-bit words, of every property-call buffer.
pub const MBOX_BUFFER_WORDS: usize = 32;

/// Tag identifier of the allocate-memory property call.
pub const TAG_ALLOCATE_MEMORY: u32 = 0x3000c;

/// Tag identifier of the lock-memory property call.
pub const TAG_LOCK_MEMORY: u32 = 0x3000d;

/// Tag identifier of the unlock-memory property call.
pub const TAG_UNLOCK_MEMORY: u32 = 0x3000e;

/// Tag identifier of the free-memory property call.
pub const TAG_FREE_MEMORY: u32 = 0x3000f;

/// Allocation flag asking for memory that the level-one cache never
/// allocates lines for, so that CPU and DMA engine see the same bytes.
pub const MEM_FLAG_L1_NONALLOCATING: u32 = (1 << 2) | (2 << 2);

/// One mailbox property call, named by its tag.
///
/// `Allocate` reserves memory and answers with an opaque handle; `Lock`
/// pins a handle's memory to a fixed bus address and answers with that
/// address; `Unlock` and `Free` reverse them and answer with a status word.
#[derive(Clone, Copy, Debug, PartialEq, Eq, Structural)]
pub enum PropertyRequest {
    Allocate { size: u32, alignment: u32, flags: u32 },
    Lock { handle: u32 },
    Unlock { handle: u32 },
    Free { handle: u32 },
}

impl PropertyRequest {
    /// The tag identifier the firmware dispatches on.
    pub open spec fn tag_id(self) -> u32 {
        match self {
            PropertyRequest::Allocate { .. } => TAG_ALLOCATE_MEMORY,
            PropertyRequest::Lock { .. } => TAG_LOCK_MEMORY,
            PropertyRequest::Unlock { .. } => TAG_UNLOCK_MEMORY,
            PropertyRequest::Free { .. } => TAG_FREE_MEMORY,
        }
    }

    /// Size in bytes of the tag's payload: three words for an allocation
    /// (size, alignment, flags), one word (the handle) for the rest.
    pub open spec fn payload_bytes(self) -> u32 {
        match self {
            PropertyRequest::Allocate { .. } => 12,
            _ => 4,
        }
    }

    /// The total buffer size announced in word 0: header and payload,
    /// in bytes.
    pub open spec fn announced_bytes(self) -> u32 {
        match self {
            PropertyRequest::Allocate { .. } => 36,
            _ => 28,
        }
    }

    /// The word at index `i` of the encoded request buffer.
    ///
    /// Word 0 carries the announced buffer size, word 1 the request code
    /// (zero on send), word 2 the tag identifier, words 3 and 4 the payload
    /// capacity and payload size, and words 5 on the payload itself. Every
    /// remaining word of the zero-initialized buffer stays zero.
    pub open spec fn spec_word(self, i: int) -> u32 {
        if i == 0 {
            self.announced_bytes()
        } else if i == 2 {
            self.tag_id()
        } else if i == 3 {
            self.payload_bytes()
        } else if i == 4 {
            self.payload_bytes()
        } else {
            match self {
                PropertyRequest::Allocate { size, alignment, flags } => {
                    if i == 5 {
                        size
                    } else if i == 6 {
                        alignment
                    } else if i == 7 {
                        flags
                    } else {
                        0
                    }
                },
                PropertyRequest::Lock { handle } => if i == 5 {
                    handle
                } else {
                    0
                },
                PropertyRequest::Unlock { handle } => if i == 5 {
                    handle
                } else {
                    0
                },
                PropertyRequest::Free { handle } => if i == 5 {
                    handle
                } else {
                    0
                },
            }
        }
    }

    /// The full 32-word wire image of the request.
    pub open spec fn spec_encode(self) -> Seq<u32> {
        Seq::new(32, |i: int| self.spec_word(i))
    }

    /// Serializes the request to the exact wire layout the firmware
    /// expects. The buffer starts zero-initialized; only the header and
    /// payload words are written.
    pub fn encode(&self) -> (buffer: Vec<u32>)
        ensures
            buffer@ == self.spec_encode(),
            buffer@.len() == MBOX_BUFFER_WORDS,
    {
        let mut buffer: Vec<u32> = Vec::new();
        match self {
            PropertyRequest::Allocate { size, alignment, flags } => {
                buffer.push(36);
                buffer.push(0);
                buffer.push(TAG_ALLOCATE_MEMORY);
                buffer.push(12);
                buffer.push(12);
                buffer.push(*size);
                buffer.push(*alignment);
                buffer.push(*flags);
            },
            PropertyRequest::Lock { handle } => {
                buffer.push(28);
                buffer.push(0);
                buffer.push(TAG_LOCK_MEMORY);
                buffer.push(4);
                buffer.push(4);
                buffer.push(*handle);
            },
            PropertyRequest::Unlock { handle } => {
                buffer.push(28);
                buffer.push(0);
                buffer.push(TAG_UNLOCK_MEMORY);
                buffer.push(4);
                buffer.push(4);
                buffer.push(*handle);
            },
            PropertyRequest::Free { handle } => {
                buffer.push(28);
                buffer.push(0);
                buffer.push(TAG_FREE_MEMORY);
                buffer.push(4);
                buffer.push(4);
                buffer.push(*handle);
            },
        }
        while buffer.len() < 32
            invariant
                buffer@.len() <= 32,
                forall|i: int| 0 <= i < buffer@.len() ==> buffer@[i] == self.spec_word(i),
                buffer@.len() >= 6,
                self matches PropertyRequest::Allocate { .. } ==> buffer@.len() >= 8,
            decreases 32 - buffer@.len(),
        {
            buffer.push(0);
        }
        proof {
            assert(buffer@ =~= self.spec_encode());
        }
        buffer
    }
}

/// Reads the firmware's answer out of a property buffer after the call:
/// the firmware overwrites the first payload word (word 5) in place with
/// the handle, bus address, or status it returns.
pub fn response_value(buffer: &Vec<u32>) -> (value: u32)
    requires
        buffer@.len() == MBOX_BUFFER_WORDS,
    ensures
        value == buffer@[5],
{
    buffer[5]
}

} // verus!
