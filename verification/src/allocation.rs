//! Lifecycle of one cache-coherent, DMA-visible memory allocation.
//!
//! An allocation is acquired in three firmware steps — allocate a handle,
//! lock it to a fixed bus address, map the physical alias into the
//! process — and must be torn down in exactly the reverse order: unmap,
//! unlock, free. The type here owns the triple of handle, bus address and
//! virtual address, and guards the teardown with a one-shot flag so that
//! an automatic release on scope exit after an explicit release performs
//! no further mailbox calls and never unmaps twice.

use vstd::prelude::*;
use crate::addr::{round_up_to_page, spec_round_up_to_page, PAGE_SIZE};
use crate::mailbox::{PropertyRequest, MEM_FLAG_L1_NONALLOCATING};

verus! {

/// The teardown steps of one allocation, in the order they must run:
/// unmap `size` bytes at `virtual_address`, then issue the unlock
/// request, then the free request.
#[derive(Clone, Copy, Debug, PartialEq, Eq, Structural)]
pub struct ReleasePlan {
    /// Virtual address of the mapping to remove.
    pub virtual_address: usize,
    /// Size of the mapping in bytes.
    pub size: usize,
    /// Mailbox call that unpins the memory from its bus address.
    pub unlock_request: PropertyRequest,
    /// Mailbox call that returns the memory to the firmware.
    pub free_request: PropertyRequest,
}

/// One locked-and-mapped allocation of coherent memory, visible to the
/// CPU at `virtual_address` and to the DMA engine at `bus_address`.
pub struct DmaMemoryAllocation {
    /// Opaque handle the firmware's allocate call answered with.
    pub mailbox_handle: u32,
    /// Fixed bus address the lock call pinned the memory to.
    pub bus_address: u32,
    /// Address of the memory in this process's mapping of `/dev/mem`.
    pub virtual_address: usize,
    /// Size of the allocation in bytes, a whole number of pages.
    pub size: usize,
    /// One-shot guard: set as soon as the teardown steps have been handed
    /// out once.
    pub released: bool,
}

impl DmaMemoryAllocation {
    /// A well-formed allocation covers at least one whole page.
    pub open spec fn wf(self) -> bool {
        &&& self.size > 0
        &&& self.size % 0x1000 == 0
    }

    /// The mailbox request that acquires backing memory for `size` bytes:
    /// the size is rounded up to whole pages, the alignment is one page,
    /// and the flags ask for cache-coherent (level-one non-allocating)
    /// memory.
    pub fn allocate_request(size: usize) -> (request: PropertyRequest)
        requires
            1 <= size,
            size + 0xfff <= usize::MAX,
            spec_round_up_to_page(size as int) <= u32::MAX,
        ensures
            request == (PropertyRequest::Allocate {
                size: spec_round_up_to_page(size as int) as u32,
                alignment: 0x1000u32,
                flags: MEM_FLAG_L1_NONALLOCATING,
            }),
    {
        let rounded: usize = round_up_to_page(size);
        PropertyRequest::Allocate {
            size: rounded as u32,
            alignment: PAGE_SIZE as u32,
            flags: MEM_FLAG_L1_NONALLOCATING,
        }
    }

    /// The mailbox request that pins an allocated handle to a fixed bus
    /// address.
    pub fn lock_request(mailbox_handle: u32) -> (request: PropertyRequest)
        ensures
            request == (PropertyRequest::Lock { handle: mailbox_handle }),
    {
        PropertyRequest::Lock { handle: mailbox_handle }
    }

    /// Takes ownership of a fully acquired allocation: the handle from
    /// the allocate call, the bus address the lock call answered with,
    /// and the virtual address of the finished mapping.
    pub fn new(
        mailbox_handle: u32,
        bus_address: u32,
        virtual_address: usize,
        size: usize,
    ) -> (allocation: Self)
        requires
            size > 0,
            size % 0x1000 == 0,
        ensures
            allocation.wf(),
            allocation == (DmaMemoryAllocation {
                mailbox_handle,
                bus_address,
                virtual_address,
                size,
                released: false,
            }),
    {
        DmaMemoryAllocation { mailbox_handle, bus_address, virtual_address, size, released: false }
    }

    /// Hands out the teardown steps of this allocation exactly once.
    ///
    /// The first call returns the unmap window and the unlock and free
    /// requests, in teardown order, and marks the allocation consumed.
    /// Every later call returns nothing and changes nothing, so a release
    /// on scope exit after an explicit release performs no further
    /// mailbox calls and does not unmap previously unmapped memory.
    pub fn release(&mut self) -> (plan: Option<ReleasePlan>)
        ensures
            old(self).released ==> plan is None && *final(self) == *old(self),
            !old(self).released ==> {
                &&& final(self).released
                &&& *final(self) == (DmaMemoryAllocation { released: true, ..*old(self) })
                &&& plan == Some(
                    ReleasePlan {
                        virtual_address: old(self).virtual_address,
                        size: old(self).size,
                        unlock_request: PropertyRequest::Unlock {
                            handle: old(self).mailbox_handle,
                        },
                        free_request: PropertyRequest::Free { handle: old(self).mailbox_handle },
                    },
                )
            },
    {
        if self.released {
            None
        } else {
            self.released = true;
            Some(
                ReleasePlan {
                    virtual_address: self.virtual_address,
                    size: self.size,
                    unlock_request: PropertyRequest::Unlock { handle: self.mailbox_handle },
                    free_request: PropertyRequest::Free { handle: self.mailbox_handle },
                },
            )
        }
    }
}

} // verus!
