//! Address translation between the three address spaces the engine touches.
//!
//! * *Virtual* addresses are process-local mappings of `/dev/mem`.
//! * *Physical* addresses are what the CPU side uses; `/dev/mem` is mapped
//!   by physical offset.
//! * *Bus* addresses are VideoCore-relative: the top two bits encode the
//!   cache policy and must be masked off to reach the physical address.
//!
//! The module also holds the page-rounding and page-alignment arithmetic the
//! allocator needs when it maps a locked buffer.

use vstd::prelude::*;

verus! {

/// Size of one page of coherent memory; all mailbox allocations are rounded
/// up to a multiple of it, and `/dev/mem` offsets must be aligned to it.
pub const PAGE_SIZE: usize = 0x1000;

/// The top two bits of a bus address, which encode the cache policy under
/// which the VideoCore side accesses the memory.
pub const BUS_CACHE_POLICY_BITS: u32 = 0xC000_0000;

/// Mathematical form of [`bus_addr_to_phys_addr`].
pub open spec fn spec_bus_addr_to_phys_addr(bus_addr: u32) -> u32 {
    bus_addr & !BUS_CACHE_POLICY_BITS
}

/// Mathematical form of [`phys_addr_to_bus_addr`].
pub open spec fn spec_phys_addr_to_bus_addr(phys_addr: u32) -> u32 {
    phys_addr | BUS_CACHE_POLICY_BITS
}

/// Converts a bus address to a physical memory address by stripping the
/// cache-policy bits.
#[inline]
pub fn bus_addr_to_phys_addr(bus_addr: u32) -> (phys_addr: u32)
    ensures
        phys_addr == spec_bus_addr_to_phys_addr(bus_addr),
{
    bus_addr & !BUS_CACHE_POLICY_BITS
}

/// Converts a physical memory address to the bus address under which the
/// DMA engine reaches it through the uncached alias.
#[inline]
pub fn phys_addr_to_bus_addr(phys_addr: u32) -> (bus_addr: u32)
    ensures
        bus_addr == spec_phys_addr_to_bus_addr(phys_addr),
{
    phys_addr | BUS_CACHE_POLICY_BITS
}

/// Translating a physical address to bus space and back is the identity on
/// every physical address whose cache-policy bits are clear; the two maps
/// only ever touch those two bits.
pub proof fn lemma_translation_involution(phys_addr: u32)
    requires
        phys_addr & BUS_CACHE_POLICY_BITS == 0,
    ensures
        spec_bus_addr_to_phys_addr(spec_phys_addr_to_bus_addr(phys_addr)) == phys_addr,
{
    assert((phys_addr | 0xC000_0000u32) & !0xC000_0000u32 == phys_addr) by (bit_vector)
        requires
            phys_addr & 0xC000_0000u32 == 0u32,
    ;
}

/// The translation to physical space clears the cache-policy bits of every
/// input, so its result is always a plain physical address.
pub proof fn lemma_translation_clears_policy_bits(bus_addr: u32)
    ensures
        spec_bus_addr_to_phys_addr(bus_addr) & BUS_CACHE_POLICY_BITS == 0,
{
    assert((bus_addr & !0xC000_0000u32) & 0xC000_0000u32 == 0u32) by (bit_vector);
}

/// Mathematical form of [`round_up_to_page`].
pub open spec fn spec_round_up_to_page(size: int) -> int {
    ((size + 0xfff) / 0x1000) * 0x1000
}

/// Rounds an allocation size up to the next multiple of the page size, as
/// the mailbox allocator requires.
pub fn round_up_to_page(size: usize) -> (rounded: usize)
    requires
        size + 0xfff <= usize::MAX,
    ensures
        rounded == spec_round_up_to_page(size as int),
        rounded % PAGE_SIZE == 0,
        size <= rounded < size + PAGE_SIZE,
{
    let raised: usize = size + (PAGE_SIZE - 1);
    let quotient: usize = raised / PAGE_SIZE;
    proof {
        vstd::arithmetic::div_mod::lemma_fundamental_div_mod(raised as int, 0x1000);
        vstd::arithmetic::div_mod::lemma_mod_multiples_basic(quotient as int, 0x1000);
    }
    quotient * PAGE_SIZE
}

/// Rounding a size up to a page multiple is idempotent: rounding the result
/// again changes nothing.
pub proof fn lemma_round_up_to_page_idempotent(size: int)
    requires
        0 <= size,
    ensures
        spec_round_up_to_page(spec_round_up_to_page(size)) == spec_round_up_to_page(size),
{
    let quotient = (size + 0xfff) / 0x1000;
    let rounded = spec_round_up_to_page(size);
    vstd::arithmetic::div_mod::lemma_fundamental_div_mod(size + 0xfff, 0x1000);
    assert(rounded == 0x1000 * quotient);
    vstd::arithmetic::div_mod::lemma_div_multiples_vanish_fancy(quotient, 0xfff, 0x1000);
    assert((0x1000 * quotient + 0xfff) / 0x1000 == quotient);
    assert(spec_round_up_to_page(rounded) == quotient * 0x1000);
}

/// The rounded size never falls below the requested size and is always a
/// whole number of pages.
pub proof fn lemma_round_up_to_page_bounds(size: int)
    requires
        0 <= size,
    ensures
        size <= spec_round_up_to_page(size) < size + 0x1000,
        spec_round_up_to_page(size) % 0x1000 == 0,
{
    let quotient = (size + 0xfff) / 0x1000;
    vstd::arithmetic::div_mod::lemma_fundamental_div_mod(size + 0xfff, 0x1000);
    vstd::arithmetic::div_mod::lemma_mod_multiples_basic(quotient, 0x1000);
}

/// The page-aligned slice of physical memory that one `mmap` call must
/// cover so that a buffer at `phys_addr` of a given size is visible.
///
/// The caller maps `length` bytes at offset `page_base` and then adds
/// `offset_in_page` to the returned pointer to reach the buffer itself.
pub struct MapWindow {
    /// Physical address of the page the buffer starts in.
    pub page_base: u32,
    /// Number of bytes to map from `page_base` on.
    pub length: usize,
    /// Distance from `page_base` to the buffer's first byte.
    pub offset_in_page: usize,
}

/// Computes the page-aligned window that a mapping of `size` bytes at the
/// (possibly unaligned) physical address `phys_addr` has to cover.
pub fn map_window(phys_addr: u32, size: usize) -> (window: MapWindow)
    requires
        size + 0xfff <= usize::MAX,
    ensures
        window.offset_in_page == phys_addr as int % 0x1000,
        window.page_base == phys_addr - window.offset_in_page,
        window.page_base % PAGE_SIZE as u32 == 0,
        window.length == size + window.offset_in_page,
        window.page_base + window.offset_in_page == phys_addr,
{
    let offset_in_page: u32 = phys_addr % (PAGE_SIZE as u32);
    proof {
        lemma_aligned_base_mod(phys_addr as int, offset_in_page as int);
    }
    MapWindow {
        page_base: phys_addr - offset_in_page,
        length: size + offset_in_page as usize,
        offset_in_page: offset_in_page as usize,
    }
}

/// Helper for [`map_window`]: stripping an address's remainder modulo the
/// page size leaves a page-aligned address.
proof fn lemma_aligned_base_mod(addr: int, offset: int)
    requires
        0 <= addr,
        offset == addr % 0x1000,
    ensures
        (addr - offset) % 0x1000 == 0,
{
    vstd::arithmetic::div_mod::lemma_fundamental_div_mod(addr, 0x1000);
    assert(addr - offset == 0x1000 * (addr / 0x1000));
    vstd::arithmetic::div_mod::lemma_mod_multiples_basic(addr / 0x1000, 0x1000);
}

/// The page-aligned window that an `munmap` call must release, reversing
/// the offset adjustment [`map_window`] made: the virtual address handed
/// back to callers sits `virtual_addr % PAGE_SIZE` bytes into its page.
pub fn unmap_window(virtual_addr: usize, size: usize) -> (window: (usize, usize))
    requires
        size + 0xfff <= usize::MAX,
    ensures
        window.0 == virtual_addr - virtual_addr as int % 0x1000,
        window.0 % PAGE_SIZE == 0,
        window.1 == size + virtual_addr as int % 0x1000,
{
    let offset_in_page: usize = virtual_addr % PAGE_SIZE;
    proof {
        lemma_aligned_base_mod(virtual_addr as int, offset_in_page as int);
    }
    (virtual_addr - offset_in_page, size + offset_in_page)
}

} // verus!
