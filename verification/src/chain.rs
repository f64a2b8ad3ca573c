//! DMA control-block chain builder.
//!
//! The DMA engine executes a singly linked chain of hardware descriptors
//! (control blocks) autonomously: each block names a source, a destination,
//! a length, and the *bus* address of its successor (zero ends the chain).
//! This module builds the two chain shapes the engine needs — a plain
//! sample chain and a paced-transfer chain — as plain values; writing them
//! into the coherent descriptor buffer happens outside the library, word
//! by word, at the virtual alias of the same memory.

use vstd::prelude::*;
use vstd::arithmetic::div_mod::{
    lemma_div_by_multiple, lemma_fundamental_div_mod, lemma_mod_multiples_basic,
};

verus! {

/// Transfer-info flag: never use wide bursts on the AXI bus.
pub const DMA_NO_WIDE_BURSTS: u32 = 1 << 26;

/// Transfer-info flag: wait for the AXI write response of each write.
pub const DMA_WAIT_RESP: u32 = 1 << 3;

/// Transfer-info flag: gate destination writes on the peripheral's data
/// request line, so the transfer runs at the peripheral's pace.
pub const DMA_DEST_DREQ: u32 = 1 << 6;

/// Bytes one control block occupies in the descriptor buffer: six
/// descriptor words plus two padding words, as the engine's descriptor
/// fetch unit requires 256-bit alignment.
pub const CONTROL_BLOCK_BYTES: u32 = 32;

/// Bytes of one transferred register word.
pub const WORD_BYTES: u32 = 4;

/// One hardware DMA descriptor, exactly as the engine reads it (the two
/// trailing padding words are always zero and are not modelled).
#[derive(Clone, Copy, Debug, PartialEq, Eq, Structural)]
pub struct DmaControlBlock {
    /// Transfer-information flags, including the peripheral map field in
    /// bits 16 through 20.
    pub ti: u32,
    /// Bus address the engine reads from.
    pub source_ad: u32,
    /// Bus address the engine writes to.
    pub dest_ad: u32,
    /// Transfer length in bytes.
    pub txfr_len: u32,
    /// 2-D stride; unused by both chain shapes, always zero.
    pub stride: u32,
    /// Bus address of the next control block; zero terminates the chain.
    pub nextconbk: u32,
}

/// Whether a block stalls until the destination peripheral raises its data
/// request line.
pub open spec fn waits_for_peripheral(cb: DmaControlBlock) -> bool {
    cb.ti & DMA_DEST_DREQ != 0
}

/// The peripheral-map field of a block's transfer information: which
/// request line paces the transfer.
pub open spec fn dreq_index(cb: DmaControlBlock) -> u32 {
    (cb.ti >> 16) & 0x1f
}

/// Bus address of the `i`-th control block of a chain whose descriptor
/// buffer is locked at bus address `base`.
pub open spec fn spec_cb_bus_address(base: u32, i: int) -> int {
    base + 32 * i
}

/// Computes the bus address of the `i`-th control block in the descriptor
/// buffer at bus address `base`.
#[inline]
pub fn nth_cb_bus_address(base: u32, i: usize) -> (addr: u32)
    requires
        base + 32 * i <= u32::MAX,
    ensures
        addr == spec_cb_bus_address(base, i as int),
{
    base + 32 * (i as u32)
}

/// Computes the virtual address of the `i`-th control block slot in the
/// descriptor buffer whose CPU-side mapping starts at
/// `buffer_virtual_address`: the same slot arithmetic as
/// [`nth_cb_bus_address`], on the virtual alias of the buffer, where the
/// blocks are written before the chain is released to the engine.
#[inline]
pub fn nth_cb_virtual_address(buffer_virtual_address: usize, i: usize) -> (addr: usize)
    requires
        buffer_virtual_address + 32 * i <= usize::MAX,
    ensures
        addr == buffer_virtual_address + 32 * i,
{
    buffer_virtual_address + 32 * i
}

/// Bytes of coherent memory a descriptor buffer for `n` control blocks
/// needs.
pub fn chain_buffer_bytes(n: usize) -> (bytes: usize)
    requires
        32 * n <= usize::MAX,
    ensures
        bytes == 32 * n,
{
    32 * n
}

/// Bytes of coherent memory a results buffer of `n` words needs.
pub fn results_buffer_bytes(n: usize) -> (bytes: usize)
    requires
        4 * n <= usize::MAX,
    ensures
        bytes == 4 * n,
{
    4 * n
}

/// A chain is linked when every block's `nextconbk` holds the bus address
/// of its successor in the descriptor buffer at `base`, and the last
/// block's holds zero.
pub open spec fn chain_linked(cbs: Seq<DmaControlBlock>, base: u32) -> bool {
    forall|i: int|
        0 <= i < cbs.len() ==> (#[trigger] cbs[i].nextconbk) == (if i + 1 == cbs.len() {
            0u32
        } else {
            (base + 32 * (i + 1)) as u32
        })
}

/// The `i`-th block of a sample chain of `n` blocks: an unpaced copy of
/// the peripheral register at `source_ad` into the `i`-th word of the
/// results buffer locked at bus address `dest_base`.
pub open spec fn spec_sample_block(
    n: int,
    source_ad: u32,
    dest_base: u32,
    cbs_base: u32,
    i: int,
) -> DmaControlBlock {
    DmaControlBlock {
        ti: DMA_NO_WIDE_BURSTS | DMA_WAIT_RESP,
        source_ad,
        dest_ad: (dest_base + 4 * i) as u32,
        txfr_len: WORD_BYTES,
        stride: 0,
        nextconbk: if i + 1 == n {
            0u32
        } else {
            (cbs_base + 32 * (i + 1)) as u32
        },
    }
}

/// The whole sample chain of `n` blocks.
pub open spec fn spec_sample_chain(
    n: int,
    source_ad: u32,
    dest_base: u32,
    cbs_base: u32,
) -> Seq<DmaControlBlock> {
    Seq::new(n as nat, |i: int| spec_sample_block(n, source_ad, dest_base, cbs_base, i))
}

/// Builds the sample chain: one block per sample, each copying one word
/// from the peripheral register at `source_ad` into the next word of the
/// results buffer, at full DMA throughput. Block `i` links to block
/// `i + 1`; the last block ends the chain.
pub fn build_sample_chain(
    n: usize,
    source_ad: u32,
    dest_base: u32,
    cbs_base: u32,
) -> (chain: Vec<DmaControlBlock>)
    requires
        1 <= n,
        dest_base + 4 * n <= u32::MAX,
        cbs_base + 32 * n <= u32::MAX,
    ensures
        chain@ == spec_sample_chain(n as int, source_ad, dest_base, cbs_base),
        chain@.len() == n,
        chain_linked(chain@, cbs_base),
{
    let mut chain: Vec<DmaControlBlock> = Vec::new();
    let mut i: usize = 0;
    while i < n
        invariant
            i <= n,
            dest_base + 4 * n <= u32::MAX,
            cbs_base + 32 * n <= u32::MAX,
            chain@.len() == i,
            forall|j: int|
                0 <= j < i ==> chain@[j] == spec_sample_block(
                    n as int,
                    source_ad,
                    dest_base,
                    cbs_base,
                    j,
                ),
        decreases n - i,
    {
        let next: u32 = if i + 1 == n {
            0
        } else {
            nth_cb_bus_address(cbs_base, i + 1)
        };
        chain.push(
            DmaControlBlock {
                ti: DMA_NO_WIDE_BURSTS | DMA_WAIT_RESP,
                source_ad,
                dest_ad: dest_base + 4 * (i as u32),
                txfr_len: WORD_BYTES,
                stride: 0,
                nextconbk: next,
            },
        );
        i = i + 1;
    }
    proof {
        assert(chain@ =~= spec_sample_chain(n as int, source_ad, dest_base, cbs_base));
    }
    chain
}

/// The `i`-th block of a paced-transfer chain for `n` samples.
///
/// Blocks come in pairs. The even block of pair `s` copies the `s`-th
/// word of the source buffer at `source_base` into the scratch word at
/// `scratch_ad`, unconstrained. The odd block writes the scratch word
/// into the peripheral FIFO at `fifo_ad` with the wait-for-peripheral
/// flag set and the request line `dreq` in the peripheral-map field, so
/// the engine stalls there until the peripheral asks for data — this is
/// what paces the chain.
pub open spec fn spec_paced_block(
    n: int,
    source_base: u32,
    scratch_ad: u32,
    fifo_ad: u32,
    dreq: u32,
    cbs_base: u32,
    i: int,
) -> DmaControlBlock {
    let next: u32 = if i + 1 == 2 * n {
        0u32
    } else {
        (cbs_base + 32 * (i + 1)) as u32
    };
    if i % 2 == 0 {
        DmaControlBlock {
            ti: DMA_NO_WIDE_BURSTS | DMA_WAIT_RESP,
            source_ad: (source_base + 4 * (i / 2)) as u32,
            dest_ad: scratch_ad,
            txfr_len: WORD_BYTES,
            stride: 0,
            nextconbk: next,
        }
    } else {
        DmaControlBlock {
            ti: DMA_NO_WIDE_BURSTS | DMA_WAIT_RESP | DMA_DEST_DREQ | (dreq << 16),
            source_ad: scratch_ad,
            dest_ad: fifo_ad,
            txfr_len: WORD_BYTES,
            stride: 0,
            nextconbk: next,
        }
    }
}

/// The whole paced-transfer chain: `2 * n` blocks.
pub open spec fn spec_paced_chain(
    n: int,
    source_base: u32,
    scratch_ad: u32,
    fifo_ad: u32,
    dreq: u32,
    cbs_base: u32,
) -> Seq<DmaControlBlock> {
    Seq::new(
        (2 * n) as nat,
        |i: int| spec_paced_block(n, source_base, scratch_ad, fifo_ad, dreq, cbs_base, i),
    )
}

/// Builds the paced-transfer chain for `n` samples: interleaved pairs of
/// an unconstrained copy and a request-gated FIFO write, linked block to
/// block, with the final block ending the chain.
pub fn build_paced_chain(
    n: usize,
    source_base: u32,
    scratch_ad: u32,
    fifo_ad: u32,
    dreq: u32,
    cbs_base: u32,
) -> (chain: Vec<DmaControlBlock>)
    requires
        1 <= n,
        1 <= dreq < 32,
        source_base + 4 * n <= u32::MAX,
        cbs_base + 64 * n <= u32::MAX,
    ensures
        chain@ == spec_paced_chain(n as int, source_base, scratch_ad, fifo_ad, dreq, cbs_base),
        chain@.len() == 2 * n,
        chain_linked(chain@, cbs_base),
{
    let mut chain: Vec<DmaControlBlock> = Vec::new();
    let mut s: usize = 0;
    while s < n
        invariant
            s <= n,
            1 <= dreq < 32,
            source_base + 4 * n <= u32::MAX,
            cbs_base + 64 * n <= u32::MAX,
            chain@.len() == 2 * s,
            forall|j: int|
                0 <= j < 2 * s ==> chain@[j] == spec_paced_block(
                    n as int,
                    source_base,
                    scratch_ad,
                    fifo_ad,
                    dreq,
                    cbs_base,
                    j,
                ),
        decreases n - s,
    {
        proof {
            lemma_mod_multiples_basic(s as int, 2);
            lemma_div_by_multiple(s as int, 2);
            lemma_fundamental_div_mod(2 * s as int + 1, 2);
            assert(32 * (2 * s as int + 1) == 64 * s
                + 32);
            assert(32 * (2 * s as int + 2) == 64 * (s + 1));
            assert(64 * (s as int + 1) <= 64 * n);
        }
        let copy_next: u32 = nth_cb_bus_address(cbs_base, 2 * s + 1);
        chain.push(
            DmaControlBlock {
                ti: DMA_NO_WIDE_BURSTS | DMA_WAIT_RESP,
                source_ad: source_base + 4 * (s as u32),
                dest_ad: scratch_ad,
                txfr_len: WORD_BYTES,
                stride: 0,
                nextconbk: copy_next,
            },
        );
        let fifo_next: u32 = if s + 1 == n {
            0
        } else {
            nth_cb_bus_address(cbs_base, 2 * s + 2)
        };
        chain.push(
            DmaControlBlock {
                ti: DMA_NO_WIDE_BURSTS | DMA_WAIT_RESP | DMA_DEST_DREQ | (dreq << 16),
                source_ad: scratch_ad,
                dest_ad: fifo_ad,
                txfr_len: WORD_BYTES,
                stride: 0,
                nextconbk: fifo_next,
            },
        );
        s = s + 1;
    }
    proof {
        assert(chain@ =~= spec_paced_chain(n as int, source_base, scratch_ad, fifo_ad, dreq,
            cbs_base));
    }
    chain
}

/// The indices of the blocks the DMA engine's descriptor-fetch unit
/// visits, starting at bus address `addr`, when the descriptor buffer is
/// locked at bus address `base`.
///
/// Each step translates the current bus address back to a block index and
/// follows that block's `nextconbk`. The walk stops at the terminating
/// zero address, at any address outside the buffer, and after `fuel`
/// steps.
pub open spec fn spec_walk(
    cbs: Seq<DmaControlBlock>,
    base: u32,
    addr: u32,
    fuel: nat,
) -> Seq<int>
    decreases fuel,
{
    if fuel == 0 || addr == 0 {
        Seq::<int>::empty()
    } else if addr < base || (addr - base) % 32 != 0 || (addr - base) / 32 >= cbs.len() {
        Seq::<int>::empty()
    } else {
        let i = (addr - base) / 32;
        seq![i] + spec_walk(cbs, base, cbs[i].nextconbk, (fuel - 1) as nat)
    }
}

/// Chain linkage law: in a linked chain of `n` blocks, following the
/// `nextconbk` bus addresses from block 0 visits exactly the `n` blocks,
/// in ascending index order, and stops at the last block's zero link.
pub proof fn lemma_chain_walk(cbs: Seq<DmaControlBlock>, base: u32)
    requires
        1 <= base,
        1 <= cbs.len(),
        base + 32 * cbs.len() <= u32::MAX,
        chain_linked(cbs, base),
    ensures
        spec_walk(cbs, base, base, cbs.len() as nat) == Seq::new(cbs.len() as nat, |i: int| i),
{
    lemma_chain_walk_from(cbs, base, 0);
    assert(Seq::new(cbs.len() as nat, |i: int| 0 + i) =~= Seq::new(
        cbs.len() as nat,
        |i: int| i,
    ));
}

/// Induction step for [`lemma_chain_walk`]: starting the walk at block `k`
/// visits blocks `k` through `cbs.len() - 1` in order.
proof fn lemma_chain_walk_from(cbs: Seq<DmaControlBlock>, base: u32, k: int)
    requires
        1 <= base,
        base + 32 * cbs.len() <= u32::MAX,
        chain_linked(cbs, base),
        0 <= k < cbs.len(),
    ensures
        spec_walk(cbs, base, (base + 32 * k) as u32, (cbs.len() - k) as nat) == Seq::new(
            (cbs.len() - k) as nat,
            |i: int| k + i,
        ),
    decreases cbs.len() - k,
{
    let addr = (base + 32 * k) as u32;
    let fuel = (cbs.len() - k) as nat;
    assert(base + 32 * k <= u32::MAX);
    assert(addr == base + 32 * k);
    lemma_mod_multiples_basic(k, 32);
    lemma_div_by_multiple(k, 32);
    assert((addr - base) % 32 == 0);
    assert((addr - base) / 32 == k);
    if k + 1 == cbs.len() {
        assert(cbs[k].nextconbk == 0u32);
        assert(spec_walk(cbs, base, addr, fuel) == seq![k] + spec_walk(
            cbs,
            base,
            0u32,
            (fuel - 1) as nat,
        ));
        assert(spec_walk(cbs, base, addr, fuel) =~= Seq::new(1, |i: int| k + i));
    } else {
        assert(cbs[k].nextconbk == (base + 32 * (k + 1)) as u32);
        lemma_chain_walk_from(cbs, base, k + 1);
        assert(spec_walk(cbs, base, addr, fuel) == seq![k] + spec_walk(
            cbs,
            base,
            (base + 32 * (k + 1)) as u32,
            (fuel - 1) as nat,
        ));
        assert(spec_walk(cbs, base, addr, fuel) =~= Seq::new(
            (cbs.len() - k) as nat,
            |i: int| k + i,
        ));
    }
}

/// Pacing law of the paced-transfer chain: it has exactly `2 * n` blocks;
/// every odd-indexed block waits for the peripheral and carries a nonzero
/// request-line index, and no even-indexed block waits.
pub proof fn lemma_paced_chain_pacing(
    n: int,
    source_base: u32,
    scratch_ad: u32,
    fifo_ad: u32,
    dreq: u32,
    cbs_base: u32,
)
    requires
        1 <= n,
        1 <= dreq < 32,
    ensures
        spec_paced_chain(n, source_base, scratch_ad, fifo_ad, dreq, cbs_base).len() == 2 * n,
        forall|i: int|
            0 <= i < 2 * n && i % 2 == 1 ==> waits_for_peripheral(
                #[trigger] spec_paced_chain(n, source_base, scratch_ad, fifo_ad, dreq, cbs_base)[i],
            ) && dreq_index(
                spec_paced_chain(n, source_base, scratch_ad, fifo_ad, dreq, cbs_base)[i],
            ) != 0,
        forall|i: int|
            0 <= i < 2 * n && i % 2 == 0 ==> !waits_for_peripheral(
                #[trigger] spec_paced_chain(n, source_base, scratch_ad, fifo_ad, dreq, cbs_base)[i],
            ),
{
    let chain = spec_paced_chain(n, source_base, scratch_ad, fifo_ad, dreq, cbs_base);
    assert(((1u32 << 26) | (1u32 << 3)) & (1u32 << 6) == 0) by (bit_vector);
    assert(((1u32 << 26) | (1u32 << 3) | (1u32 << 6) | (dreq << 16)) & (1u32 << 6) != 0)
        by (bit_vector);
    assert((((1u32 << 26) | (1u32 << 3) | (1u32 << 6) | (dreq << 16)) >> 16) & 0x1f == dreq)
        by (bit_vector)
        requires
            dreq < 32u32,
    ;
    assert forall|i: int| 0 <= i < 2 * n && i % 2 == 1 implies waits_for_peripheral(chain[i])
        && dreq_index(chain[i]) != 0 by {
        assert(chain[i].ti == DMA_NO_WIDE_BURSTS | DMA_WAIT_RESP | DMA_DEST_DREQ | (dreq << 16));
    }
    assert forall|i: int| 0 <= i < 2 * n && i % 2 == 0 implies !waits_for_peripheral(chain[i]) by {
        assert(chain[i].ti == DMA_NO_WIDE_BURSTS | DMA_WAIT_RESP);
    }
}

} // verus!
