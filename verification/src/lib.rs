//! DMA pacing engine for a Broadcom-style system-on-chip.
//!
//! The engine offloads precisely timed peripheral sampling and output pacing
//! onto the SoC's DMA controller. This crate holds the verified core: the
//! mailbox property-protocol framing, the bus/physical address translation,
//! the DMA control-block chain builder, the coherent-memory allocation
//! lifecycle, and the hardware bring-up/shutdown sequencer. The privileged
//! device-node calls (ioctl, mmap) that carry these values to the hardware
//! live outside the library and hand plain values back in.

pub mod addr;
pub mod allocation;
pub mod chain;
pub mod mailbox;
pub mod robot_state;
pub mod sequencer;

pub use addr::bus_addr_to_phys_addr;
