//! Hardware bring-up and shutdown sequencer.
//!
//! The clock manager, the PWM generator and the DMA channel must be
//! programmed by exact register sequences in a strict order — the
//! hardware has no validation path, so a skipped or reordered write
//! produces undefined behaviour. The sequencer is a state machine
//!
//! ```text
//! Idle -> ClockConfigured -> PwmArmed -> DmaActive -> Stopped
//! ```
//!
//! whose transitions return the register operations to perform, in
//! order, as plain values. The caller owns the mapped register windows,
//! performs each operation with a volatile access, and observes the
//! settle delays the hardware's timing contract demands; the machine
//! decides *what* is written and proves the ordering laws.

use vstd::prelude::*;

verus! {

/// Physical base address of the peripheral window on the supported SoC
/// revision.
pub const PHYSICAL_PERIPHERAL_BASE: u32 = 0xFE00_0000;

/// Base of the same peripheral window in bus address space.
pub const BUS_PERIPHERAL_BASE: u32 = 0x7E00_0000;

/// Byte offset of the DMA controller inside the peripheral window.
pub const DMA_OFFSET: u32 = 0x7000;

/// Byte offset of the PWM generator inside the peripheral window.
pub const PWM_OFFSET: u32 = 0x20_C000;

/// Byte offset of the clock manager inside the peripheral window.
pub const CM_OFFSET: u32 = 0x10_1000;

/// Byte offset of the system timer inside the peripheral window.
pub const SYSTEM_TIMER_OFFSET: u32 = 0x3000;

/// Byte offset of the PWM FIFO input word, the paced chain's
/// destination, inside the PWM register block.
pub const PWM_FIFO_OFFSET: u32 = 0x20;

/// Byte offset of the system timer's low counter word inside the timer
/// register block.
pub const TIMER_COUNTER_LOW_OFFSET: u32 = 0x4;

/// Bytes between two DMA channels' register blocks.
pub const DMA_CHANNEL_STRIDE: u32 = 0x100;

/// The DMA channel this engine claims for itself.
pub const DMA_CHANNEL: u32 = 3;

/// Request line the PWM generator raises when its FIFO wants data.
pub const PWM0_DREQ: u32 = 5;

/// Frequency of the PLL-D clock source.
pub const PLLD_FREQ: u32 = 500_000_000;

/// Divisor applied to PLL-D for an effective 100 MHz pacing clock.
pub const PLLD_DIV: u32 = 5;

/// Password byte every clock-manager write must carry in its top byte.
pub const CM_PASSWORD: u32 = 0x5A << 24;

/// Clock-manager source selector for PLL-D.
pub const CM_SOURCE_PLLD: u32 = 6;

/// Clock-manager kill bit: forces the divider into a safe state.
pub const CM_KILL: u32 = 1 << 5;

/// Clock-manager enable bit.
pub const CM_ENABLE: u32 = 1 << 4;

/// Clock-manager busy bit: set while the clock generator is running.
pub const CM_BUSY: u32 = 1 << 7;

/// PWM control: enable DMA pacing.
pub const PWM_DMA_ENABLE: u32 = 1 << 31;

/// PWM control: clear the FIFO.
pub const PWM_CLEAR_FIFO: u32 = 1 << 6;

/// PWM control: feed channel 1 from the FIFO.
pub const PWM_USE_FIFO1: u32 = 1 << 5;

/// PWM control: enable channel 1.
pub const PWM_ENABLE_PWEN1: u32 = 1 << 0;

/// PWM control: serializer mode for channel 1.
pub const PWM_MODE1_ENABLE_SERIALIZER: u32 = 1 << 1;

/// DMA control/status: abort the current transfer.
pub const DMA_CHANNEL_ABORT: u32 = 1 << 30;

/// DMA control/status: reset the channel.
pub const DMA_CHANNEL_RESET: u32 = 1 << 31;

/// DMA control/status: interrupt-seen flag, written to clear.
pub const DMA_INTERRUPT_STATUS: u32 = 1 << 2;

/// DMA control/status: end-of-chain flag, written to clear.
pub const DMA_END_FLAG: u32 = 1 << 1;

/// DMA control/status: disable debug pause.
pub const DMA_DISDEBUG: u32 = 1 << 29;

/// DMA control/status: wait for outstanding writes before proceeding.
pub const DMA_WAIT_ON_WRITES: u32 = 1 << 6;

/// DMA control/status: channel active; setting it releases the chain to
/// hardware execution.
pub const DMA_ACTIVE: u32 = 1 << 0;

/// The registers the bring-up and shutdown sequences touch.
#[derive(Clone, Copy, Debug, PartialEq, Eq, Structural)]
pub enum PacingRegister {
    /// Clock-manager general-purpose clock 0 control.
    ClockControl,
    /// Clock-manager general-purpose clock 0 divisor.
    ClockDivisor,
    /// PWM control.
    PwmControl,
    /// PWM status.
    PwmStatus,
    /// PWM DMA configuration.
    PwmDmaConfig,
    /// PWM channel 1 range.
    PwmRange,
    /// DMA channel control and status.
    DmaControlStatus,
    /// DMA channel control-block address.
    DmaControlBlockAddress,
}

/// One step of a register sequence, performed by the caller in order.
#[derive(Clone, Copy, Debug, PartialEq, Eq, Structural)]
pub enum RegisterOp {
    /// Store `value` to `reg` with a single volatile write.
    Write { reg: PacingRegister, value: u32 },
    /// Read `src`, keep the bits of `keep`, or in `set`, and store the
    /// result to `dst`, with volatile accesses.
    ReadModifyWrite { src: PacingRegister, dst: PacingRegister, keep: u32, set: u32 },
    /// Wait the given number of microseconds: a hardware settle time,
    /// not a synchronization point.
    SettleDelay { micros: u32 },
}

/// The phases of the bring-up/shutdown order.
#[derive(Clone, Copy, Debug, PartialEq, Eq, Structural)]
pub enum SequencerState {
    /// Nothing configured yet.
    Idle,
    /// The pacing clock is sourced, divided and enabled.
    ClockConfigured,
    /// The PWM generator is armed and pacing at the configured period.
    PwmArmed,
    /// The DMA channel is executing the chain.
    DmaActive,
    /// The channel is aborted and reset; results may be read.
    Stopped,
}

/// Whether the clock generator reports busy in a control-register value.
pub open spec fn clock_busy(control_value: u32) -> bool {
    control_value & CM_BUSY != 0
}

/// Whether an operation can set the clock-manager enable bit.
pub open spec fn sets_clock_enable(op: RegisterOp) -> bool {
    match op {
        RegisterOp::Write { reg, value } => reg == PacingRegister::ClockControl && value
            & CM_ENABLE != 0,
        RegisterOp::ReadModifyWrite { dst, set, .. } => dst == PacingRegister::ClockControl && set
            & CM_ENABLE != 0,
        RegisterOp::SettleDelay { .. } => false,
    }
}

/// Whether an operation can set the DMA active bit.
pub open spec fn sets_dma_active(op: RegisterOp) -> bool {
    match op {
        RegisterOp::Write { reg, value } => reg == PacingRegister::DmaControlStatus && value
            & DMA_ACTIVE != 0,
        RegisterOp::ReadModifyWrite { dst, set, .. } => dst == PacingRegister::DmaControlStatus
            && set & DMA_ACTIVE != 0,
        RegisterOp::SettleDelay { .. } => false,
    }
}

/// Whether an operation stores a nonzero value to the control-block
/// address register.
pub open spec fn writes_nonzero_cb_address(op: RegisterOp) -> bool {
    match op {
        RegisterOp::Write { reg, value } => reg == PacingRegister::DmaControlBlockAddress && value
            != 0,
        _ => false,
    }
}

/// The single kill write issued while the clock generator is busy.
pub open spec fn spec_clock_kill_ops() -> Seq<RegisterOp> {
    seq![
        RegisterOp::Write { reg: PacingRegister::ClockControl, value: CM_PASSWORD | CM_KILL },
    ]
}

/// The configuration sequence issued once the clock generator is idle:
/// select PLL-D, set the divisor, then enable, with a settle delay after
/// each of the three writes.
pub open spec fn spec_clock_config_ops(divisor: u32) -> Seq<RegisterOp> {
    seq![
        RegisterOp::Write {
            reg: PacingRegister::ClockControl,
            value: CM_PASSWORD | CM_SOURCE_PLLD,
        },
        RegisterOp::SettleDelay { micros: 10 },
        RegisterOp::Write {
            reg: PacingRegister::ClockDivisor,
            value: CM_PASSWORD | (divisor << 12),
        },
        RegisterOp::SettleDelay { micros: 10 },
        RegisterOp::ReadModifyWrite {
            src: PacingRegister::ClockDivisor,
            dst: PacingRegister::ClockControl,
            keep: 0xffff_ffff,
            set: CM_PASSWORD | CM_ENABLE,
        },
        RegisterOp::SettleDelay { micros: 10 },
    ]
}

/// What one clock bring-up step emits for an observed control value.
pub open spec fn spec_clock_step_ops(control_value: u32, divisor: u32) -> Seq<RegisterOp> {
    if clock_busy(control_value) {
        spec_clock_kill_ops()
    } else {
        spec_clock_config_ops(divisor)
    }
}

/// The effective pacing clock after dividing the PLL.
pub open spec fn spec_effective_clock_hz(plld_hz: u32, divisor: u32) -> int {
    plld_hz as int / divisor as int
}

/// The PWM range register value for a target period: clock cycles per
/// period, computed as megahertz times microseconds.
pub open spec fn spec_pwm_range_cycles(clock_hz: u32, period_micros: u32) -> int {
    (clock_hz as int / 1_000_000) * period_micros
}

/// Computes the PWM range register value for a target period at a given
/// pacing clock.
pub fn pwm_range_cycles(clock_hz: u32, period_micros: u32) -> (cycles: u32)
    requires
        spec_pwm_range_cycles(clock_hz, period_micros) <= u32::MAX,
    ensures
        cycles == spec_pwm_range_cycles(clock_hz, period_micros),
{
    (clock_hz / 1_000_000) * period_micros
}

/// The PWM arming sequence: reset control, clear status, set the range,
/// enable DMA pacing with panic and request thresholds of 15, clear the
/// FIFO, then enable serializer, FIFO mode and channel output. Each
/// write is followed by the same settle delay.
pub open spec fn spec_pwm_arm_ops(cycles: u32) -> Seq<RegisterOp> {
    seq![
        RegisterOp::Write { reg: PacingRegister::PwmControl, value: 0u32 },
        RegisterOp::SettleDelay { micros: 10 },
        RegisterOp::Write { reg: PacingRegister::PwmStatus, value: 0xffff_ffffu32 },
        RegisterOp::SettleDelay { micros: 10 },
        RegisterOp::Write { reg: PacingRegister::PwmRange, value: cycles },
        RegisterOp::SettleDelay { micros: 10 },
        RegisterOp::Write {
            reg: PacingRegister::PwmDmaConfig,
            value: PWM_DMA_ENABLE | (15u32 << 8) | 15,
        },
        RegisterOp::SettleDelay { micros: 10 },
        RegisterOp::Write { reg: PacingRegister::PwmControl, value: PWM_CLEAR_FIFO },
        RegisterOp::SettleDelay { micros: 10 },
        RegisterOp::Write {
            reg: PacingRegister::PwmControl,
            value: PWM_MODE1_ENABLE_SERIALIZER | PWM_USE_FIFO1 | PWM_ENABLE_PWEN1,
        },
        RegisterOp::SettleDelay { micros: 10 },
    ]
}

/// The DMA start sequence: abort and reset the channel, clear its
/// control-block address and stale status flags, write the chain's first
/// block address, program priority and debug-disable bits, and finally
/// set active and wait-for-writes — the write that releases the chain.
pub open spec fn spec_dma_start_ops(first_cb_bus_address: u32) -> Seq<RegisterOp> {
    seq![
        RegisterOp::Write { reg: PacingRegister::DmaControlStatus, value: DMA_CHANNEL_ABORT },
        RegisterOp::Write { reg: PacingRegister::DmaControlStatus, value: 0u32 },
        RegisterOp::Write { reg: PacingRegister::DmaControlStatus, value: DMA_CHANNEL_RESET },
        RegisterOp::Write { reg: PacingRegister::DmaControlBlockAddress, value: 0u32 },
        RegisterOp::Write {
            reg: PacingRegister::DmaControlStatus,
            value: DMA_INTERRUPT_STATUS | DMA_END_FLAG,
        },
        RegisterOp::Write {
            reg: PacingRegister::DmaControlBlockAddress,
            value: first_cb_bus_address,
        },
        RegisterOp::Write {
            reg: PacingRegister::DmaControlStatus,
            value: (8u32 << 16) | (8u32 << 20) | DMA_DISDEBUG,
        },
        RegisterOp::ReadModifyWrite {
            src: PacingRegister::DmaControlStatus,
            dst: PacingRegister::DmaControlStatus,
            keep: 0xffff_ffff,
            set: DMA_ACTIVE | DMA_WAIT_ON_WRITES,
        },
    ]
}

/// The DMA stop sequence: abort, settle, clear the active bit, set the
/// reset bit, settle. It runs on every exit path, error paths included,
/// so the channel is never left executing a chain.
pub open spec fn spec_dma_stop_ops() -> Seq<RegisterOp> {
    seq![
        RegisterOp::Write { reg: PacingRegister::DmaControlStatus, value: DMA_CHANNEL_ABORT },
        RegisterOp::SettleDelay { micros: 100 },
        RegisterOp::ReadModifyWrite {
            src: PacingRegister::DmaControlStatus,
            dst: PacingRegister::DmaControlStatus,
            keep: !DMA_ACTIVE,
            set: 0u32,
        },
        RegisterOp::ReadModifyWrite {
            src: PacingRegister::DmaControlStatus,
            dst: PacingRegister::DmaControlStatus,
            keep: 0xffff_ffff,
            set: DMA_CHANNEL_RESET,
        },
        RegisterOp::SettleDelay { micros: 100 },
    ]
}

/// The platform numbers that differ between SoC revisions: the
/// peripheral window's base addresses, the claimed DMA channel, the
/// clock divisor and the PWM request line. Supplied at startup by
/// whatever detects the hardware generation; the constants above are
/// the values of the supported revision.
#[derive(Clone, Copy, Debug, PartialEq, Eq, Structural)]
pub struct HardwareProfile {
    /// Physical base address of the peripheral window.
    pub peripheral_physical_base: u32,
    /// Bus-space base address of the same window.
    pub peripheral_bus_base: u32,
    /// Index of the DMA channel the engine claims.
    pub dma_channel: u32,
    /// Divisor applied to the PLL-D source clock.
    pub clock_divisor: u32,
    /// Frequency of the PLL-D source clock.
    pub plld_hz: u32,
    /// Request line of the pacing peripheral's FIFO.
    pub dreq_line: u32,
}

impl HardwareProfile {
    /// A usable profile: the peripheral window fits in the 32-bit
    /// address spaces, the channel index is a real channel, the divisor
    /// fits the divisor register's integer field, and the request line
    /// fits the peripheral-map field.
    pub open spec fn wf(self) -> bool {
        &&& self.peripheral_physical_base + 0x20_c020 <= u32::MAX
        &&& self.peripheral_bus_base + 0x20_c020 <= u32::MAX
        &&& self.dma_channel < 15
        &&& 1 <= self.clock_divisor < 0x1000
        &&& 1 <= self.dreq_line < 32
    }

    /// The pacing clock the PWM generator sees: the PLL frequency after
    /// division.
    pub fn effective_clock_hz(&self) -> (hz: u32)
        requires
            self.wf(),
        ensures
            hz == spec_effective_clock_hz(self.plld_hz, self.clock_divisor),
    {
        self.plld_hz / self.clock_divisor
    }

    /// Bus address of the system timer's low counter word, the sample
    /// chain's source.
    pub fn timer_counter_low_bus_address(&self) -> (addr: u32)
        requires
            self.wf(),
        ensures
            addr == self.peripheral_bus_base + 0x3004,
    {
        self.peripheral_bus_base + SYSTEM_TIMER_OFFSET + TIMER_COUNTER_LOW_OFFSET
    }

    /// Bus address of the PWM FIFO input word, the paced chain's
    /// destination.
    pub fn pwm_fifo_bus_address(&self) -> (addr: u32)
        requires
            self.wf(),
        ensures
            addr == self.peripheral_bus_base + 0x20_c020,
    {
        self.peripheral_bus_base + PWM_OFFSET + PWM_FIFO_OFFSET
    }

    /// Physical address of the claimed DMA channel's register block.
    pub fn dma_channel_physical_address(&self) -> (addr: u32)
        requires
            self.wf(),
        ensures
            addr == self.peripheral_physical_base + 0x7000 + 0x100 * self.dma_channel,
    {
        self.peripheral_physical_base + DMA_OFFSET + DMA_CHANNEL_STRIDE * self.dma_channel
    }

    /// Physical address of the PWM register block.
    pub fn pwm_physical_address(&self) -> (addr: u32)
        requires
            self.wf(),
        ensures
            addr == self.peripheral_physical_base + 0x20_c000,
    {
        self.peripheral_physical_base + PWM_OFFSET
    }

    /// Physical address of the clock-manager register block.
    pub fn clock_manager_physical_address(&self) -> (addr: u32)
        requires
            self.wf(),
        ensures
            addr == self.peripheral_physical_base + 0x10_1000,
    {
        self.peripheral_physical_base + CM_OFFSET
    }

    /// Physical address of the system timer register block.
    pub fn system_timer_physical_address(&self) -> (addr: u32)
        requires
            self.wf(),
        ensures
            addr == self.peripheral_physical_base + 0x3000,
    {
        self.peripheral_physical_base + SYSTEM_TIMER_OFFSET
    }
}

impl Default for HardwareProfile {
    /// The profile of the supported SoC revision.
    fn default() -> (profile: Self)
        ensures
            profile.wf(),
            profile == (HardwareProfile {
                peripheral_physical_base: PHYSICAL_PERIPHERAL_BASE,
                peripheral_bus_base: BUS_PERIPHERAL_BASE,
                dma_channel: DMA_CHANNEL,
                clock_divisor: PLLD_DIV,
                plld_hz: PLLD_FREQ,
                dreq_line: PWM0_DREQ,
            }),
    {
        HardwareProfile {
            peripheral_physical_base: PHYSICAL_PERIPHERAL_BASE,
            peripheral_bus_base: BUS_PERIPHERAL_BASE,
            dma_channel: DMA_CHANNEL,
            clock_divisor: PLLD_DIV,
            plld_hz: PLLD_FREQ,
            dreq_line: PWM0_DREQ,
        }
    }
}

/// The bring-up/shutdown state machine. Each transition hands back the
/// register operations that perform it; the caller executes them in
/// order against the mapped register windows.
pub struct Sequencer {
    /// The phase the hardware is in once all handed-out operations have
    /// been performed.
    pub state: SequencerState,
}

impl Sequencer {
    /// A sequencer for untouched hardware.
    pub fn new() -> (sequencer: Self)
        ensures
            sequencer.state == SequencerState::Idle,
    {
        Sequencer { state: SequencerState::Idle }
    }

    /// One step of the Idle to ClockConfigured transition.
    ///
    /// The caller reads the clock-manager control register and hands the
    /// value in. While the busy bit is set, the step emits one
    /// password-gated kill write and stays in Idle; the caller re-reads
    /// and calls again (the kill forces the divider into a safe state,
    /// so the loop converges). Once the generator is idle, the step
    /// emits the source, divisor and enable writes and the clock is
    /// configured.
    pub fn enable_hardware_timer(&mut self, control_value: u32, divisor: u32) -> (ops: Vec<
        RegisterOp,
    >)
        requires
            old(self).state == SequencerState::Idle,
            divisor < 0x1000,
        ensures
            ops@ == spec_clock_step_ops(control_value, divisor),
            final(self).state == (if clock_busy(control_value) {
                SequencerState::Idle
            } else {
                SequencerState::ClockConfigured
            }),
    {
        let mut ops: Vec<RegisterOp> = Vec::new();
        if control_value & CM_BUSY != 0 {
            ops.push(
                RegisterOp::Write {
                    reg: PacingRegister::ClockControl,
                    value: CM_PASSWORD | CM_KILL,
                },
            );
            proof {
                assert(ops@ =~= spec_clock_kill_ops());
            }
        } else {
            ops.push(
                RegisterOp::Write {
                    reg: PacingRegister::ClockControl,
                    value: CM_PASSWORD | CM_SOURCE_PLLD,
                },
            );
            ops.push(RegisterOp::SettleDelay { micros: 10 });
            ops.push(
                RegisterOp::Write {
                    reg: PacingRegister::ClockDivisor,
                    value: CM_PASSWORD | (divisor << 12),
                },
            );
            ops.push(RegisterOp::SettleDelay { micros: 10 });
            ops.push(
                RegisterOp::ReadModifyWrite {
                    src: PacingRegister::ClockDivisor,
                    dst: PacingRegister::ClockControl,
                    keep: 0xffff_ffff,
                    set: CM_PASSWORD | CM_ENABLE,
                },
            );
            ops.push(RegisterOp::SettleDelay { micros: 10 });
            self.state = SequencerState::ClockConfigured;
            proof {
                assert(ops@ =~= spec_clock_config_ops(divisor));
            }
        }
        ops
    }

    /// The ClockConfigured to PwmArmed transition: arms the PWM
    /// generator to pace at `period_micros` microseconds given the
    /// effective pacing clock.
    pub fn start_pwm(&mut self, clock_hz: u32, period_micros: u32) -> (ops: Vec<RegisterOp>)
        requires
            old(self).state == SequencerState::ClockConfigured,
            spec_pwm_range_cycles(clock_hz, period_micros) <= u32::MAX,
        ensures
            ops@ == spec_pwm_arm_ops(spec_pwm_range_cycles(clock_hz, period_micros) as u32),
            final(self).state == SequencerState::PwmArmed,
    {
        let cycles: u32 = pwm_range_cycles(clock_hz, period_micros);
        let mut ops: Vec<RegisterOp> = Vec::new();
        ops.push(RegisterOp::Write { reg: PacingRegister::PwmControl, value: 0 });
        ops.push(RegisterOp::SettleDelay { micros: 10 });
        ops.push(RegisterOp::Write { reg: PacingRegister::PwmStatus, value: 0xffff_ffff });
        ops.push(RegisterOp::SettleDelay { micros: 10 });
        ops.push(RegisterOp::Write { reg: PacingRegister::PwmRange, value: cycles });
        ops.push(RegisterOp::SettleDelay { micros: 10 });
        ops.push(
            RegisterOp::Write {
                reg: PacingRegister::PwmDmaConfig,
                value: PWM_DMA_ENABLE | (15u32 << 8) | 15,
            },
        );
        ops.push(RegisterOp::SettleDelay { micros: 10 });
        ops.push(RegisterOp::Write { reg: PacingRegister::PwmControl, value: PWM_CLEAR_FIFO });
        ops.push(RegisterOp::SettleDelay { micros: 10 });
        ops.push(
            RegisterOp::Write {
                reg: PacingRegister::PwmControl,
                value: PWM_MODE1_ENABLE_SERIALIZER | PWM_USE_FIFO1 | PWM_ENABLE_PWEN1,
            },
        );
        ops.push(RegisterOp::SettleDelay { micros: 10 });
        self.state = SequencerState::PwmArmed;
        proof {
            assert(ops@ =~= spec_pwm_arm_ops(cycles));
        }
        ops
    }

    /// The PwmArmed to DmaActive transition: points the channel at the
    /// first control block and releases the chain. The final operation
    /// of the sequence is the one that sets the active bit.
    pub fn start_dma(&mut self, first_cb_bus_address: u32) -> (ops: Vec<RegisterOp>)
        requires
            old(self).state == SequencerState::PwmArmed,
            first_cb_bus_address != 0,
        ensures
            ops@ == spec_dma_start_ops(first_cb_bus_address),
            final(self).state == SequencerState::DmaActive,
    {
        let mut ops: Vec<RegisterOp> = Vec::new();
        ops.push(
            RegisterOp::Write { reg: PacingRegister::DmaControlStatus, value: DMA_CHANNEL_ABORT },
        );
        ops.push(RegisterOp::Write { reg: PacingRegister::DmaControlStatus, value: 0 });
        ops.push(
            RegisterOp::Write { reg: PacingRegister::DmaControlStatus, value: DMA_CHANNEL_RESET },
        );
        ops.push(RegisterOp::Write { reg: PacingRegister::DmaControlBlockAddress, value: 0 });
        ops.push(
            RegisterOp::Write {
                reg: PacingRegister::DmaControlStatus,
                value: DMA_INTERRUPT_STATUS | DMA_END_FLAG,
            },
        );
        ops.push(
            RegisterOp::Write {
                reg: PacingRegister::DmaControlBlockAddress,
                value: first_cb_bus_address,
            },
        );
        ops.push(
            RegisterOp::Write {
                reg: PacingRegister::DmaControlStatus,
                value: (8u32 << 16) | (8u32 << 20) | DMA_DISDEBUG,
            },
        );
        ops.push(
            RegisterOp::ReadModifyWrite {
                src: PacingRegister::DmaControlStatus,
                dst: PacingRegister::DmaControlStatus,
                keep: 0xffff_ffff,
                set: DMA_ACTIVE | DMA_WAIT_ON_WRITES,
            },
        );
        self.state = SequencerState::DmaActive;
        proof {
            assert(ops@ =~= spec_dma_start_ops(first_cb_bus_address));
        }
        ops
    }

    /// The transition to Stopped: aborts and resets the channel. It may
    /// run from any phase — the shutdown sequence is the guaranteed
    /// teardown of every exit path, including failed bring-ups.
    pub fn stop_dma(&mut self) -> (ops: Vec<RegisterOp>)
        ensures
            ops@ == spec_dma_stop_ops(),
            final(self).state == SequencerState::Stopped,
    {
        let mut ops: Vec<RegisterOp> = Vec::new();
        ops.push(
            RegisterOp::Write { reg: PacingRegister::DmaControlStatus, value: DMA_CHANNEL_ABORT },
        );
        ops.push(RegisterOp::SettleDelay { micros: 100 });
        ops.push(
            RegisterOp::ReadModifyWrite {
                src: PacingRegister::DmaControlStatus,
                dst: PacingRegister::DmaControlStatus,
                keep: !DMA_ACTIVE,
                set: 0,
            },
        );
        ops.push(
            RegisterOp::ReadModifyWrite {
                src: PacingRegister::DmaControlStatus,
                dst: PacingRegister::DmaControlStatus,
                keep: 0xffff_ffff,
                set: DMA_CHANNEL_RESET,
            },
        );
        ops.push(RegisterOp::SettleDelay { micros: 100 });
        self.state = SequencerState::Stopped;
        proof {
            assert(ops@ =~= spec_dma_stop_ops());
        }
        ops
    }
}

/// Bring-up ordering law, clock side: no operation a clock bring-up step
/// emits can set the clock-manager enable bit while the observed control
/// value has the busy bit set.
pub proof fn lemma_clock_enable_only_when_idle(control_value: u32, divisor: u32)
    ensures
        forall|i: int|
            0 <= i < spec_clock_step_ops(control_value, divisor).len() && sets_clock_enable(
                #[trigger] spec_clock_step_ops(control_value, divisor)[i],
            ) ==> !clock_busy(control_value),
{
    assert(((0x5Au32 << 24) | (1u32 << 5)) & (1u32 << 4) == 0) by (bit_vector);
}

/// Bring-up ordering law, DMA side: in the DMA start sequence, every
/// operation that sets the active bit comes after an operation that has
/// already stored the nonzero address of the first control block into
/// the control-block address register.
pub proof fn lemma_dma_active_follows_cb_address(first_cb_bus_address: u32)
    requires
        first_cb_bus_address != 0,
    ensures
        forall|i: int|
            0 <= i < spec_dma_start_ops(first_cb_bus_address).len() && sets_dma_active(
                #[trigger] spec_dma_start_ops(first_cb_bus_address)[i],
            ) ==> exists|j: int|
                0 <= j < i && writes_nonzero_cb_address(
                    #[trigger] spec_dma_start_ops(first_cb_bus_address)[j],
                ),
{
    let ops = spec_dma_start_ops(first_cb_bus_address);
    assert((1u32 << 30) & (1u32 << 0) == 0) by (bit_vector);
    assert((1u32 << 31) & (1u32 << 0) == 0) by (bit_vector);
    assert(0u32 & (1u32 << 0) == 0) by (bit_vector);
    assert(((1u32 << 2) | (1u32 << 1)) & (1u32 << 0) == 0) by (bit_vector);
    assert(((8u32 << 16) | (8u32 << 20) | (1u32 << 29)) & (1u32 << 0) == 0) by (bit_vector);
    assert forall|i: int| 0 <= i < ops.len() && sets_dma_active(ops[i]) implies exists|j: int|
        0 <= j < i && writes_nonzero_cb_address(ops[j]) by {
        assert(!sets_dma_active(ops[0]));
        assert(!sets_dma_active(ops[1]));
        assert(!sets_dma_active(ops[2]));
        assert(!sets_dma_active(ops[3]));
        assert(!sets_dma_active(ops[4]));
        assert(!sets_dma_active(ops[5]));
        assert(!sets_dma_active(ops[6]));
        assert(i == 7);
        assert(writes_nonzero_cb_address(ops[5]));
    }
}

} // verus!
