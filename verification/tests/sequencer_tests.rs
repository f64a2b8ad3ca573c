use dma_pwm::addr::bus_addr_to_phys_addr;
use dma_pwm::allocation::DmaMemoryAllocation;
use dma_pwm::chain::{build_sample_chain, chain_buffer_bytes, results_buffer_bytes, DmaControlBlock};
use dma_pwm::mailbox::{response_value, PropertyRequest};
use dma_pwm::sequencer::{
    pwm_range_cycles, HardwareProfile, PacingRegister, RegisterOp, Sequencer, SequencerState,
    CM_BUSY, CM_ENABLE, CM_KILL, CM_PASSWORD, DMA_ACTIVE, DMA_CHANNEL_ABORT, DMA_CHANNEL_RESET,
};

/// A register backend standing in for the mapped peripheral windows. It
/// checks the bring-up ordering while it executes: the clock enable bit
/// may never be written while the busy bit is set, and the DMA active
/// bit may never be set before a nonzero control-block address has been
/// written.
#[derive(Default)]
struct MockRegisters {
    clock_control: u32,
    clock_divisor: u32,
    pwm_control: u32,
    pwm_status: u32,
    pwm_dma_config: u32,
    pwm_range: u32,
    dma_control_status: u32,
    dma_cb_address: u32,
}

impl MockRegisters {
    fn read(&self, reg: PacingRegister) -> u32 {
        match reg {
            PacingRegister::ClockControl => self.clock_control,
            PacingRegister::ClockDivisor => self.clock_divisor,
            PacingRegister::PwmControl => self.pwm_control,
            PacingRegister::PwmStatus => self.pwm_status,
            PacingRegister::PwmDmaConfig => self.pwm_dma_config,
            PacingRegister::PwmRange => self.pwm_range,
            PacingRegister::DmaControlStatus => self.dma_control_status,
            PacingRegister::DmaControlBlockAddress => self.dma_cb_address,
        }
    }

    fn store(&mut self, reg: PacingRegister, value: u32) {
        // Ordering checks before the store takes effect.
        if reg == PacingRegister::ClockControl && value & CM_ENABLE != 0 {
            assert_eq!(
                self.clock_control & CM_BUSY,
                0,
                "clock enable written while the generator was busy"
            );
        }
        if reg == PacingRegister::DmaControlStatus && value & DMA_ACTIVE != 0 {
            assert_ne!(
                self.dma_cb_address, 0,
                "DMA active set before the control-block address was written"
            );
        }
        match reg {
            PacingRegister::ClockControl => self.clock_control = value,
            PacingRegister::ClockDivisor => self.clock_divisor = value,
            PacingRegister::PwmControl => self.pwm_control = value,
            PacingRegister::PwmStatus => self.pwm_status = value,
            PacingRegister::PwmDmaConfig => self.pwm_dma_config = value,
            PacingRegister::PwmRange => self.pwm_range = value,
            PacingRegister::DmaControlStatus => self.dma_control_status = value,
            PacingRegister::DmaControlBlockAddress => self.dma_cb_address = value,
        }
    }

    fn run(&mut self, ops: &[RegisterOp]) {
        for op in ops {
            match *op {
                RegisterOp::Write { reg, value } => self.store(reg, value),
                RegisterOp::ReadModifyWrite { src, dst, keep, set } => {
                    let value = (self.read(src) & keep) | set;
                    self.store(dst, value);
                }
                RegisterOp::SettleDelay { .. } => {}
            }
        }
    }
}

/// A mailbox backend standing in for the firmware: allocate answers
/// with a fresh handle, lock pins each handle to a fixed bus address.
struct MockMailbox {
    next_handle: u32,
    next_bus_address: u32,
}

impl MockMailbox {
    fn new() -> Self {
        MockMailbox { next_handle: 100, next_bus_address: 0xC001_0000 }
    }

    fn call(&mut self, mut buffer: Vec<u32>) -> Vec<u32> {
        assert_eq!(buffer.len(), 32);
        match buffer[2] {
            0x3000c => {
                buffer[5] = self.next_handle;
                self.next_handle += 1;
            }
            0x3000d => {
                buffer[5] = self.next_bus_address;
                self.next_bus_address += 0x1_0000;
            }
            0x3000e | 0x3000f => {
                buffer[5] = 0;
            }
            tag => panic!("unexpected mailbox tag {:#x}", tag),
        }
        buffer
    }
}

/// Executes a sample chain the way the DMA engine would: follow the bus
/// addresses from the first block, and for each block write the next
/// timer tick into the results slot its destination names.
fn simulate_sample_chain(
    chain: &[DmaControlBlock],
    cbs_bus: u32,
    results_bus: u32,
    results: &mut [u32],
) -> usize {
    let mut addr = cbs_bus;
    let mut visited = 0;
    let mut tick = 1_000;
    while addr != 0 {
        assert!(visited < chain.len(), "chain walk did not terminate");
        assert_eq!((addr - cbs_bus) % 32, 0);
        let index = ((addr - cbs_bus) / 32) as usize;
        let block = &chain[index];
        assert_eq!(block.txfr_len, 4);
        let slot = ((block.dest_ad - results_bus) / 4) as usize;
        results[slot] = tick;
        tick += 1;
        visited += 1;
        addr = block.nextconbk;
    }
    visited
}

#[test]
fn pwm_range_formula() {
    // One megahertz of pacing clock gives one cycle per microsecond.
    assert_eq!(pwm_range_cycles(1_000_000, 100), 100);
    // The supported revision's 100 MHz effective clock.
    assert_eq!(pwm_range_cycles(100_000_000, 100), 10_000);
    assert_eq!(pwm_range_cycles(100_000_000, 1), 100);
}

#[test]
fn default_profile_matches_the_supported_revision() {
    let profile = HardwareProfile::default();
    assert_eq!(profile.peripheral_physical_base, 0xFE00_0000);
    assert_eq!(profile.peripheral_bus_base, 0x7E00_0000);
    assert_eq!(profile.dma_channel, 3);
    assert_eq!(profile.effective_clock_hz(), 100_000_000);
    assert_eq!(profile.timer_counter_low_bus_address(), 0x7E00_3004);
    assert_eq!(profile.pwm_fifo_bus_address(), 0x7E20_C020);
    assert_eq!(profile.dma_channel_physical_address(), 0xFE00_7300);
    assert_eq!(profile.pwm_physical_address(), 0xFE20_C000);
    assert_eq!(profile.clock_manager_physical_address(), 0xFE10_1000);
    assert_eq!(profile.system_timer_physical_address(), 0xFE00_3000);
}

#[test]
fn clock_bring_up_kills_until_idle() {
    let mut registers = MockRegisters::default();
    registers.clock_control = CM_BUSY;

    let mut sequencer = Sequencer::new();
    let mut polls = 0;
    loop {
        let observed = registers.read(PacingRegister::ClockControl);
        let ops = sequencer.enable_hardware_timer(observed, 5);
        registers.run(&ops);
        if sequencer.state == SequencerState::ClockConfigured {
            break;
        }
        polls += 1;
        assert!(polls < 3, "kill writes did not converge");
        // The kill write forces the generator out of its busy state.
        assert_eq!(registers.clock_control, CM_PASSWORD | CM_KILL);
        assert_eq!(registers.clock_control & CM_BUSY, 0);
    }
    assert_eq!(polls, 1);
    // The enable write went through with the busy bit clear, carrying
    // the password and the divisor register's value.
    assert_ne!(registers.clock_control & CM_ENABLE, 0);
    assert_eq!(registers.clock_divisor, CM_PASSWORD | (5 << 12));
}

#[test]
fn dma_start_writes_chain_address_before_activating() {
    let mut registers = MockRegisters::default();
    let mut sequencer = Sequencer::new();
    registers.run(&sequencer.enable_hardware_timer(0, 5));
    registers.run(&sequencer.start_pwm(100_000_000, 100));
    assert_eq!(registers.pwm_range, 10_000);

    // MockRegisters::store panics if the active bit is set before a
    // nonzero control-block address was written.
    let ops = sequencer.start_dma(0xC002_0000);
    registers.run(&ops);
    assert_eq!(sequencer.state, SequencerState::DmaActive);
    assert_eq!(registers.dma_cb_address, 0xC002_0000);
    assert_ne!(registers.dma_control_status & DMA_ACTIVE, 0);
}

#[test]
fn shutdown_aborts_and_resets_from_any_state() {
    let mut registers = MockRegisters::default();
    let mut sequencer = Sequencer::new();
    // Teardown must run even when bring-up never went past Idle.
    let ops = sequencer.stop_dma();
    assert_eq!(ops.len(), 5);
    assert!(matches!(
        ops[0],
        RegisterOp::Write { reg: PacingRegister::DmaControlStatus, value } if value == DMA_CHANNEL_ABORT
    ));
    registers.run(&ops);
    assert_eq!(sequencer.state, SequencerState::Stopped);
    assert_eq!(registers.dma_control_status & DMA_ACTIVE, 0);
    assert_ne!(registers.dma_control_status & DMA_CHANNEL_RESET, 0);
}

#[test]
fn sample_run_end_to_end_with_mock_backends() {
    let samples = 20;
    let mut profile = HardwareProfile::default();
    // A one-megahertz effective pacing clock for this scenario.
    profile.plld_hz = 5_000_000;
    profile.clock_divisor = 5;

    let mut mailbox = MockMailbox::new();
    let mut registers = MockRegisters::default();
    registers.clock_control = CM_BUSY;

    // Acquire the descriptor buffer and the results buffer.
    let cbs_bytes = chain_buffer_bytes(samples);
    let cbs_handle =
        response_value(&mailbox.call(DmaMemoryAllocation::allocate_request(cbs_bytes).encode()));
    let cbs_bus =
        response_value(&mailbox.call(DmaMemoryAllocation::lock_request(cbs_handle).encode()));
    let mut cbs_allocation = DmaMemoryAllocation::new(
        cbs_handle,
        cbs_bus,
        bus_addr_to_phys_addr(cbs_bus) as usize,
        4096,
    );

    let results_bytes = results_buffer_bytes(samples);
    assert_eq!(results_bytes, 80);
    let results_handle =
        response_value(&mailbox.call(DmaMemoryAllocation::allocate_request(results_bytes).encode()));
    let results_bus =
        response_value(&mailbox.call(DmaMemoryAllocation::lock_request(results_handle).encode()));
    let mut results_allocation = DmaMemoryAllocation::new(
        results_handle,
        results_bus,
        bus_addr_to_phys_addr(results_bus) as usize,
        4096,
    );

    // Build the chain: timer low word into consecutive results slots.
    let chain = build_sample_chain(
        samples,
        profile.timer_counter_low_bus_address(),
        results_bus,
        cbs_bus,
    );

    // Bring the hardware up in order.
    let mut sequencer = Sequencer::new();
    loop {
        let observed = registers.read(PacingRegister::ClockControl);
        let ops = sequencer.enable_hardware_timer(observed, profile.clock_divisor);
        registers.run(&ops);
        if sequencer.state == SequencerState::ClockConfigured {
            break;
        }
    }
    registers.run(&sequencer.start_pwm(profile.effective_clock_hz(), 100));
    // 1 MHz effective clock and a 100 microsecond period: range 100.
    assert_eq!(registers.pwm_range, 100);

    registers.run(&sequencer.start_dma(cbs_bus));
    assert_eq!(sequencer.state, SequencerState::DmaActive);

    // The engine consumes the chain while the channel is active.
    let mut results = vec![0u32; samples];
    let visited = simulate_sample_chain(&chain, cbs_bus, results_bus, &mut results);
    assert_eq!(visited, samples);

    registers.run(&sequencer.stop_dma());
    assert_eq!(sequencer.state, SequencerState::Stopped);

    // After the stop transition the results buffer holds all twenty
    // samples, written in order.
    for (i, value) in results.iter().enumerate() {
        assert_eq!(*value, 1_000 + i as u32);
    }

    // Guaranteed teardown of both allocations, exactly once.
    let plan = cbs_allocation.release().expect("teardown plan");
    assert_eq!(response_value(&mailbox.call(plan.unlock_request.encode())), 0);
    assert_eq!(response_value(&mailbox.call(plan.free_request.encode())), 0);
    assert!(cbs_allocation.release().is_none());

    let plan = results_allocation.release().expect("teardown plan");
    assert_eq!(response_value(&mailbox.call(plan.unlock_request.encode())), 0);
    assert_eq!(response_value(&mailbox.call(plan.free_request.encode())), 0);
    assert!(results_allocation.release().is_none());
}
