use rvfm::hart::csrs::InterruptBits;
use rvfm::interrupt_controller::{
    interrupt_controller_read_u16, interrupt_controller_read_u32, interrupt_controller_read_u8,
    interrupt_controller_write_u16, interrupt_controller_write_u32, interrupt_controller_write_u8, InterruptController,
    InterruptType, PendingInterrupt,
};
use rvfm::machine::{ReadResult, WriteResult};

fn line_register(line: u32, register: u32) -> u32 {
    (line << 4) | register
}

#[test]
fn enable_reads_back_as_one_or_zero() {
    let mut c = InterruptController::new();
    assert_eq!(interrupt_controller_write_u32(&mut c, line_register(1, 0), 5), WriteResult::Success);
    assert_eq!(interrupt_controller_read_u32(&c, line_register(1, 0)), ReadResult::Success(1));
    assert!(c.get_interrupt_enabled(1));
    assert_eq!(interrupt_controller_write_u32(&mut c, line_register(1, 0), 0), WriteResult::Success);
    assert_eq!(interrupt_controller_read_u32(&c, line_register(1, 0)), ReadResult::Success(0));
}

#[test]
fn target_hart_reads_back_modulo_four() {
    let mut c = InterruptController::new();
    assert_eq!(interrupt_controller_write_u32(&mut c, line_register(3, 4), 7), WriteResult::Success);
    assert_eq!(interrupt_controller_read_u32(&c, line_register(3, 4)), ReadResult::Success(3));
    assert_eq!(c.get_interrupt_hart(3), 3);
}

#[test]
fn unknown_registers_are_refused() {
    let mut c = InterruptController::new();
    assert_eq!(interrupt_controller_write_u32(&mut c, line_register(0, 0xC), 1), WriteResult::InvalidAddress);
    assert_eq!(interrupt_controller_read_u32(&c, line_register(0, 0xC)), ReadResult::InvalidAddress);
    assert_eq!(interrupt_controller_write_u8(&mut c, line_register(2, 2), 1), WriteResult::InvalidAddress);
    // A line past the fourth has registers that read as zero and ignore writes.
    assert_eq!(interrupt_controller_write_u32(&mut c, line_register(9, 0), 1), WriteResult::Success);
    assert_eq!(interrupt_controller_read_u32(&c, line_register(9, 0)), ReadResult::Success(0));
}

#[test]
fn raised_line_is_pending_for_its_hart() {
    let mut c = InterruptController::new();
    c.set_interrupt_hart(0, 2);
    c.set_interrupt_enabled(0, true);
    assert_eq!(c.take_wake_requests(), 0);
    c.trigger_interrupt(InterruptType::Gpu);
    assert_eq!(interrupt_controller_read_u32(&c, 0xFC0 | (2 << 2)), ReadResult::Success(0));
    assert_eq!(c.pending_interrupt(2), Some(PendingInterrupt::External));
    assert_eq!(c.mip(2) & InterruptBits::MEI, InterruptBits::MEI);
    assert_eq!(c.take_wake_requests(), 1 << 2);
    assert_eq!(c.take_wake_requests(), 0);
    // Nothing is pending for the other harts.
    assert_eq!(interrupt_controller_read_u32(&c, 0xFC0), ReadResult::Success(0xFFFF_FFFF));
    assert_eq!(c.pending_interrupt(0), None);
    // Clearing the flag takes it away.
    assert_eq!(interrupt_controller_write_u32(&mut c, line_register(0, 8), 1), WriteResult::Success);
    assert_eq!(interrupt_controller_read_u32(&c, line_register(0, 8)), ReadResult::Success(0));
    assert_eq!(c.mip(2) & InterruptBits::MEI, 0);
}

#[test]
fn disabled_line_is_not_pending() {
    let mut c = InterruptController::new();
    c.trigger_interrupt(InterruptType::Spu);
    assert!(c.get_interrupt_flag(3));
    assert_eq!(c.pending_interrupt_number(0), None);
    assert_eq!(c.take_wake_requests(), 0);
}

#[test]
fn vsync_is_reported_before_present() {
    let mut c = InterruptController::new();
    c.set_interrupt_enabled(1, true);
    c.set_interrupt_enabled(2, true);
    c.trigger_interrupt(InterruptType::Present);
    c.trigger_interrupt(InterruptType::VSync);
    assert_eq!(c.pending_interrupt_number(0), Some(1));
}

#[test]
fn inter_hart_interrupt_trigger_then_clear() {
    let mut c = InterruptController::new();
    assert_eq!(interrupt_controller_write_u32(&mut c, 0xFD0 | (1 << 2), 1), WriteResult::Success);
    assert_eq!(interrupt_controller_read_u32(&c, 0xFD0 | (1 << 2)), ReadResult::Success(1));
    assert_eq!(interrupt_controller_write_u32(&mut c, 0xFF0 | (1 << 2), 1), WriteResult::Success);
    assert_eq!(interrupt_controller_read_u32(&c, 0xFE0 | (1 << 2)), ReadResult::Success(1));
    assert_eq!(c.pending_interrupt(1), Some(PendingInterrupt::InterHart));
    assert_eq!(interrupt_controller_read_u32(&c, 0xFC0 | (1 << 2)), ReadResult::Success(0xFF));
    assert_eq!(c.mip(1) & InterruptBits::MSI, InterruptBits::MSI);
    assert_eq!(c.take_wake_requests(), 1 << 1);
    assert_eq!(interrupt_controller_write_u32(&mut c, 0xFE0 | (1 << 2), 1), WriteResult::Success);
    assert_eq!(interrupt_controller_read_u32(&c, 0xFE0 | (1 << 2)), ReadResult::Success(0));
    assert_eq!(c.mip(1) & InterruptBits::MSI, 0);
    // Bit 0 clear: the write does nothing.
    assert_eq!(interrupt_controller_write_u32(&mut c, 0xFF0 | (1 << 2), 2), WriteResult::Success);
    assert!(!c.get_ihi_flag(1));
}

#[test]
fn narrow_accesses_widen_and_truncate() {
    let mut c = InterruptController::new();
    assert_eq!(interrupt_controller_write_u16(&mut c, line_register(2, 4), 0x0102), WriteResult::Success);
    assert_eq!(c.get_interrupt_hart(2), 2);
    assert_eq!(interrupt_controller_read_u16(&c, 0xFC0), ReadResult::Success(0xFFFF));
    assert_eq!(interrupt_controller_read_u8(&c, 0xFC0), ReadResult::Success(0xFF));
    assert_eq!(interrupt_controller_read_u8(&c, line_register(2, 4)), ReadResult::Success(2));
}
