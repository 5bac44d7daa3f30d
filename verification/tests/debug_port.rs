use rvfm::debug::{
    debug_byte_address, debug_print_done, debug_push_byte, debug_read_u16, debug_read_u32, debug_read_u8,
    debug_write_u16, debug_write_u32, debug_write_u8, DebugAction, DebugSPRegs, DEBUG_STATUS_CODE_ERROR_MEM,
    DEBUG_STATUS_CODE_ERROR_UTF, DEBUG_STATUS_CODE_OK,
};
use rvfm::machine::{ReadResult, WriteResult};

#[test]
fn registers_and_actions() {
    let mut regs = DebugSPRegs::default();
    assert_eq!(debug_write_u32(&mut regs, 0, 0x8000_0000), (WriteResult::Success, DebugAction::Nothing));
    assert_eq!(debug_write_u16(&mut regs, 4, 12), (WriteResult::Success, DebugAction::Nothing));
    assert_eq!(regs, DebugSPRegs { message_addr: 0x8000_0000, length: 12, status: 0 });
    assert_eq!(
        debug_write_u8(&mut regs, 12, 1),
        (WriteResult::Success, DebugAction::Push { addr: 0x8000_0000, length: 12 })
    );
    assert_eq!(debug_write_u32(&mut regs, 16, 1), (WriteResult::Success, DebugAction::Print));
    assert_eq!(debug_write_u32(&mut regs, 20, 1), (WriteResult::InvalidAddress, DebugAction::Nothing));
    assert_eq!(debug_write_u32(&mut regs, 8, 3), (WriteResult::Success, DebugAction::Nothing));
    assert_eq!(regs.status, 3);
}

#[test]
fn reads_follow_the_register_map() {
    let regs = DebugSPRegs { message_addr: 1, length: 0x1_0203, status: 2 };
    assert_eq!(debug_read_u32(&regs, 0), ReadResult::Success(1));
    assert_eq!(debug_read_u32(&regs, 8), ReadResult::Success(2));
    assert_eq!(debug_read_u32(&regs, 12), ReadResult::Success(0));
    assert_eq!(debug_read_u32(&regs, 16), ReadResult::Success(0));
    assert_eq!(debug_read_u32(&regs, 3), ReadResult::InvalidAddress);
    assert_eq!(debug_read_u16(&regs, 4), ReadResult::Success(0x0203));
    assert_eq!(debug_read_u8(&regs, 4), ReadResult::Success(0x03));
}

#[test]
fn pushing_bytes() {
    let mut regs = DebugSPRegs::default();
    let mut buffer = Vec::new();
    assert!(debug_push_byte(&mut regs, &mut buffer, false, ReadResult::Success(b'h')));
    assert!(debug_push_byte(&mut regs, &mut buffer, false, ReadResult::Success(b'i')));
    assert_eq!(buffer, b"hi".to_vec());
    assert_eq!(regs.status, DEBUG_STATUS_CODE_OK);
    assert!(!debug_push_byte(&mut regs, &mut buffer, true, ReadResult::Success(b'!')));
    assert_eq!(regs.status, DEBUG_STATUS_CODE_ERROR_MEM);
    assert_eq!(buffer, b"hi".to_vec());
    let mut regs = DebugSPRegs::default();
    assert!(!debug_push_byte(&mut regs, &mut buffer, false, ReadResult::InvalidAddress));
    assert_eq!(regs.status, DEBUG_STATUS_CODE_ERROR_MEM);
}

#[test]
fn byte_addresses_wrap() {
    assert_eq!(debug_byte_address(0xFFFF_FFFF, 2), 1);
    assert_eq!(debug_byte_address(0x100, 5), 0x105);
}

#[test]
fn print_status() {
    let mut regs = DebugSPRegs::default();
    debug_print_done(&mut regs, false);
    assert_eq!(regs.status, DEBUG_STATUS_CODE_ERROR_UTF);
    debug_print_done(&mut regs, true);
    assert_eq!(regs.status, DEBUG_STATUS_CODE_OK);
}

#[test]
fn written_registers_read_back() {
    let mut regs = DebugSPRegs::default();
    debug_write_u32(&mut regs, 8, 7);
    debug_write_u32(&mut regs, 0, 0x2000);
    debug_write_u32(&mut regs, 4, 12);
    assert_eq!(debug_read_u32(&regs, 0), ReadResult::Success(0x2000));
    assert_eq!(debug_read_u32(&regs, 4), ReadResult::Success(12));
    assert_eq!(debug_read_u32(&regs, 8), ReadResult::Success(7));
}
