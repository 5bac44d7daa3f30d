//! The debug port: a guest names a message in its memory, has it appended to a buffer, and
//! has the buffer printed.
//!
//! This module decides what each register access means; the owner of the machine's memory
//! and of the console carries out the actions it returns.

use vstd::prelude::*;
use crate::machine::{ReadResult, WriteResult};

verus! {

/// The debug port's registers.
#[derive(Copy, Clone, Debug, PartialEq, Eq, Structural)]
pub struct DebugSPRegs {
    pub message_addr: u32,
    pub length: u32,
    pub status: u32,
}

impl Default for DebugSPRegs {
    fn default() -> (r: Self)
        ensures
            r == (DebugSPRegs { message_addr: 0, length: 0, status: 0 }),
    {
        Self { message_addr: 0, length: 0, status: 0 }
    }
}

/// The last print succeeded.
pub const DEBUG_STATUS_CODE_OK: u32 = 0;
/// A message byte could not be read.
pub const DEBUG_STATUS_CODE_ERROR_MEM: u32 = 1;
/// The buffer was not valid UTF-8.
pub const DEBUG_STATUS_CODE_ERROR_UTF: u32 = 2;

/// What the owner of the port must do after a register write.
#[derive(Copy, Clone, Debug, PartialEq, Eq, Structural)]
pub enum DebugAction {
    Nothing,
    /// Append the `length` bytes of guest memory at `addr` to the buffer.
    Push { addr: u32, length: u32 },
    /// Print the buffer as text and empty it.
    Print,
}

/// The registers after a write of `value` at `offset`, and what the write gives: 0 message
/// address, 4 length, 8 status; a write at 12 asks to append the message to the buffer, one
/// at 16 to print the buffer.
pub open spec fn spec_debug_write(regs: DebugSPRegs, offset: u32, value: u32) -> (DebugSPRegs, (WriteResult, DebugAction)) {
    if offset == 0 {
        (DebugSPRegs { message_addr: value, ..regs }, (WriteResult::Success, DebugAction::Nothing))
    } else if offset == 4 {
        (DebugSPRegs { length: value, ..regs }, (WriteResult::Success, DebugAction::Nothing))
    } else if offset == 8 {
        (DebugSPRegs { status: value, ..regs }, (WriteResult::Success, DebugAction::Nothing))
    } else if offset == 12 {
        (regs, (WriteResult::Success, DebugAction::Push { addr: regs.message_addr, length: regs.length }))
    } else if offset == 16 {
        (regs, (WriteResult::Success, DebugAction::Print))
    } else {
        (regs, (WriteResult::InvalidAddress, DebugAction::Nothing))
    }
}

/// What a read at `offset` gives, by the port's register map: the message address at 0, the
/// length at 4, the status at 8, and zero at 12 and 16.
pub open spec fn spec_debug_read(regs: DebugSPRegs, offset: u32) -> ReadResult<u32> {
    if offset == 0 {
        ReadResult::Success(regs.message_addr)
    } else if offset == 4 {
        ReadResult::Success(regs.length)
    } else if offset == 8 {
        ReadResult::Success(regs.status)
    } else if offset == 12 || offset == 16 {
        ReadResult::Success(0)
    } else {
        ReadResult::InvalidAddress
    }
}

/// Writes the port register at `offset` (see `spec_debug_write`).
pub fn debug_write_u32(regs: &mut DebugSPRegs, offset: u32, value: u32) -> (r: (WriteResult, DebugAction))
    ensures
        (*final(regs), r) == spec_debug_write(*old(regs), offset, value),
{
    match offset {
        0 => {
            regs.message_addr = value;
            (WriteResult::Success, DebugAction::Nothing)
        },
        4 => {
            regs.length = value;
            (WriteResult::Success, DebugAction::Nothing)
        },
        8 => {
            regs.status = value;
            (WriteResult::Success, DebugAction::Nothing)
        },
        12 => (WriteResult::Success, DebugAction::Push { addr: regs.message_addr, length: regs.length }),
        16 => (WriteResult::Success, DebugAction::Print),
        _ => (WriteResult::InvalidAddress, DebugAction::Nothing),
    }
}

/// A write at 0, 4 or 8 reads back at the same offset, and leaves what the other two of
/// these offsets read as it was.
pub proof fn law_debug_write_read_back(regs: DebugSPRegs, offset: u32, value: u32, other: u32)
    requires
        offset == 0 || offset == 4 || offset == 8,
        other == 0 || other == 4 || other == 8,
        other != offset,
    ensures
        spec_debug_read(spec_debug_write(regs, offset, value).0, offset) == ReadResult::Success(value),
        spec_debug_read(spec_debug_write(regs, offset, value).0, other) == spec_debug_read(regs, other),
{
}

/// Writes a 16-bit value, widened, as `debug_write_u32` does.
pub fn debug_write_u16(regs: &mut DebugSPRegs, offset: u32, value: u16) -> (r: (WriteResult, DebugAction))
    ensures
        (*final(regs), r) == spec_debug_write(*old(regs), offset, value as u32),
{
    debug_write_u32(regs, offset, value as u32)
}

/// Writes an 8-bit value, widened, as `debug_write_u32` does.
pub fn debug_write_u8(regs: &mut DebugSPRegs, offset: u32, value: u8) -> (r: (WriteResult, DebugAction))
    ensures
        (*final(regs), r) == spec_debug_write(*old(regs), offset, value as u32),
{
    debug_write_u32(regs, offset, value as u32)
}

/// Reads the port register at `offset` (see `spec_debug_read`).
pub fn debug_read_u32(regs: &DebugSPRegs, offset: u32) -> (r: ReadResult<u32>)
    ensures
        r == spec_debug_read(*regs, offset),
{
    match offset {
        0 => ReadResult::Success(regs.message_addr),
        4 => ReadResult::Success(regs.length),
        8 => ReadResult::Success(regs.status),
        12 | 16 => ReadResult::Success(0),
        _ => ReadResult::InvalidAddress,
    }
}

/// Reads a port register and keeps its low 16 bits.
pub fn debug_read_u16(regs: &DebugSPRegs, offset: u32) -> (r: ReadResult<u16>)
    ensures
        r == (match spec_debug_read(*regs, offset) {
            ReadResult::Success(x) => ReadResult::Success(x as u16),
            ReadResult::InvalidAddress => ReadResult::InvalidAddress,
        }),
{
    match debug_read_u32(regs, offset) {
        ReadResult::Success(x) => ReadResult::Success(x as u16),
        ReadResult::InvalidAddress => ReadResult::InvalidAddress,
    }
}

/// Reads a port register and keeps its low 8 bits.
pub fn debug_read_u8(regs: &DebugSPRegs, offset: u32) -> (r: ReadResult<u8>)
    ensures
        r == (match spec_debug_read(*regs, offset) {
            ReadResult::Success(x) => ReadResult::Success(x as u8),
            ReadResult::InvalidAddress => ReadResult::InvalidAddress,
        }),
{
    match debug_read_u32(regs, offset) {
        ReadResult::Success(x) => ReadResult::Success(x as u8),
        ReadResult::InvalidAddress => ReadResult::InvalidAddress,
    }
}

/// One step of appending a message: the byte at `addr + i` (wrapping), which lies in the
/// debug port's own range when `in_port_range`, and whose read gave `byte`. A byte of the
/// port or an unreadable byte sets the memory error status and stops the append (false);
/// otherwise the byte joins the buffer (true).
pub fn debug_push_byte(regs: &mut DebugSPRegs, buffer: &mut Vec<u8>, in_port_range: bool, byte: ReadResult<u8>) -> (r: bool)
    ensures
        r == (!in_port_range && byte is Success),
        r ==> *final(regs) == *old(regs) && final(buffer)@ == old(buffer)@.push(byte->Success_0),
        !r ==> *final(regs) == (DebugSPRegs { status: DEBUG_STATUS_CODE_ERROR_MEM, ..*old(regs) })
            && final(buffer)@ == old(buffer)@,
{
    if in_port_range {
        regs.status = DEBUG_STATUS_CODE_ERROR_MEM;
        return false;
    }
    match byte {
        ReadResult::Success(b) => {
            buffer.push(b);
            true
        },
        ReadResult::InvalidAddress => {
            regs.status = DEBUG_STATUS_CODE_ERROR_MEM;
            false
        },
    }
}

/// The address of byte `i` of a message at `addr`, wrapping around.
pub fn debug_byte_address(addr: u32, i: u32) -> (r: u32)
    ensures
        r == (addr as int + i as int) % 0x1_0000_0000,
{
    addr.wrapping_add(i)
}

/// Ends a print: the status tells whether the buffer was valid UTF-8.
pub fn debug_print_done(regs: &mut DebugSPRegs, valid_utf8: bool)
    ensures
        *final(regs) == (DebugSPRegs {
            status: if valid_utf8 { DEBUG_STATUS_CODE_OK } else { DEBUG_STATUS_CODE_ERROR_UTF },
            ..*old(regs)
        }),
{
    regs.status = if valid_utf8 { DEBUG_STATUS_CODE_OK } else { DEBUG_STATUS_CODE_ERROR_UTF };
}

} // verus!
