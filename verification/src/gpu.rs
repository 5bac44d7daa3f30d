//! The graphics unit: its command port, the types, shaders and parser it uses, and its textures.

pub mod types;
pub mod shader;
pub mod shader_parser;
pub mod rasterizer;
pub mod shading_unit;
pub mod shader_constants;
pub mod texture;
pub mod slots;
pub mod gpu_core;

use vstd::prelude::*;
use crate::machine::{ReadResult, WriteResult};

verus! {

/// Writes the command port at `offset`. Offset 0 takes the address of a command list to run,
/// given back for the graphics thread's queue; other offsets are refused.
pub fn gpu_write_u32(offset: u32, value: u32) -> (r: (WriteResult, Option<u32>))
    ensures
        offset == 0 ==> r == (WriteResult::Success, Some(value)),
        offset != 0 ==> r == (WriteResult::InvalidAddress, None::<u32>),
{
    match offset {
        0 => (WriteResult::Success, Some(value)),
        _ => (WriteResult::InvalidAddress, None),
    }
}

/// Writes a 16-bit value, widened, as `gpu_write_u32` does.
pub fn gpu_write_u16(offset: u32, value: u16) -> (r: (WriteResult, Option<u32>))
    ensures
        offset == 0 ==> r == (WriteResult::Success, Some(value as u32)),
        offset != 0 ==> r == (WriteResult::InvalidAddress, None::<u32>),
{
    gpu_write_u32(offset, value as u32)
}

/// Writes an 8-bit value, widened, as `gpu_write_u32` does.
pub fn gpu_write_u8(offset: u32, value: u8) -> (r: (WriteResult, Option<u32>))
    ensures
        offset == 0 ==> r == (WriteResult::Success, Some(value as u32)),
        offset != 0 ==> r == (WriteResult::InvalidAddress, None::<u32>),
{
    gpu_write_u32(offset, value as u32)
}

/// Reads the command port: 0 at offset 0, refused elsewhere.
pub fn gpu_read_u32(offset: u32) -> (r: ReadResult<u32>)
    ensures
        r == (if offset == 0 { ReadResult::Success(0u32) } else { ReadResult::InvalidAddress }),
{
    match offset {
        0 => ReadResult::Success(0),
        _ => ReadResult::InvalidAddress,
    }
}

/// Reads the command port as 16 bits.
pub fn gpu_read_u16(offset: u32) -> (r: ReadResult<u16>)
    ensures
        r == (if offset == 0 { ReadResult::Success(0u16) } else { ReadResult::InvalidAddress }),
{
    match gpu_read_u32(offset) {
        ReadResult::Success(x) => ReadResult::Success(x as u16),
        ReadResult::InvalidAddress => ReadResult::InvalidAddress,
    }
}

/// Reads the command port as 8 bits.
pub fn gpu_read_u8(offset: u32) -> (r: ReadResult<u8>)
    ensures
        r == (if offset == 0 { ReadResult::Success(0u8) } else { ReadResult::InvalidAddress }),
{
    match gpu_read_u32(offset) {
        ReadResult::Success(x) => ReadResult::Success(x as u8),
        ReadResult::InvalidAddress => ReadResult::InvalidAddress,
    }
}

} // verus!
