//! SPU command lists.

use vstd::prelude::*;
use super::command_list::{
    command_u32_bytes, lemma_u32_at, spec_push_outcome, spec_u32_at, spec_u32_bytes, CommandListBuilder,
};

verus! {

/// Marker of SPU command lists.
pub struct SpuCommands;

/// The SPU's four command queues.
#[derive(Copy, Clone, Debug, PartialEq, Eq, Structural)]
pub enum SpuQueue {
    Queue0,
    Queue1,
    Queue2,
    Queue3,
}

impl SpuQueue {
    /// The queue's number.
    pub open spec fn spec_to_u32(self) -> u32 {
        match self {
            SpuQueue::Queue0 => 0,
            SpuQueue::Queue1 => 1,
            SpuQueue::Queue2 => 2,
            SpuQueue::Queue3 => 3,
        }
    }

    /// The queue's number.
    pub fn to_u32(self) -> (r: u32)
        ensures
            r == self.spec_to_u32(),
    {
        match self {
            SpuQueue::Queue0 => 0,
            SpuQueue::Queue1 => 1,
            SpuQueue::Queue2 => 2,
            SpuQueue::Queue3 => 3,
        }
    }

    /// The register a command list's address is written to, to submit it to this queue.
    pub fn submit_register(self) -> (r: u32)
        ensures
            r == 0x8004_0010 + 4 * self.spec_to_u32(),
    {
        let n = self.to_u32();
        assert((n << 2u32) == n * 4) by (bit_vector) requires n < 4;
        0x8004_0010u32 + (n << 2)
    }
}

/// Why an SPU command could not be added.
#[derive(Copy, Clone, Debug, PartialEq, Eq, Structural)]
pub enum SpuCommandBuilderError {
    OutOfSpace,
}

/// The bytes of the command: 0x00, then the new sample count.
pub open spec fn spec_reset_sample_counter_command(reset_value: u32) -> Seq<u8> {
    seq![0x00u8] + spec_u32_bytes(reset_value)
}

/// The bytes of the command: 0x01, then the sample count to wait for.
pub open spec fn spec_wait_sample_counter_command(sample_count: u32) -> Seq<u8> {
    seq![0x01u8] + spec_u32_bytes(sample_count)
}

/// The bytes of the command: 0x02, whether to interrupt, then the address of the completion flag.
pub open spec fn spec_write_flag_command(flag_address: u32, interrupt: bool) -> Seq<u8> {
    seq![0x02u8, (if interrupt { 1u8 } else { 0u8 })] + spec_u32_bytes(flag_address)
}

/// SPU commands, for any command list builder.
pub trait SpuCommandBuilderExt: CommandListBuilder<SpuCommands> + Sized {
    /// Appends a command: 0x00, then the new sample count.
    fn reset_sample_counter(&mut self, reset_value: u32) -> (r: Result<(), SpuCommandBuilderError>)
        requires
            old(self).inv(),
        ensures
            final(self).inv(),
            spec_push_outcome(old(self).written(), old(self).room(), final(self).written(), final(self).room(),
                spec_reset_sample_counter_command(reset_value), r is Ok),
            r is Err ==> r == Err::<(), SpuCommandBuilderError>(SpuCommandBuilderError::OutOfSpace),
    {
        let b0 = command_u32_bytes(reset_value);
        let data = [0x00u8, b0[0], b0[1], b0[2], b0[3]];
        proof { assert(data@ =~= spec_reset_sample_counter_command(reset_value)); }
        if !self.push_command(&data) {
            Err(SpuCommandBuilderError::OutOfSpace)
        } else {
            Ok(())
        }
    }

    /// Appends a command: 0x01, then the sample count to wait for.
    fn wait_sample_counter(&mut self, sample_count: u32) -> (r: Result<(), SpuCommandBuilderError>)
        requires
            old(self).inv(),
        ensures
            final(self).inv(),
            spec_push_outcome(old(self).written(), old(self).room(), final(self).written(), final(self).room(),
                spec_wait_sample_counter_command(sample_count), r is Ok),
            r is Err ==> r == Err::<(), SpuCommandBuilderError>(SpuCommandBuilderError::OutOfSpace),
    {
        let b0 = command_u32_bytes(sample_count);
        let data = [0x01u8, b0[0], b0[1], b0[2], b0[3]];
        proof { assert(data@ =~= spec_wait_sample_counter_command(sample_count)); }
        if !self.push_command(&data) {
            Err(SpuCommandBuilderError::OutOfSpace)
        } else {
            Ok(())
        }
    }

    /// Appends a command: 0x02, whether to interrupt, then the address of the completion flag.
    fn write_flag(&mut self, flag_address: u32, interrupt: bool) -> (r: Result<(), SpuCommandBuilderError>)
        requires
            old(self).inv(),
        ensures
            final(self).inv(),
            spec_push_outcome(old(self).written(), old(self).room(), final(self).written(), final(self).room(),
                spec_write_flag_command(flag_address, interrupt), r is Ok),
            r is Err ==> r == Err::<(), SpuCommandBuilderError>(SpuCommandBuilderError::OutOfSpace),
    {
        let b0 = command_u32_bytes(flag_address);
        let data = [0x02u8, (if interrupt { 1u8 } else { 0u8 }), b0[0], b0[1], b0[2], b0[3]];
        proof { assert(data@ =~= spec_write_flag_command(flag_address, interrupt)); }
        if !self.push_command(&data) {
            Err(SpuCommandBuilderError::OutOfSpace)
        } else {
            Ok(())
        }
    }
}

impl<B: CommandListBuilder<SpuCommands>> SpuCommandBuilderExt for B {}

/// The sound unit reads a sample counter reset as: opcode 0x00, the new count in bytes 1..5.
pub proof fn law_reset_sample_counter_fields(reset_value: u32)
    ensures
        ({
            let b = spec_reset_sample_counter_command(reset_value);
            b.len() == 5 && b[0] == 0x00u8 && spec_u32_at(b, 1) == reset_value
        }),
{
    let b = spec_reset_sample_counter_command(reset_value);
    assert(b.subrange(1, 5) =~= spec_u32_bytes(reset_value));
    lemma_u32_at(b, 1, reset_value);
}

/// The sound unit reads a wait as: opcode 0x01, the sample count in bytes 1..5.
pub proof fn law_wait_sample_counter_fields(sample_count: u32)
    ensures
        ({
            let b = spec_wait_sample_counter_command(sample_count);
            b.len() == 5 && b[0] == 0x01u8 && spec_u32_at(b, 1) == sample_count
        }),
{
    let b = spec_wait_sample_counter_command(sample_count);
    assert(b.subrange(1, 5) =~= spec_u32_bytes(sample_count));
    lemma_u32_at(b, 1, sample_count);
}

/// The sound unit reads a flag write as: opcode 0x02, 1 in byte 1 when it interrupts, the
/// flag's address in bytes 2..6.
pub proof fn law_spu_write_flag_fields(flag_address: u32, interrupt: bool)
    ensures
        ({
            let b = spec_write_flag_command(flag_address, interrupt);
            b.len() == 6 && b[0] == 0x02u8 && b[1] == (if interrupt { 1u8 } else { 0u8 }) && spec_u32_at(b, 2) == flag_address
        }),
{
    let b = spec_write_flag_command(flag_address, interrupt);
    assert(b.subrange(2, 6) =~= spec_u32_bytes(flag_address));
    lemma_u32_at(b, 2, flag_address);
}

} // verus!
