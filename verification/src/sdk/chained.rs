//! Command lists built by chained calls: each command takes the builder and gives it back,
//! or fails, consuming it, when the command does not fit.

use vstd::prelude::*;
use core::marker::PhantomData;
use super::command_list::{command_u16_bytes, command_u32_bytes, spec_u32_bytes, COMMANDLIST_HEADER_LENGTH};
use super::gpu::{
    mode_bits, spec_clear_texture_command, spec_configure_buffer_command, spec_configure_texture_command,
    spec_cutout_blit_command, spec_direct_blit_command, spec_present_texture_command,
    spec_set_constant_sampler_f32_command, spec_set_constant_sampler_unorm8_command, f32_color_bytes, spec_set_video_mode_command, spec_upload_buffer_command,
    spec_upload_texture_command, GpuCommands, ImageDataLayout, PixelDataType, TextureConfig, VideoResolution,
};
use crate::gpu::texture::u32_memory_bytes;
use super::spu::{spec_reset_sample_counter_command, spec_wait_sample_counter_command, SpuCommands};

verus! {

/// A finished command list: its bytes, header included.
pub struct CommandList<Commands>(pub Vec<u8>, pub PhantomData<Commands>);

/// Builds a command list in a buffer, the commands after the header.
pub struct CommandListBuilder<Commands> {
    buffer: Vec<u8>,
    offset: usize,
    _phantom_command: PhantomData<Commands>,
}

/// What appending `command` to `before` gives: when the command fits with a byte to spare,
/// the builder back with the command written just after the others and every other byte of
/// the buffer as it was; otherwise an error that hands the buffer back unchanged.
pub open spec fn chained<Commands>(
    before: CommandListBuilder<Commands>,
    r: Result<CommandListBuilder<Commands>, Vec<u8>>,
    command: Seq<u8>,
) -> bool {
    &&& r is Ok <==> command.len() < before.room()
    &&& r matches Ok(after) ==> {
        &&& after.inv()
        &&& after.spec_buffer() == before.spec_buffer().subrange(0, before.end())
            + command + before.spec_buffer().subrange(before.end() + command.len(), before.spec_buffer().len() as int)
        &&& after.written() == before.written() + command
        &&& after.room() == before.room() - command.len()
    }
    &&& r matches Err(buffer) ==> buffer@ == before.spec_buffer()
}

impl<Commands> CommandListBuilder<Commands> {
    /// The whole buffer.
    pub closed spec fn spec_buffer(&self) -> Seq<u8> {
        self.buffer@
    }

    /// The commands written so far, in order.
    pub closed spec fn written(&self) -> Seq<u8> {
        Seq::new((self.offset - COMMANDLIST_HEADER_LENGTH) as nat, |i: int| self.buffer@[COMMANDLIST_HEADER_LENGTH + i])
    }

    /// Where the next command goes: the header's length plus that of the commands so far.
    pub closed spec fn end(&self) -> int {
        self.offset as int
    }

    /// Bytes of the buffer after the commands (negative for a buffer shorter than the header).
    pub closed spec fn room(&self) -> int {
        self.buffer@.len() - self.offset
    }

    /// The commands start after the header; once there is one, they end inside the buffer.
    pub closed spec fn inv(&self) -> bool {
        &&& COMMANDLIST_HEADER_LENGTH <= self.offset
        &&& self.offset == COMMANDLIST_HEADER_LENGTH || self.offset <= self.buffer@.len()
    }

    /// A builder writing its commands after the header in `buffer`.
    pub fn new(buffer: Vec<u8>) -> (r: Self)
        ensures
            r.inv(),
            r.spec_buffer() == buffer@,
            r.written() == Seq::<u8>::empty(),
            r.room() == buffer@.len() - COMMANDLIST_HEADER_LENGTH,
    {
        let r = Self { buffer, offset: COMMANDLIST_HEADER_LENGTH, _phantom_command: PhantomData };
        assert(r.written() =~= Seq::<u8>::empty());
        r
    }

    /// Appends `data` when it fits with a byte to spare.
    pub fn push_command(self, data: &[u8]) -> (r: Result<Self, Vec<u8>>)
        requires
            self.inv(),
            self.spec_buffer().len() >= COMMANDLIST_HEADER_LENGTH,
        ensures
            chained(self, r, data@),
    {
        let CommandListBuilder { buffer, offset, _phantom_command } = self;
        let mut buffer = buffer;
        let data_len = data.len();
        if data_len < buffer.len() - offset {
            let ghost before = buffer@;
            let mut k: usize = 0;
            while k < data_len
                invariant
                    k <= data_len,
                    data_len == data@.len(),
                    offset + data_len < buffer@.len(),
                    offset + data_len <= usize::MAX,
                    buffer@.len() == before.len(),
                    COMMANDLIST_HEADER_LENGTH <= offset,
                    forall|j: int| 0 <= j < offset ==> buffer@[j] == before[j],
                    forall|j: int| offset + data_len <= j < before.len() ==> buffer@[j] == before[j],
                    forall|j: int| 0 <= j < k ==> buffer@[offset + j] == data@[j],
                decreases data_len - k,
            {
                buffer.set(offset + k, data[k]);
                k = k + 1;
            }
            let r = CommandListBuilder { buffer, offset: offset + data_len, _phantom_command };
            assert(r.written() =~= self.written() + data@);
            assert(r.spec_buffer() =~= before.subrange(0, offset as int) + data@
                + before.subrange(offset + data_len, before.len() as int));
            Ok(r)
        } else {
            Err(buffer)
        }
    }

    /// The list: the length of the commands in the first header word, and the rest of the
    /// buffer as it was.
    pub fn finish(self) -> (r: CommandList<Commands>)
        requires
            self.inv(),
            self.spec_buffer().len() >= 4,
        ensures
            r.0@.len() == self.spec_buffer().len(),
            r.0@.subrange(0, 4) == spec_u32_bytes(self.written().len() as u32),
            r.0@.subrange(4, self.spec_buffer().len() as int) == self.spec_buffer().subrange(4, self.spec_buffer().len() as int),
    {
        let mut buffer = self.buffer;
        let length = command_u32_bytes((self.offset - COMMANDLIST_HEADER_LENGTH) as u32);
        let ghost before = buffer@;
        buffer.set(0, length[0]);
        buffer.set(1, length[1]);
        buffer.set(2, length[2]);
        buffer.set(3, length[3]);
        proof {
            assert(buffer@.subrange(0, 4) =~= spec_u32_bytes(self.written().len() as u32));
            assert(buffer@.subrange(4, before.len() as int) =~= before.subrange(4, before.len() as int));
        }
        CommandList(buffer, PhantomData)
    }
}

impl CommandListBuilder<GpuCommands> {
    /// Appends a command: 0x00 0x00, the texture, the constant sampler to fill it from.
    pub fn clear_texture(self, texture: u8, constant_sampler: u8) -> (r: Result<Self, Vec<u8>>)
        requires
            self.inv(),
            self.spec_buffer().len() >= COMMANDLIST_HEADER_LENGTH,
        ensures
            chained(self, r, spec_clear_texture_command(texture, constant_sampler)),
    {
        let data = [0x00u8, 0x00u8, texture, constant_sampler];
        proof { assert(data@ =~= spec_clear_texture_command(texture, constant_sampler)); }
        self.push_command(&data)
    }

    /// Appends a command: 0x01 0x00, the texture, whether to interrupt, the completion flag's address.
    pub fn present_texture(self, texture: u8, completion_address: u32, interrupt: bool) -> (r: Result<Self, Vec<u8>>)
        requires
            self.inv(),
            self.spec_buffer().len() >= COMMANDLIST_HEADER_LENGTH,
        ensures
            chained(self, r, spec_present_texture_command(texture, completion_address, interrupt)),
    {
        let b0 = command_u32_bytes(completion_address);
        let data = [0x01u8, 0x00u8, texture, (if interrupt { 1u8 } else { 0u8 }), b0[0], b0[1], b0[2], b0[3]];
        proof { assert(data@ =~= spec_present_texture_command(texture, completion_address, interrupt)); }
        self.push_command(&data)
    }

    /// Appends a command: 0x02 0x00, the sampler, 0x03 (8-bit unsigned normalized), the four color bytes, twelve zero bytes.
    pub fn set_constant_sampler_unorm8(self, constant_sampler: u8, color: [u8; 4]) -> (r: Result<Self, Vec<u8>>)
        requires
            self.inv(),
            self.spec_buffer().len() >= COMMANDLIST_HEADER_LENGTH,
        ensures
            chained(self, r, spec_set_constant_sampler_unorm8_command(constant_sampler, color)),
    {
        let data = [0x02u8, 0x00u8, constant_sampler, 0x03u8, color[0], color[1], color[2], color[3], 0x00u8, 0x00u8, 0x00u8, 0x00u8, 0x00u8, 0x00u8, 0x00u8, 0x00u8, 0x00u8, 0x00u8, 0x00u8, 0x00u8];
        proof { assert(data@ =~= spec_set_constant_sampler_unorm8_command(constant_sampler, color)); }
        self.push_command(&data)
    }

    /// Appends a command: 0x02 0x00, the sampler, 0x07 (32-bit float), then the four channels,
    /// given as `f32` bit patterns and laid out in the machine's byte order.
    pub fn set_constant_sampler_f32(self, constant_sampler: u8, color: [u32; 4]) -> (r: Result<Self, Vec<u8>>)
        requires
            self.inv(),
            self.spec_buffer().len() >= COMMANDLIST_HEADER_LENGTH,
        ensures
            exists|b: Seq<u8>| f32_color_bytes(b, color) && chained(self, r, spec_set_constant_sampler_f32_command(constant_sampler, b)),
    {
        let c = u32_memory_bytes(color.as_slice());
        let data = [0x02u8, 0x00u8, constant_sampler, 0x07u8, c[0], c[1], c[2], c[3], c[4], c[5], c[6], c[7], c[8], c[9], c[10], c[11], c[12], c[13], c[14], c[15]];
        proof {
            assert(color@.map_values(|v: u32| v as int).len() == 4);
            assert(data@ =~= spec_set_constant_sampler_f32_command(constant_sampler, c@));
        }
        let r = self.push_command(&data);
        proof {
            assert(f32_color_bytes(c@, color));
        }
        r
    }

    /// Appends a command: 0x03 0x00 0x00, then the mode bits (resolution, 2 backgrounds, 4 sprites, 8 triangles).
    pub fn set_video_mode(self, resolution: VideoResolution, backgrounds: bool, sprites: bool, triangles: bool) -> (r: Result<Self, Vec<u8>>)
        requires
            self.inv(),
            self.spec_buffer().len() >= COMMANDLIST_HEADER_LENGTH,
        ensures
            chained(self, r, spec_set_video_mode_command(resolution, backgrounds, sprites, triangles)),
    {
        let data = [0x03u8, 0x00u8, 0x00u8, mode_bits(resolution, backgrounds, sprites, triangles)];
        proof { assert(data@ =~= spec_set_video_mode_command(resolution, backgrounds, sprites, triangles)); }
        self.push_command(&data)
    }

    /// Appends a command: 0x02, whether to interrupt, the flag's address, the value.
    pub fn write_flag(self, flag_address: u32, value: u32, interrupt: bool) -> (r: Result<Self, Vec<u8>>)
        requires
            self.inv(),
            self.spec_buffer().len() >= COMMANDLIST_HEADER_LENGTH,
        ensures
            chained(self, r, super::gpu::spec_write_flag_command(flag_address, value, interrupt)),
    {
        let b0 = command_u32_bytes(flag_address);
        let b1 = command_u32_bytes(value);
        let data = [0x02u8, (if interrupt { 1u8 } else { 0u8 }), b0[0], b0[1], b0[2], b0[3], b1[0], b1[1], b1[2], b1[3]];
        proof { assert(data@ =~= super::gpu::spec_write_flag_command(flag_address, value, interrupt)); }
        self.push_command(&data)
    }

    /// Appends a command: 0x05 0x00, width, height, the texture, pixel and image layouts, three zero bytes.
    pub fn configure_textre(self, texture: u8, config: &TextureConfig) -> (r: Result<Self, Vec<u8>>)
        requires
            self.inv(),
            self.spec_buffer().len() >= COMMANDLIST_HEADER_LENGTH,
        ensures
            chained(self, r, spec_configure_texture_command(texture, *config)),
    {
        let b0 = command_u16_bytes(config.width);
        let b1 = command_u16_bytes(config.height);
        let data = [0x05u8, 0x00u8, b0[0], b0[1], b1[0], b1[1], texture, config.pixel_layout.to_u8(), config.image_layout.to_u8(), 0x00u8, 0x00u8, 0x00u8];
        proof { assert(data@ =~= spec_configure_texture_command(texture, *config)); }
        self.push_command(&data)
    }

    /// Appends a command: 0x06 0x00, the texture, the data's image layout, the data's address.
    pub fn upload_texture(self, texture: u8, texture_data_layout: ImageDataLayout, texture_data_address: u32) -> (r: Result<Self, Vec<u8>>)
        requires
            self.inv(),
            self.spec_buffer().len() >= COMMANDLIST_HEADER_LENGTH,
        ensures
            chained(self, r, spec_upload_texture_command(texture, texture_data_layout, texture_data_address)),
    {
        let b0 = command_u32_bytes(texture_data_address);
        let data = [0x06u8, 0x00u8, texture, texture_data_layout.to_u8(), b0[0], b0[1], b0[2], b0[3]];
        proof { assert(data@ =~= spec_upload_texture_command(texture, texture_data_layout, texture_data_address)); }
        self.push_command(&data)
    }

    /// Appends a command: 0x07 0x00 0x00, the buffer, its length.
    pub fn configure_buffer(self, buffer: u8, length: u32) -> (r: Result<Self, Vec<u8>>)
        requires
            self.inv(),
            self.spec_buffer().len() >= COMMANDLIST_HEADER_LENGTH,
        ensures
            chained(self, r, spec_configure_buffer_command(buffer, length)),
    {
        let b0 = command_u32_bytes(length);
        let data = [0x07u8, 0x00u8, 0x00u8, buffer, b0[0], b0[1], b0[2], b0[3]];
        proof { assert(data@ =~= spec_configure_buffer_command(buffer, length)); }
        self.push_command(&data)
    }

    /// Appends a command: 0x08 0x00 0x00, the buffer, the data's address.
    pub fn upload_buffer(self, buffer: u8, data_address: u32) -> (r: Result<Self, Vec<u8>>)
        requires
            self.inv(),
            self.spec_buffer().len() >= COMMANDLIST_HEADER_LENGTH,
        ensures
            chained(self, r, spec_upload_buffer_command(buffer, data_address)),
    {
        let b0 = command_u32_bytes(data_address);
        let data = [0x08u8, 0x00u8, 0x00u8, buffer, b0[0], b0[1], b0[2], b0[3]];
        proof { assert(data@ =~= spec_upload_buffer_command(buffer, data_address)); }
        self.push_command(&data)
    }

    /// Appends a command: 0x09 0x00, source and destination textures, then source position, destination position and size.
    pub fn direct_blit(self, src_tex: u8, dst_tex: u8, src_x: u16, src_y: u16, dst_x: u16, dst_y: u16, width: u16, height: u16) -> (r: Result<Self, Vec<u8>>)
        requires
            self.inv(),
            self.spec_buffer().len() >= COMMANDLIST_HEADER_LENGTH,
        ensures
            chained(self, r, spec_direct_blit_command(src_tex, dst_tex, src_x, src_y, dst_x, dst_y, width, height)),
    {
        let b0 = command_u16_bytes(src_x);
        let b1 = command_u16_bytes(src_y);
        let b2 = command_u16_bytes(dst_x);
        let b3 = command_u16_bytes(dst_y);
        let b4 = command_u16_bytes(width);
        let b5 = command_u16_bytes(height);
        let data = [0x09u8, 0x00u8, src_tex, dst_tex, b0[0], b0[1], b1[0], b1[1], b2[0], b2[1], b3[0], b3[1], b4[0], b4[1], b5[0], b5[1]];
        proof { assert(data@ =~= spec_direct_blit_command(src_tex, dst_tex, src_x, src_y, dst_x, dst_y, width, height)); }
        self.push_command(&data)
    }

    /// Appends a command: 0x0A 0x00, as a direct blit, then three zero bytes and the source's alpha data type.
    pub fn cutout_blit(self, src_tex: u8, dst_tex: u8, src_x: u16, src_y: u16, dst_x: u16, dst_y: u16, width: u16, height: u16, src_alpha_data_type: PixelDataType) -> (r: Result<Self, Vec<u8>>)
        requires
            self.inv(),
            self.spec_buffer().len() >= COMMANDLIST_HEADER_LENGTH,
        ensures
            chained(self, r, spec_cutout_blit_command(src_tex, dst_tex, src_x, src_y, dst_x, dst_y, width, height, src_alpha_data_type)),
    {
        let b0 = command_u16_bytes(src_x);
        let b1 = command_u16_bytes(src_y);
        let b2 = command_u16_bytes(dst_x);
        let b3 = command_u16_bytes(dst_y);
        let b4 = command_u16_bytes(width);
        let b5 = command_u16_bytes(height);
        let data = [0x0Au8, 0x00u8, src_tex, dst_tex, b0[0], b0[1], b1[0], b1[1], b2[0], b2[1], b3[0], b3[1], b4[0], b4[1], b5[0], b5[1], 0x00u8, 0x00u8, 0x00u8, src_alpha_data_type.to_u8()];
        proof { assert(data@ =~= spec_cutout_blit_command(src_tex, dst_tex, src_x, src_y, dst_x, dst_y, width, height, src_alpha_data_type)); }
        self.push_command(&data)
    }
}

impl CommandListBuilder<SpuCommands> {
    /// Appends a command: 0x00, then the new sample count.
    pub fn reset_sample_counter(self, reset_value: u32) -> (r: Result<Self, Vec<u8>>)
        requires
            self.inv(),
            self.spec_buffer().len() >= COMMANDLIST_HEADER_LENGTH,
        ensures
            chained(self, r, spec_reset_sample_counter_command(reset_value)),
    {
        let b0 = command_u32_bytes(reset_value);
        let data = [0x00u8, b0[0], b0[1], b0[2], b0[3]];
        proof { assert(data@ =~= spec_reset_sample_counter_command(reset_value)); }
        self.push_command(&data)
    }

    /// Appends a command: 0x01, then the sample count to wait for.
    pub fn wait_sample_counter(self, sample_count: u32) -> (r: Result<Self, Vec<u8>>)
        requires
            self.inv(),
            self.spec_buffer().len() >= COMMANDLIST_HEADER_LENGTH,
        ensures
            chained(self, r, spec_wait_sample_counter_command(sample_count)),
    {
        let b0 = command_u32_bytes(sample_count);
        let data = [0x01u8, b0[0], b0[1], b0[2], b0[3]];
        proof { assert(data@ =~= spec_wait_sample_counter_command(sample_count)); }
        self.push_command(&data)
    }

    /// Appends a command: 0x02, whether to interrupt, then the flag's address; `value` is not part of it.
    pub fn write_flag(self, flag_address: u32, value: u32, interrupt: bool) -> (r: Result<Self, Vec<u8>>)
        requires
            self.inv(),
            self.spec_buffer().len() >= COMMANDLIST_HEADER_LENGTH,
        ensures
            chained(self, r, super::spu::spec_write_flag_command(flag_address, interrupt)),
    {
        let b0 = command_u32_bytes(flag_address);
        let data = [0x02u8, (if interrupt { 1u8 } else { 0u8 }), b0[0], b0[1], b0[2], b0[3]];
        proof { assert(data@ =~= super::spu::spec_write_flag_command(flag_address, interrupt)); }
        self.push_command(&data)
    }
}

} // verus!
