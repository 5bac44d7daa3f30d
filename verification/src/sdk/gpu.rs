//! GPU command lists.

use vstd::prelude::*;
use super::command_list::{
    command_u16_bytes, command_u32_bytes, lemma_u16_at, lemma_u32_at, spec_push_outcome, spec_u16_at, spec_u16_bytes,
    spec_u32_at, spec_u32_bytes, CommandListBuilder,
};

use crate::gpu::texture::{holds_values, u32_memory_bytes};
use crate::gpu::shader::ShaderType;

verus! {

/// Screen resolutions.
#[derive(Copy, Clone, Debug, PartialEq, Eq, Structural)]
pub enum VideoResolution {
    R512x384,
    R256x192,
}

impl VideoResolution {
    /// The number the GPU knows it by.
    pub open spec fn spec_to_u8(self) -> u8 {
        match self {
            VideoResolution::R512x384 => 1,
            VideoResolution::R256x192 => 0,
        }
    }

    /// The number the GPU knows it by.
    pub fn to_u8(self) -> (r: u8)
        ensures
            r == self.spec_to_u8(),
    {
        match self {
            VideoResolution::R512x384 => 1,
            VideoResolution::R256x192 => 0,
        }
    }
}
/// Pixel sizes and channel counts.
#[derive(Copy, Clone, Debug, PartialEq, Eq, Structural)]
pub enum PixelDataLayout {
    D8x1,
    D8x2,
    D8x4,
    D16x1,
    D16x2,
    D16x4,
    D32x1,
    D32x2,
    D32x4,
}

impl PixelDataLayout {
    /// The number the GPU knows it by.
    pub open spec fn spec_to_u8(self) -> u8 {
        match self {
            PixelDataLayout::D8x1 => 0,
            PixelDataLayout::D8x2 => 1,
            PixelDataLayout::D8x4 => 2,
            PixelDataLayout::D16x1 => 3,
            PixelDataLayout::D16x2 => 4,
            PixelDataLayout::D16x4 => 5,
            PixelDataLayout::D32x1 => 6,
            PixelDataLayout::D32x2 => 7,
            PixelDataLayout::D32x4 => 8,
        }
    }

    /// The number the GPU knows it by.
    pub fn to_u8(self) -> (r: u8)
        ensures
            r == self.spec_to_u8(),
    {
        match self {
            PixelDataLayout::D8x1 => 0,
            PixelDataLayout::D8x2 => 1,
            PixelDataLayout::D8x4 => 2,
            PixelDataLayout::D16x1 => 3,
            PixelDataLayout::D16x2 => 4,
            PixelDataLayout::D16x4 => 5,
            PixelDataLayout::D32x1 => 6,
            PixelDataLayout::D32x2 => 7,
            PixelDataLayout::D32x4 => 8,
        }
    }
}
/// Orders of pixels in memory.
#[derive(Copy, Clone, Debug, PartialEq, Eq, Structural)]
pub enum ImageDataLayout {
    Contiguous,
    Block8x8,
    Block4x4,
}

impl ImageDataLayout {
    /// The number the GPU knows it by.
    pub open spec fn spec_to_u8(self) -> u8 {
        match self {
            ImageDataLayout::Contiguous => 0,
            ImageDataLayout::Block8x8 => 1,
            ImageDataLayout::Block4x4 => 2,
        }
    }

    /// The number the GPU knows it by.
    pub fn to_u8(self) -> (r: u8)
        ensures
            r == self.spec_to_u8(),
    {
        match self {
            ImageDataLayout::Contiguous => 0,
            ImageDataLayout::Block8x8 => 1,
            ImageDataLayout::Block4x4 => 2,
        }
    }
}
/// Pixel data types.
#[derive(Copy, Clone, Debug, PartialEq, Eq, Structural)]
pub enum PixelDataType {
    RUNorm8,
    RgUNorm8,
    RgbUNorm8,
    RgbaUNorm8,
    RF32,
    RgF32,
    RgbF32,
    RgbaF32,
}

impl PixelDataType {
    /// The number the GPU knows it by.
    pub open spec fn spec_to_u8(self) -> u8 {
        match self {
            PixelDataType::RUNorm8 => 0,
            PixelDataType::RgUNorm8 => 1,
            PixelDataType::RgbUNorm8 => 2,
            PixelDataType::RgbaUNorm8 => 3,
            PixelDataType::RF32 => 4,
            PixelDataType::RgF32 => 5,
            PixelDataType::RgbF32 => 6,
            PixelDataType::RgbaF32 => 7,
        }
    }

    /// The number the GPU knows it by.
    pub fn to_u8(self) -> (r: u8)
        ensures
            r == self.spec_to_u8(),
    {
        match self {
            PixelDataType::RUNorm8 => 0,
            PixelDataType::RgUNorm8 => 1,
            PixelDataType::RgbUNorm8 => 2,
            PixelDataType::RgbaUNorm8 => 3,
            PixelDataType::RF32 => 4,
            PixelDataType::RgF32 => 5,
            PixelDataType::RgbF32 => 6,
            PixelDataType::RgbaF32 => 7,
        }
    }
}
/// Shader kinds.
#[derive(Copy, Clone, Debug, PartialEq, Eq, Structural)]
pub enum ShaderKind {
    Vertex,
    Fragment,
    Compute,
}

impl ShaderKind {
    /// The number the GPU knows it by.
    pub open spec fn spec_to_u8(self) -> u8 {
        match self {
            ShaderKind::Vertex => 0,
            ShaderKind::Fragment => 1,
            ShaderKind::Compute => 2,
        }
    }

    /// The number the GPU knows it by.
    pub fn to_u8(self) -> (r: u8)
        ensures
            r == self.spec_to_u8(),
    {
        match self {
            ShaderKind::Vertex => 0,
            ShaderKind::Fragment => 1,
            ShaderKind::Compute => 2,
        }
    }
}
/// Size and layout of a texture.
#[derive(Copy, Clone, Debug, PartialEq, Eq, Structural)]
pub struct TextureConfig {
    pub pixel_layout: PixelDataLayout,
    pub image_layout: ImageDataLayout,
    pub width: u16,
    pub height: u16,
}

/// Marker of GPU command lists.
pub struct GpuCommands;

/// The part of the target a draw may write.
#[derive(Copy, Clone, Debug, PartialEq, Eq, Structural)]
pub struct ClippingRect {
    pub x_low: u16,
    pub x_high: u16,
    pub y_low: u16,
    pub y_high: u16,
}

/// Why a GPU command could not be added.
#[derive(Copy, Clone, Debug, PartialEq, Eq, Structural)]
pub enum GpuCommandBuilderError {
    OutOfSpace,
}

/// The mode byte of a video mode: the resolution's number, plus 2 with backgrounds, 4 with
/// sprites and 8 with triangles.
pub open spec fn spec_mode_bits(resolution: VideoResolution, backgrounds: bool, sprites: bool, triangles: bool) -> u8 {
    (resolution.spec_to_u8() + (if backgrounds { 2u8 } else { 0u8 }) + (if sprites { 4u8 } else { 0u8 })
        + (if triangles { 8u8 } else { 0u8 })) as u8
}

/// The mode byte of a video mode (see `spec_mode_bits`).
pub fn mode_bits(resolution: VideoResolution, backgrounds: bool, sprites: bool, triangles: bool) -> (r: u8)
    ensures
        r == spec_mode_bits(resolution, backgrounds, sprites, triangles),
{
    let res = resolution.to_u8();
    let b: u8 = if backgrounds { 2 } else { 0 };
    let s: u8 = if sprites { 4 } else { 0 };
    let t: u8 = if triangles { 8 } else { 0 };
    assert((res | b | s | t) == res + b + s + t) by (bit_vector)
        requires res <= 1, b == 0 || b == 2, s == 0 || s == 4, t == 0 || t == 8;
    res | b | s | t
}

/// The bytes of the command: 0x00 0x00, the texture, the constant sampler to fill it from.
pub open spec fn spec_clear_texture_command(texture: u8, constant_sampler: u8) -> Seq<u8> {
    seq![0x00u8, 0x00u8, texture, constant_sampler]
}

/// The bytes of the command: 0x01 0x00, the texture, whether to interrupt, the completion flag's address.
pub open spec fn spec_present_texture_command(texture: u8, completion_address: u32, interrupt: bool) -> Seq<u8> {
    seq![0x01u8, 0x00u8, texture, (if interrupt { 1u8 } else { 0u8 })] + spec_u32_bytes(completion_address)
}

/// The bytes of the command: 0x02 0x00, the sampler, 0x03 (8-bit unsigned normalized), the four color bytes, twelve zero bytes.
pub open spec fn spec_set_constant_sampler_unorm8_command(constant_sampler: u8, color: [u8; 4]) -> Seq<u8> {
    seq![0x02u8, 0x00u8, constant_sampler, 0x03u8, color[0], color[1], color[2], color[3], 0x00u8, 0x00u8, 0x00u8, 0x00u8, 0x00u8, 0x00u8, 0x00u8, 0x00u8, 0x00u8, 0x00u8, 0x00u8, 0x00u8]
}

/// The bytes of the command: 0x02 0x00, the sampler, 0x07 (32-bit float), then the bytes of
/// the four channels.
pub open spec fn spec_set_constant_sampler_f32_command(constant_sampler: u8, color_bytes: Seq<u8>) -> Seq<u8> {
    seq![0x02u8, 0x00u8, constant_sampler, 0x07u8] + color_bytes
}

/// `b` is the bytes of the four `f32` channels whose bit patterns are `color`, in memory order.
pub open spec fn f32_color_bytes(b: Seq<u8>, color: [u32; 4]) -> bool {
    holds_values(b, color@.map_values(|v: u32| v as int), 4)
}

/// The bytes of the command: 0x03 0x00 0x00, then the mode bits (resolution, 2 backgrounds, 4 sprites, 8 triangles).
pub open spec fn spec_set_video_mode_command(resolution: VideoResolution, backgrounds: bool, sprites: bool, triangles: bool) -> Seq<u8> {
    seq![0x03u8, 0x00u8, 0x00u8, spec_mode_bits(resolution, backgrounds, sprites, triangles)]
}

/// The bytes of the command: 0x02, whether to interrupt, the flag's address, the value.
pub open spec fn spec_write_flag_command(flag_address: u32, value: u32, interrupt: bool) -> Seq<u8> {
    seq![0x02u8, (if interrupt { 1u8 } else { 0u8 })] + spec_u32_bytes(flag_address) + spec_u32_bytes(value)
}

/// The bytes of the command: 0x05 0x00, width, height, the texture, pixel and image layouts, three zero bytes.
pub open spec fn spec_configure_texture_command(texture: u8, config: TextureConfig) -> Seq<u8> {
    seq![0x05u8, 0x00u8] + spec_u16_bytes(config.width) + spec_u16_bytes(config.height) + seq![texture, config.pixel_layout.spec_to_u8(), config.image_layout.spec_to_u8(), 0x00u8, 0x00u8, 0x00u8]
}

/// The bytes of the command: 0x06 0x00, the texture, the data's image layout, the data's address.
pub open spec fn spec_upload_texture_command(texture: u8, texture_data_layout: ImageDataLayout, texture_data_address: u32) -> Seq<u8> {
    seq![0x06u8, 0x00u8, texture, texture_data_layout.spec_to_u8()] + spec_u32_bytes(texture_data_address)
}

/// The bytes of the command: 0x07 0x00 0x00, the buffer, its length.
pub open spec fn spec_configure_buffer_command(buffer: u8, length: u32) -> Seq<u8> {
    seq![0x07u8, 0x00u8, 0x00u8, buffer] + spec_u32_bytes(length)
}

/// The bytes of the command: 0x08 0x00 0x00, the buffer, the data's address.
pub open spec fn spec_upload_buffer_command(buffer: u8, data_address: u32) -> Seq<u8> {
    seq![0x08u8, 0x00u8, 0x00u8, buffer] + spec_u32_bytes(data_address)
}

/// The bytes of the command: 0x09 0x00, source and destination textures, then source position, destination position and size.
pub open spec fn spec_direct_blit_command(src_tex: u8, dst_tex: u8, src_x: u16, src_y: u16, dst_x: u16, dst_y: u16, width: u16, height: u16) -> Seq<u8> {
    seq![0x09u8, 0x00u8, src_tex, dst_tex] + spec_u16_bytes(src_x) + spec_u16_bytes(src_y) + spec_u16_bytes(dst_x) + spec_u16_bytes(dst_y) + spec_u16_bytes(width) + spec_u16_bytes(height)
}

/// The bytes of the command: 0x0A 0x00, as a direct blit, then three zero bytes and the source's alpha data type.
pub open spec fn spec_cutout_blit_command(src_tex: u8, dst_tex: u8, src_x: u16, src_y: u16, dst_x: u16, dst_y: u16, width: u16, height: u16, src_alpha_data_type: PixelDataType) -> Seq<u8> {
    seq![0x0Au8, 0x00u8, src_tex, dst_tex] + spec_u16_bytes(src_x) + spec_u16_bytes(src_y) + spec_u16_bytes(dst_x) + spec_u16_bytes(dst_y) + spec_u16_bytes(width) + spec_u16_bytes(height) + seq![0x00u8, 0x00u8, 0x00u8, src_alpha_data_type.spec_to_u8()]
}

/// The bytes of the command: 0x0C 0x00, the code's length and address, two zero bytes, the shader slot, its kind.
pub open spec fn spec_upload_shader_command(index: u8, kind: ShaderKind, code_length: u16, code_address: u32) -> Seq<u8> {
    seq![0x0Cu8, 0x00u8] + spec_u16_bytes(code_length) + spec_u32_bytes(code_address) + seq![0x00u8, 0x00u8, index, kind.spec_to_u8()]
}

/// The bytes of the command: 0x0D 0x00, the slot, no flags, the state's address.
pub open spec fn spec_upload_graphics_pipeline_state_command(index: u8, state_address: u32) -> Seq<u8> {
    seq![0x0Du8, 0x00u8, index, 0x00u8] + spec_u32_bytes(state_address)
}

/// The bytes of the command: 0x0F 0x00, the pipeline state, fragment then vertex shader, three zero bytes, the vertex count, the clipping rectangle.
pub open spec fn spec_draw_graphics_pipeline_command(state_index: u8, vertex_shader: u8, fragment_shader: u8, vertex_count: u32, clipping_rect: ClippingRect) -> Seq<u8> {
    seq![0x0Fu8, 0x00u8, state_index, fragment_shader, vertex_shader, 0x00u8, 0x00u8, 0x00u8] + spec_u32_bytes(vertex_count) + spec_u16_bytes(clipping_rect.x_low) + spec_u16_bytes(clipping_rect.x_high) + spec_u16_bytes(clipping_rect.y_low) + spec_u16_bytes(clipping_rect.y_high)
}

/// GPU commands, for any command list builder.
pub trait GpuCommandBuilderExt: CommandListBuilder<GpuCommands> + Sized {
    /// Appends a command: 0x00 0x00, the texture, the constant sampler to fill it from.
    fn clear_texture(&mut self, texture: u8, constant_sampler: u8) -> (r: Result<(), GpuCommandBuilderError>)
        requires
            old(self).inv(),
        ensures
            final(self).inv(),
            spec_push_outcome(old(self).written(), old(self).room(), final(self).written(), final(self).room(),
                spec_clear_texture_command(texture, constant_sampler), r is Ok),
            r is Err ==> r == Err::<(), GpuCommandBuilderError>(GpuCommandBuilderError::OutOfSpace),
    {
        let data = [0x00u8, 0x00u8, texture, constant_sampler];
        proof { assert(data@ =~= spec_clear_texture_command(texture, constant_sampler)); }
        if !self.push_command(&data) {
            Err(GpuCommandBuilderError::OutOfSpace)
        } else {
            Ok(())
        }
    }

    /// Appends a command: 0x01 0x00, the texture, whether to interrupt, the completion flag's address.
    fn present_texture(&mut self, texture: u8, completion_address: u32, interrupt: bool) -> (r: Result<(), GpuCommandBuilderError>)
        requires
            old(self).inv(),
        ensures
            final(self).inv(),
            spec_push_outcome(old(self).written(), old(self).room(), final(self).written(), final(self).room(),
                spec_present_texture_command(texture, completion_address, interrupt), r is Ok),
            r is Err ==> r == Err::<(), GpuCommandBuilderError>(GpuCommandBuilderError::OutOfSpace),
    {
        let b0 = command_u32_bytes(completion_address);
        let data = [0x01u8, 0x00u8, texture, (if interrupt { 1u8 } else { 0u8 }), b0[0], b0[1], b0[2], b0[3]];
        proof { assert(data@ =~= spec_present_texture_command(texture, completion_address, interrupt)); }
        if !self.push_command(&data) {
            Err(GpuCommandBuilderError::OutOfSpace)
        } else {
            Ok(())
        }
    }

    /// Appends a command: 0x02 0x00, the sampler, 0x03 (8-bit unsigned normalized), the four color bytes, twelve zero bytes.
    fn set_constant_sampler_unorm8(&mut self, constant_sampler: u8, color: [u8; 4]) -> (r: Result<(), GpuCommandBuilderError>)
        requires
            old(self).inv(),
        ensures
            final(self).inv(),
            spec_push_outcome(old(self).written(), old(self).room(), final(self).written(), final(self).room(),
                spec_set_constant_sampler_unorm8_command(constant_sampler, color), r is Ok),
            r is Err ==> r == Err::<(), GpuCommandBuilderError>(GpuCommandBuilderError::OutOfSpace),
    {
        let data = [0x02u8, 0x00u8, constant_sampler, 0x03u8, color[0], color[1], color[2], color[3], 0x00u8, 0x00u8, 0x00u8, 0x00u8, 0x00u8, 0x00u8, 0x00u8, 0x00u8, 0x00u8, 0x00u8, 0x00u8, 0x00u8];
        proof { assert(data@ =~= spec_set_constant_sampler_unorm8_command(constant_sampler, color)); }
        if !self.push_command(&data) {
            Err(GpuCommandBuilderError::OutOfSpace)
        } else {
            Ok(())
        }
    }

    /// Appends a command: 0x02 0x00, the sampler, 0x07 (32-bit float), then the four channels,
    /// given as `f32` bit patterns and laid out in the machine's byte order.
    fn set_constant_sampler_f32(&mut self, constant_sampler: u8, color: [u32; 4]) -> (r: Result<(), GpuCommandBuilderError>)
        requires
            old(self).inv(),
        ensures
            final(self).inv(),
            exists|b: Seq<u8>| f32_color_bytes(b, color)
                && spec_push_outcome(old(self).written(), old(self).room(), final(self).written(), final(self).room(),
                    spec_set_constant_sampler_f32_command(constant_sampler, b), r is Ok),
            r is Err ==> r == Err::<(), GpuCommandBuilderError>(GpuCommandBuilderError::OutOfSpace),
    {
        let c = u32_memory_bytes(color.as_slice());
        let data = [0x02u8, 0x00u8, constant_sampler, 0x07u8, c[0], c[1], c[2], c[3], c[4], c[5], c[6], c[7], c[8], c[9], c[10], c[11], c[12], c[13], c[14], c[15]];
        proof {
            assert(color@.map_values(|v: u32| v as int).len() == 4);
            assert(data@ =~= spec_set_constant_sampler_f32_command(constant_sampler, c@));
        }
        let pushed = self.push_command(&data);
        proof {
            assert(f32_color_bytes(c@, color));
        }
        if !pushed {
            Err(GpuCommandBuilderError::OutOfSpace)
        } else {
            Ok(())
        }
    }

    /// Appends a command: 0x03 0x00 0x00, then the mode bits (resolution, 2 backgrounds, 4 sprites, 8 triangles).
    fn set_video_mode(&mut self, resolution: VideoResolution, backgrounds: bool, sprites: bool, triangles: bool) -> (r: Result<(), GpuCommandBuilderError>)
        requires
            old(self).inv(),
        ensures
            final(self).inv(),
            spec_push_outcome(old(self).written(), old(self).room(), final(self).written(), final(self).room(),
                spec_set_video_mode_command(resolution, backgrounds, sprites, triangles), r is Ok),
            r is Err ==> r == Err::<(), GpuCommandBuilderError>(GpuCommandBuilderError::OutOfSpace),
    {
        let data = [0x03u8, 0x00u8, 0x00u8, mode_bits(resolution, backgrounds, sprites, triangles)];
        proof { assert(data@ =~= spec_set_video_mode_command(resolution, backgrounds, sprites, triangles)); }
        if !self.push_command(&data) {
            Err(GpuCommandBuilderError::OutOfSpace)
        } else {
            Ok(())
        }
    }

    /// Appends a command: 0x02, whether to interrupt, the flag's address, the value.
    fn write_flag(&mut self, flag_address: u32, value: u32, interrupt: bool) -> (r: Result<(), GpuCommandBuilderError>)
        requires
            old(self).inv(),
        ensures
            final(self).inv(),
            spec_push_outcome(old(self).written(), old(self).room(), final(self).written(), final(self).room(),
                spec_write_flag_command(flag_address, value, interrupt), r is Ok),
            r is Err ==> r == Err::<(), GpuCommandBuilderError>(GpuCommandBuilderError::OutOfSpace),
    {
        let b0 = command_u32_bytes(flag_address);
        let b1 = command_u32_bytes(value);
        let data = [0x02u8, (if interrupt { 1u8 } else { 0u8 }), b0[0], b0[1], b0[2], b0[3], b1[0], b1[1], b1[2], b1[3]];
        proof { assert(data@ =~= spec_write_flag_command(flag_address, value, interrupt)); }
        if !self.push_command(&data) {
            Err(GpuCommandBuilderError::OutOfSpace)
        } else {
            Ok(())
        }
    }

    /// Appends a command: 0x05 0x00, width, height, the texture, pixel and image layouts, three zero bytes.
    fn configure_texture(&mut self, texture: u8, config: TextureConfig) -> (r: Result<(), GpuCommandBuilderError>)
        requires
            old(self).inv(),
        ensures
            final(self).inv(),
            spec_push_outcome(old(self).written(), old(self).room(), final(self).written(), final(self).room(),
                spec_configure_texture_command(texture, config), r is Ok),
            r is Err ==> r == Err::<(), GpuCommandBuilderError>(GpuCommandBuilderError::OutOfSpace),
    {
        let b0 = command_u16_bytes(config.width);
        let b1 = command_u16_bytes(config.height);
        let data = [0x05u8, 0x00u8, b0[0], b0[1], b1[0], b1[1], texture, config.pixel_layout.to_u8(), config.image_layout.to_u8(), 0x00u8, 0x00u8, 0x00u8];
        proof { assert(data@ =~= spec_configure_texture_command(texture, config)); }
        if !self.push_command(&data) {
            Err(GpuCommandBuilderError::OutOfSpace)
        } else {
            Ok(())
        }
    }

    /// Appends a command: 0x06 0x00, the texture, the data's image layout, the data's address.
    fn upload_texture(&mut self, texture: u8, texture_data_layout: ImageDataLayout, texture_data_address: u32) -> (r: Result<(), GpuCommandBuilderError>)
        requires
            old(self).inv(),
        ensures
            final(self).inv(),
            spec_push_outcome(old(self).written(), old(self).room(), final(self).written(), final(self).room(),
                spec_upload_texture_command(texture, texture_data_layout, texture_data_address), r is Ok),
            r is Err ==> r == Err::<(), GpuCommandBuilderError>(GpuCommandBuilderError::OutOfSpace),
    {
        let b0 = command_u32_bytes(texture_data_address);
        let data = [0x06u8, 0x00u8, texture, texture_data_layout.to_u8(), b0[0], b0[1], b0[2], b0[3]];
        proof { assert(data@ =~= spec_upload_texture_command(texture, texture_data_layout, texture_data_address)); }
        if !self.push_command(&data) {
            Err(GpuCommandBuilderError::OutOfSpace)
        } else {
            Ok(())
        }
    }

    /// Appends a command: 0x07 0x00 0x00, the buffer, its length.
    fn configure_buffer(&mut self, buffer: u8, length: u32) -> (r: Result<(), GpuCommandBuilderError>)
        requires
            old(self).inv(),
        ensures
            final(self).inv(),
            spec_push_outcome(old(self).written(), old(self).room(), final(self).written(), final(self).room(),
                spec_configure_buffer_command(buffer, length), r is Ok),
            r is Err ==> r == Err::<(), GpuCommandBuilderError>(GpuCommandBuilderError::OutOfSpace),
    {
        let b0 = command_u32_bytes(length);
        let data = [0x07u8, 0x00u8, 0x00u8, buffer, b0[0], b0[1], b0[2], b0[3]];
        proof { assert(data@ =~= spec_configure_buffer_command(buffer, length)); }
        if !self.push_command(&data) {
            Err(GpuCommandBuilderError::OutOfSpace)
        } else {
            Ok(())
        }
    }

    /// Appends a command: 0x08 0x00 0x00, the buffer, the data's address.
    fn upload_buffer(&mut self, buffer: u8, data_address: u32) -> (r: Result<(), GpuCommandBuilderError>)
        requires
            old(self).inv(),
        ensures
            final(self).inv(),
            spec_push_outcome(old(self).written(), old(self).room(), final(self).written(), final(self).room(),
                spec_upload_buffer_command(buffer, data_address), r is Ok),
            r is Err ==> r == Err::<(), GpuCommandBuilderError>(GpuCommandBuilderError::OutOfSpace),
    {
        let b0 = command_u32_bytes(data_address);
        let data = [0x08u8, 0x00u8, 0x00u8, buffer, b0[0], b0[1], b0[2], b0[3]];
        proof { assert(data@ =~= spec_upload_buffer_command(buffer, data_address)); }
        if !self.push_command(&data) {
            Err(GpuCommandBuilderError::OutOfSpace)
        } else {
            Ok(())
        }
    }

    /// Appends a command: 0x09 0x00, source and destination textures, then source position, destination position and size.
    fn direct_blit(&mut self, src_tex: u8, dst_tex: u8, src_x: u16, src_y: u16, dst_x: u16, dst_y: u16, width: u16, height: u16) -> (r: Result<(), GpuCommandBuilderError>)
        requires
            old(self).inv(),
        ensures
            final(self).inv(),
            spec_push_outcome(old(self).written(), old(self).room(), final(self).written(), final(self).room(),
                spec_direct_blit_command(src_tex, dst_tex, src_x, src_y, dst_x, dst_y, width, height), r is Ok),
            r is Err ==> r == Err::<(), GpuCommandBuilderError>(GpuCommandBuilderError::OutOfSpace),
    {
        let b0 = command_u16_bytes(src_x);
        let b1 = command_u16_bytes(src_y);
        let b2 = command_u16_bytes(dst_x);
        let b3 = command_u16_bytes(dst_y);
        let b4 = command_u16_bytes(width);
        let b5 = command_u16_bytes(height);
        let data = [0x09u8, 0x00u8, src_tex, dst_tex, b0[0], b0[1], b1[0], b1[1], b2[0], b2[1], b3[0], b3[1], b4[0], b4[1], b5[0], b5[1]];
        proof { assert(data@ =~= spec_direct_blit_command(src_tex, dst_tex, src_x, src_y, dst_x, dst_y, width, height)); }
        if !self.push_command(&data) {
            Err(GpuCommandBuilderError::OutOfSpace)
        } else {
            Ok(())
        }
    }

    /// Appends a command: 0x0A 0x00, as a direct blit, then three zero bytes and the source's alpha data type.
    fn cutout_blit(&mut self, src_tex: u8, dst_tex: u8, src_x: u16, src_y: u16, dst_x: u16, dst_y: u16, width: u16, height: u16, src_alpha_data_type: PixelDataType) -> (r: Result<(), GpuCommandBuilderError>)
        requires
            old(self).inv(),
        ensures
            final(self).inv(),
            spec_push_outcome(old(self).written(), old(self).room(), final(self).written(), final(self).room(),
                spec_cutout_blit_command(src_tex, dst_tex, src_x, src_y, dst_x, dst_y, width, height, src_alpha_data_type), r is Ok),
            r is Err ==> r == Err::<(), GpuCommandBuilderError>(GpuCommandBuilderError::OutOfSpace),
    {
        let b0 = command_u16_bytes(src_x);
        let b1 = command_u16_bytes(src_y);
        let b2 = command_u16_bytes(dst_x);
        let b3 = command_u16_bytes(dst_y);
        let b4 = command_u16_bytes(width);
        let b5 = command_u16_bytes(height);
        let data = [0x0Au8, 0x00u8, src_tex, dst_tex, b0[0], b0[1], b1[0], b1[1], b2[0], b2[1], b3[0], b3[1], b4[0], b4[1], b5[0], b5[1], 0x00u8, 0x00u8, 0x00u8, src_alpha_data_type.to_u8()];
        proof { assert(data@ =~= spec_cutout_blit_command(src_tex, dst_tex, src_x, src_y, dst_x, dst_y, width, height, src_alpha_data_type)); }
        if !self.push_command(&data) {
            Err(GpuCommandBuilderError::OutOfSpace)
        } else {
            Ok(())
        }
    }

    /// Appends a command: 0x0C 0x00, the code's length and address, two zero bytes, the shader slot, its kind.
    fn upload_shader(&mut self, index: u8, kind: ShaderKind, code_length: u16, code_address: u32) -> (r: Result<(), GpuCommandBuilderError>)
        requires
            old(self).inv(),
        ensures
            final(self).inv(),
            spec_push_outcome(old(self).written(), old(self).room(), final(self).written(), final(self).room(),
                spec_upload_shader_command(index, kind, code_length, code_address), r is Ok),
            r is Err ==> r == Err::<(), GpuCommandBuilderError>(GpuCommandBuilderError::OutOfSpace),
    {
        let b0 = command_u16_bytes(code_length);
        let b1 = command_u32_bytes(code_address);
        let data = [0x0Cu8, 0x00u8, b0[0], b0[1], b1[0], b1[1], b1[2], b1[3], 0x00u8, 0x00u8, index, kind.to_u8()];
        proof { assert(data@ =~= spec_upload_shader_command(index, kind, code_length, code_address)); }
        if !self.push_command(&data) {
            Err(GpuCommandBuilderError::OutOfSpace)
        } else {
            Ok(())
        }
    }

    /// Appends a command: 0x0D 0x00, the slot, no flags, the state's address.
    fn upload_graphics_pipeline_state(&mut self, index: u8, state_address: u32) -> (r: Result<(), GpuCommandBuilderError>)
        requires
            old(self).inv(),
        ensures
            final(self).inv(),
            spec_push_outcome(old(self).written(), old(self).room(), final(self).written(), final(self).room(),
                spec_upload_graphics_pipeline_state_command(index, state_address), r is Ok),
            r is Err ==> r == Err::<(), GpuCommandBuilderError>(GpuCommandBuilderError::OutOfSpace),
    {
        let b0 = command_u32_bytes(state_address);
        let data = [0x0Du8, 0x00u8, index, 0x00u8, b0[0], b0[1], b0[2], b0[3]];
        proof { assert(data@ =~= spec_upload_graphics_pipeline_state_command(index, state_address)); }
        if !self.push_command(&data) {
            Err(GpuCommandBuilderError::OutOfSpace)
        } else {
            Ok(())
        }
    }

    /// Appends a command: 0x0F 0x00, the pipeline state, fragment then vertex shader, three zero bytes, the vertex count, the clipping rectangle.
    fn draw_graphics_pipeline(&mut self, state_index: u8, vertex_shader: u8, fragment_shader: u8, vertex_count: u32, clipping_rect: ClippingRect) -> (r: Result<(), GpuCommandBuilderError>)
        requires
            old(self).inv(),
        ensures
            final(self).inv(),
            spec_push_outcome(old(self).written(), old(self).room(), final(self).written(), final(self).room(),
                spec_draw_graphics_pipeline_command(state_index, vertex_shader, fragment_shader, vertex_count, clipping_rect), r is Ok),
            r is Err ==> r == Err::<(), GpuCommandBuilderError>(GpuCommandBuilderError::OutOfSpace),
    {
        let b0 = command_u32_bytes(vertex_count);
        let b1 = command_u16_bytes(clipping_rect.x_low);
        let b2 = command_u16_bytes(clipping_rect.x_high);
        let b3 = command_u16_bytes(clipping_rect.y_low);
        let b4 = command_u16_bytes(clipping_rect.y_high);
        let data = [0x0Fu8, 0x00u8, state_index, fragment_shader, vertex_shader, 0x00u8, 0x00u8, 0x00u8, b0[0], b0[1], b0[2], b0[3], b1[0], b1[1], b2[0], b2[1], b3[0], b3[1], b4[0], b4[1]];
        proof { assert(data@ =~= spec_draw_graphics_pipeline_command(state_index, vertex_shader, fragment_shader, vertex_count, clipping_rect)); }
        if !self.push_command(&data) {
            Err(GpuCommandBuilderError::OutOfSpace)
        } else {
            Ok(())
        }
    }
}

impl<B: CommandListBuilder<GpuCommands>> GpuCommandBuilderExt for B {}

/// Base of the GPU's command list submission register.
pub const GPU_COMMANDLIST_SUBMISSION_PORT: u32 = 0x80010000;

/// The GPU reads a clear: opcode 0x00, the texture in byte 2, the constant sampler in byte 3.
pub proof fn law_clear_texture_fields(texture: u8, constant_sampler: u8)
    ensures
        ({
            let b = spec_clear_texture_command(texture, constant_sampler);
            &&& b.len() == 4
            &&& b[0] == (0x00u8)
            &&& b[1] == (0x00u8)
            &&& b[2] == (texture)
            &&& b[3] == (constant_sampler)
        }),
{
    let b = spec_clear_texture_command(texture, constant_sampler);
}

/// The GPU reads a present: opcode 0x01, the texture in byte 2, 1 in byte 3 when it interrupts, the completion flag's address in bytes 4..8.
pub proof fn law_present_texture_fields(texture: u8, completion_address: u32, interrupt: bool)
    ensures
        ({
            let b = spec_present_texture_command(texture, completion_address, interrupt);
            &&& b.len() == 8
            &&& b[0] == (0x01u8)
            &&& b[1] == (0x00u8)
            &&& b[2] == (texture)
            &&& b[3] == (if interrupt { 1u8 } else { 0u8 })
            &&& spec_u32_at(b, 4) == completion_address
        }),
{
    let b = spec_present_texture_command(texture, completion_address, interrupt);
    assert(b.subrange(4, 8) =~= spec_u32_bytes(completion_address));
    lemma_u32_at(b, 4, completion_address);
}

/// The GPU reads an unorm8 sampler: opcode 0x02, the sampler in byte 2, type 3 in byte 3, the colour in bytes 4..8, zeros after.
pub proof fn law_set_constant_sampler_unorm8_fields(constant_sampler: u8, color: [u8; 4])
    ensures
        ({
            let b = spec_set_constant_sampler_unorm8_command(constant_sampler, color);
            &&& b.len() == 20
            &&& b[0] == (0x02u8)
            &&& b[1] == (0x00u8)
            &&& b[2] == (constant_sampler)
            &&& b[3] == (0x03u8)
            &&& b[4] == (color[0])
            &&& b[5] == (color[1])
            &&& b[6] == (color[2])
            &&& b[7] == (color[3])
            &&& b[8] == (0u8)
            &&& b[19] == (0u8)
        }),
{
    let b = spec_set_constant_sampler_unorm8_command(constant_sampler, color);
}

/// The GPU reads a flag write: opcode 0x02, 1 in byte 1 when it interrupts, the flag's address in bytes 2..6, the value in bytes 6..10.
pub proof fn law_write_flag_fields(flag_address: u32, value: u32, interrupt: bool)
    ensures
        ({
            let b = spec_write_flag_command(flag_address, value, interrupt);
            &&& b.len() == 10
            &&& b[0] == (0x02u8)
            &&& b[1] == (if interrupt { 1u8 } else { 0u8 })
            &&& spec_u32_at(b, 2) == flag_address
            &&& spec_u32_at(b, 6) == value
        }),
{
    let b = spec_write_flag_command(flag_address, value, interrupt);
    assert(b.subrange(2, 6) =~= spec_u32_bytes(flag_address));
    lemma_u32_at(b, 2, flag_address);
    assert(b.subrange(6, 10) =~= spec_u32_bytes(value));
    lemma_u32_at(b, 6, value);
}

/// The GPU reads a texture configuration: opcode 0x05, width in bytes 2..4, height in 4..6, the texture in byte 6, the pixel and image layouts in bytes 7 and 8.
pub proof fn law_configure_texture_fields(texture: u8, config: TextureConfig)
    ensures
        ({
            let b = spec_configure_texture_command(texture, config);
            &&& b.len() == 12
            &&& b[0] == (0x05u8)
            &&& b[1] == (0x00u8)
            &&& b[6] == (texture)
            &&& b[7] == (config.pixel_layout.spec_to_u8())
            &&& b[8] == (config.image_layout.spec_to_u8())
            &&& b[9] == (0u8)
            &&& spec_u16_at(b, 2) == config.width
            &&& spec_u16_at(b, 4) == config.height
        }),
{
    let b = spec_configure_texture_command(texture, config);
    assert(b.subrange(2, 4) =~= spec_u16_bytes(config.width));
    lemma_u16_at(b, 2, config.width);
    assert(b.subrange(4, 6) =~= spec_u16_bytes(config.height));
    lemma_u16_at(b, 4, config.height);
}

/// The GPU reads a texture upload: opcode 0x06, the texture in byte 2, the data's image layout in byte 3, its address in bytes 4..8.
pub proof fn law_upload_texture_fields(texture: u8, texture_data_layout: ImageDataLayout, texture_data_address: u32)
    ensures
        ({
            let b = spec_upload_texture_command(texture, texture_data_layout, texture_data_address);
            &&& b.len() == 8
            &&& b[0] == (0x06u8)
            &&& b[1] == (0x00u8)
            &&& b[2] == (texture)
            &&& b[3] == (texture_data_layout.spec_to_u8())
            &&& spec_u32_at(b, 4) == texture_data_address
        }),
{
    let b = spec_upload_texture_command(texture, texture_data_layout, texture_data_address);
    assert(b.subrange(4, 8) =~= spec_u32_bytes(texture_data_address));
    lemma_u32_at(b, 4, texture_data_address);
}

/// The GPU reads a buffer configuration: opcode 0x07, the buffer in byte 3, its length in bytes 4..8.
pub proof fn law_configure_buffer_fields(buffer: u8, length: u32)
    ensures
        ({
            let b = spec_configure_buffer_command(buffer, length);
            &&& b.len() == 8
            &&& b[0] == (0x07u8)
            &&& b[1] == (0x00u8)
            &&& b[2] == (0x00u8)
            &&& b[3] == (buffer)
            &&& spec_u32_at(b, 4) == length
        }),
{
    let b = spec_configure_buffer_command(buffer, length);
    assert(b.subrange(4, 8) =~= spec_u32_bytes(length));
    lemma_u32_at(b, 4, length);
}

/// The GPU reads a buffer upload: opcode 0x08, the buffer in byte 3, the data's address in bytes 4..8.
pub proof fn law_upload_buffer_fields(buffer: u8, data_address: u32)
    ensures
        ({
            let b = spec_upload_buffer_command(buffer, data_address);
            &&& b.len() == 8
            &&& b[0] == (0x08u8)
            &&& b[1] == (0x00u8)
            &&& b[2] == (0x00u8)
            &&& b[3] == (buffer)
            &&& spec_u32_at(b, 4) == data_address
        }),
{
    let b = spec_upload_buffer_command(buffer, data_address);
    assert(b.subrange(4, 8) =~= spec_u32_bytes(data_address));
    lemma_u32_at(b, 4, data_address);
}

/// The GPU reads a direct blit: opcode 0x09, source and destination textures in bytes 2 and 3, then source x and y, destination x and y, width and height, two bytes each.
pub proof fn law_direct_blit_fields(src_tex: u8, dst_tex: u8, src_x: u16, src_y: u16, dst_x: u16, dst_y: u16, width: u16, height: u16)
    ensures
        ({
            let b = spec_direct_blit_command(src_tex, dst_tex, src_x, src_y, dst_x, dst_y, width, height);
            &&& b.len() == 16
            &&& b[0] == (0x09u8)
            &&& b[1] == (0x00u8)
            &&& b[2] == (src_tex)
            &&& b[3] == (dst_tex)
            &&& spec_u16_at(b, 4) == src_x
            &&& spec_u16_at(b, 6) == src_y
            &&& spec_u16_at(b, 8) == dst_x
            &&& spec_u16_at(b, 10) == dst_y
            &&& spec_u16_at(b, 12) == width
            &&& spec_u16_at(b, 14) == height
        }),
{
    let b = spec_direct_blit_command(src_tex, dst_tex, src_x, src_y, dst_x, dst_y, width, height);
    assert(b.subrange(4, 6) =~= spec_u16_bytes(src_x));
    lemma_u16_at(b, 4, src_x);
    assert(b.subrange(6, 8) =~= spec_u16_bytes(src_y));
    lemma_u16_at(b, 6, src_y);
    assert(b.subrange(8, 10) =~= spec_u16_bytes(dst_x));
    lemma_u16_at(b, 8, dst_x);
    assert(b.subrange(10, 12) =~= spec_u16_bytes(dst_y));
    lemma_u16_at(b, 10, dst_y);
    assert(b.subrange(12, 14) =~= spec_u16_bytes(width));
    lemma_u16_at(b, 12, width);
    assert(b.subrange(14, 16) =~= spec_u16_bytes(height));
    lemma_u16_at(b, 14, height);
}

/// The GPU reads a cutout blit: opcode 0x0A, laid out as a direct blit, then the source's alpha data type in byte 19.
pub proof fn law_cutout_blit_fields(src_tex: u8, dst_tex: u8, src_x: u16, src_y: u16, dst_x: u16, dst_y: u16, width: u16, height: u16, src_alpha_data_type: PixelDataType)
    ensures
        ({
            let b = spec_cutout_blit_command(src_tex, dst_tex, src_x, src_y, dst_x, dst_y, width, height, src_alpha_data_type);
            &&& b.len() == 20
            &&& b[0] == (0x0Au8)
            &&& b[1] == (0x00u8)
            &&& b[2] == (src_tex)
            &&& b[3] == (dst_tex)
            &&& b[16] == (0u8)
            &&& b[19] == (src_alpha_data_type.spec_to_u8())
            &&& spec_u16_at(b, 4) == src_x
            &&& spec_u16_at(b, 6) == src_y
            &&& spec_u16_at(b, 8) == dst_x
            &&& spec_u16_at(b, 10) == dst_y
            &&& spec_u16_at(b, 12) == width
            &&& spec_u16_at(b, 14) == height
        }),
{
    let b = spec_cutout_blit_command(src_tex, dst_tex, src_x, src_y, dst_x, dst_y, width, height, src_alpha_data_type);
    assert(b.subrange(4, 6) =~= spec_u16_bytes(src_x));
    lemma_u16_at(b, 4, src_x);
    assert(b.subrange(6, 8) =~= spec_u16_bytes(src_y));
    lemma_u16_at(b, 6, src_y);
    assert(b.subrange(8, 10) =~= spec_u16_bytes(dst_x));
    lemma_u16_at(b, 8, dst_x);
    assert(b.subrange(10, 12) =~= spec_u16_bytes(dst_y));
    lemma_u16_at(b, 10, dst_y);
    assert(b.subrange(12, 14) =~= spec_u16_bytes(width));
    lemma_u16_at(b, 12, width);
    assert(b.subrange(14, 16) =~= spec_u16_bytes(height));
    lemma_u16_at(b, 14, height);
}

/// The GPU reads a shader upload: opcode 0x0C, the code's length in bytes 2..4 and address in 4..8, the slot in byte 10, the kind in byte 11.
pub proof fn law_upload_shader_fields(index: u8, kind: ShaderKind, code_length: u16, code_address: u32)
    ensures
        ({
            let b = spec_upload_shader_command(index, kind, code_length, code_address);
            &&& b.len() == 12
            &&& b[0] == (0x0Cu8)
            &&& b[1] == (0x00u8)
            &&& b[8] == (0u8)
            &&& b[9] == (0u8)
            &&& b[10] == (index)
            &&& b[11] == (kind.spec_to_u8())
            &&& spec_u16_at(b, 2) == code_length
            &&& spec_u32_at(b, 4) == code_address
        }),
{
    let b = spec_upload_shader_command(index, kind, code_length, code_address);
    assert(b.subrange(2, 4) =~= spec_u16_bytes(code_length));
    lemma_u16_at(b, 2, code_length);
    assert(b.subrange(4, 8) =~= spec_u32_bytes(code_address));
    lemma_u32_at(b, 4, code_address);
}

/// The GPU reads a pipeline state upload: opcode 0x0D, the slot in byte 2, no flags (0) in byte 3, the state's address in bytes 4..8.
pub proof fn law_upload_graphics_pipeline_state_fields(index: u8, state_address: u32)
    ensures
        ({
            let b = spec_upload_graphics_pipeline_state_command(index, state_address);
            &&& b.len() == 8
            &&& b[0] == (0x0Du8)
            &&& b[1] == (0x00u8)
            &&& b[2] == (index)
            &&& b[3] == (0x00u8)
            &&& spec_u32_at(b, 4) == state_address
        }),
{
    let b = spec_upload_graphics_pipeline_state_command(index, state_address);
    assert(b.subrange(4, 8) =~= spec_u32_bytes(state_address));
    lemma_u32_at(b, 4, state_address);
}

/// The GPU reads a draw: opcode 0x0F, the pipeline state in byte 2, the fragment shader in byte 3, the vertex shader in byte 4, the vertex count in bytes 8..12, then the clipping rectangle's low and high x and low and high y, two bytes each.
pub proof fn law_draw_graphics_pipeline_fields(state_index: u8, vertex_shader: u8, fragment_shader: u8, vertex_count: u32, clipping_rect: ClippingRect)
    ensures
        ({
            let b = spec_draw_graphics_pipeline_command(state_index, vertex_shader, fragment_shader, vertex_count, clipping_rect);
            &&& b.len() == 20
            &&& b[0] == (0x0Fu8)
            &&& b[1] == (0x00u8)
            &&& b[2] == (state_index)
            &&& b[3] == (fragment_shader)
            &&& b[4] == (vertex_shader)
            &&& b[5] == (0u8)
            &&& spec_u16_at(b, 12) == clipping_rect.x_low
            &&& spec_u16_at(b, 14) == clipping_rect.x_high
            &&& spec_u16_at(b, 16) == clipping_rect.y_low
            &&& spec_u16_at(b, 18) == clipping_rect.y_high
            &&& spec_u32_at(b, 8) == vertex_count
        }),
{
    let b = spec_draw_graphics_pipeline_command(state_index, vertex_shader, fragment_shader, vertex_count, clipping_rect);
    assert(b.subrange(12, 14) =~= spec_u16_bytes(clipping_rect.x_low));
    lemma_u16_at(b, 12, clipping_rect.x_low);
    assert(b.subrange(14, 16) =~= spec_u16_bytes(clipping_rect.x_high));
    lemma_u16_at(b, 14, clipping_rect.x_high);
    assert(b.subrange(16, 18) =~= spec_u16_bytes(clipping_rect.y_low));
    lemma_u16_at(b, 16, clipping_rect.y_low);
    assert(b.subrange(18, 20) =~= spec_u16_bytes(clipping_rect.y_high));
    lemma_u16_at(b, 18, clipping_rect.y_high);
    assert(b.subrange(8, 12) =~= spec_u32_bytes(vertex_count));
    lemma_u32_at(b, 8, vertex_count);
}


/// The GPU reads a video mode as: opcode 0x03, then a mode byte whose bit 0 is the
/// resolution's number and bits 1, 2 and 3 turn backgrounds, sprites and triangles on.
pub proof fn law_set_video_mode_fields(resolution: VideoResolution, backgrounds: bool, sprites: bool, triangles: bool)
    ensures
        ({
            let b = spec_set_video_mode_command(resolution, backgrounds, sprites, triangles);
            &&& b.len() == 4
            &&& b[0] == 0x03u8 && b[1] == 0x00u8 && b[2] == 0x00u8
            &&& b[3] < 16
            &&& b[3] % 2 == resolution.spec_to_u8()
            &&& (b[3] / 2) % 2 == (if backgrounds { 1int } else { 0int })
            &&& (b[3] / 4) % 2 == (if sprites { 1int } else { 0int })
            &&& (b[3] / 8) % 2 == (if triangles { 1int } else { 0int })
        }),
{
}

/// The number of a shader kind is read by the GPU as the same kind of shader.
pub proof fn law_shader_kind_read_back(kind: ShaderKind)
    ensures
        ShaderType::spec_from_u8(kind.spec_to_u8()) == Some(match kind {
            ShaderKind::Vertex => ShaderType::Vertex,
            ShaderKind::Fragment => ShaderType::Fragment,
            ShaderKind::Compute => ShaderType::Compute,
        }),
{
}

} // verus!
