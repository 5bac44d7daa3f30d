//! The graphics core: its video mode, constant samplers and textures, and the commands of a
//! command list run on them. What a command asks of the machine outside the core (its memory,
//! the display, interrupts, buffers, shaders and pipelines) comes back as an action.

use vstd::prelude::*;
use crate::gpu::shader::ShaderType;
use crate::gpu::slots::{
    clear_fits, clear_texture, configure_texture, cutout_blit, cutout_blit_fits, cutout_blitted, direct_blit,
    direct_blit_fits, direct_blitted, set_constant_sampler, texture_cleared, texture_configured, textures_wf,
    CONSTANT_SAMPLER_SLOTS, TEXTURE_SLOTS,
};
use crate::gpu::texture::{blit_in_bounds, blit_pixel_ok, blit_region, texel_in_bounds, TextureModule, TEXTURE_MEMORY_BYTES};
use crate::gpu::types::{
    image_index, AlphaBlendOp, ColorBlendOp, ConstantSampler, ImageDataLayout, PixelDataLayout, PixelDataType, Texture, VideoMode,
    VideoResolution,
};

verus! {

/// A command of a graphics command list.
#[derive(Copy, Clone, Debug, PartialEq, Eq)]
pub enum Command {
    ClearTexture { texture: u8, constant_sampler: u8 },
    PresentTexture { texture: u8, completion_addr: u32, interrupt: bool },
    SetConstantSampler { constant_sampler: u8, set: ConstantSampler },
    SetVideoMode(VideoMode),
    WriteFlag { address: u32, value: u32, irq: bool },
    ConfigureTexture { texture: u8, pixel_layout: PixelDataLayout, image_layout: ImageDataLayout, width: u32, height: u32 },
    UploadTexture { texture: u8, src_image_layout: ImageDataLayout, src_addr: u32 },
    ConfigureBuffer { buffer: u8, length: u32 },
    UploadBuffer { buffer: u8, src_addr: u32 },
    DirectBlit { src_tex: u8, dst_tex: u8, src_x: u16, src_y: u16, dst_x: u16, dst_y: u16, width: u16, height: u16 },
    CutoutBlit {
        src_tex: u8,
        dst_tex: u8,
        src_x: u16,
        src_y: u16,
        dst_x: u16,
        dst_y: u16,
        width: u16,
        height: u16,
        pixel_type: PixelDataType,
    },
    DrawBlendedRect {
        src_tex: u8,
        dst_tex: u8,
        src_x: u16,
        src_y: u16,
        dst_x: u16,
        dst_y: u16,
        width: u16,
        height: u16,
        src_pixel_type: PixelDataType,
        dst_pixel_type: PixelDataType,
        color_blend_op: ColorBlendOp,
        alpha_blend_op: AlphaBlendOp,
    },
    UploadShader { size: u16, index: u8, kind: ShaderType, address: u32 },
    UploadGraphicsPipelineState { index: u8, flags: u8, address: u32 },
    ConfigureGraphicsResourceMappings {
        pipeline: u8,
        buffer_mapping_count: u8,
        texture_mapping_count: u8,
        buffer_mappings_addr: u32,
        texture_mappings_addr: u32,
    },
    DrawGraphicsPipeline {
        state_index: u8,
        vertex_shader: u8,
        fragment_shader: u8,
        vertex_count: u32,
        x_low: u16,
        x_high: u16,
        y_low: u16,
        y_high: u16,
    },
    WriteBuffer { buffer: u8, src_addr: u32, length: u32, offset: u32 },
}

/// What the machine around the core does after a command.
#[derive(Copy, Clone, Debug, PartialEq, Eq)]
pub enum CoreAction {
    /// Nothing.
    Done,
    /// Show texture `texture`, then write the completion flag and raise the interrupt if asked.
    Present { texture: u8, completion_addr: u32, interrupt: bool },
    /// Switch the display to this resolution.
    SetResolution(VideoResolution),
    /// Write `value` at `address` of the machine and raise the graphics interrupt if asked.
    WriteFlag { address: u32, value: u32, interrupt: bool },
    /// The command works on the machine's memory, on buffers, shaders or pipelines, or blends
    /// in floating point: the machine runs it.
    Outside(Command),
}

/// The graphics core's state.
pub struct Core {
    pub video_mode: VideoMode,
    pub constant_samplers: Vec<ConstantSampler>,
    pub textures: Vec<TextureModule>,
}

/// The mode the core starts in: 256 x 192, no layers.
pub open spec fn initial_video_mode() -> VideoMode {
    VideoMode { resolution: VideoResolution::V256x192, backgrounds: false, sprites: false, triangles: false }
}

/// `after` keeps the mode, samplers and textures of `before`.
pub open spec fn core_unchanged(before: Core, after: Core) -> bool {
    &&& after.video_mode == before.video_mode
    &&& after.constant_samplers@ == before.constant_samplers@
    &&& after.textures@ == before.textures@
}

/// What running `c` does: the core goes from `before` to `after` and asks `action` of the
/// machine. Slot numbers out of range leave everything as it is where the core checks them.
pub open spec fn executed(before: Core, after: Core, c: Command, action: CoreAction) -> bool {
    match c {
        Command::ClearTexture { texture, constant_sampler } => {
            &&& action == CoreAction::Done
            &&& after.video_mode == before.video_mode
            &&& after.constant_samplers@ == before.constant_samplers@
            &&& texture_cleared(before.textures@, after.textures@, before.constant_samplers@, texture, constant_sampler)
        },
        Command::PresentTexture { texture, completion_addr, interrupt } => {
            &&& core_unchanged(before, after)
            &&& action == if texture < 64 {
                CoreAction::Present { texture, completion_addr, interrupt }
            } else {
                CoreAction::Done
            }
        },
        Command::SetConstantSampler { constant_sampler, set } => {
            &&& action == CoreAction::Done
            &&& after.video_mode == before.video_mode
            &&& after.textures@ == before.textures@
            &&& after.constant_samplers@ == if constant_sampler < 64 {
                before.constant_samplers@.update(constant_sampler as int, set)
            } else {
                before.constant_samplers@
            }
        },
        Command::SetVideoMode(mode) => {
            &&& action == CoreAction::SetResolution(mode.resolution)
            &&& after.video_mode == mode
            &&& after.constant_samplers@ == before.constant_samplers@
            &&& after.textures@ == before.textures@
        },
        Command::WriteFlag { address, value, irq } => {
            &&& core_unchanged(before, after)
            &&& action == (CoreAction::WriteFlag { address, value, interrupt: irq })
        },
        Command::ConfigureTexture { texture, pixel_layout, image_layout, width, height } => {
            &&& action == CoreAction::Done
            &&& after.video_mode == before.video_mode
            &&& after.constant_samplers@ == before.constant_samplers@
            &&& texture_configured(before.textures@, after.textures@, texture, pixel_layout, image_layout, width, height)
        },
        Command::UploadTexture { texture, .. } => {
            &&& core_unchanged(before, after)
            &&& action == if texture < 64 { CoreAction::Outside(c) } else { CoreAction::Done }
        },
        Command::DirectBlit { src_tex, dst_tex, src_x, src_y, dst_x, dst_y, width, height } => {
            &&& action == CoreAction::Done
            &&& after.video_mode == before.video_mode
            &&& after.constant_samplers@ == before.constant_samplers@
            &&& direct_blitted(before.textures@, after.textures@, src_tex, dst_tex, blit_region(src_x, src_y, dst_x, dst_y, width, height))
        },
        Command::CutoutBlit { src_tex, dst_tex, src_x, src_y, dst_x, dst_y, width, height, pixel_type } => {
            &&& action == CoreAction::Done
            &&& after.video_mode == before.video_mode
            &&& after.constant_samplers@ == before.constant_samplers@
            &&& cutout_blitted(
                before.textures@, after.textures@, src_tex, dst_tex,
                blit_region(src_x, src_y, dst_x, dst_y, width, height), pixel_type,
            )
        },
        _ => core_unchanged(before, after) && action == CoreAction::Outside(c),
    }
}

/// Whether pixel (x, y) of a texture configured by `cfg`, of `n`-byte pixels, lies in a
/// texture's memory.
fn texel_fits(cfg: Texture, x: u32, y: u32, n: usize) -> (r: bool)
    requires
        n <= 16,
    ensures
        r == texel_in_bounds(cfg, TEXTURE_MEMORY_BYTES as int, x as int, y as int, n as int),
{
    let (xi, yi, w) = (x as u64, y as u64, cfg.width as u64);
    assert(0 <= xi / 4 <= xi && 0 <= yi / 4 <= yi && 0 <= w / 4 <= w) by (nonlinear_arith);
    assert(0 <= xi / 8 <= xi && 0 <= yi / 8 <= yi && 0 <= w / 8 <= w) by (nonlinear_arith);
    assert((yi / 4) * (w / 4) <= yi * w && (yi / 8) * (w / 8) <= yi * w) by (nonlinear_arith)
        requires 0 <= yi / 4 <= yi, 0 <= w / 4 <= w, 0 <= yi / 8 <= yi, 0 <= w / 8 <= w;
    assert(yi * w <= 0xFFFF_FFFF * 0xFFFF) by (nonlinear_arith) requires yi <= 0xFFFF_FFFF, w <= 0xFFFF;
    let index: u64 = match cfg.image_layout {
        ImageDataLayout::Contiguous => xi + yi * w,
        ImageDataLayout::Block4x4 => ((xi / 4) + (yi / 4) * (w / 4)) * 16 + (xi % 4) + (yi % 4) * 4,
        ImageDataLayout::Block8x8 => ((xi / 8) + (yi / 8) * (w / 8)) * 64 + (xi % 8) + (yi % 8) * 8,
    };
    assert(index == image_index(cfg.image_layout, x as int, y as int, cfg.width as int));
    if index > 0xFFFF_FFFF {
        return false;
    }
    assert(index * n <= 0xFFFF_FFFF * 16) by (nonlinear_arith) requires index <= 0xFFFF_FFFF, n <= 16;
    index * (n as u64) + (n as u64) <= TEXTURE_MEMORY_BYTES as u64
}

/// Whether every pixel of a blit of `width` x `height` pixels of `n` bytes lies in both
/// textures' memories.
fn region_fits(src_cfg: Texture, dst_cfg: Texture, src_x: u16, src_y: u16, dst_x: u16, dst_y: u16, width: u16, height: u16, n: usize) -> (r: bool)
    requires
        n <= 16,
    ensures
        r == blit_in_bounds(
            src_cfg, TEXTURE_MEMORY_BYTES as int, dst_cfg, TEXTURE_MEMORY_BYTES as int,
            blit_region(src_x, src_y, dst_x, dst_y, width, height), n as int,
        ),
{
    let ghost b = blit_region(src_x, src_y, dst_x, dst_y, width, height);
    let ghost len = TEXTURE_MEMORY_BYTES as int;
    let mut y: u32 = 0;
    while y < height as u32
        invariant
            n <= 16,
            y <= height,
            b == blit_region(src_x, src_y, dst_x, dst_y, width, height),
            len == TEXTURE_MEMORY_BYTES as int,
            forall|xx: int, yy: int| 0 <= xx < width && 0 <= yy < y
                ==> #[trigger] blit_pixel_ok(src_cfg, len, dst_cfg, len, b, n as int, xx, yy),
        decreases height - y,
    {
        let mut x: u32 = 0;
        while x < width as u32
            invariant
                n <= 16,
                x <= width,
                y < height,
                b == blit_region(src_x, src_y, dst_x, dst_y, width, height),
                len == TEXTURE_MEMORY_BYTES as int,
                forall|xx: int, yy: int| 0 <= xx < width && 0 <= yy < y
                    ==> #[trigger] blit_pixel_ok(src_cfg, len, dst_cfg, len, b, n as int, xx, yy),
                forall|xx: int| 0 <= xx < x ==> #[trigger] blit_pixel_ok(src_cfg, len, dst_cfg, len, b, n as int, xx, y as int),
            decreases width - x,
        {
            let ok = texel_fits(src_cfg, src_x as u32 + x, src_y as u32 + y, n)
                && texel_fits(dst_cfg, dst_x as u32 + x, dst_y as u32 + y, n);
            if !ok {
                assert(!blit_pixel_ok(src_cfg, len, dst_cfg, len, b, n as int, x as int, y as int));
                return false;
            }
            assert(blit_pixel_ok(src_cfg, len, dst_cfg, len, b, n as int, x as int, y as int));
            x += 1;
        }
        y += 1;
    }
    true
}

impl Core {
    /// Every texture slot holds a texture with its full memory, and there is a constant
    /// sampler per slot.
    pub open spec fn wf(&self) -> bool {
        &&& textures_wf(self.textures@)
        &&& self.constant_samplers@.len() == CONSTANT_SAMPLER_SLOTS
    }

    /// Whether the core can run `c` without indexing out of its slots or textures: a cleared
    /// or blitted region lies inside its textures, and a configured texture is a slot.
    pub open spec fn runs(&self, c: Command) -> bool {
        match c {
            Command::ClearTexture { texture, constant_sampler } =>
                clear_fits(self.textures@, self.constant_samplers@, texture, constant_sampler),
            Command::ConfigureTexture { texture, .. } => texture < TEXTURE_SLOTS,
            Command::DirectBlit { src_tex, dst_tex, src_x, src_y, dst_x, dst_y, width, height } =>
                direct_blit_fits(self.textures@, src_tex, dst_tex, blit_region(src_x, src_y, dst_x, dst_y, width, height)),
            Command::CutoutBlit { src_tex, dst_tex, src_x, src_y, dst_x, dst_y, width, height, pixel_type } =>
                cutout_blit_fits(
                    self.textures@, src_tex, dst_tex, blit_region(src_x, src_y, dst_x, dst_y, width, height), pixel_type,
                ),
            _ => true,
        }
    }

    /// A core in 256 x 192 mode with no layers, zeroed RGBA unorm8 samplers, and empty
    /// textures of single-byte pixels whose memory is zeroed.
    pub fn new() -> (r: Self)
        ensures
            r.wf(),
            r.video_mode == initial_video_mode(),
            forall|i: int| 0 <= i < CONSTANT_SAMPLER_SLOTS ==> {
                &&& (#[trigger] r.constant_samplers@[i]).constant_data@ == seq![0u32, 0u32, 0u32, 0u32]
                &&& r.constant_samplers@[i].data_type == PixelDataType::RgbaUNorm8
            },
            forall|i: int| 0 <= i < TEXTURE_SLOTS ==> {
                &&& (#[trigger] r.textures@[i]).config == (Texture {
                    width: 0,
                    height: 0,
                    pixel_layout: PixelDataLayout::D8x1,
                    image_layout: ImageDataLayout::Contiguous,
                })
                &&& forall|k: int| 0 <= k < r.textures@[i].memory@.len() ==> r.textures@[i].memory@[k] == 0u8
            },
    {
        let mut constant_samplers: Vec<ConstantSampler> = Vec::new();
        let mut n: usize = 0;
        while n < CONSTANT_SAMPLER_SLOTS
            invariant
                n <= CONSTANT_SAMPLER_SLOTS,
                constant_samplers@.len() == n,
                forall|i: int| 0 <= i < n ==> {
                    &&& (#[trigger] constant_samplers@[i]).constant_data@ == seq![0u32, 0u32, 0u32, 0u32]
                    &&& constant_samplers@[i].data_type == PixelDataType::RgbaUNorm8
                },
            decreases CONSTANT_SAMPLER_SLOTS - n,
        {
            constant_samplers.push(ConstantSampler::new());
            n += 1;
        }
        let mut textures: Vec<TextureModule> = Vec::new();
        let mut n: usize = 0;
        while n < TEXTURE_SLOTS
            invariant
                n <= TEXTURE_SLOTS,
                textures@.len() == n,
                forall|i: int| 0 <= i < n ==> {
                    &&& (#[trigger] textures@[i]).wf()
                    &&& textures@[i].config == (Texture {
                        width: 0,
                        height: 0,
                        pixel_layout: PixelDataLayout::D8x1,
                        image_layout: ImageDataLayout::Contiguous,
                    })
                    &&& forall|k: int| 0 <= k < textures@[i].memory@.len() ==> textures@[i].memory@[k] == 0u8
                },
            decreases TEXTURE_SLOTS - n,
        {
            textures.push(TextureModule::new());
            n += 1;
        }
        Core {
            video_mode: VideoMode { resolution: VideoResolution::V256x192, backgrounds: false, sprites: false, triangles: false },
            constant_samplers,
            textures,
        }
    }

    /// Whether the core can run `c` (see `runs`); the machine tests this before it hands a
    /// command to `execute_command`. A blit's test walks its region.
    pub fn can_run(&self, c: Command) -> (r: bool)
        requires
            self.wf(),
        ensures
            r == self.runs(c),
    {
        match c {
            Command::ClearTexture { texture, constant_sampler } => {
                if texture >= 64 || constant_sampler >= 64 {
                    return true;
                }
                let t = &self.textures[texture as usize];
                let float = match self.constant_samplers[constant_sampler as usize].data_type {
                    PixelDataType::RF32 | PixelDataType::RgF32 | PixelDataType::RgbF32 | PixelDataType::RgbaF32 => true,
                    _ => false,
                };
                let wide = match t.config.pixel_layout {
                    PixelDataLayout::D32x1 | PixelDataLayout::D32x2 | PixelDataLayout::D32x4 => true,
                    _ => false,
                };
                if float && !wide {
                    return true;
                }
                let bytes = t.config.pixel_layout.pixel_bytes() as u64;
                assert(bytes * t.config.width <= 16 * 0xFFFF) by (nonlinear_arith)
                    requires bytes <= 16, t.config.width <= 0xFFFF;
                assert(bytes * t.config.width * t.config.height <= 16 * 0xFFFF * 0xFFFF) by (nonlinear_arith)
                    requires bytes * t.config.width <= 16 * 0xFFFF, t.config.height <= 0xFFFF;
                let ghost (w, h) = (t.config.width as int, t.config.height as int);
                assert(t.data_len() == bytes * w * h) by {
                    assert(bytes * (w * h) == bytes * w * h) by (nonlinear_arith);
                }
                assert(self.textures@[texture as int] == *t);
                bytes * t.config.width as u64 * t.config.height as u64 <= TEXTURE_MEMORY_BYTES as u64
            },
            Command::ConfigureTexture { texture, .. } => texture < 64,
            Command::DirectBlit { src_tex, dst_tex, src_x, src_y, dst_x, dst_y, width, height } => {
                self.blit_fits(src_tex, dst_tex, src_x, src_y, dst_x, dst_y, width, height)
            },
            Command::CutoutBlit { src_tex, dst_tex, src_x, src_y, dst_x, dst_y, width, height, pixel_type } => {
                if src_tex == dst_tex {
                    return true;
                }
                if src_tex >= 64 || dst_tex >= 64 {
                    return false;
                }
                let layout = self.textures[dst_tex as usize].config.pixel_layout;
                if self.textures[src_tex as usize].config.pixel_layout != layout {
                    return true;
                }
                let n = layout.pixel_bytes();
                let fits = (pixel_type == PixelDataType::RgbaUNorm8 && n == 4) || (pixel_type == PixelDataType::RgbaF32 && n == 16);
                fits && self.blit_fits(src_tex, dst_tex, src_x, src_y, dst_x, dst_y, width, height)
            },
            _ => true,
        }
    }

    /// Whether a direct blit between the two slots can run (see `direct_blit_fits`).
    fn blit_fits(&self, src_tex: u8, dst_tex: u8, src_x: u16, src_y: u16, dst_x: u16, dst_y: u16, width: u16, height: u16) -> (r: bool)
        requires
            self.wf(),
        ensures
            r == direct_blit_fits(self.textures@, src_tex, dst_tex, blit_region(src_x, src_y, dst_x, dst_y, width, height)),
    {
        if src_tex == dst_tex {
            return true;
        }
        if src_tex >= 64 || dst_tex >= 64 {
            return false;
        }
        let src = self.textures[src_tex as usize].config;
        let dst = self.textures[dst_tex as usize].config;
        if src.pixel_layout != dst.pixel_layout {
            return true;
        }
        region_fits(src, dst, src_x, src_y, dst_x, dst_y, width, height, dst.pixel_layout.pixel_bytes())
    }

    /// Runs one command (see `executed`).
    pub fn execute_command(&mut self, command: Command) -> (action: CoreAction)
        requires
            old(self).wf(),
            old(self).runs(command),
        ensures
            final(self).wf(),
            executed(*old(self), *final(self), command, action),
    {
        match command {
            Command::ClearTexture { texture, constant_sampler } => {
                clear_texture(&mut self.textures, &self.constant_samplers, texture, constant_sampler);
                CoreAction::Done
            },
            Command::PresentTexture { texture, completion_addr, interrupt } => {
                if texture >= 64 {
                    CoreAction::Done
                } else {
                    CoreAction::Present { texture, completion_addr, interrupt }
                }
            },
            Command::SetConstantSampler { constant_sampler, set } => {
                set_constant_sampler(&mut self.constant_samplers, constant_sampler, set);
                CoreAction::Done
            },
            Command::SetVideoMode(mode) => {
                self.video_mode = mode;
                CoreAction::SetResolution(mode.resolution)
            },
            Command::WriteFlag { address, value, irq } => CoreAction::WriteFlag { address, value, interrupt: irq },
            Command::ConfigureTexture { texture, pixel_layout, image_layout, width, height } => {
                configure_texture(&mut self.textures, texture, pixel_layout, image_layout, width, height);
                CoreAction::Done
            },
            Command::UploadTexture { texture, .. } => {
                if texture >= 64 {
                    CoreAction::Done
                } else {
                    CoreAction::Outside(command)
                }
            },
            Command::DirectBlit { src_tex, dst_tex, src_x, src_y, dst_x, dst_y, width, height } => {
                direct_blit(&mut self.textures, src_tex, dst_tex, src_x, src_y, dst_x, dst_y, width, height);
                CoreAction::Done
            },
            Command::CutoutBlit { src_tex, dst_tex, src_x, src_y, dst_x, dst_y, width, height, pixel_type } => {
                cutout_blit(&mut self.textures, src_tex, dst_tex, src_x, src_y, dst_x, dst_y, width, height, pixel_type);
                CoreAction::Done
            },
            _ => CoreAction::Outside(command),
        }
    }
}

} // verus!
