//! The graphics core's texture and constant sampler slots, and the commands that work on them.

use vstd::prelude::*;
use crate::gpu::texture::{
    blit_in_bounds, blit_memory, blit_pixels, blit_region, cleared, layout_channel_bytes, word4, PixelTest,
    TextureModule, TEXTURE_MEMORY_BYTES,
};
use crate::gpu::types::{is_abstract_of, Blit, ConstantSampler, ImageDataLayout, PixelDataLayout, PixelDataType, Texture};

verus! {

/// Texture slots of the core.
pub const TEXTURE_SLOTS: usize = 64;

/// Constant sampler slots of the core.
pub const CONSTANT_SAMPLER_SLOTS: usize = 64;

/// There is a texture per slot, each with its full memory.
pub open spec fn textures_wf(textures: Seq<TextureModule>) -> bool {
    &&& textures.len() == TEXTURE_SLOTS
    &&& forall|i: int| 0 <= i < textures.len() ==> #[trigger] textures[i].wf()
}

/// `after` is `before` with texture `t` replaced by `new`.
pub open spec fn only_texture_changed(before: Seq<TextureModule>, after: Seq<TextureModule>, t: int, new: TextureModule) -> bool {
    &&& after.len() == before.len()
    &&& after[t] == new
    &&& forall|i: int| 0 <= i < before.len() && i != t ==> #[trigger] after[i] == before[i]
}

/// Whether a sampler's type holds `f32` channels.
pub open spec fn is_float_type(t: PixelDataType) -> bool {
    t == PixelDataType::RF32 || t == PixelDataType::RgF32 || t == PixelDataType::RgbF32 || t == PixelDataType::RgbaF32
}

/// The pixel test of a cutout blit of pixels of type `t`: the alpha byte of RGBA unorm8
/// pixels, the alpha word of RGBA f32 pixels read in the byte order `little` names.
pub open spec fn cutout_test(t: PixelDataType, little: bool) -> PixelTest {
    if t == PixelDataType::RgbaUNorm8 { PixelTest::AlphaByte } else { PixelTest::AlphaF32(little) }
}

/// Whether a cutout blit of pixels of type `t` works on pixels of `n` bytes: RGBA unorm8 on
/// four-byte pixels, RGBA f32 on sixteen-byte ones.
pub open spec fn cutout_fits(t: PixelDataType, n: int) -> bool {
    (t == PixelDataType::RgbaUNorm8 && n == 4) || (t == PixelDataType::RgbaF32 && n == 16)
}

/// The word that `bytemuck::cast` makes of four bytes. Which byte is the least significant
/// is the machine's byte order, so either order is stated.
#[verifier::external_body]
pub(crate) fn native_word(bytes: [u8; 4]) -> (r: u32)
    ensures
        r == word4(bytes@, 0, true) || r == word4(bytes@, 0, false),
{
    bytemuck::cast::<[u8; 4], u32>(bytes)
}

/// What `configure_texture` does to the slots: texture `texture` gets a size, cut to 16
/// bits, and pixel and image layouts, and keeps its memory; the others stay.
pub open spec fn texture_configured(
    before: Seq<TextureModule>,
    after: Seq<TextureModule>,
    texture: u8,
    pixel_layout: PixelDataLayout,
    image_layout: ImageDataLayout,
    width: u32,
    height: u32,
) -> bool {
    &&& after.len() == before.len()
    &&& after[texture as int].memory@ == before[texture as int].memory@
    &&& after[texture as int].config == (Texture { width: width as u16, height: height as u16, pixel_layout, image_layout })
    &&& forall|i: int| 0 <= i < TEXTURE_SLOTS && i != texture ==> #[trigger] after[i] == before[i]
}

/// Whether clearing texture `texture` with the colour of sampler `constant_sampler` stays
/// inside the texture's memory (slot numbers of 64 and more clear nothing).
pub open spec fn clear_fits(textures: Seq<TextureModule>, samplers: Seq<ConstantSampler>, texture: u8, constant_sampler: u8) -> bool {
    texture < 64 && constant_sampler < 64 && (!is_float_type(samplers[constant_sampler as int].data_type)
        || layout_channel_bytes(textures[texture as int].config.pixel_layout) == 4)
        ==> textures[texture as int].data_len() <= TEXTURE_MEMORY_BYTES
}

/// What `clear_texture` does to the slots: nothing for slot numbers of 64 and more;
/// otherwise texture `texture` is cleared with the sampler's colour and the others stay.
pub open spec fn texture_cleared(
    before: Seq<TextureModule>,
    after: Seq<TextureModule>,
    samplers: Seq<ConstantSampler>,
    texture: u8,
    constant_sampler: u8,
) -> bool {
    &&& texture >= 64 || constant_sampler >= 64 ==> after == before
    &&& texture < 64 && constant_sampler < 64 ==> exists|data| {
        &&& is_abstract_of(samplers[constant_sampler as int], data)
        &&& cleared(before[texture as int], after[texture as int], data)
    }
    &&& forall|i: int| 0 <= i < TEXTURE_SLOTS && i != texture ==> #[trigger] after[i] == before[i]
}

/// Whether textures `src_tex` and `dst_tex` have the same pixel layout and are two.
pub open spec fn blit_applies(textures: Seq<TextureModule>, src_tex: u8, dst_tex: u8) -> bool {
    src_tex != dst_tex && textures[src_tex as int].config.pixel_layout == textures[dst_tex as int].config.pixel_layout
}

/// Whether a direct blit of `region` names texture slots and, where it copies, stays inside
/// both textures.
pub open spec fn direct_blit_fits(textures: Seq<TextureModule>, src_tex: u8, dst_tex: u8, region: Blit) -> bool {
    &&& src_tex != dst_tex ==> src_tex < TEXTURE_SLOTS && dst_tex < TEXTURE_SLOTS
    &&& blit_applies(textures, src_tex, dst_tex) ==> blit_in_bounds(
        textures[src_tex as int].config, TEXTURE_MEMORY_BYTES as int,
        textures[dst_tex as int].config, TEXTURE_MEMORY_BYTES as int,
        region, textures[dst_tex as int].config.pixel_layout.spec_pixel_bytes() as int,
    )
}

/// `after` is `before` with the pixels of `region` that pass `test` copied from texture
/// `src_tex` to texture `dst_tex`.
pub open spec fn blitted_with(before: Seq<TextureModule>, after: Seq<TextureModule>, src_tex: u8, dst_tex: u8, region: Blit, test: PixelTest) -> bool {
    let src = before[src_tex as int];
    let dst = before[dst_tex as int];
    &&& only_texture_changed(before, after, dst_tex as int, after[dst_tex as int])
    &&& after[dst_tex as int].config == dst.config
    &&& after[dst_tex as int].memory@ == blit_memory(
        src.memory@, src.config, dst.memory@, dst.config, region,
        dst.config.pixel_layout.spec_pixel_bytes() as int, test, (region.w * region.h) as nat,
    )
}

/// What `direct_blit` does to the slots: nothing, or the region copied whole.
pub open spec fn direct_blitted(before: Seq<TextureModule>, after: Seq<TextureModule>, src_tex: u8, dst_tex: u8, region: Blit) -> bool {
    &&& !blit_applies(before, src_tex, dst_tex) ==> after == before
    &&& blit_applies(before, src_tex, dst_tex) ==> blitted_with(before, after, src_tex, dst_tex, region, PixelTest::All)
}

/// Whether a cutout blit of `region` names texture slots and, where it copies, tests pixels
/// of the right size and stays inside both textures.
pub open spec fn cutout_blit_fits(textures: Seq<TextureModule>, src_tex: u8, dst_tex: u8, region: Blit, pixel_type: PixelDataType) -> bool {
    &&& direct_blit_fits(textures, src_tex, dst_tex, region)
    &&& blit_applies(textures, src_tex, dst_tex)
        ==> cutout_fits(pixel_type, textures[dst_tex as int].config.pixel_layout.spec_pixel_bytes() as int)
}

/// What `cutout_blit` does to the slots: nothing, or the pixels of the region that pass the
/// alpha test copied, the test reading words in one byte order.
pub open spec fn cutout_blitted(
    before: Seq<TextureModule>,
    after: Seq<TextureModule>,
    src_tex: u8,
    dst_tex: u8,
    region: Blit,
    pixel_type: PixelDataType,
) -> bool {
    &&& !blit_applies(before, src_tex, dst_tex) ==> after == before
    &&& blit_applies(before, src_tex, dst_tex) ==> exists|little: bool| #![trigger cutout_test(pixel_type, little)]
        blitted_with(before, after, src_tex, dst_tex, region, cutout_test(pixel_type, little))
}

/// Stores `value` in constant sampler slot `sampler`; slot numbers of 64 and more are
/// ignored.
pub fn set_constant_sampler(samplers: &mut Vec<ConstantSampler>, sampler: u8, value: ConstantSampler)
    requires
        old(samplers)@.len() == CONSTANT_SAMPLER_SLOTS,
    ensures
        final(samplers)@ == if sampler < 64 { old(samplers)@.update(sampler as int, value) } else { old(samplers)@ },
{
    if sampler >= 64 {
        return;
    }
    samplers.set(sampler as usize, value);
}

/// Gives texture `texture` a size, cut to 16 bits, and pixel and image layouts; its memory is
/// left as it is.
pub fn configure_texture(
    textures: &mut Vec<TextureModule>,
    texture: u8,
    pixel_layout: PixelDataLayout,
    image_layout: ImageDataLayout,
    width: u32,
    height: u32,
)
    requires
        textures_wf(old(textures)@),
        texture < TEXTURE_SLOTS,
    ensures
        textures_wf(final(textures)@),
        texture_configured(old(textures)@, final(textures)@, texture, pixel_layout, image_layout, width, height),
{
    let t = texture as usize;
    let ghost before = textures@;
    let mut slot = TextureModule { memory: Vec::new(), config: textures[t].config };
    std::mem::swap(&mut slot, &mut textures[t]);
    assert(slot == before[t as int]);
    assert(textures@.len() == before.len());
    slot.config = Texture { width: width as u16, height: height as u16, pixel_layout, image_layout };
    let ghost updated = slot;
    std::mem::swap(&mut slot, &mut textures[t]);
    assert(textures@[t as int] == updated);
    assert forall|i: int| 0 <= i < textures@.len() implies #[trigger] textures@[i].wf() by {
        assert(before[i].wf());
        if i != t {
            assert(textures@[i] == before[i]);
        }
    }
}

/// Clears texture `texture` with the colour of constant sampler `constant_sampler` (see
/// `TextureModule::clear`); slot numbers of 64 and more leave everything as it is.
pub fn clear_texture(textures: &mut Vec<TextureModule>, samplers: &Vec<ConstantSampler>, texture: u8, constant_sampler: u8)
    requires
        textures_wf(old(textures)@),
        samplers@.len() == CONSTANT_SAMPLER_SLOTS,
        clear_fits(old(textures)@, samplers@, texture, constant_sampler),
    ensures
        textures_wf(final(textures)@),
        texture_cleared(old(textures)@, final(textures)@, samplers@, texture, constant_sampler),
{
    if texture >= 64 {
        return;
    }
    if constant_sampler >= 64 {
        return;
    }
    let sampler = samplers[constant_sampler as usize];
    let value_abstract = sampler.get_abstract();
    let t = texture as usize;
    let mut slot = TextureModule { memory: Vec::new(), config: textures[t].config };
    std::mem::swap(&mut slot, &mut textures[t]);
    let ghost before = slot;
    slot.clear(value_abstract);
    let ghost after = slot;
    std::mem::swap(&mut slot, &mut textures[t]);
    assert(cleared(before, after, value_abstract));
}

/// Copies a region from texture `src_tex` to texture `dst_tex` (see
/// `direct_blit_internal`) when both have the same pixel layout; a blit of a texture onto
/// itself, or between layouts that differ, leaves everything as it is.
pub fn direct_blit(
    textures: &mut Vec<TextureModule>,
    src_tex: u8,
    dst_tex: u8,
    src_x: u16,
    src_y: u16,
    dst_x: u16,
    dst_y: u16,
    width: u16,
    height: u16,
)
    requires
        textures_wf(old(textures)@),
        direct_blit_fits(old(textures)@, src_tex, dst_tex, blit_region(src_x, src_y, dst_x, dst_y, width, height)),
    ensures
        textures_wf(final(textures)@),
        direct_blitted(old(textures)@, final(textures)@, src_tex, dst_tex, blit_region(src_x, src_y, dst_x, dst_y, width, height)),
{
    if src_tex == dst_tex {
        return;
    }
    let s = src_tex as usize;
    let d = dst_tex as usize;
    let layout = textures[d].config.pixel_layout;
    if textures[s].config.pixel_layout != layout {
        return;
    }
    let n = layout.pixel_bytes();
    blit_between(textures, s, d, n, src_x, src_y, dst_x, dst_y, width, height, PixelTest::All);
}

/// Copies the pixels of a region of texture `src_tex` that pass the alpha test of
/// `pixel_type` to texture `dst_tex` when both have the same pixel layout: RGBA unorm8 pixels
/// whose alpha byte is not 0, or RGBA f32 pixels whose alpha is above 0, read in the
/// machine's byte order. A blit of a texture onto itself, or between layouts that differ,
/// leaves everything as it is.
pub fn cutout_blit(
    textures: &mut Vec<TextureModule>,
    src_tex: u8,
    dst_tex: u8,
    src_x: u16,
    src_y: u16,
    dst_x: u16,
    dst_y: u16,
    width: u16,
    height: u16,
    pixel_type: PixelDataType,
)
    requires
        textures_wf(old(textures)@),
        cutout_blit_fits(old(textures)@, src_tex, dst_tex, blit_region(src_x, src_y, dst_x, dst_y, width, height), pixel_type),
    ensures
        textures_wf(final(textures)@),
        cutout_blitted(old(textures)@, final(textures)@, src_tex, dst_tex, blit_region(src_x, src_y, dst_x, dst_y, width, height), pixel_type),
{
    if src_tex == dst_tex {
        return;
    }
    let s = src_tex as usize;
    let d = dst_tex as usize;
    let layout = textures[d].config.pixel_layout;
    if textures[s].config.pixel_layout != layout {
        return;
    }
    let n = layout.pixel_bytes();
    let little = native_word([1u8, 0u8, 0u8, 0u8]) == 1;
    let test = if pixel_type == PixelDataType::RgbaUNorm8 { PixelTest::AlphaByte } else { PixelTest::AlphaF32(little) };
    blit_between(textures, s, d, n, src_x, src_y, dst_x, dst_y, width, height, test);
    assert(test == cutout_test(pixel_type, little));
}

/// Runs `blit_pixels` from texture `s` to texture `d` of `textures`.
fn blit_between(
    textures: &mut Vec<TextureModule>,
    s: usize,
    d: usize,
    n: usize,
    src_x: u16,
    src_y: u16,
    dst_x: u16,
    dst_y: u16,
    width: u16,
    height: u16,
    test: PixelTest,
)
    requires
        textures_wf(old(textures)@),
        s < TEXTURE_SLOTS,
        d < TEXTURE_SLOTS,
        s != d,
        crate::gpu::texture::test_fits(test, n as int),
        blit_in_bounds(
            old(textures)@[s as int].config, TEXTURE_MEMORY_BYTES as int,
            old(textures)@[d as int].config, TEXTURE_MEMORY_BYTES as int,
            blit_region(src_x, src_y, dst_x, dst_y, width, height), n as int,
        ),
    ensures
        textures_wf(final(textures)@),
        only_texture_changed(old(textures)@, final(textures)@, d as int, final(textures)@[d as int]),
        final(textures)@[d as int].config == old(textures)@[d as int].config,
        final(textures)@[d as int].memory@ == blit_memory(
            old(textures)@[s as int].memory@, old(textures)@[s as int].config,
            old(textures)@[d as int].memory@, old(textures)@[d as int].config,
            blit_region(src_x, src_y, dst_x, dst_y, width, height), n as int, test, (width * height) as nat,
        ),
{
    let ghost before = textures@;
    let mut dst = TextureModule { memory: Vec::new(), config: textures[d].config };
    std::mem::swap(&mut dst, &mut textures[d]);
    assert(dst == before[d as int]);
    assert(before[d as int].wf());
    assert(textures@[s as int] == before[s as int]);
    assert(textures@[s as int].wf());
    blit_pixels(&textures[s], &mut dst, n, src_x, src_y, dst_x, dst_y, width, height, test);
    let ghost blitted = dst;
    std::mem::swap(&mut dst, &mut textures[d]);
    assert(textures@[d as int] == blitted);
    assert forall|i: int| 0 <= i < textures@.len() implies #[trigger] textures@[i].wf() by {
        assert(before[i].wf());
        if i != d {
            assert(textures@[i] == before[i]);
        }
    }
}

} // verus!
