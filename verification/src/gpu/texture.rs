//! Texture slots: the bytes of an image and the configuration that gives them a shape.

use vstd::prelude::*;
use crate::gpu::types::{AbstractPixelData, Blit, ImageDataLayout, PixelDataLayout, Texture, image_index};

verus! {

/// Bytes of storage behind each texture slot (512 x 512 pixels of sixteen bytes).
pub const TEXTURE_MEMORY_BYTES: usize = 4194304;

/// Value of the `n` bytes of `b` from `start`, least significant byte first.
pub open spec fn le_value(b: Seq<u8>, start: int, n: nat) -> int
    decreases n,
{
    if n == 0 {
        0
    } else {
        b[start] as int + 256 * le_value(b, start + 1, (n - 1) as nat)
    }
}

/// Value of the `n` bytes of `b` from `start`, most significant byte first.
pub open spec fn be_value(b: Seq<u8>, start: int, n: nat) -> int
    decreases n,
{
    if n == 0 {
        0
    } else {
        b[start + n - 1] as int + 256 * be_value(b, start, (n - 1) as nat)
    }
}

/// `b` holds `values` one after the other, `n` bytes each, all in one byte order.
pub open spec fn holds_values(b: Seq<u8>, values: Seq<int>, n: nat) -> bool {
    &&& b.len() == values.len() * n
    &&& {
        ||| forall|i: int| 0 <= i < values.len() ==> le_value(b, i * n, n) == #[trigger] values[i]
        ||| forall|i: int| 0 <= i < values.len() ==> be_value(b, i * n, n) == #[trigger] values[i]
    }
}

/// The bytes of `values` as they lie in memory (`bytemuck::cast_slice`), copied out. Which
/// byte of a value comes first is the machine's byte order, so either order is stated.
#[verifier::external_body]
fn u16_memory_bytes(values: &[u16]) -> (r: Vec<u8>)
    ensures
        holds_values(r@, values@.map_values(|v: u16| v as int), 2),
{
    bytemuck::cast_slice::<u16, u8>(values).to_vec()
}

/// The bytes of `values` as they lie in memory (`bytemuck::cast_slice`), copied out. Which
/// byte of a value comes first is the machine's byte order, so either order is stated.
#[verifier::external_body]
pub(crate) fn u32_memory_bytes(values: &[u32]) -> (r: Vec<u8>)
    ensures
        holds_values(r@, values@.map_values(|v: u32| v as int), 4),
{
    bytemuck::cast_slice::<u32, u8>(values).to_vec()
}

/// Channels of a pixel of `layout`.
pub open spec fn layout_channels(layout: PixelDataLayout) -> nat {
    match layout {
        PixelDataLayout::D8x1 | PixelDataLayout::D16x1 | PixelDataLayout::D32x1 => 1,
        PixelDataLayout::D8x2 | PixelDataLayout::D16x2 | PixelDataLayout::D32x2 => 2,
        _ => 4,
    }
}

/// Bytes of one channel of a pixel of `layout`.
pub open spec fn layout_channel_bytes(layout: PixelDataLayout) -> nat {
    match layout {
        PixelDataLayout::D8x1 | PixelDataLayout::D8x2 | PixelDataLayout::D8x4 => 1,
        PixelDataLayout::D16x1 | PixelDataLayout::D16x2 | PixelDataLayout::D16x4 => 2,
        _ => 4,
    }
}

/// Whether `clear` writes `data` into a texture of `layout`: floating-point data is written
/// only into 32-bit channels.
pub open spec fn clear_writes(data: AbstractPixelData, layout: PixelDataLayout) -> bool {
    !(data is F32) || layout_channel_bytes(layout) == 4
}

/// Channel `i` of `data` cut to a channel of `n` bytes, as an unsigned value.
pub open spec fn clear_channel(data: AbstractPixelData, i: int, n: nat) -> int {
    match data {
        AbstractPixelData::F32(d) | AbstractPixelData::U32(d) | AbstractPixelData::UNorm32(d) =>
            if n == 1 { d[i] as u8 as int } else if n == 2 { d[i] as u16 as int } else { d[i] as int },
        AbstractPixelData::I32(d) | AbstractPixelData::INorm32(d) =>
            if n == 1 { d[i] as u8 as int } else if n == 2 { d[i] as u16 as int } else { d[i] as u32 as int },
    }
}

/// The channels that a clear of a `layout` texture with `data` stores in each pixel.
pub open spec fn clear_channels(data: AbstractPixelData, layout: PixelDataLayout) -> Seq<int> {
    Seq::new(layout_channels(layout), |i: int| clear_channel(data, i, layout_channel_bytes(layout)))
}

/// `new` is `old` with its first `count * pattern.len()` bytes replaced by `count` copies of
/// `pattern`.
pub open spec fn filled(old: Seq<u8>, new: Seq<u8>, pattern: Seq<u8>, count: int) -> bool {
    &&& new.len() == old.len()
    &&& count * pattern.len() <= new.len()
    &&& forall|q: int| 0 <= q < count * pattern.len() ==> #[trigger] new[q] == pattern[q % pattern.len() as int]
    &&& forall|q: int| count * pattern.len() <= q < new.len() ==> #[trigger] new[q] == old[q]
}

/// `mem` with the bytes from `off` replaced by `value`.
pub open spec fn stored_bytes(mem: Seq<u8>, off: int, value: Seq<u8>) -> Seq<u8> {
    mem.subrange(0, off) + value + mem.subrange(off + value.len(), mem.len() as int)
}

/// A fetch of the bytes that a store wrote gives back the stored value, and a store leaves
/// every byte range that it does not overlap as it was.
pub proof fn law_store_then_fetch(mem: Seq<u8>, off: int, value: Seq<u8>, other: int, n: int)
    requires
        0 <= off,
        off + value.len() <= mem.len(),
        0 <= other,
        0 <= n,
        other + n <= mem.len(),
    ensures
        stored_bytes(mem, off, value).subrange(off, off + value.len()) == value,
        other + n <= off || off + value.len() <= other ==> stored_bytes(mem, off, value).subrange(other, other + n)
            == mem.subrange(other, other + n),
{
    let s = stored_bytes(mem, off, value);
    assert(s.subrange(off, off + value.len()) =~= value);
    if other + n <= off || off + value.len() <= other {
        assert(s.subrange(other, other + n) =~= mem.subrange(other, other + n));
    }
}

/// A clear leaves every pixel of the image holding the same bytes: those of the first pixel.
pub proof fn law_clear_fills_every_pixel(old_mem: Seq<u8>, new_mem: Seq<u8>, pattern: Seq<u8>, count: int, p: int)
    requires
        filled(old_mem, new_mem, pattern, count),
        pattern.len() > 0,
        0 <= p < count,
    ensures
        new_mem.subrange(p * pattern.len(), p * pattern.len() + pattern.len()) == pattern,
{
    let n = pattern.len() as int;
    assert(p * n + n == (p + 1) * n) by (nonlinear_arith);
    assert((p + 1) * n <= count * n) by (nonlinear_arith) requires p + 1 <= count, n > 0;
    assert(0 <= p * n) by (nonlinear_arith) requires p >= 0, n > 0;
    assert forall|k: int| 0 <= k < n implies new_mem.subrange(p * n, p * n + n)[k] == pattern[k] by {
        vstd::arithmetic::div_mod::lemma_fundamental_div_mod_converse(p * n + k, n, p, k);
        assert(new_mem[p * n + k] == pattern[(p * n + k) % n]);
    }
    assert(new_mem.subrange(p * n, p * n + n) =~= pattern);
}

/// `after` is `before` cleared with `data` (see `TextureModule::clear`).
pub open spec fn cleared(before: TextureModule, after: TextureModule, data: AbstractPixelData) -> bool {
    let layout = before.config.pixel_layout;
    &&& after.wf()
    &&& after.config == before.config
    &&& !clear_writes(data, layout) ==> after.memory@ == before.memory@
    &&& clear_writes(data, layout) ==> exists|pattern: Seq<u8>|
        holds_values(pattern, clear_channels(data, layout), layout_channel_bytes(layout))
            && filled(before.memory@, after.memory@, pattern, before.pixel_count())
}

/// The memory of one texture slot and its configuration.
pub struct TextureModule {
    pub memory: Vec<u8>,
    pub config: Texture,
}

impl TextureModule {
    /// The memory has its full size.
    pub open spec fn wf(&self) -> bool {
        self.memory@.len() == TEXTURE_MEMORY_BYTES
    }

    /// Pixels of the configured image.
    pub open spec fn pixel_count(&self) -> int {
        self.config.width as int * self.config.height as int
    }

    /// Bytes that the configured image takes.
    pub open spec fn data_len(&self) -> int {
        self.config.pixel_layout.spec_pixel_bytes() as int * self.pixel_count()
    }

    /// Byte offset of pixel (x, y) for pixels of `n` bytes.
    pub open spec fn pixel_offset(&self, x: u32, y: u32, n: int) -> int {
        image_index(self.config.image_layout, x as int, y as int, self.config.width as int) * n
    }

    /// An empty 0 x 0 texture of single-byte pixels, its memory zeroed.
    pub fn new() -> (r: Self)
        ensures
            r.wf(),
            forall|i: int| 0 <= i < r.memory@.len() ==> r.memory@[i] == 0u8,
            r.config == (Texture {
                width: 0,
                height: 0,
                pixel_layout: PixelDataLayout::D8x1,
                image_layout: ImageDataLayout::Contiguous,
            }),
    {
        TextureModule {
            memory: vec![0u8; TEXTURE_MEMORY_BYTES],
            config: Texture {
                width: 0,
                height: 0,
                pixel_layout: PixelDataLayout::D8x1,
                image_layout: ImageDataLayout::Contiguous,
            },
        }
    }
}

impl TextureModule {
    /// The bytes of the configured image.
    pub fn data_slice(&self) -> (r: &[u8])
        requires
            self.data_len() <= self.memory@.len(),
        ensures
            r@ == self.memory@.subrange(0, self.data_len()),
    {
        let len = self.data_len_exec();
        self.memory.as_slice().split_at(len).0
    }

    /// The bytes of the configured image, to write in place.
    pub fn data_slice_mut(&mut self) -> (r: &mut [u8])
        requires
            old(self).data_len() <= old(self).memory@.len(),
        ensures
            r@ == old(self).memory@.subrange(0, old(self).data_len()),
            final(self).config == old(self).config,
            final(self).memory@ == final(r)@ + old(self).memory@.subrange(
                old(self).data_len(),
                old(self).memory@.len() as int,
            ),
    {
        let len = self.data_len_exec();
        let (head, _tail) = self.memory.as_mut_slice().split_at_mut(len);
        head
    }

    fn data_len_exec(&self) -> (r: usize)
        requires
            self.data_len() <= self.memory@.len(),
        ensures
            r == self.data_len(),
    {
        let w = self.config.width as usize;
        let h = self.config.height as usize;
        let n = self.config.pixel_layout.pixel_bytes();
        assert(self.memory@.len() == self.memory.len());
        assert(n * (w * h) == self.data_len());
        assert(w * h <= n * (w * h)) by (nonlinear_arith) requires n >= 1, w * h >= 0;
        n * (w * h)
    }

    /// Fills each of the image's pixels, in memory order, with a copy of `pattern`; the
    /// bytes after them are left as they were.
    pub fn fill_pixels(&mut self, pattern: &[u8])
        requires
            old(self).wf(),
            pattern@.len() > 0,
            old(self).pixel_count() * pattern@.len() <= TEXTURE_MEMORY_BYTES,
        ensures
            final(self).wf(),
            final(self).config == old(self).config,
            filled(old(self).memory@, final(self).memory@, pattern@, old(self).pixel_count()),
    {
        let ghost start = self.memory@;
        let n = pattern.len();
        let w = self.config.width as usize;
        let h = self.config.height as usize;
        assert(w * h <= (w * h) * n) by (nonlinear_arith) requires n >= 1, w * h >= 0;
        let total = w * h * n;
        let mut q: usize = 0;
        let mut k: usize = 0;
        let ghost mut i: int = 0;
        while q < total
            invariant
                n == pattern@.len(),
                n > 0,
                total == old(self).pixel_count() * n,
                total <= TEXTURE_MEMORY_BYTES,
                self.memory@.len() == start.len(),
                start.len() == TEXTURE_MEMORY_BYTES,
                self.config == old(self).config,
                start == old(self).memory@,
                q <= total,
                k < n,
                i >= 0,
                q == i * n + k,
                forall|p: int| 0 <= p < q ==> #[trigger] self.memory@[p] == pattern@[p % n as int],
                forall|p: int| q <= p < start.len() ==> #[trigger] self.memory@[p] == start[p],
            decreases total - q,
        {
            proof {
                vstd::arithmetic::div_mod::lemma_fundamental_div_mod_converse(q as int, n as int, i, k as int);
            }
            self.memory.set(q, pattern[k]);
            q = q + 1;
            if k + 1 == n {
                proof {
                    assert((i + 1) * n == i * n + n) by (nonlinear_arith);
                    i = i + 1;
                }
                k = 0;
            } else {
                k = k + 1;
            }
        }
    }

    /// Clears the image: every pixel takes the channels of `data`, each cut to the width of
    /// the layout's channels; floating-point data leaves textures of 8- and 16-bit channels
    /// unchanged. Multi-byte channels are stored in the machine's byte order.
    pub fn clear(&mut self, data: AbstractPixelData)
        requires
            old(self).wf(),
            clear_writes(data, old(self).config.pixel_layout) ==> old(self).data_len() <= TEXTURE_MEMORY_BYTES,
        ensures
            cleared(*old(self), *final(self), data),
    {
        let layout = self.config.pixel_layout;
        match clear_pattern(data, layout) {
            Some(pattern) => {
                proof {
                    lemma_layout_bytes(layout);
                    let c = layout_channels(layout) as int;
                    let b = layout_channel_bytes(layout) as int;
                    assert(self.pixel_count() * (c * b) == (c * b) * self.pixel_count()) by (nonlinear_arith);
                }
                self.fill_pixels(pattern.as_slice());
            },
            None => {},
        }
    }

    /// The `n` bytes of pixel (x, y), for pixels of `n` bytes placed by the image layout.
    pub fn fetch(&self, x: u32, y: u32, n: usize) -> (r: Vec<u8>)
        requires
            n > 0,
            0 <= image_index(self.config.image_layout, x as int, y as int, self.config.width as int) <= u32::MAX,
            self.pixel_offset(x, y, n as int) + n <= self.memory@.len(),
        ensures
            r@ == self.memory@.subrange(self.pixel_offset(x, y, n as int), self.pixel_offset(x, y, n as int) + n),
    {
        let index = self.config.image_layout.index(x, y, self.config.width as u32);
        let ghost idx = index as int;
        assert(self.memory@.len() == self.memory.len());
        assert(0 <= idx * n) by (nonlinear_arith) requires idx >= 0, n >= 0;
        let start = index as usize * n;
        let mut r: Vec<u8> = Vec::new();
        let mut j: usize = 0;
        while j < n
            invariant
                start == self.pixel_offset(x, y, n as int),
                start + n <= self.memory@.len(),
                start + n <= usize::MAX,
                j <= n,
                r@ == self.memory@.subrange(start as int, start + j),
            decreases n - j,
        {
            r.push(self.memory[start + j]);
            j = j + 1;
            assert(r@ =~= self.memory@.subrange(start as int, start + j));
        }
        r
    }

    /// Writes `value` as the bytes of pixel (x, y), for pixels of `value.len()` bytes placed
    /// by the image layout; all other bytes are left as they were.
    pub fn store(&mut self, x: u32, y: u32, value: &[u8])
        requires
            value@.len() > 0,
            0 <= image_index(old(self).config.image_layout, x as int, y as int, old(self).config.width as int) <= u32::MAX,
            old(self).pixel_offset(x, y, value@.len() as int) + value@.len() <= old(self).memory@.len(),
        ensures
            final(self).config == old(self).config,
            final(self).memory@ == stored_bytes(old(self).memory@, old(self).pixel_offset(x, y, value@.len() as int), value@),
    {
        let n = value.len();
        let index = self.config.image_layout.index(x, y, self.config.width as u32);
        let ghost idx = index as int;
        assert(self.memory@.len() == self.memory.len());
        assert(0 <= idx * n) by (nonlinear_arith) requires idx >= 0, n >= 0;
        let start = index as usize * n;
        let ghost before = self.memory@;
        let mut j: usize = 0;
        while j < n
            invariant
                n == value@.len(),
                start == old(self).pixel_offset(x, y, n as int),
                start + n <= before.len(),
                start + n <= usize::MAX,
                before == old(self).memory@,
                self.config == old(self).config,
                j <= n,
                self.memory@.len() == before.len(),
                forall|p: int| 0 <= p < start ==> #[trigger] self.memory@[p] == before[p],
                forall|p: int| start <= p < start + j ==> #[trigger] self.memory@[p] == value@[p - start],
                forall|p: int| start + j <= p < before.len() ==> #[trigger] self.memory@[p] == before[p],
            decreases n - j,
        {
            self.memory.set(start + j, value[j]);
            j = j + 1;
        }
        assert(self.memory@ =~= before.subrange(0, start as int) + value@ + before.subrange(start + n, before.len() as int));
    }
}

/// Byte offset of pixel (x, y) of an image configured by `cfg`, for pixels of `n` bytes.
pub open spec fn texel_offset(cfg: Texture, x: int, y: int, n: int) -> int {
    image_index(cfg.image_layout, x, y, cfg.width as int) * n
}

/// Pixel (x, y) of the region exists in a memory of `len` bytes configured by `cfg`.
pub open spec fn texel_in_bounds(cfg: Texture, len: int, x: int, y: int, n: int) -> bool {
    &&& 0 <= image_index(cfg.image_layout, x, y, cfg.width as int) <= u32::MAX
    &&& texel_offset(cfg, x, y, n) + n <= len
}

/// Pixel (x, y) of blit `b` can be read from the source and written to the destination.
pub open spec fn blit_pixel_ok(src_cfg: Texture, src_len: int, dst_cfg: Texture, dst_len: int, b: Blit, n: int, x: int, y: int) -> bool {
    &&& texel_in_bounds(src_cfg, src_len, b.src_x + x, b.src_y + y, n)
    &&& texel_in_bounds(dst_cfg, dst_len, b.dst_x + x, b.dst_y + y, n)
}

/// Every pixel of blit `b` can be read from the source and written to the destination.
pub open spec fn blit_in_bounds(src_cfg: Texture, src_len: int, dst_cfg: Texture, dst_len: int, b: Blit, n: int) -> bool {
    forall|x: int, y: int| 0 <= x < b.w && 0 <= y < b.h ==> #[trigger] blit_pixel_ok(src_cfg, src_len, dst_cfg, dst_len, b, n, x, y)
}

/// Which source pixels a blit copies.
#[derive(Copy, Clone, Debug, PartialEq, Eq, Structural)]
pub enum PixelTest {
    /// Every pixel.
    All,
    /// Pixels whose fourth byte, the alpha of an RGBA unorm8 pixel, is not 0.
    AlphaByte,
    /// Pixels whose fourth four-byte word, the alpha of an RGBA f32 pixel, is the pattern of
    /// an `f32` above 0; the word is read least significant byte first when the flag is set,
    /// most significant byte first otherwise.
    AlphaF32(bool),
}

/// Whether the `f32` with bit pattern `bits` is above 0 (a NaN is not).
pub open spec fn f32_bits_positive(bits: int) -> bool {
    0 < bits <= 0x7F80_0000
}

/// The four bytes of `b` from `start` as a word, least significant first when `little`.
pub open spec fn word4(b: Seq<u8>, start: int, little: bool) -> int {
    if little {
        b[start] + 256 * b[start + 1] + 65536 * b[start + 2] + 16777216 * b[start + 3]
    } else {
        b[start + 3] + 256 * b[start + 2] + 65536 * b[start + 1] + 16777216 * b[start]
    }
}

/// Whether a blit with `test` copies `pixel`.
pub open spec fn keeps(test: PixelTest, pixel: Seq<u8>) -> bool {
    match test {
        PixelTest::All => true,
        PixelTest::AlphaByte => pixel[3] != 0,
        PixelTest::AlphaF32(little) => f32_bits_positive(word4(pixel, 12, little)),
    }
}

/// Pixels of `n` bytes hold what `test` looks at.
pub open spec fn test_fits(test: PixelTest, n: int) -> bool {
    match test {
        PixelTest::All => n > 0,
        PixelTest::AlphaByte => n == 4,
        PixelTest::AlphaF32(_) => n == 16,
    }
}

/// The destination memory after the first `k` pixels of blit `b`, taken row by row, each
/// row left to right: each source pixel of `n` bytes that `test` keeps is stored at its
/// destination.
pub open spec fn blit_memory(src: Seq<u8>, src_cfg: Texture, dst: Seq<u8>, dst_cfg: Texture, b: Blit, n: int, test: PixelTest, k: nat) -> Seq<u8>
    decreases k,
{
    if k == 0 || b.w == 0 {
        dst
    } else {
        let i = k - 1;
        let x = i % (b.w as int);
        let y = i / (b.w as int);
        let prev = blit_memory(src, src_cfg, dst, dst_cfg, b, n, test, (k - 1) as nat);
        let from = texel_offset(src_cfg, b.src_x + x, b.src_y + y, n);
        let pixel = src.subrange(from, from + n);
        if !keeps(test, pixel) {
            prev
        } else {
            stored_bytes(prev, texel_offset(dst_cfg, b.dst_x + x, b.dst_y + y, n), pixel)
        }
    }
}

/// The region of a blit.
pub open spec fn blit_region(src_x: u16, src_y: u16, dst_x: u16, dst_y: u16, width: u16, height: u16) -> Blit {
    Blit {
        w: width as u32,
        h: height as u32,
        src_x: src_x as u32,
        src_y: src_y as u32,
        dst_x: dst_x as u32,
        dst_y: dst_y as u32,
    }
}

/// Copies a `width` x `height` region of pixels of `n` bytes from `src` to `dst`, row by row.
pub fn direct_blit_internal(
    src: &TextureModule,
    dst: &mut TextureModule,
    n: usize,
    src_x: u16,
    src_y: u16,
    dst_x: u16,
    dst_y: u16,
    width: u16,
    height: u16,
)
    requires
        n > 0,
        blit_in_bounds(
            src.config, src.memory@.len() as int, old(dst).config, old(dst).memory@.len() as int,
            blit_region(src_x, src_y, dst_x, dst_y, width, height), n as int,
        ),
    ensures
        final(dst).config == old(dst).config,
        final(dst).memory@ == blit_memory(
            src.memory@, src.config, old(dst).memory@, old(dst).config,
            blit_region(src_x, src_y, dst_x, dst_y, width, height), n as int, PixelTest::All,
            (width * height) as nat,
        ),
{
    blit_pixels(src, dst, n, src_x, src_y, dst_x, dst_y, width, height, PixelTest::All);
}

/// Copies a `width` x `height` region of four-byte pixels from `src` to `dst`, row by row,
/// skipping each pixel whose fourth byte (the alpha of an RGBA unorm8 pixel) is 0.
pub fn cutout_blit_internal(
    src: &TextureModule,
    dst: &mut TextureModule,
    src_x: u16,
    src_y: u16,
    dst_x: u16,
    dst_y: u16,
    width: u16,
    height: u16,
)
    requires
        blit_in_bounds(
            src.config, src.memory@.len() as int, old(dst).config, old(dst).memory@.len() as int,
            blit_region(src_x, src_y, dst_x, dst_y, width, height), 4,
        ),
    ensures
        final(dst).config == old(dst).config,
        final(dst).memory@ == blit_memory(
            src.memory@, src.config, old(dst).memory@, old(dst).config,
            blit_region(src_x, src_y, dst_x, dst_y, width, height), 4, PixelTest::AlphaByte,
            (width * height) as nat,
        ),
{
    blit_pixels(src, dst, 4, src_x, src_y, dst_x, dst_y, width, height, PixelTest::AlphaByte);
}

/// Copies the pixels of a `width` x `height` region of pixels of `n` bytes that `test` keeps
/// from `src` to `dst`, row by row.
pub fn blit_pixels(
    src: &TextureModule,
    dst: &mut TextureModule,
    n: usize,
    src_x: u16,
    src_y: u16,
    dst_x: u16,
    dst_y: u16,
    width: u16,
    height: u16,
    test: PixelTest,
)
    requires
        test_fits(test, n as int),
        blit_in_bounds(
            src.config, src.memory@.len() as int, old(dst).config, old(dst).memory@.len() as int,
            blit_region(src_x, src_y, dst_x, dst_y, width, height), n as int,
        ),
    ensures
        final(dst).config == old(dst).config,
        final(dst).memory@.len() == old(dst).memory@.len(),
        final(dst).memory@ == blit_memory(
            src.memory@, src.config, old(dst).memory@, old(dst).config,
            blit_region(src_x, src_y, dst_x, dst_y, width, height), n as int, test,
            (width * height) as nat,
        ),
{
    let ghost b = blit_region(src_x, src_y, dst_x, dst_y, width, height);
    let ghost start = dst.memory@;
    let ghost w = width as int;
    let mut y: u32 = 0;
    while y < height as u32
        invariant
            test_fits(test, n as int),
            b == blit_region(src_x, src_y, dst_x, dst_y, width, height),
            w == width as int,
            start == old(dst).memory@,
            dst.config == old(dst).config,
            dst.memory@.len() == start.len(),
            blit_in_bounds(src.config, src.memory@.len() as int, dst.config, start.len() as int, b, n as int),
            y <= height,
            dst.memory@ == blit_memory(src.memory@, src.config, start, dst.config, b, n as int, test, (y * w) as nat),
        decreases height - y,
    {
        let mut x: u32 = 0;
        while x < width as u32
            invariant
                test_fits(test, n as int),
                b == blit_region(src_x, src_y, dst_x, dst_y, width, height),
                w == width as int,
                start == old(dst).memory@,
                dst.config == old(dst).config,
                dst.memory@.len() == start.len(),
                blit_in_bounds(src.config, src.memory@.len() as int, dst.config, start.len() as int, b, n as int),
                y < height,
                x <= width,
                dst.memory@ == blit_memory(src.memory@, src.config, start, dst.config, b, n as int, test, (y * w + x) as nat),
            decreases width - x,
        {
            proof {
                assert(blit_pixel_ok(src.config, src.memory@.len() as int, dst.config, start.len() as int, b, n as int, x as int, y as int));
                assert(0 <= y * w) by (nonlinear_arith) requires y >= 0, w >= 0;
                vstd::arithmetic::div_mod::lemma_fundamental_div_mod_converse(y * w + x, w, y as int, x as int);
            }
            let pixel = src.fetch(x + src_x as u32, y + src_y as u32, n);
            if pixel_kept(test, &pixel) {
                dst.store(x + dst_x as u32, y + dst_y as u32, pixel.as_slice());
            }
            x = x + 1;
        }
        proof {
            assert(y * w + w == (y + 1) * w) by (nonlinear_arith);
        }
        y = y + 1;
    }
    proof {
        assert(y * w == width * height) by (nonlinear_arith) requires y == height, w == width;
    }
}

/// Whether a blit with `test` copies `pixel`.
fn pixel_kept(test: PixelTest, pixel: &Vec<u8>) -> (r: bool)
    requires
        test_fits(test, pixel@.len() as int),
    ensures
        r == keeps(test, pixel@),
{
    match test {
        PixelTest::All => true,
        PixelTest::AlphaByte => pixel[3] != 0,
        PixelTest::AlphaF32(little) => {
            let (b0, b1, b2, b3) = if little {
                (pixel[12], pixel[13], pixel[14], pixel[15])
            } else {
                (pixel[15], pixel[14], pixel[13], pixel[12])
            };
            let w = (b0 as u32) | ((b1 as u32) << 8u32) | ((b2 as u32) << 16u32) | ((b3 as u32) << 24u32);
            assert(w == b0 + 256 * b1 + 65536 * b2 + 16777216 * b3) by (bit_vector)
                requires
                    w == (b0 as u32) | ((b1 as u32) << 8u32) | ((b2 as u32) << 16u32) | ((b3 as u32) << 24u32);
            0 < w && w <= 0x7F80_0000
        },
    }
}

/// The bytes of one pixel that `clear` writes with `data` into a texture of `layout`, or
/// `None` where it writes nothing. Channels wider than a byte are laid out in the machine's
/// byte order.
pub fn clear_pattern(data: AbstractPixelData, layout: PixelDataLayout) -> (r: Option<Vec<u8>>)
    ensures
        r is Some <==> clear_writes(data, layout),
        r matches Some(p) ==> holds_values(p@, clear_channels(data, layout), layout_channel_bytes(layout)),
{
    let (count, width): (usize, usize) = match layout {
        PixelDataLayout::D8x1 => (1, 1),
        PixelDataLayout::D8x2 => (2, 1),
        PixelDataLayout::D8x4 => (4, 1),
        PixelDataLayout::D16x1 => (1, 2),
        PixelDataLayout::D16x2 => (2, 2),
        PixelDataLayout::D16x4 => (4, 2),
        PixelDataLayout::D32x1 => (1, 4),
        PixelDataLayout::D32x2 => (2, 4),
        PixelDataLayout::D32x4 => (4, 4),
    };
    let is_float = match data {
        AbstractPixelData::F32(_) => true,
        _ => false,
    };
    if is_float && width != 4 {
        return None;
    }
    let ghost channels = clear_channels(data, layout);
    if width == 1 {
        let mut bytes: Vec<u8> = Vec::new();
        let mut i: usize = 0;
        while i < count
            invariant
                count == layout_channels(layout),
                width == layout_channel_bytes(layout),
                width == 1,
                channels == clear_channels(data, layout),
                i <= count,
                bytes@.len() == i,
                forall|j: int| 0 <= j < i ==> bytes@[j] as int == #[trigger] channels[j],
            decreases count - i,
        {
            let v = channel_word(&data, i, width);
            bytes.push(v as u8);
            i = i + 1;
        }
        proof {
            assert forall|j: int| 0 <= j < channels.len() implies le_value(bytes@, j * 1, 1) == #[trigger] channels[j] by {
                reveal_with_fuel(le_value, 2);
            }
        }
        Some(bytes)
    } else if width == 2 {
        let mut halves: Vec<u16> = Vec::new();
        let mut i: usize = 0;
        while i < count
            invariant
                count == layout_channels(layout),
                width == layout_channel_bytes(layout),
                width == 2,
                channels == clear_channels(data, layout),
                i <= count,
                halves@.len() == i,
                forall|j: int| 0 <= j < i ==> halves@[j] as int == #[trigger] channels[j],
            decreases count - i,
        {
            let v = channel_word(&data, i, width);
            halves.push(v as u16);
            i = i + 1;
        }
        let bytes = u16_memory_bytes(halves.as_slice());
        assert(halves@.map_values(|v: u16| v as int) =~= channels);
        Some(bytes)
    } else {
        let mut words: Vec<u32> = Vec::new();
        let mut i: usize = 0;
        while i < count
            invariant
                count == layout_channels(layout),
                width == layout_channel_bytes(layout),
                channels == clear_channels(data, layout),
                i <= count,
                words@.len() == i,
                forall|j: int| 0 <= j < i ==> words@[j] as int == #[trigger] channels[j],
            decreases count - i,
        {
            let v = channel_word(&data, i, width);
            words.push(v);
            i = i + 1;
        }
        let bytes = u32_memory_bytes(words.as_slice());
        assert(words@.map_values(|v: u32| v as int) =~= channels);
        Some(bytes)
    }
}

/// A pixel of `layout` is its channels times the bytes of one channel.
proof fn lemma_layout_bytes(layout: PixelDataLayout)
    ensures
        layout_channels(layout) * layout_channel_bytes(layout) == layout.spec_pixel_bytes(),
{
    match layout {
        PixelDataLayout::D8x1 => {},
        PixelDataLayout::D8x2 => {},
        PixelDataLayout::D8x4 => {},
        PixelDataLayout::D16x1 => {},
        PixelDataLayout::D16x2 => {},
        PixelDataLayout::D16x4 => {},
        PixelDataLayout::D32x1 => {},
        PixelDataLayout::D32x2 => {},
        PixelDataLayout::D32x4 => {},
    }
}

/// Channel `i` of `data` cut to `n` bytes.
fn channel_word(data: &AbstractPixelData, i: usize, n: usize) -> (r: u32)
    requires
        i < 4,
        n == 1 || n == 2 || n == 4,
    ensures
        r as int == clear_channel(*data, i as int, n as nat),
        n == 1 ==> r < 256,
        n == 2 ==> r < 65536,
{
    match data {
        AbstractPixelData::F32(d) | AbstractPixelData::U32(d) | AbstractPixelData::UNorm32(d) => {
            if n == 1 { d[i] as u8 as u32 } else if n == 2 { d[i] as u16 as u32 } else { d[i] }
        },
        AbstractPixelData::I32(d) | AbstractPixelData::INorm32(d) => {
            if n == 1 { d[i] as u8 as u32 } else if n == 2 { d[i] as u16 as u32 } else { d[i] as u32 }
        },
    }
}

} // verus!
