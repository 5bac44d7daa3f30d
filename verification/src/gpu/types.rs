use vstd::prelude::*;

verus! {

/// Output resolutions of the video unit.
#[derive(Copy, Clone, Debug, PartialEq, Eq)]
pub enum VideoResolution {
    V512x384,
    V256x192,
}

impl VideoResolution {
    pub open spec fn spec_w_h(self) -> (u32, u32) {
        match self {
            VideoResolution::V256x192 => (256u32, 192u32),
            VideoResolution::V512x384 => (512u32, 384u32),
        }
    }

    /// Width and height in pixels.
    pub fn as_w_h(&self) -> (r: (u32, u32))
        ensures
            r == self.spec_w_h(),
    {
        match self {
            VideoResolution::V256x192 => (256, 192),
            VideoResolution::V512x384 => (512, 384),
        }
    }

    /// Number of pixels on screen.
    pub fn pixel_count(&self) -> (r: usize)
        ensures
            r == self.spec_w_h().0 * self.spec_w_h().1,
    {
        let (w, h) = self.as_w_h();
        w as usize * h as usize
    }
}


/// Video configuration: resolution and the enabled layers.
#[derive(Copy, Clone, Debug, PartialEq, Eq)]
pub struct VideoMode {
    pub resolution: VideoResolution,
    pub backgrounds: bool,
    pub sprites: bool,
    pub triangles: bool,
}

/// Order in which the pixels of an image are stored.
#[derive(Copy, Clone, Debug, PartialEq, Eq)]
pub enum ImageDataLayout {
    Contiguous,
    Block4x4,
    Block8x8,
}

/// Linear index of pixel (x, y) in an image `w` pixels wide.
pub open spec fn image_index(layout: ImageDataLayout, x: int, y: int, w: int) -> int {
    match layout {
        ImageDataLayout::Contiguous => x + y * w,
        ImageDataLayout::Block4x4 => ((x / 4) + (y / 4) * (w / 4)) * 16 + (x % 4) + (y % 4) * 4,
        ImageDataLayout::Block8x8 => ((x / 8) + (y / 8) * (w / 8)) * 64 + (x % 8) + (y % 8) * 8,
    }
}

impl ImageDataLayout {
    pub open spec fn spec_from_u8(val: u8) -> Option<ImageDataLayout> {
        if val == 0 {
            Some(ImageDataLayout::Contiguous)
        } else if val == 1 {
            Some(ImageDataLayout::Block8x8)
        } else if val == 2 {
            Some(ImageDataLayout::Block4x4)
        } else {
            None
        }
    }

    /// Decodes the layout number used in GPU commands.
    pub fn from_u8(val: u8) -> (r: Option<Self>)
        ensures
            r == Self::spec_from_u8(val),
    {
        match val {
            0 => Some(ImageDataLayout::Contiguous),
            1 => Some(ImageDataLayout::Block8x8),
            2 => Some(ImageDataLayout::Block4x4),
            _ => None,
        }
    }

    /// Linear index of pixel (x, y) in an image `w` pixels wide.
    pub fn index(&self, x: u32, y: u32, w: u32) -> (r: u32)
        requires
            0 <= image_index(*self, x as int, y as int, w as int) <= u32::MAX,
        ensures
            r == image_index(*self, x as int, y as int, w as int),
    {
        match self {
            ImageDataLayout::Contiguous => x + (y * w),
            ImageDataLayout::Block4x4 => {
                assert((x >> 2u32) == x / 4 && (y >> 2u32) == y / 4 && (w >> 2u32) == w / 4
                    && (x & 3) == x % 4 && (y & 3) == y % 4 && ((y & 3) << 2u32) == (y & 3) * 4) by (bit_vector);
                let b_x = x & 3;
                let b_y = y & 3;
                assert(0 <= (x / 4) + (y / 4) * (w / 4) <= u32::MAX / 16) by (nonlinear_arith)
                    requires
                        0 <= ((x / 4) + (y / 4) * (w / 4)) * 16 + (x % 4) + (y % 4) * 4 <= u32::MAX,
                        0 <= x % 4, 0 <= y % 4, 0 <= y / 4, 0 <= w / 4;
                let block = (x >> 2) + (y >> 2) * (w >> 2);
                block * 16 + b_x + (b_y << 2)
            },
            ImageDataLayout::Block8x8 => {
                assert((x >> 3u32) == x / 8 && (y >> 3u32) == y / 8 && (w >> 3u32) == w / 8
                    && (x & 7) == x % 8 && (y & 7) == y % 8 && ((y & 7) << 3u32) == (y & 7) * 8) by (bit_vector);
                let b_x = x & 7;
                let b_y = y & 7;
                assert(0 <= (x / 8) + (y / 8) * (w / 8) <= u32::MAX / 64) by (nonlinear_arith)
                    requires
                        0 <= ((x / 8) + (y / 8) * (w / 8)) * 64 + (x % 8) + (y % 8) * 8 <= u32::MAX,
                        0 <= x % 8, 0 <= y % 8, 0 <= y / 8, 0 <= w / 8;
                let block = (x >> 3) + (y >> 3) * (w >> 3);
                block * 64 + b_x + (b_y << 3)
            },
        }
    }
}


/// Size and channel count of one pixel as stored in memory.
#[derive(Copy, Clone, Debug, PartialEq, Eq, Structural)]
pub enum PixelDataLayout {
    D8x1,
    D8x2,
    D8x4,
    D16x1,
    D16x2,
    D16x4,
    D32x1,
    D32x2,
    D32x4,
}

impl PixelDataLayout {
    pub open spec fn spec_from_u8(x: u8) -> Option<PixelDataLayout> {
        if x == 0 {
            Some(PixelDataLayout::D8x1)
        } else if x == 1 {
            Some(PixelDataLayout::D8x2)
        } else if x == 2 {
            Some(PixelDataLayout::D8x4)
        } else if x == 3 {
            Some(PixelDataLayout::D16x1)
        } else if x == 4 {
            Some(PixelDataLayout::D16x2)
        } else if x == 5 {
            Some(PixelDataLayout::D16x4)
        } else if x == 6 {
            Some(PixelDataLayout::D32x1)
        } else if x == 7 {
            Some(PixelDataLayout::D32x2)
        } else if x == 8 {
            Some(PixelDataLayout::D32x4)
        } else {
            None
        }
    }

    /// Decodes the pixel layout number used in GPU commands.
    pub fn from_u8(x: u8) -> (r: Option<Self>)
        ensures
            r == Self::spec_from_u8(x),
    {
        match x {
            0 => Some(PixelDataLayout::D8x1),
            1 => Some(PixelDataLayout::D8x2),
            2 => Some(PixelDataLayout::D8x4),
            3 => Some(PixelDataLayout::D16x1),
            4 => Some(PixelDataLayout::D16x2),
            5 => Some(PixelDataLayout::D16x4),
            6 => Some(PixelDataLayout::D32x1),
            7 => Some(PixelDataLayout::D32x2),
            8 => Some(PixelDataLayout::D32x4),
            _ => None,
        }
    }

    pub open spec fn spec_pixel_bytes(self) -> usize {
        match self {
            PixelDataLayout::D8x1 => 1usize,
            PixelDataLayout::D8x2 => 2usize,
            PixelDataLayout::D8x4 => 4usize,
            PixelDataLayout::D16x1 => 2usize,
            PixelDataLayout::D16x2 => 4usize,
            PixelDataLayout::D16x4 => 8usize,
            PixelDataLayout::D32x1 => 4usize,
            PixelDataLayout::D32x2 => 8usize,
            PixelDataLayout::D32x4 => 16usize,
        }
    }

    /// Number of bytes one pixel takes.
    pub fn pixel_bytes(&self) -> (r: usize)
        ensures
            r == self.spec_pixel_bytes(),
    {
        match self {
            PixelDataLayout::D8x1 => 1,
            PixelDataLayout::D8x2 => 2,
            PixelDataLayout::D8x4 => 4,
            PixelDataLayout::D16x1 => 2,
            PixelDataLayout::D16x2 => 4,
            PixelDataLayout::D16x4 => 8,
            PixelDataLayout::D32x1 => 4,
            PixelDataLayout::D32x2 => 8,
            PixelDataLayout::D32x4 => 16,
        }
    }
}

/// Interpretation of pixel channels.
#[derive(Copy, Clone, Debug, PartialEq, Eq, Structural)]
pub enum PixelDataType {
    RUNorm8,
    RgUNorm8,
    RgbUNorm8,
    RgbaUNorm8,
    RF32,
    RgF32,
    RgbF32,
    RgbaF32,
}

impl PixelDataType {
    pub open spec fn spec_from_u8(x: u8) -> Option<PixelDataType> {
        if x == 0 {
            Some(PixelDataType::RUNorm8)
        } else if x == 1 {
            Some(PixelDataType::RgUNorm8)
        } else if x == 2 {
            Some(PixelDataType::RgbUNorm8)
        } else if x == 3 {
            Some(PixelDataType::RgbaUNorm8)
        } else if x == 4 {
            Some(PixelDataType::RF32)
        } else if x == 5 {
            Some(PixelDataType::RgF32)
        } else if x == 6 {
            Some(PixelDataType::RgbF32)
        } else if x == 7 {
            Some(PixelDataType::RgbaF32)
        } else {
            None
        }
    }

    /// Decodes the pixel type number used in GPU commands.
    pub fn from_u8(x: u8) -> (r: Option<Self>)
        ensures
            r == Self::spec_from_u8(x),
    {
        match x {
            0 => Some(PixelDataType::RUNorm8),
            1 => Some(PixelDataType::RgUNorm8),
            2 => Some(PixelDataType::RgbUNorm8),
            3 => Some(PixelDataType::RgbaUNorm8),
            4 => Some(PixelDataType::RF32),
            5 => Some(PixelDataType::RgF32),
            6 => Some(PixelDataType::RgbF32),
            7 => Some(PixelDataType::RgbaF32),
            _ => None,
        }
    }

    pub open spec fn spec_component_count(self) -> u8 {
        match self {
            PixelDataType::RUNorm8 | PixelDataType::RF32 => 1u8,
            PixelDataType::RgUNorm8 | PixelDataType::RgF32 => 2u8,
            PixelDataType::RgbUNorm8 | PixelDataType::RgbF32 => 3u8,
            PixelDataType::RgbaUNorm8 | PixelDataType::RgbaF32 => 4u8,
        }
    }

    /// Number of channels.
    pub fn component_count(&self) -> (r: u8)
        ensures
            r == self.spec_component_count(),
    {
        match self {
            PixelDataType::RUNorm8 | PixelDataType::RF32 => 1,
            PixelDataType::RgUNorm8 | PixelDataType::RgF32 => 2,
            PixelDataType::RgbUNorm8 | PixelDataType::RgbF32 => 3,
            PixelDataType::RgbaUNorm8 | PixelDataType::RgbaF32 => 4,
        }
    }
}

/// How the colour channels of a source and destination pixel combine.
#[derive(Copy, Clone, Debug, PartialEq, Eq)]
pub enum ColorBlendOp {
    /// 0
    Zero,
    /// src
    Src,
    /// dst
    Dst,
    /// dst + src
    Add,
    /// (dst + src) / 2
    Avg,
    /// dst - src
    Sub,
    /// src - dst
    RSub,
    /// src * src.a + dst * (1 - src.a)
    Blend,
    /// src * (1 - src.a) + dst * src.a
    RBlend,
}

impl ColorBlendOp {
    pub open spec fn spec_from_u8(x: u8) -> Option<ColorBlendOp> {
        if x == 0 {
            Some(ColorBlendOp::Zero)
        } else if x == 1 {
            Some(ColorBlendOp::Src)
        } else if x == 2 {
            Some(ColorBlendOp::Dst)
        } else if x == 3 {
            Some(ColorBlendOp::Add)
        } else if x == 4 {
            Some(ColorBlendOp::Avg)
        } else if x == 5 {
            Some(ColorBlendOp::Sub)
        } else if x == 6 {
            Some(ColorBlendOp::RSub)
        } else if x == 7 {
            Some(ColorBlendOp::Blend)
        } else if x == 8 {
            Some(ColorBlendOp::RBlend)
        } else {
            None
        }
    }

    /// Decodes the colour blend number used in GPU commands.
    pub fn from_u8(x: u8) -> (r: Option<Self>)
        ensures
            r == Self::spec_from_u8(x),
    {
        match x {
            0 => Some(ColorBlendOp::Zero),
            1 => Some(ColorBlendOp::Src),
            2 => Some(ColorBlendOp::Dst),
            3 => Some(ColorBlendOp::Add),
            4 => Some(ColorBlendOp::Avg),
            5 => Some(ColorBlendOp::Sub),
            6 => Some(ColorBlendOp::RSub),
            7 => Some(ColorBlendOp::Blend),
            8 => Some(ColorBlendOp::RBlend),
            _ => None,
        }
    }
}

/// How the alpha channels of a source and destination pixel combine.
#[derive(Copy, Clone, Debug, PartialEq, Eq)]
pub enum AlphaBlendOp {
    /// 0
    Zero,
    /// 1
    One,
    /// dst
    Dst,
    /// src
    Src,
    /// (dst + src) / 2
    Avg,
    /// dst + src
    Add,
    /// dst - src
    Sub,
    /// src - dst
    RSub,
    /// dst + (1 - dst) * src
    Blend,
}

impl AlphaBlendOp {
    pub open spec fn spec_from_u8(x: u8) -> Option<AlphaBlendOp> {
        if x == 0 {
            Some(AlphaBlendOp::Zero)
        } else if x == 1 {
            Some(AlphaBlendOp::One)
        } else if x == 2 {
            Some(AlphaBlendOp::Dst)
        } else if x == 3 {
            Some(AlphaBlendOp::Src)
        } else if x == 4 {
            Some(AlphaBlendOp::Avg)
        } else if x == 5 {
            Some(AlphaBlendOp::Add)
        } else if x == 6 {
            Some(AlphaBlendOp::Sub)
        } else if x == 7 {
            Some(AlphaBlendOp::RSub)
        } else if x == 8 {
            Some(AlphaBlendOp::Blend)
        } else {
            None
        }
    }

    /// Decodes the alpha blend number used in GPU commands.
    pub fn from_u8(x: u8) -> (r: Option<Self>)
        ensures
            r == Self::spec_from_u8(x),
    {
        match x {
            0 => Some(AlphaBlendOp::Zero),
            1 => Some(AlphaBlendOp::One),
            2 => Some(AlphaBlendOp::Dst),
            3 => Some(AlphaBlendOp::Src),
            4 => Some(AlphaBlendOp::Avg),
            5 => Some(AlphaBlendOp::Add),
            6 => Some(AlphaBlendOp::Sub),
            7 => Some(AlphaBlendOp::RSub),
            8 => Some(AlphaBlendOp::Blend),
            _ => None,
        }
    }
}

/// Configuration of a texture slot.
#[derive(Copy, Clone, Debug, PartialEq, Eq)]
pub struct Texture {
    pub width: u16,
    pub height: u16,
    pub pixel_layout: PixelDataLayout,
    pub image_layout: ImageDataLayout,
}

/// A rectangle on screen.
#[derive(Copy, Clone, Debug, PartialEq, Eq)]
pub struct Rect {
    pub position: I32x2,
    pub size: I32x2,
}

/// A pair of signed coordinates.
#[derive(Copy, Clone, Debug, PartialEq, Eq)]
pub struct I32x2 {
    pub x: i32,
    pub y: i32,
}

/// A background layer.
#[derive(Copy, Clone, Debug, PartialEq, Eq)]
pub struct Background {
    pub enabled: bool,
    pub sampler: Sampler,
    pub shape: Rect,
}

/// Where a layer takes its colour from.
#[derive(Copy, Clone, Debug, PartialEq, Eq)]
pub enum Sampler {
    Constant(u8),
    Texture(u8),
}

/// A constant colour, stored as raw channel words.
#[derive(Copy, Clone, Debug, PartialEq, Eq)]
pub struct ConstantSampler {
    pub constant_data: [u32; 4],
    pub data_type: PixelDataType,
}

impl ConstantSampler {
    /// A zeroed sampler of type RGBA unorm8.
    pub fn new() -> (r: Self)
        ensures
            r.constant_data@ == seq![0u32, 0u32, 0u32, 0u32],
            r.data_type == PixelDataType::RgbaUNorm8,
    {
        let r = ConstantSampler { constant_data: [0u32; 4], data_type: PixelDataType::RgbaUNorm8 };
        assert(r.constant_data@ =~= seq![0u32, 0u32, 0u32, 0u32]);
        r
    }
}

/// Channel `k` (0 to 3) of a word of four unorm8 channels, widened to unorm32.
pub open spec fn unorm8_channel(word: u32, k: int) -> u32 {
    (((word >> (8 * k) as u32) as u8) as u32 * 0x0101_0101) as u32
}

/// `r` is the colour of sampler `s` in the form it takes before it is stored (see
/// `ConstantSampler::get_abstract`).
pub open spec fn is_abstract_of(s: ConstantSampler, r: AbstractPixelData) -> bool {
    let d = s.constant_data@;
    match s.data_type {
        PixelDataType::RUNorm8 => r matches AbstractPixelData::UNorm32(v)
            && v@ == seq![unorm8_channel(d[0], 0), 0u32, 0u32, 0u32],
        PixelDataType::RgUNorm8 => r matches AbstractPixelData::UNorm32(v)
            && v@ == seq![unorm8_channel(d[0], 0), unorm8_channel(d[0], 1), 0u32, 0u32],
        PixelDataType::RgbUNorm8 => r matches AbstractPixelData::UNorm32(v)
            && v@ == seq![unorm8_channel(d[0], 0), unorm8_channel(d[0], 1), unorm8_channel(d[0], 2), 0u32],
        PixelDataType::RgbaUNorm8 => r matches AbstractPixelData::UNorm32(v)
            && v@ == seq![unorm8_channel(d[0], 0), unorm8_channel(d[0], 1), unorm8_channel(d[0], 2), unorm8_channel(d[0], 3)],
        PixelDataType::RF32 => r matches AbstractPixelData::F32(v) && v@ == seq![d[0], 0u32, 0u32, 0u32],
        PixelDataType::RgF32 => r matches AbstractPixelData::F32(v) && v@ == seq![d[0], d[1], 0u32, 0u32],
        PixelDataType::RgbF32 => r matches AbstractPixelData::F32(v) && v@ == seq![d[0], d[1], d[2], 0u32],
        PixelDataType::RgbaF32 => r matches AbstractPixelData::F32(v) && v@ == seq![d[0], d[1], d[2], d[3]],
    }
}

impl ConstantSampler {
    /// The sampler's colour in the form it takes before it is stored: unorm8 channels of the
    /// first word widened to unorm32, or the words themselves as `f32` bit patterns. Channels
    /// that the type lacks are 0.
    pub fn get_abstract(&self) -> (r: AbstractPixelData)
        ensures
            is_abstract_of(*self, r),
    {
        let d = self.constant_data;
        let c0 = d[0];
        let r = match self.data_type {
            PixelDataType::RUNorm8 => AbstractPixelData::UNorm32([
                expand_unorm8_to_32((c0 >> 0) as u8), 0, 0, 0,
            ]),
            PixelDataType::RgUNorm8 => AbstractPixelData::UNorm32([
                expand_unorm8_to_32((c0 >> 0) as u8), expand_unorm8_to_32((c0 >> 8) as u8), 0, 0,
            ]),
            PixelDataType::RgbUNorm8 => AbstractPixelData::UNorm32([
                expand_unorm8_to_32((c0 >> 0) as u8), expand_unorm8_to_32((c0 >> 8) as u8),
                expand_unorm8_to_32((c0 >> 16) as u8), 0,
            ]),
            PixelDataType::RgbaUNorm8 => AbstractPixelData::UNorm32([
                expand_unorm8_to_32((c0 >> 0) as u8), expand_unorm8_to_32((c0 >> 8) as u8),
                expand_unorm8_to_32((c0 >> 16) as u8), expand_unorm8_to_32((c0 >> 24) as u8),
            ]),
            PixelDataType::RF32 => AbstractPixelData::F32([d[0], 0, 0, 0]),
            PixelDataType::RgF32 => AbstractPixelData::F32([d[0], d[1], 0, 0]),
            PixelDataType::RgbF32 => AbstractPixelData::F32([d[0], d[1], d[2], 0]),
            PixelDataType::RgbaF32 => AbstractPixelData::F32([d[0], d[1], d[2], d[3]]),
        };
        match r {
            AbstractPixelData::UNorm32(v) => {
                assert(v@ =~= seq![v[0], v[1], v[2], v[3]]);
            },
            AbstractPixelData::F32(v) => {
                assert(v@ =~= seq![v[0], v[1], v[2], v[3]]);
            },
            _ => {},
        }
        r
    }
}

/// A clear colour in the form its channels take before they are stored; the `F32` channels
/// are the bit patterns of their `f32` values.
#[derive(Copy, Clone, Debug)]
pub enum AbstractPixelData {
    F32([u32; 4]),
    U32([u32; 4]),
    I32([i32; 4]),
    INorm32([i32; 4]),
    UNorm32([u32; 4]),
}

/// Repeats the byte `val` into all four bytes of a word.
pub fn expand_unorm8_to_32(val: u8) -> (r: u32)
    ensures
        r == val as u32 * 0x0101_0101,
{
    let v = val as u32;
    assert(v << 0u32 | v << 8u32 | v << 16u32 | v << 24u32 == v * 0x0101_0101) by (bit_vector)
        requires v < 256;
    v << 0 | v << 8 | v << 16 | v << 24
}

/// What happens to texture coordinates outside the sampled region.
#[derive(Copy, Clone, Debug, PartialEq, Eq)]
pub enum OverflowMode {
    Repeate,
    Mirror,
    Clamp,
    Zero,
}

/// Samples a region of a texture.
#[derive(Copy, Clone, Debug, PartialEq, Eq)]
pub struct TextureSampler {
    pub texture: u8,
    pub data_type: PixelDataType,
    pub sample_region: Rect,
    pub overflow_mode: OverflowMode,
}

/// A rectangular copy between two textures.
pub struct Blit {
    pub w: u32,
    pub h: u32,
    pub src_x: u32,
    pub src_y: u32,
    pub dst_x: u32,
    pub dst_y: u32,
}


/// The side of a layout's square blocks: 1 for a contiguous image.
pub open spec fn layout_block_side(layout: ImageDataLayout) -> int {
    match layout {
        ImageDataLayout::Contiguous => 1,
        ImageDataLayout::Block4x4 => 4,
        ImageDataLayout::Block8x8 => 8,
    }
}

/// The index of (x, y) in an image `w` wide stored in square blocks of side `b`, the blocks
/// row by row and the pixels of a block row by row.
pub open spec fn blocked_index(b: int, x: int, y: int, w: int) -> int {
    ((x / b) + (y / b) * (w / b)) * (b * b) + (x % b) + (y % b) * b
}

/// The pixel at index `i` of such an image.
pub open spec fn blocked_pixel(b: int, i: int, w: int) -> (int, int) {
    let block = i / (b * b);
    let within = i % (b * b);
    ((block % (w / b)) * b + within % b, (block / (w / b)) * b + within / b)
}

proof fn lemma_layout_is_blocked(layout: ImageDataLayout, x: int, y: int, w: int)
    requires
        0 <= x,
        0 <= y,
        0 <= w,
    ensures
        image_index(layout, x, y, w) == blocked_index(layout_block_side(layout), x, y, w),
{
    match layout {
        ImageDataLayout::Contiguous => {
            lemma_split(x, 1, x, 0);
            lemma_split(y, 1, y, 0);
            lemma_split(w, 1, w, 0);
            assert((x + y * w) * (1int * 1int) == x + y * w);
        },
        ImageDataLayout::Block4x4 => {
            assert(4int * 4int == 16);
        },
        ImageDataLayout::Block8x8 => {
            assert(8int * 8int == 64);
        },
    }
}

/// `q * d + r` divided by `d` gives `q` and leaves `r`.
proof fn lemma_split(n: int, d: int, q: int, r: int)
    requires
        0 < d,
        0 <= r < d,
        n == q * d + r,
    ensures
        n / d == q,
        n % d == r,
{
    vstd::arithmetic::div_mod::lemma_fundamental_div_mod_converse(n, d, q, r);
}

/// `n` is `d` times its quotient plus its remainder, which lies in `0..d`.
proof fn lemma_parts(n: int, d: int)
    requires
        0 < d,
        0 <= n,
    ensures
        n == (n / d) * d + n % d,
        0 <= n % d < d,
        0 <= n / d,
{
    vstd::arithmetic::div_mod::lemma_fundamental_div_mod(n, d);
    vstd::arithmetic::div_mod::lemma_mod_pos_bound(n, d);
    vstd::arithmetic::div_mod::lemma_div_pos_is_pos(n, d);
    assert(d * (n / d) == (n / d) * d) by (nonlinear_arith);
}

/// Each pixel of a blocked image `w` by `h` (both multiples of `b`) has an index below
/// `w * h`, from which `blocked_pixel` gives the pixel back.
proof fn lemma_blocked_index_inverse(b: int, x: int, y: int, w: int, h: int)
    requires
        0 < b,
        0 <= x < w,
        0 <= y < h,
        w % b == 0,
        h % b == 0,
    ensures
        0 <= blocked_index(b, x, y, w) < w * h,
        blocked_pixel(b, blocked_index(b, x, y, w), w) == (x, y),
{
    let ww = w / b;
    let hh = h / b;
    lemma_parts(w, b);
    lemma_parts(h, b);
    lemma_parts(x, b);
    lemma_parts(y, b);
    let qx = x / b;
    let rx = x % b;
    let qy = y / b;
    let ry = y % b;
    assert(qx < ww && qy < hh && ww > 0) by (nonlinear_arith)
        requires x == qx * b + rx, y == qy * b + ry, w == ww * b, h == hh * b, x < w, y < h, 0 <= rx, 0 <= ry,
            0 < b, 0 <= qx, 0 <= qy, 0 <= x;
    let within = rx + ry * b;
    let block = qx + qy * ww;
    assert(0 <= within < b * b) by (nonlinear_arith) requires 0 <= rx < b, 0 <= ry < b, within == rx + ry * b;
    assert(0 <= block * (b * b) + within < w * h) by (nonlinear_arith)
        requires 0 <= qx < ww, 0 <= qy < hh, block == qx + qy * ww, 0 <= within < b * b, w == ww * b, h == hh * b, 0 < b;
    lemma_split(block * (b * b) + within, b * b, block, within);
    lemma_split(within, b, ry, rx);
    lemma_split(block, ww, qy, qx);
}

/// Every index below `w * h` of a blocked image `w` by `h` (both multiples of `b`) is that of
/// the pixel `blocked_pixel` gives, which lies in the image.
proof fn lemma_blocked_pixel_inverse(b: int, i: int, w: int, h: int)
    requires
        0 < b,
        0 < w,
        0 < h,
        w % b == 0,
        h % b == 0,
        0 <= i < w * h,
    ensures
        0 <= blocked_pixel(b, i, w).0 < w,
        0 <= blocked_pixel(b, i, w).1 < h,
        blocked_index(b, blocked_pixel(b, i, w).0, blocked_pixel(b, i, w).1, w) == i,
{
    let ww = w / b;
    let hh = h / b;
    lemma_parts(w, b);
    lemma_parts(h, b);
    assert(ww > 0 && b * b > 0) by (nonlinear_arith) requires w == ww * b, 0 < w, 0 < b;
    lemma_parts(i, b * b);
    let block = i / (b * b);
    let within = i % (b * b);
    assert(block < ww * hh) by (nonlinear_arith)
        requires i == block * (b * b) + within, 0 <= within, i < w * h, w == ww * b, h == hh * b, 0 < b;
    lemma_parts(block, ww);
    lemma_parts(within, b);
    let bx = block % ww;
    let by_ = block / ww;
    let wx = within % b;
    let wy = within / b;
    assert(by_ < hh) by (nonlinear_arith) requires block == by_ * ww + bx, 0 <= bx, block < ww * hh, 0 < ww;
    assert(wy < b) by (nonlinear_arith) requires within == wy * b + wx, 0 <= wx, within < b * b, 0 < b;
    let x = bx * b + wx;
    let y = by_ * b + wy;
    assert(0 <= x < w && 0 <= y < h) by (nonlinear_arith)
        requires x == bx * b + wx, y == by_ * b + wy, 0 <= bx < ww, 0 <= by_ < hh, 0 <= wx < b, 0 <= wy < b,
            w == ww * b, h == hh * b;
    lemma_split(x, b, bx, wx);
    lemma_split(y, b, by_, wy);
    assert((bx + by_ * ww) * (b * b) + wx + wy * b == i) by (nonlinear_arith)
        requires block == by_ * ww + bx, within == wy * b + wx, i == block * (b * b) + within;
}

/// Each image layout numbers the pixels of an image `w` by `h` (both multiples of the
/// layout's block side) one to one onto `0..w * h`: distinct pixels get distinct indices,
/// all below `w * h`.
pub proof fn law_layout_index_one_to_one(layout: ImageDataLayout, w: int, h: int, x1: int, y1: int, x2: int, y2: int)
    requires
        w % layout_block_side(layout) == 0,
        h % layout_block_side(layout) == 0,
        0 <= x1 < w,
        0 <= y1 < h,
        0 <= x2 < w,
        0 <= y2 < h,
        image_index(layout, x1, y1, w) == image_index(layout, x2, y2, w),
    ensures
        x1 == x2 && y1 == y2,
        0 <= image_index(layout, x1, y1, w) < w * h,
{
    let b = layout_block_side(layout);
    lemma_layout_is_blocked(layout, x1, y1, w);
    lemma_layout_is_blocked(layout, x2, y2, w);
    lemma_blocked_index_inverse(b, x1, y1, w, h);
    lemma_blocked_index_inverse(b, x2, y2, w, h);
}

/// Each index below `w * h` is that of a pixel of the image (see
/// `law_layout_index_one_to_one`).
pub proof fn law_layout_index_onto(layout: ImageDataLayout, w: int, h: int, i: int)
    requires
        0 < w,
        0 < h,
        w % layout_block_side(layout) == 0,
        h % layout_block_side(layout) == 0,
        0 <= i < w * h,
    ensures
        exists|x: int, y: int| 0 <= x < w && 0 <= y < h && #[trigger] image_index(layout, x, y, w) == i,
{
    let b = layout_block_side(layout);
    lemma_blocked_pixel_inverse(b, i, w, h);
    let (x, y) = blocked_pixel(b, i, w);
    lemma_layout_is_blocked(layout, x, y, w);
}

} // verus!
