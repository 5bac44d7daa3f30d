use rvfm::gpu::slots::{
    clear_texture, configure_texture, cutout_blit, direct_blit, set_constant_sampler, CONSTANT_SAMPLER_SLOTS, TEXTURE_SLOTS,
};
use rvfm::gpu::texture::{clear_pattern, cutout_blit_internal, direct_blit_internal, TextureModule, TEXTURE_MEMORY_BYTES};
use rvfm::gpu::types::{AbstractPixelData, ConstantSampler, ImageDataLayout, PixelDataLayout, PixelDataType, Texture};

fn texture(width: u16, height: u16, pixel_layout: PixelDataLayout, image_layout: ImageDataLayout) -> TextureModule {
    let mut t = TextureModule::new();
    t.config = Texture { width, height, pixel_layout, image_layout };
    t
}

#[test]
fn new_texture_is_empty() {
    let t = TextureModule::new();
    assert_eq!(t.memory.len(), TEXTURE_MEMORY_BYTES);
    assert!(t.memory.iter().all(|b| *b == 0));
    assert_eq!(t.config.width, 0);
    assert_eq!(t.config.pixel_layout, PixelDataLayout::D8x1);
    assert_eq!(t.data_slice().len(), 0);
}

#[test]
fn clear_bytes_cuts_channels() {
    let mut t = texture(3, 2, PixelDataLayout::D8x4, ImageDataLayout::Contiguous);
    t.clear(AbstractPixelData::U32([0x1FF, 0x02, 0x103, 0xAB]));
    for p in 0..6 {
        assert_eq!(&t.memory[p * 4..p * 4 + 4], &[0xFF, 0x02, 0x03, 0xAB]);
    }
    assert_eq!(t.memory[24], 0);
    assert_eq!(t.data_slice(), &t.memory[0..24]);
}

#[test]
fn clear_signed_into_two_channels() {
    let mut t = texture(2, 2, PixelDataLayout::D8x2, ImageDataLayout::Contiguous);
    t.clear(AbstractPixelData::I32([-1, -128, 7, 7]));
    assert_eq!(&t.memory[0..8], &[0xFF, 0x80, 0xFF, 0x80, 0xFF, 0x80, 0xFF, 0x80]);
    assert_eq!(t.memory[8], 0);
}

#[test]
fn clear_wide_channels_in_memory_order() {
    let mut t = texture(2, 1, PixelDataLayout::D16x2, ImageDataLayout::Contiguous);
    t.clear(AbstractPixelData::UNorm32([0x1_2345, 0xBEEF, 0, 0]));
    let a = 0x2345u16.to_ne_bytes();
    let b = 0xBEEFu16.to_ne_bytes();
    let pixel = [a[0], a[1], b[0], b[1]];
    assert_eq!(&t.memory[0..4], &pixel);
    assert_eq!(&t.memory[4..8], &pixel);

    let mut t = texture(1, 1, PixelDataLayout::D32x1, ImageDataLayout::Contiguous);
    t.clear(AbstractPixelData::INorm32([-2, 0, 0, 0]));
    assert_eq!(&t.memory[0..4], &(-2i32).to_ne_bytes());
}

#[test]
fn clear_float_needs_32_bit_channels() {
    let mut t = texture(2, 2, PixelDataLayout::D16x1, ImageDataLayout::Contiguous);
    t.memory[0] = 9;
    t.clear(AbstractPixelData::F32([1.0f32.to_bits(), 0, 0, 0]));
    assert_eq!(t.memory[0], 9);
    assert!(clear_pattern(AbstractPixelData::F32([0; 4]), PixelDataLayout::D8x4).is_none());

    let mut t = texture(1, 2, PixelDataLayout::D32x2, ImageDataLayout::Contiguous);
    t.clear(AbstractPixelData::F32([1.5f32.to_bits(), (-2.0f32).to_bits(), 0, 0]));
    let x = 1.5f32.to_ne_bytes();
    let y = (-2.0f32).to_ne_bytes();
    for p in 0..2 {
        assert_eq!(&t.memory[p * 8..p * 8 + 4], &x);
        assert_eq!(&t.memory[p * 8 + 4..p * 8 + 8], &y);
    }
}

#[test]
fn store_then_fetch() {
    let mut t = texture(8, 8, PixelDataLayout::D8x2, ImageDataLayout::Block4x4);
    t.store(5, 1, &[0x12, 0x34]);
    // block (1, 0) starts at pixel 16; (5, 1) is column 1, row 1 of it
    assert_eq!(&t.memory[(16 + 1 + 4) * 2..(16 + 1 + 4) * 2 + 2], &[0x12, 0x34]);
    assert_eq!(t.fetch(5, 1, 2), vec![0x12, 0x34]);
    assert_eq!(t.fetch(4, 1, 2), vec![0, 0]);
}

#[test]
fn blit_copies_region() {
    let mut src = texture(4, 4, PixelDataLayout::D8x1, ImageDataLayout::Contiguous);
    for i in 0..16 {
        src.memory[i] = i as u8 + 1;
    }
    let mut dst = texture(4, 4, PixelDataLayout::D8x1, ImageDataLayout::Contiguous);
    direct_blit_internal(&src, &mut dst, 1, 1, 1, 0, 2, 2, 2);
    assert_eq!(&dst.memory[0..16], &[0, 0, 0, 0, 0, 0, 0, 0, 6, 7, 0, 0, 10, 11, 0, 0]);
}

#[test]
fn cutout_skips_transparent_pixels() {
    let mut src = texture(2, 1, PixelDataLayout::D8x4, ImageDataLayout::Contiguous);
    src.memory[0..8].copy_from_slice(&[1, 2, 3, 0, 4, 5, 6, 7]);
    let mut dst = texture(2, 1, PixelDataLayout::D8x4, ImageDataLayout::Contiguous);
    dst.memory[0..8].copy_from_slice(&[9; 8]);
    cutout_blit_internal(&src, &mut dst, 0, 0, 0, 0, 2, 1);
    assert_eq!(&dst.memory[0..8], &[9, 9, 9, 9, 4, 5, 6, 7]);
}

#[test]
fn constant_sampler_abstract_colour() {
    let s = ConstantSampler { constant_data: [0x80FF_0001, 5, 6, 7], data_type: PixelDataType::RgbUNorm8 };
    match s.get_abstract() {
        AbstractPixelData::UNorm32(v) => assert_eq!(v, [0x0101_0101, 0, 0xFFFF_FFFF, 0]),
        other => panic!("unexpected {:?}", other),
    }
    let s = ConstantSampler { constant_data: [1, 2, 3, 4], data_type: PixelDataType::RgF32 };
    match s.get_abstract() {
        AbstractPixelData::F32(v) => assert_eq!(v, [1, 2, 0, 0]),
        other => panic!("unexpected {:?}", other),
    }
}

fn slots() -> Vec<TextureModule> {
    (0..TEXTURE_SLOTS).map(|_| TextureModule::new()).collect()
}

#[test]
fn core_slot_commands() {
    let mut samplers = vec![ConstantSampler::new(); CONSTANT_SAMPLER_SLOTS];
    set_constant_sampler(&mut samplers, 3, ConstantSampler { constant_data: [0x0403_0201, 0, 0, 0], data_type: PixelDataType::RgbaUNorm8 });
    set_constant_sampler(&mut samplers, 64, ConstantSampler { constant_data: [9; 4], data_type: PixelDataType::RF32 });
    assert_eq!(samplers[3].constant_data[0], 0x0403_0201);
    assert!(samplers.iter().all(|s| s.constant_data != [9; 4]));

    let mut textures = slots();
    configure_texture(&mut textures, 5, PixelDataLayout::D8x4, ImageDataLayout::Contiguous, 0x1_0002, 3);
    assert_eq!(textures[5].config.width, 2);
    assert_eq!(textures[5].config.height, 3);

    clear_texture(&mut textures, &samplers, 5, 3);
    for p in 0..6 {
        assert_eq!(&textures[5].memory[p * 4..p * 4 + 4], &[1, 2, 3, 4]);
    }
    assert_eq!(textures[5].memory[24], 0);
    clear_texture(&mut textures, &samplers, 64, 3);
    clear_texture(&mut textures, &samplers, 6, 64);
    assert!(textures[6].memory[0..8].iter().all(|b| *b == 0));

    configure_texture(&mut textures, 6, PixelDataLayout::D8x4, ImageDataLayout::Contiguous, 2, 3);
    direct_blit(&mut textures, 5, 6, 1, 1, 0, 0, 1, 2);
    assert_eq!(&textures[6].memory[0..4], &[1, 2, 3, 4]);
    assert_eq!(&textures[6].memory[8..12], &[1, 2, 3, 4]);
    assert_eq!(&textures[6].memory[4..8], &[0, 0, 0, 0]);

    // A blit onto the same texture, or between different layouts, does nothing.
    configure_texture(&mut textures, 7, PixelDataLayout::D8x1, ImageDataLayout::Contiguous, 4, 4);
    direct_blit(&mut textures, 5, 7, 0, 0, 0, 0, 1, 1);
    assert_eq!(textures[7].memory[0], 0);
    direct_blit(&mut textures, 5, 5, 0, 0, 1, 1, 1, 1);
    assert_eq!(&textures[5].memory[12..16], &[1, 2, 3, 4]);

    // Cutout of RGBA unorm8 pixels: a zero alpha byte keeps the destination.
    textures[5].memory[0..8].copy_from_slice(&[5, 5, 5, 0, 6, 6, 6, 6]);
    configure_texture(&mut textures, 8, PixelDataLayout::D8x4, ImageDataLayout::Contiguous, 2, 1);
    textures[8].memory[0..8].copy_from_slice(&[7; 8]);
    cutout_blit(&mut textures, 5, 8, 0, 0, 0, 0, 2, 1, PixelDataType::RgbaUNorm8);
    assert_eq!(&textures[8].memory[0..8], &[7, 7, 7, 7, 6, 6, 6, 6]);

    // Cutout of RGBA f32 pixels: only alphas above zero are copied.
    configure_texture(&mut textures, 9, PixelDataLayout::D32x4, ImageDataLayout::Contiguous, 3, 1);
    configure_texture(&mut textures, 10, PixelDataLayout::D32x4, ImageDataLayout::Contiguous, 3, 1);
    for (p, alpha) in [0.5f32, -1.0, f32::NAN].iter().enumerate() {
        textures[9].memory[p * 16..p * 16 + 12].copy_from_slice(&[p as u8 + 1; 12]);
        textures[9].memory[p * 16 + 12..p * 16 + 16].copy_from_slice(&alpha.to_ne_bytes());
    }
    cutout_blit(&mut textures, 9, 10, 0, 0, 0, 0, 3, 1, PixelDataType::RgbaF32);
    assert_eq!(&textures[10].memory[0..16], &textures[9].memory[0..16].to_vec()[..]);
    assert!(textures[10].memory[16..48].iter().all(|b| *b == 0));
}

#[test]
fn image_bytes_in_place() {
    let mut t = texture(2, 2, PixelDataLayout::D16x1, ImageDataLayout::Contiguous);
    {
        let bytes = t.data_slice_mut();
        assert_eq!(bytes.len(), 8);
        bytes[7] = 0x5A;
    }
    assert_eq!(t.memory[7], 0x5A);
    assert_eq!(t.data_slice()[7], 0x5A);
    assert_eq!(t.memory[8], 0);
}
