use rvfm::sdk::chained;
use rvfm::sdk::command_list::{command_u16_bytes, command_u32_bytes, CommandListBuilder, StaticCommandListBuilder};
use rvfm::sdk::devices::{debug_status, Button, DebugError, Hart, Interrupt, INTERRUPT_ENABLE_BASE};
use rvfm::sdk::gpu::{
    mode_bits, ClippingRect, GpuCommandBuilderError, GpuCommandBuilderExt, GpuCommands, ImageDataLayout, PixelDataLayout,
    PixelDataType, ShaderKind, TextureConfig, VideoResolution,
};
use rvfm::sdk::spu::{SpuCommandBuilderError, SpuCommandBuilderExt, SpuCommands, SpuQueue};

#[test]
fn little_endian_bytes() {
    assert_eq!(command_u32_bytes(0x1234_5678), [0x78, 0x56, 0x34, 0x12]);
    assert_eq!(command_u16_bytes(0xABCD), [0xCD, 0xAB]);
}

#[test]
fn gpu_list_with_header() {
    let mut b = StaticCommandListBuilder::<GpuCommands>::new(vec![0xEEu8; 40]);
    assert_eq!(b.clear_texture(3, 7), Ok(()));
    assert_eq!(b.present_texture(1, 0x8000_1000, true), Ok(()));
    assert_eq!(b.set_video_mode(VideoResolution::R256x192, true, false, true), Ok(()));
    let list = b.finish();
    assert_eq!(list.0.len(), 40);
    assert_eq!(&list.0[0..4], &[16, 0, 0, 0]);
    assert_eq!(&list.0[4..8], &[0xEE; 4]);
    assert_eq!(&list.0[8..12], &[0x00, 0x00, 3, 7]);
    assert_eq!(&list.0[12..20], &[0x01, 0x00, 1, 1, 0x00, 0x10, 0x00, 0x80]);
    assert_eq!(&list.0[20..24], &[0x03, 0x00, 0x00, 2 | 8]);
    assert_eq!(&list.0[24..], &[0xEE; 16]);
}

#[test]
fn a_command_needs_a_byte_to_spare() {
    // Eight bytes of room: an eight-byte command does not fit, a four-byte one does.
    let mut b = StaticCommandListBuilder::<GpuCommands>::new(vec![0u8; 16]);
    assert_eq!(b.upload_buffer(1, 0x100), Err(GpuCommandBuilderError::OutOfSpace));
    assert_eq!(b.clear_texture(0, 0), Ok(()));
    assert!(!b.push_command(&[1, 2, 3, 4]));
    assert!(b.push_command(&[9, 9, 9]));
    let list = b.finish();
    assert_eq!(&list.0[0..4], &[7, 0, 0, 0]);
}

#[test]
fn gpu_command_layouts() {
    let mut b = StaticCommandListBuilder::<GpuCommands>::new(vec![0u8; 200]);
    let config = TextureConfig { pixel_layout: PixelDataLayout::D8x4, image_layout: ImageDataLayout::Block8x8, width: 0x0102, height: 0x0304 };
    assert_eq!(b.configure_texture(5, config), Ok(()));
    assert_eq!(b.write_flag(0x1000, 0xFF, false), Ok(()));
    assert_eq!(b.set_constant_sampler_unorm8(2, [1, 2, 3, 4]), Ok(()));
    assert_eq!(b.upload_shader(4, ShaderKind::Fragment, 0x20, 0x4000), Ok(()));
    assert_eq!(
        b.draw_graphics_pipeline(1, 2, 3, 6, ClippingRect { x_low: 0, x_high: 255, y_low: 1, y_high: 191 }),
        Ok(())
    );
    assert_eq!(b.cutout_blit(1, 2, 3, 4, 5, 6, 7, 8, PixelDataType::RgbaUNorm8), Ok(()));
    let list = b.finish();
    let bytes = &list.0;
    let mut at = 8;
    let mut next = |n: usize| {
        let s = bytes[at..at + n].to_vec();
        at += n;
        s
    };
    assert_eq!(next(12), vec![0x05, 0x00, 0x02, 0x01, 0x04, 0x03, 5, 2, 1, 0, 0, 0]);
    assert_eq!(next(10), vec![0x02, 0x00, 0x00, 0x10, 0, 0, 0xFF, 0, 0, 0]);
    assert_eq!(next(20), vec![0x02, 0x00, 2, 0x03, 1, 2, 3, 4, 0, 0, 0, 0, 0, 0, 0, 0, 0, 0, 0, 0]);
    assert_eq!(next(12), vec![0x0C, 0x00, 0x20, 0x00, 0x00, 0x40, 0, 0, 0, 0, 4, 1]);
    assert_eq!(next(20), vec![0x0F, 0x00, 1, 3, 2, 0, 0, 0, 6, 0, 0, 0, 0, 0, 255, 0, 1, 0, 191, 0]);
    assert_eq!(next(20), vec![0x0A, 0x00, 1, 2, 3, 0, 4, 0, 5, 0, 6, 0, 7, 0, 8, 0, 0, 0, 0, 3]);
}

#[test]
fn mode_byte() {
    assert_eq!(mode_bits(VideoResolution::R512x384, false, false, false), 1);
    assert_eq!(mode_bits(VideoResolution::R256x192, true, true, true), 14);
}

#[test]
fn spu_list() {
    let mut b = StaticCommandListBuilder::<SpuCommands>::new(vec![0u8; 25]);
    assert_eq!(b.reset_sample_counter(0x10), Ok(()));
    assert_eq!(b.wait_sample_counter(0x200), Ok(()));
    assert_eq!(b.write_flag(0x8000_0000, true), Ok(()));
    assert_eq!(b.write_flag(0, false), Err(SpuCommandBuilderError::OutOfSpace));
    let list = b.finish();
    assert_eq!(&list.0[0..4], &[16, 0, 0, 0]);
    assert_eq!(&list.0[8..24], &[0x00, 0x10, 0, 0, 0, 0x01, 0x00, 0x02, 0, 0, 0x02, 0x01, 0, 0, 0, 0x80]);
    assert_eq!(SpuQueue::Queue2.submit_register(), 0x8004_0018);
}

#[test]
fn device_registers() {
    assert_eq!(Hart::from_id(2).map(|h| h.to_u32()), Some(2));
    assert!(Hart::from_id(4).is_none());
    assert_eq!(Hart::Hart1.start_register(), (0x8002_0001u32).wrapping_mul(4));
    assert_eq!(Button::Start.register(), 0x8005_0020);
    assert_eq!(Interrupt::from_u32(3).map(|i| i.to_u32()), Some(3));
    assert!(Interrupt::from_u32(4).is_none());
    assert_eq!(Interrupt::VSyncInterrupt.register(INTERRUPT_ENABLE_BASE), (0x8003_0002u32).wrapping_mul(16));
}

#[test]
fn debug_status_values() {
    assert_eq!(debug_status(0), Ok(()));
    assert_eq!(debug_status(1), Err(DebugError::MemoryAccess));
    assert_eq!(debug_status(2), Err(DebugError::BadUtf));
    assert_eq!(debug_status(9), Err(DebugError::Unknown));
}

#[test]
fn constant_sampler_f32_command() {
    let mut b = StaticCommandListBuilder::<GpuCommands>::new(vec![0u8; 40]);
    let color = [1.0f32, 0.5, 0.0, -1.0];
    assert_eq!(b.set_constant_sampler_f32(5, color.map(|c| c.to_bits())), Ok(()));
    let list = b.finish();
    assert_eq!(&list.0[0..4], &[20, 0, 0, 0]);
    assert_eq!(&list.0[8..12], &[0x02, 0x00, 5, 0x07]);
    for (i, c) in color.iter().enumerate() {
        assert_eq!(&list.0[12 + 4 * i..16 + 4 * i], &c.to_ne_bytes());
    }
}

#[test]
fn chained_gpu_list() {
    let b = chained::CommandListBuilder::<GpuCommands>::new(vec![0xEEu8; 48]);
    let b = b.clear_texture(3, 7).unwrap();
    let b = b.direct_blit(1, 2, 3, 4, 5, 6, 7, 0x102).unwrap();
    let b = b.configure_textre(9, &TextureConfig {
        pixel_layout: PixelDataLayout::D8x4,
        image_layout: ImageDataLayout::Block4x4,
        width: 256,
        height: 2,
    }).unwrap();
    let list = b.finish();
    assert_eq!(&list.0[0..4], &[32, 0, 0, 0]);
    assert_eq!(&list.0[4..8], &[0xEE; 4]);
    assert_eq!(&list.0[8..12], &[0x00, 0x00, 3, 7]);
    assert_eq!(&list.0[12..28], &[0x09, 0x00, 1, 2, 3, 0, 4, 0, 5, 0, 6, 0, 7, 0, 0x02, 0x01]);
    assert_eq!(&list.0[28..40], &[0x05, 0x00, 0x00, 0x01, 0x02, 0x00, 9, 2, 2, 0, 0, 0]);
    assert_eq!(&list.0[40..], &[0xEE; 8]);
}

#[test]
fn chained_list_needs_a_byte_to_spare() {
    let b = chained::CommandListBuilder::<GpuCommands>::new(vec![0u8; 16]);
    let b = b.set_video_mode(VideoResolution::R512x384, false, true, false).unwrap();
    // A command that does not fit gives the buffer back as it was.
    let back = b.clear_texture(0, 0).err().unwrap();
    assert_eq!(back.len(), 16);
    assert_eq!(&back[0..11], &[0, 0, 0, 0, 0, 0, 0, 0, 0x03, 0x00, 0x00]);
    assert_eq!(&back[12..], &[0; 4]);
    let b = chained::CommandListBuilder::<GpuCommands>::new(vec![0u8; 16]);
    let b = b.push_command(&[1, 2, 3, 4, 5, 6, 7]).unwrap();
    let list = b.finish();
    assert_eq!(&list.0[0..4], &[7, 0, 0, 0]);
    let short = chained::CommandListBuilder::<SpuCommands>::new(vec![0u8; 5]);
    assert_eq!(&short.finish().0[..], &[0, 0, 0, 0, 0]);
}

#[test]
fn chained_spu_list() {
    let b = chained::CommandListBuilder::<SpuCommands>::new(vec![0u8; 32]);
    let b = b.reset_sample_counter(0x0102_0304).unwrap();
    let b = b.wait_sample_counter(16).unwrap();
    let b = b.write_flag(0x8000_0000, 7, true).unwrap();
    let list = b.finish();
    assert_eq!(&list.0[0..4], &[16, 0, 0, 0]);
    assert_eq!(&list.0[8..13], &[0x00, 0x04, 0x03, 0x02, 0x01]);
    assert_eq!(&list.0[13..18], &[0x01, 16, 0, 0, 0]);
    assert_eq!(&list.0[18..24], &[0x02, 0x01, 0x00, 0x00, 0x00, 0x80]);
}

use rvfm::sdk::devices::{InterHartInterrupt, PendingInterrupt, IHI_CLEAR_BASE, IHI_ENABLE_BASE, IHI_TRIGGER_BASE};

#[test]
fn pending_interrupt_registers() {
    // The base plus the hart's number, shifted left by four, wrapping past the top.
    assert_eq!(Hart::Hart0.pending_register(), 0x80030FC0u32 << 4);
    assert_eq!(Hart::Hart2.pending_register(), 0x80030FC2u32 << 4);
    assert!(matches!(Interrupt::pending_from(0), Some(PendingInterrupt::Peripheral(Interrupt::GpuInterrupt))));
    assert!(matches!(Interrupt::pending_from(3), Some(PendingInterrupt::Peripheral(Interrupt::SpuInterrupt))));
    assert!(matches!(Interrupt::pending_from(0xFF), Some(PendingInterrupt::InterHart)));
    assert!(Interrupt::pending_from(4).is_none());
    assert!(Interrupt::pending_from(0x100).is_none());
}

#[test]
fn inter_hart_interrupt_registers() {
    let ihi = InterHartInterrupt { hart: Hart::Hart3 };
    assert_eq!(ihi.register(IHI_ENABLE_BASE), 0x80030FDC);
    assert_eq!(ihi.register(IHI_CLEAR_BASE), 0x80030FEC);
    assert_eq!(InterHartInterrupt { hart: Hart::Hart1 }.register(IHI_TRIGGER_BASE), 0x80030FF4);
}

#[test]
fn chained_list_keeps_untouched_bytes() {
    let b = chained::CommandListBuilder::<SpuCommands>::new(vec![0xAAu8; 16]);
    let list = b.reset_sample_counter(0x1234_5678).unwrap().finish();
    assert_eq!(&list.0[0..4], &[5, 0, 0, 0]);
    assert_eq!(&list.0[4..8], &[0xAA; 4]);
    assert_eq!(&list.0[8..13], &[0x00, 0x78, 0x56, 0x34, 0x12]);
    assert_eq!(&list.0[13..], &[0xAA; 3]);
}
