use rvfm::gpu::gpu_core::{Command, Core, CoreAction};
use rvfm::gpu::shader::ShaderType;
use rvfm::gpu::types::{ConstantSampler, ImageDataLayout, PixelDataLayout, PixelDataType, VideoMode, VideoResolution};

#[test]
fn core_starts_small_and_empty() {
    let core = Core::new();
    assert_eq!(core.video_mode, VideoMode { resolution: VideoResolution::V256x192, backgrounds: false, sprites: false, triangles: false });
    assert_eq!(core.constant_samplers.len(), 64);
    assert_eq!(core.textures.len(), 64);
    assert!(core.constant_samplers.iter().all(|s| s.constant_data == [0; 4] && s.data_type == PixelDataType::RgbaUNorm8));
    assert!(core.textures.iter().all(|t| t.config.width == 0 && t.memory[..16].iter().all(|b| *b == 0)));
}

#[test]
fn core_runs_texture_commands() {
    let mut core = Core::new();
    let mode = VideoMode { resolution: VideoResolution::V512x384, backgrounds: true, sprites: false, triangles: true };
    assert_eq!(core.execute_command(Command::SetVideoMode(mode)), CoreAction::SetResolution(VideoResolution::V512x384));
    assert_eq!(core.video_mode, mode);

    let colour = ConstantSampler { constant_data: [0x0403_0201, 0, 0, 0], data_type: PixelDataType::RgbaUNorm8 };
    assert_eq!(core.execute_command(Command::SetConstantSampler { constant_sampler: 3, set: colour }), CoreAction::Done);
    assert_eq!(core.constant_samplers[3], colour);
    let configure = Command::ConfigureTexture {
        texture: 5, pixel_layout: PixelDataLayout::D8x4, image_layout: ImageDataLayout::Contiguous, width: 2, height: 1,
    };
    assert_eq!(core.execute_command(configure), CoreAction::Done);
    assert_eq!(core.execute_command(Command::ClearTexture { texture: 5, constant_sampler: 3 }), CoreAction::Done);
    assert_eq!(&core.textures[5].memory[0..8], &[1, 2, 3, 4, 1, 2, 3, 4]);

    let configure = Command::ConfigureTexture {
        texture: 6, pixel_layout: PixelDataLayout::D8x4, image_layout: ImageDataLayout::Contiguous, width: 2, height: 1,
    };
    core.execute_command(configure);
    let blit = Command::DirectBlit { src_tex: 5, dst_tex: 6, src_x: 1, src_y: 0, dst_x: 0, dst_y: 0, width: 1, height: 1 };
    assert_eq!(core.execute_command(blit), CoreAction::Done);
    assert_eq!(&core.textures[6].memory[0..8], &[1, 2, 3, 4, 0, 0, 0, 0]);
}

#[test]
fn core_hands_outside_work_back() {
    let mut core = Core::new();
    let present = Command::PresentTexture { texture: 2, completion_addr: 0x100, interrupt: true };
    assert_eq!(core.execute_command(present), CoreAction::Present { texture: 2, completion_addr: 0x100, interrupt: true });
    let present = Command::PresentTexture { texture: 64, completion_addr: 0x100, interrupt: true };
    assert_eq!(core.execute_command(present), CoreAction::Done);
    let flag = Command::WriteFlag { address: 0x2000, value: 7, irq: false };
    assert_eq!(core.execute_command(flag), CoreAction::WriteFlag { address: 0x2000, value: 7, interrupt: false });
    let upload = Command::UploadTexture { texture: 1, src_image_layout: ImageDataLayout::Contiguous, src_addr: 0x4000 };
    assert_eq!(core.execute_command(upload), CoreAction::Outside(upload));
    let upload = Command::UploadTexture { texture: 200, src_image_layout: ImageDataLayout::Contiguous, src_addr: 0x4000 };
    assert_eq!(core.execute_command(upload), CoreAction::Done);
    let shader = Command::UploadShader { size: 16, index: 1, kind: ShaderType::Vertex, address: 0x8000 };
    assert_eq!(core.execute_command(shader), CoreAction::Outside(shader));
    // A sampler slot out of range is ignored.
    let far = ConstantSampler { constant_data: [9; 4], data_type: PixelDataType::RF32 };
    core.execute_command(Command::SetConstantSampler { constant_sampler: 64, set: far });
    assert!(core.constant_samplers.iter().all(|s| s.constant_data == [0; 4]));
}

#[test]
fn core_checks_commands_before_running() {
    let mut core = Core::new();
    let configure = |texture, pixel_layout, width, height| Command::ConfigureTexture {
        texture, pixel_layout, image_layout: ImageDataLayout::Contiguous, width, height,
    };
    for (t, layout, w, h) in [(1, PixelDataLayout::D8x4, 4, 4), (2, PixelDataLayout::D8x4, 4, 4), (3, PixelDataLayout::D32x4, 0xFFFF, 0xFFFF), (4, PixelDataLayout::D32x4, 0xFFFF, 0xFFFF)] {
        assert!(core.can_run(configure(t, layout, w, h)));
        core.execute_command(configure(t, layout, w, h));
    }
    assert!(!core.can_run(configure(64, PixelDataLayout::D8x1, 1, 1)));

    let blit = |src_tex, dst_tex, dst_y| Command::DirectBlit { src_tex, dst_tex, src_x: 0, src_y: 0, dst_x: 0, dst_y, width: 4, height: 4 };
    assert!(core.can_run(blit(1, 2, 0)));
    assert!(!core.can_run(blit(3, 4, 0xFFF0)));
    assert!(core.can_run(blit(3, 3, 0xFFF0)));
    assert!(core.can_run(blit(1, 3, 0xFFF0)));
    assert!(!core.can_run(blit(1, 70, 0)));

    let cutout = |pixel_type| Command::CutoutBlit {
        src_tex: 1, dst_tex: 2, src_x: 0, src_y: 0, dst_x: 0, dst_y: 0, width: 2, height: 2, pixel_type,
    };
    assert!(core.can_run(cutout(PixelDataType::RgbaUNorm8)));
    assert!(!core.can_run(cutout(PixelDataType::RgbaF32)));

    assert!(!core.can_run(Command::ClearTexture { texture: 3, constant_sampler: 0 }));
    assert!(core.can_run(Command::ClearTexture { texture: 1, constant_sampler: 0 }));
    assert!(core.can_run(Command::ClearTexture { texture: 64, constant_sampler: 0 }));
}
