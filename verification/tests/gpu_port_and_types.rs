use rvfm::gpu::rasterizer::{copy_flat_varying, Interpolation, RasterizerVaryingAssignment, ShaderVaryingType};
use rvfm::gpu::shader::CORE_COUNT;
use rvfm::gpu::shading_unit::ShadingUnitIOArray;
use rvfm::gpu::shader::{read_bytes_u16, read_bytes_u32, read_bytes_u8};
use rvfm::gpu::types::{expand_unorm8_to_32, ImageDataLayout, PixelDataLayout, PixelDataType, VideoResolution};
use rvfm::gpu::{gpu_read_u16, gpu_read_u32, gpu_read_u8, gpu_write_u16, gpu_write_u32, gpu_write_u8};
use rvfm::machine::{ReadResult, WriteResult};
use rvfm::sdk::pipeline_state::{
    FragmentState, GraphicsPipelineState, RasterizerState, ShaderCardinality, ShaderInputType, VertexState,
};

#[test]
fn command_port() {
    assert_eq!(gpu_write_u32(0, 0x8000_0100), (WriteResult::Success, Some(0x8000_0100)));
    assert_eq!(gpu_write_u16(0, 0x100), (WriteResult::Success, Some(0x100)));
    assert_eq!(gpu_write_u8(4, 1), (WriteResult::InvalidAddress, None));
    assert_eq!(gpu_read_u32(0), ReadResult::Success(0));
    assert_eq!(gpu_read_u16(2), ReadResult::InvalidAddress);
    assert_eq!(gpu_read_u8(0), ReadResult::Success(0));
}

#[test]
fn image_indices() {
    assert_eq!(ImageDataLayout::Contiguous.index(3, 2, 10), 23);
    assert_eq!(ImageDataLayout::Block4x4.index(5, 6, 16), (1 + 1 * 4) * 16 + 1 + 2 * 4);
    assert_eq!(ImageDataLayout::Block8x8.index(9, 1, 16), (1 + 0 * 2) * 64 + 1 + 1 * 8);
    assert_eq!(ImageDataLayout::from_u8(1), Some(ImageDataLayout::Block8x8));
    assert_eq!(ImageDataLayout::from_u8(3), None);
}

#[test]
fn layouts_and_types() {
    assert_eq!(VideoResolution::V256x192.as_w_h(), (256, 192));
    assert_eq!(VideoResolution::V512x384.pixel_count(), 512 * 384);
    assert_eq!(PixelDataLayout::from_u8(5).map(|l| l.pixel_bytes()), Some(8));
    assert_eq!(PixelDataLayout::from_u8(9), None);
    assert_eq!(PixelDataType::from_u8(6).map(|t| t.component_count()), Some(3));
    assert_eq!(expand_unorm8_to_32(0xAB), 0xABAB_ABAB);
}

#[test]
fn varying_types() {
    assert_eq!(Interpolation::from_u8(2), Some(Interpolation::Smooth));
    assert_eq!(Interpolation::from_u8(5), None);
    assert_eq!(ShaderVaryingType::from_u8(5, Interpolation::Max), Some(ShaderVaryingType::I32x2(Interpolation::Max)));
    assert_eq!(ShaderVaryingType::from_u8(8, Interpolation::Max), None);
}

#[test]
fn byte_reads_past_the_end_give_zero() {
    let bytes = [0x01u8, 0x02, 0x03, 0x04, 0x05];
    assert_eq!(read_bytes_u8(&bytes, 4), 5);
    assert_eq!(read_bytes_u8(&bytes, 5), 0);
    assert_eq!(read_bytes_u16(&bytes, 1), 0x0203);
    assert_eq!(read_bytes_u16(&bytes, 4), 0);
    assert_eq!(read_bytes_u32(&bytes, 1), 0x0504_0302);
}

#[test]
fn pipeline_state_layouts() {
    assert_eq!(ShaderCardinality::from_u8(2), Some(ShaderCardinality::V3));
    assert_eq!(ShaderCardinality::from_u8(4), None);
    assert_eq!(ShaderCardinality::V4.to_u8(), 3);
    assert_eq!(ShaderInputType::F32FromF32.to_u8(), 0x12);
    let p = GraphicsPipelineState::new(0x100, 0x200, 0x300);
    assert_eq!((p.vertex, p.fragment, p.raster), (0x100, 0x200, 0x300));
    let v = VertexState::new(0x400, 0x102);
    assert_eq!((v.inputs, v.input_count, v._dummy), (0x400, 2, [0, 0, 0]));
    let f = FragmentState::new(None, 0x500, 3);
    assert_eq!((f.depth_state, f.output_assignments, f.output_assignment_count), (0, 0x500, 3));
    assert_eq!(FragmentState::new(Some(0x600), 0, 0).depth_state, 0x600);
    let r = RasterizerState::new(1, 2, 3, 4, 5, 6, 7, 8);
    assert_eq!((r.varyings, r.varying_count, r.constants, r.constant_count), (1, 2, 3, 4));
    assert_eq!((r.buffer_mappings, r.buffer_mapping_count, r.texture_mappings, r.texture_mapping_count), (5, 6, 7, 8));
}

#[test]
fn layout_indices_cover_the_image_once() {
    assert_eq!(ImageDataLayout::Block4x4.index(5, 6, 8), 57);
    assert_eq!(ImageDataLayout::Block8x8.index(9, 10, 16), 209);
    assert_eq!(ImageDataLayout::Contiguous.index(3, 2, 10), 23);
    for layout in [ImageDataLayout::Contiguous, ImageDataLayout::Block4x4, ImageDataLayout::Block8x8] {
        let (w, h) = (16u32, 24u32);
        let mut seen = vec![false; (w * h) as usize];
        for y in 0..h {
            for x in 0..w {
                let i = layout.index(x, y, w) as usize;
                assert!(i < seen.len());
                assert!(!seen[i]);
                seen[i] = true;
            }
        }
        assert!(seen.iter().all(|s| *s));
    }
}

#[test]
fn flat_varyings_come_from_the_provoking_vertex() {
    let mut vertex_out = ShadingUnitIOArray::new();
    let mut fragment_in = ShadingUnitIOArray::new();
    let ids = 2usize;
    let slot = 5usize;
    for v in 0..3 {
        vertex_out.vector_array[slot * CORE_COUNT + v] = [10 + v as u32, 20 + v as u32, 30 + v as u32, 40 + v as u32];
        vertex_out.scalar_array[slot * CORE_COUNT + v] = 100 + v as u32;
    }
    fragment_in.vector_array[ids * CORE_COUNT] = [2, 0, 1, 0];
    fragment_in.vector_array[ids * CORE_COUNT + 1] = [1, 2, 0, 0];
    fragment_in.vector_array[slot * CORE_COUNT] = [7, 7, 7, 7];
    let v3 = RasterizerVaryingAssignment { slot: slot as u8, t: ShaderVaryingType::I32x3(Interpolation::ProvokingVertexFlat) };
    copy_flat_varying(&vertex_out, &mut fragment_in, v3, ids, 2);
    assert_eq!(fragment_in.vector_array[slot * CORE_COUNT], [12, 22, 32, 7]);
    assert_eq!(fragment_in.vector_array[slot * CORE_COUNT + 1], [11, 21, 31, 0]);
    assert_eq!(fragment_in.vector_array[slot * CORE_COUNT + 2], [0, 0, 0, 0]);
    let s = RasterizerVaryingAssignment { slot: slot as u8, t: ShaderVaryingType::F32(Interpolation::ProvokingVertexFlat) };
    copy_flat_varying(&vertex_out, &mut fragment_in, s, ids, 2);
    assert_eq!(fragment_in.scalar_array[slot * CORE_COUNT], 102);
    assert_eq!(fragment_in.scalar_array[slot * CORE_COUNT + 1], 101);
    let smooth = RasterizerVaryingAssignment { slot: 9, t: ShaderVaryingType::F32(Interpolation::Smooth) };
    copy_flat_varying(&vertex_out, &mut fragment_in, smooth, ids, 2);
    assert_eq!(fragment_in.scalar_array[9 * CORE_COUNT], 0);
}
