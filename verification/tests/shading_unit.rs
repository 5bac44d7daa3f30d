use std::marker::PhantomData;

use rvfm::gpu::shader::{BufferReadType, BufferWriteType, ResourceMap, VectorBufferReadType, VectorBufferWriteType};

fn no_buffers() -> Vec<Vec<u8>> {
    vec![Vec::new(); 256]
}

use rvfm::gpu::shader::{
    Comparison, OpDataType, RegisterAddress, Scalar, ScalarBinaryOp, ScalarTernaryOp, ScalarUnaryOp,
    ShaderInstruction, Vector, VectorChannel, CORE_COUNT,
};
use rvfm::gpu::shading_unit::{
    int_binary_lane, int_unary_lane, ShadingUnitConstantArray, ShadingUnitContext, ShadingUnitIOArray,
    ShadingUnitRunContext,
};

fn fresh() -> (ShadingUnitContext, ShadingUnitRunContext) {
    let unit = ShadingUnitContext::new();
    let rc = ShadingUnitRunContext::new(ShadingUnitConstantArray::new(), ShadingUnitIOArray::new(), ShadingUnitIOArray::new());
    (unit, rc)
}

fn s_local(k: u8) -> RegisterAddress<Scalar> {
    RegisterAddress::Local(k, PhantomData)
}

fn s_input(k: u8) -> RegisterAddress<Scalar> {
    RegisterAddress::Input(k, PhantomData)
}

fn s_const(k: u8) -> RegisterAddress<Scalar> {
    RegisterAddress::Constant(k, PhantomData)
}

fn v_local(k: u8) -> RegisterAddress<Vector> {
    RegisterAddress::Local(k, PhantomData)
}

fn v_input(k: u8) -> RegisterAddress<Vector> {
    RegisterAddress::Input(k, PhantomData)
}

fn v_output(k: u8) -> RegisterAddress<Vector> {
    RegisterAddress::Output(k, PhantomData)
}

fn slot(k: usize, i: usize) -> usize {
    k * CORE_COUNT + i
}

#[test]
fn push_then_pop_vector_restores_lanes() {
    let (mut unit, mut rc) = fresh();
    for i in 0..4 {
        rc.input.vector_array[slot(3, i)] = [i as u32, 10 + i as u32, 20, 30];
    }
    assert_eq!(unit.run_instruction(4, &ShaderInstruction::PushVector(v_input(3)), &mut rc, &mut no_buffers(), &Vec::new(), &ResourceMap::identity()), Some(()));
    assert_eq!(unit.vector_stack_size, 1);
    assert_eq!(unit.run_instruction(4, &ShaderInstruction::PopVector(v_local(1)), &mut rc, &mut no_buffers(), &Vec::new(), &ResourceMap::identity()), Some(()));
    assert_eq!(unit.vector_stack_size, 0);
    for i in 0..4 {
        assert_eq!(unit.vector_locals[slot(1, i)], [i as u32, 10 + i as u32, 20, 30]);
    }
    // Lanes past the first four keep their value.
    assert_eq!(unit.vector_locals[slot(1, 4)], [0, 0, 0, 0]);
}

#[test]
fn push_then_pop_scalar_restores_lanes() {
    let (mut unit, mut rc) = fresh();
    rc.input.scalar_array[slot(0, 0)] = 7;
    rc.input.scalar_array[slot(0, 1)] = 9;
    assert_eq!(unit.run_instruction(2, &ShaderInstruction::PushScalar(s_input(0)), &mut rc, &mut no_buffers(), &Vec::new(), &ResourceMap::identity()), Some(()));
    assert_eq!(unit.scalar_stack_size, 1);
    assert_eq!(unit.run_instruction(2, &ShaderInstruction::PopScalar(s_local(5)), &mut rc, &mut no_buffers(), &Vec::new(), &ResourceMap::identity()), Some(()));
    assert_eq!(unit.scalar_stack_size, 0);
    assert_eq!(unit.scalar_locals[slot(5, 0)], 7);
    assert_eq!(unit.scalar_locals[slot(5, 1)], 9);
}

#[test]
fn scalar_push_writes_at_the_vector_stack_depth() {
    let (mut unit, mut rc) = fresh();
    rc.input.scalar_array[slot(0, 0)] = 5;
    assert_eq!(unit.run_instruction(1, &ShaderInstruction::PushVector(v_input(0)), &mut rc, &mut no_buffers(), &Vec::new(), &ResourceMap::identity()), Some(()));
    assert_eq!(unit.run_instruction(1, &ShaderInstruction::PushScalar(s_input(0)), &mut rc, &mut no_buffers(), &Vec::new(), &ResourceMap::identity()), Some(()));
    assert_eq!(unit.scalar_stack_size, 1);
    assert_eq!(unit.scalar_stack_array[slot(1, 0)], 5);
    assert_eq!(unit.scalar_stack_array[slot(0, 0)], 0);
}

#[test]
fn pop_into_a_constant_is_refused() {
    let (mut unit, mut rc) = fresh();
    assert_eq!(unit.run_instruction(1, &ShaderInstruction::PushScalar(s_input(0)), &mut rc, &mut no_buffers(), &Vec::new(), &ResourceMap::identity()), Some(()));
    assert_eq!(unit.run_instruction(1, &ShaderInstruction::PopScalar(s_const(0)), &mut rc, &mut no_buffers(), &Vec::new(), &ResourceMap::identity()), None);
    assert_eq!(unit.scalar_stack_size, 1);
}

#[test]
fn copy_onto_itself_is_refused() {
    let (mut unit, mut rc) = fresh();
    unit.scalar_locals[slot(2, 0)] = 11;
    let ins = ShaderInstruction::CopyScalarRegister { from: s_local(2), to: s_local(2) };
    assert_eq!(unit.run_instruction(1, &ins, &mut rc, &mut no_buffers(), &Vec::new(), &ResourceMap::identity()), None);
    assert_eq!(unit.scalar_locals[slot(2, 0)], 11);
}

#[test]
fn copy_into_an_input_is_refused() {
    let (mut unit, mut rc) = fresh();
    unit.scalar_locals[slot(2, 0)] = 11;
    let ins = ShaderInstruction::CopyScalarRegister { from: s_local(2), to: s_input(2) };
    assert_eq!(unit.run_instruction(1, &ins, &mut rc, &mut no_buffers(), &Vec::new(), &ResourceMap::identity()), None);
    assert_eq!(rc.input.scalar_array[slot(2, 0)], 0);
}

#[test]
fn copy_from_a_constant_fills_every_lane() {
    let (mut unit, mut rc) = fresh();
    rc.constants.vector_constant_array[4] = [1, 2, 3, 4];
    let ins = ShaderInstruction::CopyVectorRegister { from: RegisterAddress::Constant(4, PhantomData), to: v_output(0) };
    assert_eq!(unit.run_instruction(3, &ins, &mut rc, &mut no_buffers(), &Vec::new(), &ResourceMap::identity()), Some(()));
    for i in 0..3 {
        assert_eq!(rc.output.vector_array[slot(0, i)], [1, 2, 3, 4]);
    }
    assert_eq!(rc.output.vector_array[slot(0, 3)], [0, 0, 0, 0]);
}

#[test]
fn conditional_scalar_copy_copies_every_lane() {
    let (mut unit, mut rc) = fresh();
    rc.input.scalar_array[slot(1, 0)] = 21;
    rc.input.scalar_array[slot(1, 1)] = 22;
    // The condition is zero on both lanes; the copy still happens.
    let ins = ShaderInstruction::ConditionallyCopyScalarRegister { cond: s_local(0), from: s_input(1), to: s_local(3) };
    assert_eq!(unit.run_instruction(2, &ins, &mut rc, &mut no_buffers(), &Vec::new(), &ResourceMap::identity()), Some(()));
    assert_eq!(unit.scalar_locals[slot(3, 0)], 21);
    assert_eq!(unit.scalar_locals[slot(3, 1)], 22);
}

#[test]
fn conditional_vector_copy_follows_each_lane() {
    let (mut unit, mut rc) = fresh();
    unit.scalar_locals[slot(0, 1)] = 1;
    rc.input.vector_array[slot(0, 0)] = [5, 5, 5, 5];
    rc.input.vector_array[slot(0, 1)] = [6, 6, 6, 6];
    unit.vector_locals[slot(2, 0)] = [9, 9, 9, 9];
    let ins = ShaderInstruction::ConditionallyCopyVectorRegister { cond: s_local(0), from: v_input(0), to: v_local(2) };
    assert_eq!(unit.run_instruction(2, &ins, &mut rc, &mut no_buffers(), &Vec::new(), &ResourceMap::identity()), Some(()));
    assert_eq!(unit.vector_locals[slot(2, 0)], [9, 9, 9, 9]);
    assert_eq!(unit.vector_locals[slot(2, 1)], [6, 6, 6, 6]);
}

#[test]
fn component_copies() {
    let (mut unit, mut rc) = fresh();
    rc.input.vector_array[slot(0, 0)] = [1, 2, 3, 4];
    let ins = ShaderInstruction::CopyVectorComponentToScalar { channel: VectorChannel::Z, from: v_input(0), to: s_local(0) };
    assert_eq!(unit.run_instruction(1, &ins, &mut rc, &mut no_buffers(), &Vec::new(), &ResourceMap::identity()), Some(()));
    assert_eq!(unit.scalar_locals[slot(0, 0)], 3);

    unit.vector_locals[slot(1, 0)] = [7, 7, 7, 7];
    let ins = ShaderInstruction::CopyScalarToVectorComponent { channel: VectorChannel::Y, from: s_local(0), to: v_local(1) };
    assert_eq!(unit.run_instruction(1, &ins, &mut rc, &mut no_buffers(), &Vec::new(), &ResourceMap::identity()), Some(()));
    assert_eq!(unit.vector_locals[slot(1, 0)], [7, 3, 7, 7]);

    let ins = ShaderInstruction::CopyScalarToVectorComponentsMasked { from: s_local(0), to: v_local(1), mask: 0b1001 };
    assert_eq!(unit.run_instruction(1, &ins, &mut rc, &mut no_buffers(), &Vec::new(), &ResourceMap::identity()), Some(()));
    assert_eq!(unit.vector_locals[slot(1, 0)], [3, 3, 7, 3]);
}

#[test]
fn conditional_component_copy_skips_lanes_whose_condition_is_zero() {
    let (mut unit, mut rc) = fresh();
    unit.scalar_locals[slot(0, 0)] = 1;
    rc.input.scalar_array[slot(0, 0)] = 8;
    rc.input.scalar_array[slot(0, 1)] = 8;
    let ins = ShaderInstruction::ConditionallyCopyScalarToVectorComponent {
        cond: s_local(0),
        channel: VectorChannel::W,
        from: s_input(0),
        to: v_local(0),
    };
    assert_eq!(unit.run_instruction(2, &ins, &mut rc, &mut no_buffers(), &Vec::new(), &ResourceMap::identity()), Some(()));
    assert_eq!(unit.vector_locals[slot(0, 0)], [0, 0, 0, 8]);
    assert_eq!(unit.vector_locals[slot(0, 1)], [0, 0, 0, 0]);
}

#[test]
fn scalar_integer_operations() {
    let (mut unit, mut rc) = fresh();
    rc.input.scalar_array[slot(0, 0)] = 0xFFFF_FFF9; // -7
    rc.input.scalar_array[slot(1, 0)] = 2;
    let run = |unit: &mut ShadingUnitContext, rc: &mut ShadingUnitRunContext, op: ScalarBinaryOp| -> u32 {
        let ins = ShaderInstruction::ScalarBinaryOp { src_a: s_input(0), src_b: s_input(1), dst: s_local(0), op };
        assert_eq!(unit.run_instruction(1, &ins, rc, &mut no_buffers(), &Vec::new(), &ResourceMap::identity()), Some(()));
        unit.scalar_locals[slot(0, 0)]
    };
    assert_eq!(run(&mut unit, &mut rc, ScalarBinaryOp::Add(OpDataType::I32)), 0xFFFF_FFFB);
    assert_eq!(run(&mut unit, &mut rc, ScalarBinaryOp::Subtract(OpDataType::I32)), 0xFFFF_FFF7);
    assert_eq!(run(&mut unit, &mut rc, ScalarBinaryOp::Multiply(OpDataType::I32)), 0xFFFF_FFF2);
    assert_eq!(run(&mut unit, &mut rc, ScalarBinaryOp::Divide(OpDataType::I32)), 0xFFFF_FFFD);
    assert_eq!(run(&mut unit, &mut rc, ScalarBinaryOp::Modulo(OpDataType::I32)), 0xFFFF_FFFF);
    assert_eq!(run(&mut unit, &mut rc, ScalarBinaryOp::Compare(OpDataType::I32, Comparison::GreaterThan)), 0);
    assert_eq!(run(&mut unit, &mut rc, ScalarBinaryOp::CompareUnsigned(Comparison::GreaterThan)), 1);
    assert_eq!(run(&mut unit, &mut rc, ScalarBinaryOp::AndNot), 0xFFFF_FFF9);
    assert_eq!(run(&mut unit, &mut rc, ScalarBinaryOp::Xor), 0xFFFF_FFFB);

    let ins = ShaderInstruction::ScalarUnaryOp { src: s_input(0), dst: s_local(1), op: ScalarUnaryOp::Negative(OpDataType::I32) };
    assert_eq!(unit.run_instruction(1, &ins, &mut rc, &mut no_buffers(), &Vec::new(), &ResourceMap::identity()), Some(()));
    assert_eq!(unit.scalar_locals[slot(1, 0)], 7);
    let ins = ShaderInstruction::ScalarUnaryOp { src: s_input(0), dst: s_local(1), op: ScalarUnaryOp::Sign(OpDataType::I32) };
    assert_eq!(unit.run_instruction(1, &ins, &mut rc, &mut no_buffers(), &Vec::new(), &ResourceMap::identity()), Some(()));
    assert_eq!(unit.scalar_locals[slot(1, 0)], 0xFFFF_FFFF);
}

#[test]
fn lane_operations_at_the_edges() {
    assert_eq!(int_binary_lane(ScalarBinaryOp::Divide(OpDataType::I32), 0x8000_0000, 0xFFFF_FFFF), 0x8000_0000);
    assert_eq!(int_binary_lane(ScalarBinaryOp::Add(OpDataType::I32), 0xFFFF_FFFF, 2), 1);
    assert_eq!(int_binary_lane(ScalarBinaryOp::Compare(OpDataType::I32, Comparison::LessThanOrEqual), 0x8000_0000, 0), 1);
    assert_eq!(int_binary_lane(ScalarBinaryOp::Compare(OpDataType::I32, Comparison::NotEqual), 3, 3), 0);
    assert_eq!(int_unary_lane(ScalarUnaryOp::Sign(OpDataType::I32), 0), 0);
    assert_eq!(int_unary_lane(ScalarUnaryOp::Sign(OpDataType::I32), 12), 1);
}

#[test]
fn vector_integer_operations() {
    let (mut unit, mut rc) = fresh();
    rc.input.vector_array[slot(0, 0)] = [1, 2, 3, 4];
    rc.input.vector_array[slot(1, 0)] = [10, 20, 30, 40];
    rc.input.vector_array[slot(2, 0)] = [5, 5, 5, 0xFFFF_FFFF];
    let ins = ShaderInstruction::VectorComponentwiseScalarBinaryOp {
        src_a: v_input(0),
        src_b: v_input(1),
        dst: v_local(0),
        op: ScalarBinaryOp::Add(OpDataType::I32),
    };
    assert_eq!(unit.run_instruction(1, &ins, &mut rc, &mut no_buffers(), &Vec::new(), &ResourceMap::identity()), Some(()));
    assert_eq!(unit.vector_locals[slot(0, 0)], [11, 22, 33, 44]);

    let ins = ShaderInstruction::VectorComponentwiseScalarTernaryOp {
        src_a: v_input(0),
        src_b: v_input(1),
        src_c: v_input(2),
        dst: v_local(1),
        op: ScalarTernaryOp::Fma(OpDataType::I32),
    };
    assert_eq!(unit.run_instruction(1, &ins, &mut rc, &mut no_buffers(), &Vec::new(), &ResourceMap::identity()), Some(()));
    assert_eq!(unit.vector_locals[slot(1, 0)], [15, 45, 95, 159]);

    let ins = ShaderInstruction::VectorComponentwiseScalarUnaryOpMasked {
        src: v_input(0),
        dst: v_local(1),
        op: ScalarUnaryOp::Negative(OpDataType::I32),
        mask: 0b0010,
    };
    assert_eq!(unit.run_instruction(1, &ins, &mut rc, &mut no_buffers(), &Vec::new(), &ResourceMap::identity()), Some(()));
    assert_eq!(unit.vector_locals[slot(1, 0)], [15, 0xFFFF_FFFE, 95, 159]);

    let ins = ShaderInstruction::VectorComponentwiseScalarUnaryOp {
        src: v_input(2),
        dst: v_local(2),
        op: ScalarUnaryOp::Sign(OpDataType::I32),
    };
    assert_eq!(unit.run_instruction(1, &ins, &mut rc, &mut no_buffers(), &Vec::new(), &ResourceMap::identity()), Some(()));
    assert_eq!(unit.vector_locals[slot(2, 0)], [1, 1, 1, 0xFFFF_FFFF]);
}

#[test]
fn nop_changes_nothing() {
    let (mut unit, mut rc) = fresh();
    assert_eq!(unit.run_instruction(CORE_COUNT, &ShaderInstruction::Nop, &mut rc, &mut no_buffers(), &Vec::new(), &ResourceMap::identity()), Some(()));
    assert_eq!(unit.scalar_stack_size, 0);
    assert_eq!(unit.vector_stack_size, 0);
}

#[test]
fn buffer_reads_per_lane() {
    let (mut unit, mut rc) = fresh();
    let mut buffers = no_buffers();
    buffers[7] = vec![0x10, 0x20, 0x30, 0x40, 0x50, 0x60, 0x70, 0x80, 0x90];
    let mut rm = ResourceMap::identity();
    rm.buffer[2] = 7;
    unit.scalar_locals[slot(0, 0)] = 0;
    unit.scalar_locals[slot(0, 1)] = 4;
    unit.scalar_locals[slot(0, 2)] = 8;
    let ins = ShaderInstruction::ReadBufferToScalar {
        data_type: BufferReadType::D32,
        scalar: s_local(1),
        offset: 1,
        addr_src_u32: Some(s_local(0)),
        buffer: 2,
    };
    assert_eq!(unit.run_instruction(3, &ins, &mut rc, &mut buffers, &Vec::new(), &rm), Some(()));
    assert_eq!(unit.scalar_locals[slot(1, 0)], 0x5040_3020);
    assert_eq!(unit.scalar_locals[slot(1, 1)], 0x9080_7060);
    // Past the end of the buffer a read gives 0.
    assert_eq!(unit.scalar_locals[slot(1, 2)], 0);

    let ins = ShaderInstruction::ReadBufferToVector {
        data_type: VectorBufferReadType::V3(BufferReadType::D16),
        vector: v_output(1),
        offset: 0,
        addr_src_u32: None,
        buffer: 2,
    };
    assert_eq!(unit.run_instruction(2, &ins, &mut rc, &mut buffers, &Vec::new(), &rm), Some(()));
    // Sixteen-bit elements read with their first byte high.
    assert_eq!(rc.output.vector_array[slot(1, 0)], [0x1020, 0x3040, 0x5060, 0]);
    assert_eq!(rc.output.vector_array[slot(1, 1)], [0x1020, 0x3040, 0x5060, 0]);
}

#[test]
fn buffer_read_into_an_input_is_refused() {
    let (mut unit, mut rc) = fresh();
    let ins = ShaderInstruction::ReadBufferToScalar {
        data_type: BufferReadType::D8,
        scalar: s_input(0),
        offset: 0,
        addr_src_u32: None,
        buffer: 0,
    };
    assert_eq!(unit.run_instruction(1, &ins, &mut rc, &mut no_buffers(), &Vec::new(), &ResourceMap::identity()), None);
}

#[test]
fn buffer_writes() {
    let (mut unit, mut rc) = fresh();
    let mut buffers = no_buffers();
    buffers[3] = vec![0u8; 10];
    let rm = ResourceMap::identity();
    rc.constants.scalar_constant_array[0] = 0xABCD;
    rc.constants.scalar_constant_array[1] = 0x1122_3344;
    let ins = ShaderInstruction::WriteScalarToBuffer {
        data_type: BufferWriteType::U16,
        scalar: s_const(0),
        offset: 2,
        addr_dst_u32: None,
        buffer: 3,
    };
    assert_eq!(unit.run_instruction(1, &ins, &mut rc, &mut buffers, &Vec::new(), &rm), Some(()));
    assert_eq!(buffers[3], vec![0, 0, 0xCD, 0xAB, 0, 0, 0, 0, 0, 0]);
    // A 32-bit element keeps its lowest and its highest byte, side by side.
    let ins = ShaderInstruction::WriteScalarToBuffer {
        data_type: BufferWriteType::I32,
        scalar: s_const(1),
        offset: 4,
        addr_dst_u32: None,
        buffer: 3,
    };
    assert_eq!(unit.run_instruction(1, &ins, &mut rc, &mut buffers, &Vec::new(), &rm), Some(()));
    assert_eq!(buffers[3], vec![0, 0, 0xCD, 0xAB, 0x44, 0x11, 0, 0, 0, 0]);
    // A store that would reach the last byte is dropped.
    rc.constants.vector_constant_array[0] = [7, 8, 9, 10];
    let ins = ShaderInstruction::WriteVectorToBuffer {
        data_type: VectorBufferWriteType::V2(BufferWriteType::U8),
        src: RegisterAddress::Constant(0, PhantomData),
        offset: 8,
        addr_src_u32: None,
        buffer: 3,
    };
    assert_eq!(unit.run_instruction(1, &ins, &mut rc, &mut buffers, &Vec::new(), &rm), Some(()));
    assert_eq!(buffers[3][8..], [0, 0]);
    let ins = ShaderInstruction::WriteVectorToBuffer {
        data_type: VectorBufferWriteType::V2(BufferWriteType::U8),
        src: RegisterAddress::Constant(0, PhantomData),
        offset: 7,
        addr_src_u32: None,
        buffer: 3,
    };
    assert_eq!(unit.run_instruction(1, &ins, &mut rc, &mut buffers, &Vec::new(), &rm), Some(()));
    assert_eq!(buffers[3][6..], [0, 7, 8, 0]);
    assert!(buffers[2].is_empty());
}

#[test]
fn buffer_writes_per_lane() {
    let (mut unit, mut rc) = fresh();
    let mut buffers = no_buffers();
    buffers[0] = vec![0u8; 8];
    for i in 0..3 {
        unit.scalar_locals[slot(0, i)] = i as u32 * 2;
        unit.scalar_locals[slot(1, i)] = 0x100 + i as u32;
    }
    let ins = ShaderInstruction::WriteScalarToBuffer {
        data_type: BufferWriteType::I8,
        scalar: s_local(1),
        offset: 1,
        addr_dst_u32: Some(s_local(0)),
        buffer: 0,
    };
    assert_eq!(unit.run_instruction(3, &ins, &mut rc, &mut buffers, &Vec::new(), &ResourceMap::identity()), Some(()));
    assert_eq!(buffers[0], vec![0, 0, 0, 1, 0, 2, 0, 0]);
}

#[test]
fn byte_write_then_read() {
    let (mut unit, mut rc) = fresh();
    let mut buffers = no_buffers();
    buffers[5] = vec![0u8; 4];
    let mut rm = ResourceMap::identity();
    rm.buffer[1] = 5;
    rc.constants.scalar_constant_array[2] = 0x1234_56F7;
    let write = ShaderInstruction::WriteScalarToBuffer { data_type: BufferWriteType::U8, scalar: s_const(2), offset: 2, addr_dst_u32: None, buffer: 1 };
    let read = ShaderInstruction::ReadBufferToScalar { data_type: BufferReadType::D8, scalar: s_local(3), offset: 2, addr_src_u32: None, buffer: 1 };
    assert_eq!(unit.run_instruction(1, &write, &mut rc, &mut buffers, &Vec::new(), &rm), Some(()));
    assert_eq!(unit.run_instruction(1, &read, &mut rc, &mut buffers, &Vec::new(), &rm), Some(()));
    assert_eq!(unit.scalar_locals[slot(3, 0)], 0xF7);
    // At the last byte the store is dropped and the read gives what was there.
    let write = ShaderInstruction::WriteScalarToBuffer { data_type: BufferWriteType::U8, scalar: s_const(2), offset: 3, addr_dst_u32: None, buffer: 1 };
    let read = ShaderInstruction::ReadBufferToScalar { data_type: BufferReadType::D8, scalar: s_local(3), offset: 3, addr_src_u32: None, buffer: 1 };
    assert_eq!(unit.run_instruction(1, &write, &mut rc, &mut buffers, &Vec::new(), &rm), Some(()));
    assert_eq!(unit.run_instruction(1, &read, &mut rc, &mut buffers, &Vec::new(), &rm), Some(()));
    assert_eq!(unit.scalar_locals[slot(3, 0)], 0);
}

use rvfm::gpu::shader::TextureLoadType;
use rvfm::gpu::texture::TextureModule;
use rvfm::gpu::types::{ImageDataLayout, PixelDataLayout, Texture};

fn texture(layout: PixelDataLayout, bytes: &[u8]) -> Vec<TextureModule> {
    let mut t = TextureModule::new();
    t.config = Texture { width: 4, height: 4, pixel_layout: layout, image_layout: ImageDataLayout::Contiguous };
    t.memory[..bytes.len()].copy_from_slice(bytes);
    vec![t]
}

#[test]
fn integer_texture_loads() {
    let (mut unit, mut rc) = fresh();
    // Pixels of two 16-bit channels; the bytes of each channel are equal, so either byte
    // order reads them alike.
    let mut bytes = vec![0u8; 64];
    bytes[4..8].copy_from_slice(&[0x80, 0x80, 0x01, 0x01]);
    bytes[20..24].copy_from_slice(&[0x7F, 0x7F, 0xFF, 0xFF]);
    let textures = texture(PixelDataLayout::D16x2, &bytes);
    rc.input.vector_array[slot(0, 0)] = [1, 0, 9, 9];
    rc.input.vector_array[slot(0, 1)] = [1, 1, 9, 9];
    let load = |lt| ShaderInstruction::LoadTextureVector { src_xy_u32: v_input(0), dst: v_local(2), load_type: lt, texture: 0 };
    assert_eq!(unit.run_instruction(2, &load(TextureLoadType::I32FromInt), &mut rc, &mut no_buffers(), &textures, &ResourceMap::identity()), Some(()));
    assert_eq!(unit.vector_locals[slot(2, 0)], [0xFFFF_8080, 0x0101, 0, 0]);
    assert_eq!(unit.vector_locals[slot(2, 1)], [0x7F7F, 0xFFFF_FFFF, 0, 0]);
    assert_eq!(unit.run_instruction(2, &load(TextureLoadType::I32FromUInt), &mut rc, &mut no_buffers(), &textures, &ResourceMap::identity()), Some(()));
    assert_eq!(unit.vector_locals[slot(2, 0)], [0x8080, 0x0101, 0, 0]);
    // A 32-bit float load from 16-bit channels gives zeros.
    assert_eq!(unit.run_instruction(2, &load(TextureLoadType::F32FromF32), &mut rc, &mut no_buffers(), &textures, &ResourceMap::identity()), Some(()));
    assert_eq!(unit.vector_locals[slot(2, 1)], [0, 0, 0, 0]);
    // A scalar load of the second channel, and of a channel the pixel does not have.
    let scalar = |ch| ShaderInstruction::LoadTextureScalar {
        src_xy_u32: v_input(0), channel: ch, dst: s_local(1), load_type: TextureLoadType::I32FromInt, texture: 0,
    };
    assert_eq!(unit.run_instruction(2, &scalar(VectorChannel::Y), &mut rc, &mut no_buffers(), &textures, &ResourceMap::identity()), Some(()));
    assert_eq!(unit.scalar_locals[slot(1, 1)], 0xFFFF_FFFF);
    assert_eq!(unit.run_instruction(2, &scalar(VectorChannel::Z), &mut rc, &mut no_buffers(), &textures, &ResourceMap::identity()), None);
    // Loads into an input register are refused.
    let to_input = ShaderInstruction::LoadTextureVector { src_xy_u32: v_input(0), dst: v_input(1), load_type: TextureLoadType::I32FromUInt, texture: 0 };
    assert_eq!(unit.run_instruction(2, &to_input, &mut rc, &mut no_buffers(), &textures, &ResourceMap::identity()), None);
}

#[test]
fn byte_texture_loads_and_fresh_stacks() {
    let unit = ShadingUnitContext::new();
    assert!(unit.scalar_stack_array.iter().all(|x| *x == 0));
    assert!(unit.vector_stack_array.iter().all(|x| *x == [0; 4]));
    let (mut unit, mut rc) = fresh();
    let mut bytes = vec![0u8; 64];
    bytes[0..4].copy_from_slice(&[0xFE, 0x02, 0x80, 0x7F]);
    let textures = texture(PixelDataLayout::D8x4, &bytes);
    let load = ShaderInstruction::LoadTextureVector { src_xy_u32: v_input(0), dst: v_local(0), load_type: TextureLoadType::I32FromInt, texture: 0 };
    assert_eq!(unit.run_instruction(1, &load, &mut rc, &mut no_buffers(), &textures, &ResourceMap::identity()), Some(()));
    assert_eq!(unit.vector_locals[slot(0, 0)], [0xFFFF_FFFE, 2, 0xFFFF_FF80, 0x7F]);
    let scalar = ShaderInstruction::LoadTextureScalar {
        src_xy_u32: v_input(0), channel: VectorChannel::Z, dst: s_local(0), load_type: TextureLoadType::I32FromUInt, texture: 0,
    };
    assert_eq!(unit.run_instruction(1, &scalar, &mut rc, &mut no_buffers(), &textures, &ResourceMap::identity()), Some(()));
    assert_eq!(unit.scalar_locals[slot(0, 0)], 0x80);
}
