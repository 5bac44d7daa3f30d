use std::marker::PhantomData;

use rvfm::gpu::shader::{
    Comparison, OpDataType, RegisterAddress, ScalarBinaryOp, ShaderInstruction, ShaderModule, ShaderType, VectorChannel,
    SHADER_INSTRUCTION_CAPACITY,
};
use rvfm::gpu::shader_parser::{get_byte, get_register, get_vector_channel, parse_instruction, parse_shader_bytecode, ShaderParseError};
use rvfm::gpu::shader::{Scalar, Vector};

#[test]
fn reads_bytes_registers_and_channels() {
    let code = [7u8, 1, 3, 2, 9];
    let mut i = 0usize;
    assert_eq!(get_byte(&mut i, &code), Ok(7));
    assert_eq!(i, 1);
    assert_eq!(get_register::<Scalar>(&mut i, &code), Ok(RegisterAddress::Input(3, PhantomData)));
    assert_eq!(i, 3);
    assert_eq!(get_vector_channel(&mut i, &code), Ok(VectorChannel::Z));
    assert_eq!(get_vector_channel(&mut i, &code), Err(ShaderParseError::InvalidRegisterAddress(4)));
    assert_eq!(i, 5);
    assert_eq!(get_byte(&mut i, &code), Err(ShaderParseError::UnexpectedEndOfCode));
    assert_eq!(i, 5);
    let mut j = 0usize;
    assert_eq!(get_register::<Vector>(&mut j, &[4u8, 0]), Err(ShaderParseError::InvalidRegisterAddress(0)));
}

#[test]
fn parses_a_small_program() {
    let code = [
        0x00, 0x01, 0x03, // push vector i3
        0x05, 0x00, 0x02, 0x01, 0x04, // copy scalar l2 <- i4
        0x18, 0x02, 0x00, 0x00, 0x01, 0x03, 0x05, // add o0 <- l1 + c5
        0x0E, 0x00, 0x00, 0x00, 0x01, 0x00, 0x02, 0x02, // compare l0 <- l1 > l2
    ];
    let mut module = ShaderModule::new();
    assert_eq!(parse_shader_bytecode(ShaderType::Fragment, &code, &mut module), Ok(()));
    assert_eq!(module.instruction_count, 4);
    assert_eq!(module.shader_type, ShaderType::Fragment);
    assert_eq!(module.instruction_buffer[0], ShaderInstruction::PushVector(RegisterAddress::Input(3, PhantomData)));
    assert_eq!(
        module.instruction_buffer[1],
        ShaderInstruction::CopyScalarRegister {
            from: RegisterAddress::Input(4, PhantomData),
            to: RegisterAddress::Local(2, PhantomData),
        }
    );
    assert_eq!(
        module.instruction_buffer[2],
        ShaderInstruction::ScalarBinaryOp {
            src_a: RegisterAddress::Local(1, PhantomData),
            src_b: RegisterAddress::Constant(5, PhantomData),
            dst: RegisterAddress::Output(0, PhantomData),
            op: ScalarBinaryOp::Add(OpDataType::I32),
        }
    );
    assert_eq!(
        module.instruction_buffer[3],
        ShaderInstruction::ScalarBinaryOp {
            src_a: RegisterAddress::Local(1, PhantomData),
            src_b: RegisterAddress::Local(2, PhantomData),
            dst: RegisterAddress::Local(0, PhantomData),
            op: ScalarBinaryOp::Compare(OpDataType::I32, Comparison::GreaterThan),
        }
    );
    assert_eq!(module.instruction_buffer[4], ShaderInstruction::Nop);
}

#[test]
fn parse_errors() {
    let mut module = ShaderModule::new();
    assert_eq!(parse_shader_bytecode(ShaderType::Vertex, &[0x00, 0x01], &mut module), Err(ShaderParseError::UnexpectedEndOfCode));
    assert_eq!(module.instruction_count, 0);
    assert_eq!(parse_shader_bytecode(ShaderType::Vertex, &[0xFF], &mut module), Err(ShaderParseError::UnknownOpcode));
    assert_eq!(
        parse_shader_bytecode(ShaderType::Vertex, &[0x01, 0x00, 0x00, 0x02, 0x09, 0x00], &mut module),
        Err(ShaderParseError::InvalidRegisterAddress(4))
    );
    assert_eq!(
        parse_shader_bytecode(ShaderType::Vertex, &[0x0E, 0x00, 0x00, 0x00, 0x01, 0x00, 0x02, 0x07], &mut module),
        Err(ShaderParseError::InvalidComparison)
    );
    // An empty program parses to no instructions.
    assert_eq!(parse_shader_bytecode(ShaderType::Compute, &[], &mut module), Ok(()));
    assert_eq!(module.instruction_count, 0);
    assert_eq!(module.shader_type, ShaderType::Compute);
}

#[test]
fn too_long_for_the_module() {
    let mut module = ShaderModule { instruction_buffer: vec![ShaderInstruction::Nop; 1], instruction_count: 0, shader_type: ShaderType::Vertex };
    let code = [0x00, 0x01, 0x00, 0x00, 0x01, 0x01];
    assert_eq!(parse_shader_bytecode(ShaderType::Fragment, &code, &mut module), Err(ShaderParseError::ShaderTooLong));
    assert_eq!(module.instruction_buffer[0], ShaderInstruction::PushVector(RegisterAddress::Input(0, PhantomData)));
    assert_eq!(module.shader_type, ShaderType::Vertex);
    assert_eq!(ShaderModule::new().instruction_buffer.len(), SHADER_INSTRUCTION_CAPACITY);
}

#[test]
fn one_instruction_at_a_time() {
    let code = [0x03, 0x02, 0x07, 0x04, 0x00, 0x01, 0x03, 0x09];
    assert_eq!(
        parse_instruction(&code, 0),
        Ok((ShaderInstruction::PopScalar(RegisterAddress::Output(7, PhantomData)), 3))
    );
    assert_eq!(
        parse_instruction(&code, 3),
        Ok((
            ShaderInstruction::CopyVectorRegister {
                from: RegisterAddress::Constant(9, PhantomData),
                to: RegisterAddress::Local(1, PhantomData),
            },
            8
        ))
    );
}
