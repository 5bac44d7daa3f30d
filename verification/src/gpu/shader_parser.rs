//! Parser of shader bytecode.

use vstd::prelude::*;
use core::marker::PhantomData;
use super::shader::{
    Comparison, OpDataType, OpDataTypeConversion, RegisterAddress, RegisterType, Scalar,
    ScalarBinaryOp, ScalarUnaryOp, ShaderInstruction, ShaderModule, ShaderType, Vector,
    VectorChannel, VectorToScalarUnaryOp, VectorToVectorUnaryOp,
};

verus! {

/// Why shader code was refused.
#[derive(Copy, Clone, Debug, PartialEq, Eq, Structural)]
pub enum ShaderParseError {
    UnexpectedEndOfCode,
    InvalidRegisterAddress(usize),
    UnknownOpcode,
    ShaderTooLong,
    InvalidComparison,
}

/// Register file byte of a local register.
pub const REGTYPE_LOCAL: u8 = 0x00;
/// Register file byte of an input register.
pub const REGTYPE_INPUT: u8 = 0x01;
/// Register file byte of an output register.
pub const REGTYPE_OUTPUT: u8 = 0x02;
/// Register file byte of a constant register.
pub const REGTYPE_CONSTANT: u8 = 0x03;

/// The register named by the two bytes at `i` (file, then index), and the position after them.
pub open spec fn spec_register<T: RegisterType>(code: Seq<u8>, i: int) -> Result<(RegisterAddress<T>, int), ShaderParseError> {
    if i < 0 || i + 2 > code.len() {
        Err(ShaderParseError::UnexpectedEndOfCode)
    } else {
        let index = code[i + 1];
        if code[i] == REGTYPE_LOCAL {
            Ok((RegisterAddress::Local(index, PhantomData), i + 2))
        } else if code[i] == REGTYPE_INPUT {
            Ok((RegisterAddress::Input(index, PhantomData), i + 2))
        } else if code[i] == REGTYPE_OUTPUT {
            Ok((RegisterAddress::Output(index, PhantomData), i + 2))
        } else if code[i] == REGTYPE_CONSTANT {
            Ok((RegisterAddress::Constant(index, PhantomData), i + 2))
        } else {
            Err(ShaderParseError::InvalidRegisterAddress(i as usize))
        }
    }
}

/// The vector channel named by the byte at `i`, and the position after it.
pub open spec fn spec_vector_channel(code: Seq<u8>, i: int) -> Result<(VectorChannel, int), ShaderParseError> {
    if i < 0 || i >= code.len() {
        Err(ShaderParseError::UnexpectedEndOfCode)
    } else if code[i] == 0 {
        Ok((VectorChannel::X, i + 1))
    } else if code[i] == 1 {
        Ok((VectorChannel::Y, i + 1))
    } else if code[i] == 2 {
        Ok((VectorChannel::Z, i + 1))
    } else if code[i] == 3 {
        Ok((VectorChannel::W, i + 1))
    } else {
        Err(ShaderParseError::InvalidRegisterAddress(i as usize))
    }
}

/// Takes the byte at `*i` and moves past it.
pub fn get_byte(i: &mut usize, code: &[u8]) -> (r: Result<u8, ShaderParseError>)
    ensures
        *old(i) >= code@.len() ==> r == Err::<u8, ShaderParseError>(ShaderParseError::UnexpectedEndOfCode)
            && *final(i) == *old(i),
        *old(i) < code@.len() ==> r == Ok::<u8, ShaderParseError>(code@[*old(i) as int])
            && *final(i) == *old(i) + 1,
{
    if *i >= code.len() {
        Err(ShaderParseError::UnexpectedEndOfCode)
    } else {
        let t = *i;
        *i = *i + 1;
        Ok(code[t])
    }
}

/// Position after an attempt to read `n` bytes at `i`: it stops at the end of the code.
pub open spec fn spec_advance(len: int, i: int, n: int) -> int {
    if i + n <= len { i + n } else if i < len { len } else { i }
}

/// Reads a register operand: a register file byte, then an index byte.
pub fn get_register<T: RegisterType>(i: &mut usize, code: &[u8]) -> (r: Result<RegisterAddress<T>, ShaderParseError>)
    ensures
        spec_register::<T>(code@, *old(i) as int) == (match r {
            Ok(reg) => Ok((reg, *final(i) as int)),
            Err(e) => Err::<(RegisterAddress<T>, int), ShaderParseError>(e),
        }),
        *final(i) == spec_advance(code@.len() as int, *old(i) as int, 2),
{
    let offset = *i;
    let t = match get_byte(i, code) {
        Ok(b) => b,
        Err(e) => { return Err(e); },
    };
    let index = match get_byte(i, code) {
        Ok(b) => b,
        Err(e) => { return Err(e); },
    };
    match t {
        REGTYPE_LOCAL => Ok(RegisterAddress::Local(index, PhantomData)),
        REGTYPE_INPUT => Ok(RegisterAddress::Input(index, PhantomData)),
        REGTYPE_OUTPUT => Ok(RegisterAddress::Output(index, PhantomData)),
        REGTYPE_CONSTANT => Ok(RegisterAddress::Constant(index, PhantomData)),
        _ => Err(ShaderParseError::InvalidRegisterAddress(offset)),
    }
}

/// Reads a vector channel operand.
pub fn get_vector_channel(i: &mut usize, code: &[u8]) -> (r: Result<VectorChannel, ShaderParseError>)
    ensures
        spec_vector_channel(code@, *old(i) as int) == (match r {
            Ok(c) => Ok((c, *final(i) as int)),
            Err(e) => Err::<(VectorChannel, int), ShaderParseError>(e),
        }),
        *final(i) == spec_advance(code@.len() as int, *old(i) as int, 1),
{
    let offset = *i;
    let c = match get_byte(i, code) {
        Ok(b) => b,
        Err(e) => { return Err(e); },
    };
    match c {
        0 => Ok(VectorChannel::X),
        1 => Ok(VectorChannel::Y),
        2 => Ok(VectorChannel::Z),
        3 => Ok(VectorChannel::W),
        _ => Err(ShaderParseError::InvalidRegisterAddress(offset)),
    }
}

/// Operands of the kinds `V` (V: vector register, S: scalar register, C: channel) read in order from `i`.
pub open spec fn spec_operands_v(code: Seq<u8>, i: int) -> Result<(RegisterAddress<Vector>, int), ShaderParseError> {
    match spec_register::<Vector>(code, i) {
        Err(e) => Err(e),
        Ok((o0, p0)) =>
            Ok((o0, p0))
    }
}

/// Operands of the kinds `S` (V: vector register, S: scalar register, C: channel) read in order from `i`.
pub open spec fn spec_operands_s(code: Seq<u8>, i: int) -> Result<(RegisterAddress<Scalar>, int), ShaderParseError> {
    match spec_register::<Scalar>(code, i) {
        Err(e) => Err(e),
        Ok((o0, p0)) =>
            Ok((o0, p0))
    }
}

/// Operands of the kinds `VV` (V: vector register, S: scalar register, C: channel) read in order from `i`.
pub open spec fn spec_operands_vv(code: Seq<u8>, i: int) -> Result<(RegisterAddress<Vector>, RegisterAddress<Vector>, int), ShaderParseError> {
    match spec_register::<Vector>(code, i) {
        Err(e) => Err(e),
        Ok((o0, p0)) =>
            match spec_register::<Vector>(code, p0) {
                Err(e) => Err(e),
                Ok((o1, p1)) =>
                    Ok((o0, o1, p1))
            }
    }
}

/// Operands of the kinds `SS` (V: vector register, S: scalar register, C: channel) read in order from `i`.
pub open spec fn spec_operands_ss(code: Seq<u8>, i: int) -> Result<(RegisterAddress<Scalar>, RegisterAddress<Scalar>, int), ShaderParseError> {
    match spec_register::<Scalar>(code, i) {
        Err(e) => Err(e),
        Ok((o0, p0)) =>
            match spec_register::<Scalar>(code, p0) {
                Err(e) => Err(e),
                Ok((o1, p1)) =>
                    Ok((o0, o1, p1))
            }
    }
}

/// Operands of the kinds `SV` (V: vector register, S: scalar register, C: channel) read in order from `i`.
pub open spec fn spec_operands_sv(code: Seq<u8>, i: int) -> Result<(RegisterAddress<Scalar>, RegisterAddress<Vector>, int), ShaderParseError> {
    match spec_register::<Scalar>(code, i) {
        Err(e) => Err(e),
        Ok((o0, p0)) =>
            match spec_register::<Vector>(code, p0) {
                Err(e) => Err(e),
                Ok((o1, p1)) =>
                    Ok((o0, o1, p1))
            }
    }
}

/// Operands of the kinds `SVC` (V: vector register, S: scalar register, C: channel) read in order from `i`.
pub open spec fn spec_operands_svc(code: Seq<u8>, i: int) -> Result<(RegisterAddress<Scalar>, RegisterAddress<Vector>, VectorChannel, int), ShaderParseError> {
    match spec_register::<Scalar>(code, i) {
        Err(e) => Err(e),
        Ok((o0, p0)) =>
            match spec_register::<Vector>(code, p0) {
                Err(e) => Err(e),
                Ok((o1, p1)) =>
                    match spec_vector_channel(code, p1) {
                        Err(e) => Err(e),
                        Ok((o2, p2)) =>
                            Ok((o0, o1, o2, p2))
                    }
            }
    }
}

/// Operands of the kinds `VCS` (V: vector register, S: scalar register, C: channel) read in order from `i`.
pub open spec fn spec_operands_vcs(code: Seq<u8>, i: int) -> Result<(RegisterAddress<Vector>, VectorChannel, RegisterAddress<Scalar>, int), ShaderParseError> {
    match spec_register::<Vector>(code, i) {
        Err(e) => Err(e),
        Ok((o0, p0)) =>
            match spec_vector_channel(code, p0) {
                Err(e) => Err(e),
                Ok((o1, p1)) =>
                    match spec_register::<Scalar>(code, p1) {
                        Err(e) => Err(e),
                        Ok((o2, p2)) =>
                            Ok((o0, o1, o2, p2))
                    }
            }
    }
}

/// Operands of the kinds `SVV` (V: vector register, S: scalar register, C: channel) read in order from `i`.
pub open spec fn spec_operands_svv(code: Seq<u8>, i: int) -> Result<(RegisterAddress<Scalar>, RegisterAddress<Vector>, RegisterAddress<Vector>, int), ShaderParseError> {
    match spec_register::<Scalar>(code, i) {
        Err(e) => Err(e),
        Ok((o0, p0)) =>
            match spec_register::<Vector>(code, p0) {
                Err(e) => Err(e),
                Ok((o1, p1)) =>
                    match spec_register::<Vector>(code, p1) {
                        Err(e) => Err(e),
                        Ok((o2, p2)) =>
                            Ok((o0, o1, o2, p2))
                    }
            }
    }
}

/// Operands of the kinds `SSS` (V: vector register, S: scalar register, C: channel) read in order from `i`.
pub open spec fn spec_operands_sss(code: Seq<u8>, i: int) -> Result<(RegisterAddress<Scalar>, RegisterAddress<Scalar>, RegisterAddress<Scalar>, int), ShaderParseError> {
    match spec_register::<Scalar>(code, i) {
        Err(e) => Err(e),
        Ok((o0, p0)) =>
            match spec_register::<Scalar>(code, p0) {
                Err(e) => Err(e),
                Ok((o1, p1)) =>
                    match spec_register::<Scalar>(code, p1) {
                        Err(e) => Err(e),
                        Ok((o2, p2)) =>
                            Ok((o0, o1, o2, p2))
                    }
            }
    }
}

/// Operands of the kinds `VVV` (V: vector register, S: scalar register, C: channel) read in order from `i`.
pub open spec fn spec_operands_vvv(code: Seq<u8>, i: int) -> Result<(RegisterAddress<Vector>, RegisterAddress<Vector>, RegisterAddress<Vector>, int), ShaderParseError> {
    match spec_register::<Vector>(code, i) {
        Err(e) => Err(e),
        Ok((o0, p0)) =>
            match spec_register::<Vector>(code, p0) {
                Err(e) => Err(e),
                Ok((o1, p1)) =>
                    match spec_register::<Vector>(code, p1) {
                        Err(e) => Err(e),
                        Ok((o2, p2)) =>
                            Ok((o0, o1, o2, p2))
                    }
            }
    }
}

/// Operands of the kinds `SSVC` (V: vector register, S: scalar register, C: channel) read in order from `i`.
pub open spec fn spec_operands_ssvc(code: Seq<u8>, i: int) -> Result<(RegisterAddress<Scalar>, RegisterAddress<Scalar>, RegisterAddress<Vector>, VectorChannel, int), ShaderParseError> {
    match spec_register::<Scalar>(code, i) {
        Err(e) => Err(e),
        Ok((o0, p0)) =>
            match spec_register::<Scalar>(code, p0) {
                Err(e) => Err(e),
                Ok((o1, p1)) =>
                    match spec_register::<Vector>(code, p1) {
                        Err(e) => Err(e),
                        Ok((o2, p2)) =>
                            match spec_vector_channel(code, p2) {
                                Err(e) => Err(e),
                                Ok((o3, p3)) =>
                                    Ok((o0, o1, o2, o3, p3))
                            }
                    }
            }
    }
}

/// Operands of the kinds `SVCS` (V: vector register, S: scalar register, C: channel) read in order from `i`.
pub open spec fn spec_operands_svcs(code: Seq<u8>, i: int) -> Result<(RegisterAddress<Scalar>, RegisterAddress<Vector>, VectorChannel, RegisterAddress<Scalar>, int), ShaderParseError> {
    match spec_register::<Scalar>(code, i) {
        Err(e) => Err(e),
        Ok((o0, p0)) =>
            match spec_register::<Vector>(code, p0) {
                Err(e) => Err(e),
                Ok((o1, p1)) =>
                    match spec_vector_channel(code, p1) {
                        Err(e) => Err(e),
                        Ok((o2, p2)) =>
                            match spec_register::<Scalar>(code, p2) {
                                Err(e) => Err(e),
                                Ok((o3, p3)) =>
                                    Ok((o0, o1, o2, o3, p3))
                            }
                    }
            }
    }
}

/// Operands of the kinds `VVVVVV` (V: vector register, S: scalar register, C: channel) read in order from `i`.
pub open spec fn spec_operands_vvvvvv(code: Seq<u8>, i: int) -> Result<(RegisterAddress<Vector>, RegisterAddress<Vector>, RegisterAddress<Vector>, RegisterAddress<Vector>, RegisterAddress<Vector>, RegisterAddress<Vector>, int), ShaderParseError> {
    match spec_register::<Vector>(code, i) {
        Err(e) => Err(e),
        Ok((o0, p0)) =>
            match spec_register::<Vector>(code, p0) {
                Err(e) => Err(e),
                Ok((o1, p1)) =>
                    match spec_register::<Vector>(code, p1) {
                        Err(e) => Err(e),
                        Ok((o2, p2)) =>
                            match spec_register::<Vector>(code, p2) {
                                Err(e) => Err(e),
                                Ok((o3, p3)) =>
                                    match spec_register::<Vector>(code, p3) {
                                        Err(e) => Err(e),
                                        Ok((o4, p4)) =>
                                            match spec_register::<Vector>(code, p4) {
                                                Err(e) => Err(e),
                                                Ok((o5, p5)) =>
                                                    Ok((o0, o1, o2, o3, o4, o5, p5))
                                            }
                                    }
                            }
                    }
            }
    }
}

/// Whether `opcode` is a scalar operation of two operands.
pub open spec fn is_scalar_binary_opcode(opcode: u8) -> bool { (0x13 <= opcode <= 0x1C) || (0x49 <= opcode <= 0x4D) }

/// Whether `opcode` is a componentwise vector operation of two operands.
pub open spec fn is_vector_binary_opcode(opcode: u8) -> bool { (0x1D <= opcode <= 0x26) || (0x4E <= opcode <= 0x52) }

/// The two-operand operation a scalar opcode names.
pub open spec fn spec_binary_op_of(opcode: u8) -> ScalarBinaryOp {
    if opcode == 0x13 {
        ScalarBinaryOp::Add(OpDataType::F32)
    } else if opcode == 0x14 {
        ScalarBinaryOp::Subtract(OpDataType::F32)
    } else if opcode == 0x15 {
        ScalarBinaryOp::Multiply(OpDataType::F32)
    } else if opcode == 0x16 {
        ScalarBinaryOp::Divide(OpDataType::F32)
    } else if opcode == 0x17 {
        ScalarBinaryOp::Modulo(OpDataType::F32)
    } else if opcode == 0x18 {
        ScalarBinaryOp::Add(OpDataType::I32)
    } else if opcode == 0x19 {
        ScalarBinaryOp::Subtract(OpDataType::I32)
    } else if opcode == 0x1A {
        ScalarBinaryOp::Multiply(OpDataType::I32)
    } else if opcode == 0x1B {
        ScalarBinaryOp::Divide(OpDataType::I32)
    } else if opcode == 0x1C {
        ScalarBinaryOp::Modulo(OpDataType::I32)
    } else if opcode == 0x49 {
        ScalarBinaryOp::Atan2
    } else if opcode == 0x4A {
        ScalarBinaryOp::And
    } else if opcode == 0x4B {
        ScalarBinaryOp::AndNot
    } else if opcode == 0x4C {
        ScalarBinaryOp::Or
    } else {
        ScalarBinaryOp::Xor
    }
}

/// The two-operand operation a scalar opcode names.
pub fn binary_op_of(opcode: u8) -> (r: ScalarBinaryOp)
    requires
        is_scalar_binary_opcode(opcode),
    ensures
        r == spec_binary_op_of(opcode),
{
    match opcode {
        0x13 => ScalarBinaryOp::Add(OpDataType::F32),
        0x14 => ScalarBinaryOp::Subtract(OpDataType::F32),
        0x15 => ScalarBinaryOp::Multiply(OpDataType::F32),
        0x16 => ScalarBinaryOp::Divide(OpDataType::F32),
        0x17 => ScalarBinaryOp::Modulo(OpDataType::F32),
        0x18 => ScalarBinaryOp::Add(OpDataType::I32),
        0x19 => ScalarBinaryOp::Subtract(OpDataType::I32),
        0x1A => ScalarBinaryOp::Multiply(OpDataType::I32),
        0x1B => ScalarBinaryOp::Divide(OpDataType::I32),
        0x1C => ScalarBinaryOp::Modulo(OpDataType::I32),
        0x49 => ScalarBinaryOp::Atan2,
        0x4A => ScalarBinaryOp::And,
        0x4B => ScalarBinaryOp::AndNot,
        0x4C => ScalarBinaryOp::Or,
        _ => ScalarBinaryOp::Xor,
    }
}

/// The componentwise two-operand operation a vector opcode names.
pub open spec fn spec_vector_binary_op_of(opcode: u8) -> ScalarBinaryOp {
    if opcode == 0x1D {
        ScalarBinaryOp::Add(OpDataType::F32)
    } else if opcode == 0x1E {
        ScalarBinaryOp::Subtract(OpDataType::F32)
    } else if opcode == 0x1F {
        ScalarBinaryOp::Multiply(OpDataType::F32)
    } else if opcode == 0x20 {
        ScalarBinaryOp::Divide(OpDataType::F32)
    } else if opcode == 0x21 {
        ScalarBinaryOp::Modulo(OpDataType::F32)
    } else if opcode == 0x22 {
        ScalarBinaryOp::Add(OpDataType::I32)
    } else if opcode == 0x23 {
        ScalarBinaryOp::Subtract(OpDataType::I32)
    } else if opcode == 0x24 {
        ScalarBinaryOp::Multiply(OpDataType::I32)
    } else if opcode == 0x25 {
        ScalarBinaryOp::Divide(OpDataType::I32)
    } else if opcode == 0x26 {
        ScalarBinaryOp::Modulo(OpDataType::I32)
    } else if opcode == 0x4E {
        ScalarBinaryOp::Atan2
    } else if opcode == 0x4F {
        ScalarBinaryOp::And
    } else if opcode == 0x50 {
        ScalarBinaryOp::AndNot
    } else if opcode == 0x51 {
        ScalarBinaryOp::Or
    } else {
        ScalarBinaryOp::Xor
    }
}

/// The componentwise two-operand operation a vector opcode names.
pub fn vector_binary_op_of(opcode: u8) -> (r: ScalarBinaryOp)
    requires
        is_vector_binary_opcode(opcode),
    ensures
        r == spec_vector_binary_op_of(opcode),
{
    match opcode {
        0x1D => ScalarBinaryOp::Add(OpDataType::F32),
        0x1E => ScalarBinaryOp::Subtract(OpDataType::F32),
        0x1F => ScalarBinaryOp::Multiply(OpDataType::F32),
        0x20 => ScalarBinaryOp::Divide(OpDataType::F32),
        0x21 => ScalarBinaryOp::Modulo(OpDataType::F32),
        0x22 => ScalarBinaryOp::Add(OpDataType::I32),
        0x23 => ScalarBinaryOp::Subtract(OpDataType::I32),
        0x24 => ScalarBinaryOp::Multiply(OpDataType::I32),
        0x25 => ScalarBinaryOp::Divide(OpDataType::I32),
        0x26 => ScalarBinaryOp::Modulo(OpDataType::I32),
        0x4E => ScalarBinaryOp::Atan2,
        0x4F => ScalarBinaryOp::And,
        0x50 => ScalarBinaryOp::AndNot,
        0x51 => ScalarBinaryOp::Or,
        _ => ScalarBinaryOp::Xor,
    }
}

/// The one-operand operation a unary opcode names; scalar opcodes run from 0x27, vector ones from 0x38.
pub open spec fn spec_unary_op_of(opcode: u8) -> ScalarUnaryOp {
    let k = if opcode >= 0x38 { opcode - 0x38 } else { opcode - 0x27 };
    if k == 0 {
        ScalarUnaryOp::Convert(OpDataTypeConversion::F32ToI32)
    } else if k == 1 {
        ScalarUnaryOp::Convert(OpDataTypeConversion::F32ToU32)
    } else if k == 2 {
        ScalarUnaryOp::Convert(OpDataTypeConversion::U32ToF32)
    } else if k == 3 {
        ScalarUnaryOp::Convert(OpDataTypeConversion::I32ToF32)
    } else if k == 4 {
        ScalarUnaryOp::Negative(OpDataType::F32)
    } else if k == 5 {
        ScalarUnaryOp::Negative(OpDataType::I32)
    } else if k == 6 {
        ScalarUnaryOp::Sign(OpDataType::F32)
    } else if k == 7 {
        ScalarUnaryOp::Sign(OpDataType::I32)
    } else if k == 8 {
        ScalarUnaryOp::Reciporocal
    } else if k == 9 {
        ScalarUnaryOp::Sin
    } else if k == 10 {
        ScalarUnaryOp::Cos
    } else if k == 11 {
        ScalarUnaryOp::Tan
    } else if k == 12 {
        ScalarUnaryOp::ASin
    } else if k == 13 {
        ScalarUnaryOp::ACos
    } else if k == 14 {
        ScalarUnaryOp::Atan
    } else if k == 15 {
        ScalarUnaryOp::Ln
    } else {
        ScalarUnaryOp::Exp
    }
}

/// The one-operand operation a unary opcode names.
pub fn unary_op_of(opcode: u8) -> (r: ScalarUnaryOp)
    requires
        0x27 <= opcode <= 0x48,
    ensures
        r == spec_unary_op_of(opcode),
{
    let k: u8 = if opcode >= 0x38 { opcode - 0x38 } else { opcode - 0x27 };
    match k {
        0 => ScalarUnaryOp::Convert(OpDataTypeConversion::F32ToI32),
        1 => ScalarUnaryOp::Convert(OpDataTypeConversion::F32ToU32),
        2 => ScalarUnaryOp::Convert(OpDataTypeConversion::U32ToF32),
        3 => ScalarUnaryOp::Convert(OpDataTypeConversion::I32ToF32),
        4 => ScalarUnaryOp::Negative(OpDataType::F32),
        5 => ScalarUnaryOp::Negative(OpDataType::I32),
        6 => ScalarUnaryOp::Sign(OpDataType::F32),
        7 => ScalarUnaryOp::Sign(OpDataType::I32),
        8 => ScalarUnaryOp::Reciporocal,
        9 => ScalarUnaryOp::Sin,
        10 => ScalarUnaryOp::Cos,
        11 => ScalarUnaryOp::Tan,
        12 => ScalarUnaryOp::ASin,
        13 => ScalarUnaryOp::ACos,
        14 => ScalarUnaryOp::Atan,
        15 => ScalarUnaryOp::Ln,
        _ => ScalarUnaryOp::Exp,
    }
}

/// The vector-to-scalar operation an opcode names.
pub open spec fn spec_vector_to_scalar_op_of(opcode: u8) -> VectorToScalarUnaryOp {
    if opcode == 0x56 {
        VectorToScalarUnaryOp::Magnitude2
    } else if opcode == 0x57 {
        VectorToScalarUnaryOp::Magnitude3
    } else if opcode == 0x58 {
        VectorToScalarUnaryOp::Magnitude4
    } else if opcode == 0x59 {
        VectorToScalarUnaryOp::SquareMagnitude2
    } else if opcode == 0x5A {
        VectorToScalarUnaryOp::SquareMagnitude3
    } else {
        VectorToScalarUnaryOp::SquareMagnitude4
    }
}

/// The vector-to-scalar operation an opcode names.
pub fn vector_to_scalar_op_of(opcode: u8) -> (r: VectorToScalarUnaryOp)
    requires
        0x56 <= opcode <= 0x5B,
    ensures
        r == spec_vector_to_scalar_op_of(opcode),
{
    match opcode {
        0x56 => VectorToScalarUnaryOp::Magnitude2,
        0x57 => VectorToScalarUnaryOp::Magnitude3,
        0x58 => VectorToScalarUnaryOp::Magnitude4,
        0x59 => VectorToScalarUnaryOp::SquareMagnitude2,
        0x5A => VectorToScalarUnaryOp::SquareMagnitude3,
        _ => VectorToScalarUnaryOp::SquareMagnitude4,
    }
}

/// The vector-to-vector operation an opcode names.
pub open spec fn spec_vector_to_vector_op_of(opcode: u8) -> VectorToVectorUnaryOp {
    if opcode == 0x53 {
        VectorToVectorUnaryOp::Normalize2
    } else if opcode == 0x54 {
        VectorToVectorUnaryOp::Normalize3
    } else {
        VectorToVectorUnaryOp::Normalize4
    }
}

/// The vector-to-vector operation an opcode names.
pub fn vector_to_vector_op_of(opcode: u8) -> (r: VectorToVectorUnaryOp)
    requires
        0x53 <= opcode <= 0x55,
    ensures
        r == spec_vector_to_vector_op_of(opcode),
{
    match opcode {
        0x53 => VectorToVectorUnaryOp::Normalize2,
        0x54 => VectorToVectorUnaryOp::Normalize3,
        _ => VectorToVectorUnaryOp::Normalize4,
    }
}

/// The scalar comparison operation of a compare opcode (0x0C: f32, 0x0E: i32, 0x10: unsigned).
pub open spec fn spec_compare_op(opcode: u8, c: Comparison) -> ScalarBinaryOp {
    if opcode == 0x0C {
        ScalarBinaryOp::Compare(OpDataType::F32, c)
    } else if opcode == 0x0E {
        ScalarBinaryOp::Compare(OpDataType::I32, c)
    } else {
        ScalarBinaryOp::CompareUnsigned(c)
    }
}

/// Whether `opcode` is one of the scalar compare opcodes.
pub open spec fn is_scalar_compare_opcode(opcode: u8) -> bool {
    opcode == 0x0C || opcode == 0x0E || opcode == 0x10
}

/// Whether `opcode` is one of the vector compare opcodes.
pub open spec fn is_vector_compare_opcode(opcode: u8) -> bool {
    opcode == 0x0D || opcode == 0x0F || opcode == 0x11
}

/// The comparison byte at `p`, and the position after it.
pub open spec fn spec_comparison(code: Seq<u8>, p: int) -> Result<(Comparison, int), ShaderParseError> {
    if p < 0 || p >= code.len() {
        Err(ShaderParseError::UnexpectedEndOfCode)
    } else {
        match Comparison::spec_from_u8(code[p]) {
            None => Err(ShaderParseError::InvalidComparison),
            Some(c) => Ok((c, p + 1)),
        }
    }
}

/// Whether the instruction at `start` is a vector compare whose operands all read well:
/// decoding stops there without a result.
pub open spec fn spec_decode_aborts(code: Seq<u8>, start: int) -> bool {
    0 <= start < code.len() && is_vector_compare_opcode(code[start]) && (match spec_operands_vvv(code, start + 1) {
        Err(_) => false,
        Ok((_, _, _, p)) => spec_comparison(code, p) is Ok,
    })
}

/// The instruction whose opcode is at `start`, and the position after it.
#[verifier::opaque]
pub open spec fn spec_decode(code: Seq<u8>, start: int) -> Result<(ShaderInstruction, int), ShaderParseError> {
    let op = code[start];
    let i = start + 1;

    if op == 0x00 {
        match spec_operands_v(code, i) {
            Err(e) => Err(e),
            Ok((src, p)) => Ok((ShaderInstruction::PushVector(src), p)),
        }
    } else if op == 0x01 {
        match spec_operands_s(code, i) {
            Err(e) => Err(e),
            Ok((src, p)) => Ok((ShaderInstruction::PushScalar(src), p)),
        }
    } else if op == 0x02 {
        match spec_operands_v(code, i) {
            Err(e) => Err(e),
            Ok((dst, p)) => Ok((ShaderInstruction::PopVector(dst), p)),
        }
    } else if op == 0x03 {
        match spec_operands_s(code, i) {
            Err(e) => Err(e),
            Ok((dst, p)) => Ok((ShaderInstruction::PopScalar(dst), p)),
        }
    } else if op == 0x04 {
        match spec_operands_vv(code, i) {
            Err(e) => Err(e),
            Ok((to, from, p)) => Ok((ShaderInstruction::CopyVectorRegister { from, to }, p)),
        }
    } else if op == 0x05 {
        match spec_operands_ss(code, i) {
            Err(e) => Err(e),
            Ok((to, from, p)) => Ok((ShaderInstruction::CopyScalarRegister { from, to }, p)),
        }
    } else if op == 0x06 {
        match spec_operands_svc(code, i) {
            Err(e) => Err(e),
            Ok((to, from, channel, p)) => Ok((ShaderInstruction::CopyVectorComponentToScalar { channel, from, to }, p)),
        }
    } else if op == 0x07 {
        match spec_operands_vcs(code, i) {
            Err(e) => Err(e),
            Ok((to, channel, from, p)) => Ok((ShaderInstruction::CopyScalarToVectorComponent { channel, from, to }, p)),
        }
    } else if op == 0x08 {
        match spec_operands_svv(code, i) {
            Err(e) => Err(e),
            Ok((cond, to, from, p)) => Ok((ShaderInstruction::ConditionallyCopyVectorRegister { cond, from, to }, p)),
        }
    } else if op == 0x09 {
        match spec_operands_sss(code, i) {
            Err(e) => Err(e),
            Ok((cond, to, from, p)) => Ok((ShaderInstruction::ConditionallyCopyScalarRegister { cond, from, to }, p)),
        }
    } else if op == 0x0A {
        match spec_operands_ssvc(code, i) {
            Err(e) => Err(e),
            Ok((cond, to, from, channel, p)) => Ok((ShaderInstruction::ConditionallyCopyVectorComponentToScalar { cond, channel, from, to }, p)),
        }
    } else if op == 0x0B {
        match spec_operands_svcs(code, i) {
            Err(e) => Err(e),
            Ok((cond, to, channel, from, p)) => Ok((ShaderInstruction::ConditionallyCopyScalarToVectorComponent { cond, channel, from, to }, p)),
        }
    } else if op == 0x12 {
        match spec_operands_vvvvvv(code, i) {
            Err(e) => Err(e),
            Ok((dest, a0, a1, a2, a3, x, p)) => Ok((ShaderInstruction::MatrixMultiply4x4V4 { a0, a1, a2, a3, x, dest }, p)),
        }
    } else if is_scalar_binary_opcode(op) {
        match spec_operands_sss(code, i) {
            Err(e) => Err(e),
            Ok((dst, src_a, src_b, p)) => Ok((ShaderInstruction::ScalarBinaryOp { src_a, src_b, dst, op: spec_binary_op_of(op) }, p)),
        }
    } else if is_vector_binary_opcode(op) {
        match spec_operands_vvv(code, i) {
            Err(e) => Err(e),
            Ok((dst, src_a, src_b, p)) => Ok((ShaderInstruction::VectorComponentwiseScalarBinaryOp { src_a, src_b, dst, op: spec_vector_binary_op_of(op) }, p)),
        }
    } else if 0x27 <= op <= 0x37 {
        match spec_operands_ss(code, i) {
            Err(e) => Err(e),
            Ok((dst, src, p)) => Ok((ShaderInstruction::ScalarUnaryOp { src, dst, op: spec_unary_op_of(op) }, p)),
        }
    } else if 0x38 <= op <= 0x48 {
        match spec_operands_vv(code, i) {
            Err(e) => Err(e),
            Ok((dst, src, p)) => Ok((ShaderInstruction::VectorComponentwiseScalarUnaryOp { src, dst, op: spec_unary_op_of(op) }, p)),
        }
    } else if 0x56 <= op <= 0x5B {
        match spec_operands_sv(code, i) {
            Err(e) => Err(e),
            Ok((dst, src, p)) => Ok((ShaderInstruction::VectorToScalarUnaryOp { src, dst, op: spec_vector_to_scalar_op_of(op) }, p)),
        }
    } else if 0x53 <= op <= 0x55 {
        match spec_operands_vv(code, i) {
            Err(e) => Err(e),
            Ok((dst, src, p)) => Ok((ShaderInstruction::VectorToVectorUnaryOp { src, dst, op: spec_vector_to_vector_op_of(op) }, p)),
        }
    } else if is_scalar_compare_opcode(op) {
        match spec_operands_sss(code, i) {
            Err(e) => Err(e),
            Ok((dst, src_a, src_b, p)) => match spec_comparison(code, p) {
                Err(e) => Err(e),
                Ok((c, q)) => Ok((ShaderInstruction::ScalarBinaryOp { src_a, src_b, dst, op: spec_compare_op(op, c) }, q)),
            },
        }
    } else if is_vector_compare_opcode(op) {
        match spec_operands_vvv(code, i) {
            Err(e) => Err(e),
            Ok((_, _, _, p)) => match spec_comparison(code, p) {
                Err(e) => Err(e),
                Ok(_) => Err(ShaderParseError::UnknownOpcode),
            },
        }
    } else {
        Err(ShaderParseError::UnknownOpcode)
    }
}

/// Decodes the instruction whose opcode is at `start`; gives it and the position after it.
pub fn parse_instruction(code: &[u8], start: usize) -> (r: Result<(ShaderInstruction, usize), ShaderParseError>)
    requires
        start < code@.len(),
        !spec_decode_aborts(code@, start as int),
    ensures
        spec_decode(code@, start as int) == (match r {
            Ok((ins, j)) => Ok((ins, j as int)),
            Err(e) => Err::<(ShaderInstruction, int), ShaderParseError>(e),
        }),
{
    proof { reveal(spec_decode); }
    let opcode = code[start];
    let mut i: usize = start + 1;
    match opcode {
        0x00 => {
            let src = match get_register::<Vector>(&mut i, code) { Ok(x) => x, Err(e) => { return Err(e); } };
            Ok((ShaderInstruction::PushVector(src), i))
        },
        0x01 => {
            let src = match get_register::<Scalar>(&mut i, code) { Ok(x) => x, Err(e) => { return Err(e); } };
            Ok((ShaderInstruction::PushScalar(src), i))
        },
        0x02 => {
            let dst = match get_register::<Vector>(&mut i, code) { Ok(x) => x, Err(e) => { return Err(e); } };
            Ok((ShaderInstruction::PopVector(dst), i))
        },
        0x03 => {
            let dst = match get_register::<Scalar>(&mut i, code) { Ok(x) => x, Err(e) => { return Err(e); } };
            Ok((ShaderInstruction::PopScalar(dst), i))
        },
        0x04 => {
            let to = match get_register::<Vector>(&mut i, code) { Ok(x) => x, Err(e) => { return Err(e); } };
            let from = match get_register::<Vector>(&mut i, code) { Ok(x) => x, Err(e) => { return Err(e); } };
            Ok((ShaderInstruction::CopyVectorRegister { from, to }, i))
        },
        0x05 => {
            let to = match get_register::<Scalar>(&mut i, code) { Ok(x) => x, Err(e) => { return Err(e); } };
            let from = match get_register::<Scalar>(&mut i, code) { Ok(x) => x, Err(e) => { return Err(e); } };
            Ok((ShaderInstruction::CopyScalarRegister { from, to }, i))
        },
        0x06 => {
            let to = match get_register::<Scalar>(&mut i, code) { Ok(x) => x, Err(e) => { return Err(e); } };
            let from = match get_register::<Vector>(&mut i, code) { Ok(x) => x, Err(e) => { return Err(e); } };
            let channel = match get_vector_channel(&mut i, code) { Ok(x) => x, Err(e) => { return Err(e); } };
            Ok((ShaderInstruction::CopyVectorComponentToScalar { channel, from, to }, i))
        },
        0x07 => {
            let to = match get_register::<Vector>(&mut i, code) { Ok(x) => x, Err(e) => { return Err(e); } };
            let channel = match get_vector_channel(&mut i, code) { Ok(x) => x, Err(e) => { return Err(e); } };
            let from = match get_register::<Scalar>(&mut i, code) { Ok(x) => x, Err(e) => { return Err(e); } };
            Ok((ShaderInstruction::CopyScalarToVectorComponent { channel, from, to }, i))
        },
        0x08 => {
            let cond = match get_register::<Scalar>(&mut i, code) { Ok(x) => x, Err(e) => { return Err(e); } };
            let to = match get_register::<Vector>(&mut i, code) { Ok(x) => x, Err(e) => { return Err(e); } };
            let from = match get_register::<Vector>(&mut i, code) { Ok(x) => x, Err(e) => { return Err(e); } };
            Ok((ShaderInstruction::ConditionallyCopyVectorRegister { cond, from, to }, i))
        },
        0x09 => {
            let cond = match get_register::<Scalar>(&mut i, code) { Ok(x) => x, Err(e) => { return Err(e); } };
            let to = match get_register::<Scalar>(&mut i, code) { Ok(x) => x, Err(e) => { return Err(e); } };
            let from = match get_register::<Scalar>(&mut i, code) { Ok(x) => x, Err(e) => { return Err(e); } };
            Ok((ShaderInstruction::ConditionallyCopyScalarRegister { cond, from, to }, i))
        },
        0x0A => {
            let cond = match get_register::<Scalar>(&mut i, code) { Ok(x) => x, Err(e) => { return Err(e); } };
            let to = match get_register::<Scalar>(&mut i, code) { Ok(x) => x, Err(e) => { return Err(e); } };
            let from = match get_register::<Vector>(&mut i, code) { Ok(x) => x, Err(e) => { return Err(e); } };
            let channel = match get_vector_channel(&mut i, code) { Ok(x) => x, Err(e) => { return Err(e); } };
            Ok((ShaderInstruction::ConditionallyCopyVectorComponentToScalar { cond, channel, from, to }, i))
        },
        0x0B => {
            let cond = match get_register::<Scalar>(&mut i, code) { Ok(x) => x, Err(e) => { return Err(e); } };
            let to = match get_register::<Vector>(&mut i, code) { Ok(x) => x, Err(e) => { return Err(e); } };
            let channel = match get_vector_channel(&mut i, code) { Ok(x) => x, Err(e) => { return Err(e); } };
            let from = match get_register::<Scalar>(&mut i, code) { Ok(x) => x, Err(e) => { return Err(e); } };
            Ok((ShaderInstruction::ConditionallyCopyScalarToVectorComponent { cond, channel, from, to }, i))
        },
        0x12 => {
            let dest = match get_register::<Vector>(&mut i, code) { Ok(x) => x, Err(e) => { return Err(e); } };
            let a0 = match get_register::<Vector>(&mut i, code) { Ok(x) => x, Err(e) => { return Err(e); } };
            let a1 = match get_register::<Vector>(&mut i, code) { Ok(x) => x, Err(e) => { return Err(e); } };
            let a2 = match get_register::<Vector>(&mut i, code) { Ok(x) => x, Err(e) => { return Err(e); } };
            let a3 = match get_register::<Vector>(&mut i, code) { Ok(x) => x, Err(e) => { return Err(e); } };
            let x = match get_register::<Vector>(&mut i, code) { Ok(x) => x, Err(e) => { return Err(e); } };
            Ok((ShaderInstruction::MatrixMultiply4x4V4 { a0, a1, a2, a3, x, dest }, i))
        },
        0x13..=0x1C | 0x49..=0x4D => {
            let dst = match get_register::<Scalar>(&mut i, code) { Ok(x) => x, Err(e) => { return Err(e); } };
            let src_a = match get_register::<Scalar>(&mut i, code) { Ok(x) => x, Err(e) => { return Err(e); } };
            let src_b = match get_register::<Scalar>(&mut i, code) { Ok(x) => x, Err(e) => { return Err(e); } };
            Ok((ShaderInstruction::ScalarBinaryOp { src_a, src_b, dst, op: binary_op_of(opcode) }, i))
        },
        0x1D..=0x26 | 0x4E..=0x52 => {
            let dst = match get_register::<Vector>(&mut i, code) { Ok(x) => x, Err(e) => { return Err(e); } };
            let src_a = match get_register::<Vector>(&mut i, code) { Ok(x) => x, Err(e) => { return Err(e); } };
            let src_b = match get_register::<Vector>(&mut i, code) { Ok(x) => x, Err(e) => { return Err(e); } };
            Ok((ShaderInstruction::VectorComponentwiseScalarBinaryOp { src_a, src_b, dst, op: vector_binary_op_of(opcode) }, i))
        },
        0x27..=0x37 => {
            let dst = match get_register::<Scalar>(&mut i, code) { Ok(x) => x, Err(e) => { return Err(e); } };
            let src = match get_register::<Scalar>(&mut i, code) { Ok(x) => x, Err(e) => { return Err(e); } };
            Ok((ShaderInstruction::ScalarUnaryOp { src, dst, op: unary_op_of(opcode) }, i))
        },
        0x38..=0x48 => {
            let dst = match get_register::<Vector>(&mut i, code) { Ok(x) => x, Err(e) => { return Err(e); } };
            let src = match get_register::<Vector>(&mut i, code) { Ok(x) => x, Err(e) => { return Err(e); } };
            Ok((ShaderInstruction::VectorComponentwiseScalarUnaryOp { src, dst, op: unary_op_of(opcode) }, i))
        },
        0x56..=0x5B => {
            let dst = match get_register::<Scalar>(&mut i, code) { Ok(x) => x, Err(e) => { return Err(e); } };
            let src = match get_register::<Vector>(&mut i, code) { Ok(x) => x, Err(e) => { return Err(e); } };
            Ok((ShaderInstruction::VectorToScalarUnaryOp { src, dst, op: vector_to_scalar_op_of(opcode) }, i))
        },
        0x53..=0x55 => {
            let dst = match get_register::<Vector>(&mut i, code) { Ok(x) => x, Err(e) => { return Err(e); } };
            let src = match get_register::<Vector>(&mut i, code) { Ok(x) => x, Err(e) => { return Err(e); } };
            Ok((ShaderInstruction::VectorToVectorUnaryOp { src, dst, op: vector_to_vector_op_of(opcode) }, i))
        },
        0x0C | 0x0E | 0x10 => {
            let dst = match get_register::<Scalar>(&mut i, code) { Ok(x) => x, Err(e) => { return Err(e); } };
            let src_a = match get_register::<Scalar>(&mut i, code) { Ok(x) => x, Err(e) => { return Err(e); } };
            let src_b = match get_register::<Scalar>(&mut i, code) { Ok(x) => x, Err(e) => { return Err(e); } };
            let b = match get_byte(&mut i, code) { Ok(x) => x, Err(e) => { return Err(e); } };
            let comparison = match Comparison::from_u8(b) {
                Some(c) => c,
                None => { return Err(ShaderParseError::InvalidComparison); },
            };
            let op = if opcode == 0x0C {
                ScalarBinaryOp::Compare(OpDataType::F32, comparison)
            } else if opcode == 0x0E {
                ScalarBinaryOp::Compare(OpDataType::I32, comparison)
            } else {
                ScalarBinaryOp::CompareUnsigned(comparison)
            };
            Ok((ShaderInstruction::ScalarBinaryOp { src_a, src_b, dst, op }, i))
        },
        0x0D | 0x0F | 0x11 => {
            let _dst = match get_register::<Vector>(&mut i, code) { Ok(x) => x, Err(e) => { return Err(e); } };
            let _src_a = match get_register::<Vector>(&mut i, code) { Ok(x) => x, Err(e) => { return Err(e); } };
            let _src_b = match get_register::<Vector>(&mut i, code) { Ok(x) => x, Err(e) => { return Err(e); } };
            let b = match get_byte(&mut i, code) { Ok(x) => x, Err(e) => { return Err(e); } };
            match Comparison::from_u8(b) {
                Some(_) => {
                    // excluded by the precondition: the vector compare forms have no instruction
                    Err(ShaderParseError::UnknownOpcode)
                },
                None => Err(ShaderParseError::InvalidComparison),
            }
        },
        _ => Err(ShaderParseError::UnknownOpcode),
    }
}

/// Instructions decoded from position `i` on, the `n`-th of them first, with room for `cap`
/// instructions in all; and how decoding ended.
pub open spec fn spec_parse_from(code: Seq<u8>, i: int, n: int, cap: int) -> (Seq<ShaderInstruction>, Result<(), ShaderParseError>)
    decreases code.len() - i,
{
    if i < 0 || i >= code.len() {
        (Seq::empty(), Ok(()))
    } else if n >= cap {
        (Seq::empty(), Err(ShaderParseError::ShaderTooLong))
    } else {
        match spec_decode(code, i) {
            Err(e) => (Seq::empty(), Err(e)),
            Ok((ins, j)) => if j <= i || j > code.len() {
                (Seq::empty(), Ok(()))
            } else {
                let rest = spec_parse_from(code, j, n + 1, cap);
                (seq![ins] + rest.0, rest.1)
            },
        }
    }
}

/// Whether decoding from position `i` reaches an instruction on which it stops without a result.
pub open spec fn spec_parse_aborts(code: Seq<u8>, i: int, n: int, cap: int) -> bool
    decreases code.len() - i,
{
    if i < 0 || i >= code.len() || n >= cap {
        false
    } else if spec_decode_aborts(code, i) {
        true
    } else {
        match spec_decode(code, i) {
            Err(_) => false,
            Ok((_, j)) => if j <= i || j > code.len() { false } else { spec_parse_aborts(code, j, n + 1, cap) },
        }
    }
}

/// The instructions of a whole program, with room for `cap` of them, and how decoding ended.
pub open spec fn spec_parse_shader(code: Seq<u8>, cap: int) -> (Seq<ShaderInstruction>, Result<(), ShaderParseError>) {
    spec_parse_from(code, 0, 0, cap)
}

/// Decodes a shader program into `module`.
///
/// On success the module holds the instructions in order, its count and its kind. On an error
/// the slots decoded before it have been written and count and kind are unchanged.
pub fn parse_shader_bytecode(shader_type: ShaderType, code: &[u8], module: &mut ShaderModule) -> (r: Result<(), ShaderParseError>)
    requires
        !spec_parse_aborts(code@, 0, 0, old(module).instruction_buffer@.len() as int),
    ensures
        ({
            let cap = old(module).instruction_buffer@.len() as int;
            let parsed = spec_parse_shader(code@, cap);
            &&& r == parsed.1
            &&& parsed.0.len() <= cap
            &&& final(module).instruction_buffer@ == parsed.0 + old(module).instruction_buffer@.skip(parsed.0.len() as int)
            &&& r is Ok ==> final(module).instruction_count == parsed.0.len() && final(module).shader_type == shader_type
            &&& r is Err ==> final(module).instruction_count == old(module).instruction_count
                && final(module).shader_type == old(module).shader_type
        }),
{
    let cap = module.instruction_buffer.len();
    let ghost old_buf = module.instruction_buffer@;
    let ghost full = spec_parse_from(code@, 0, 0, cap as int);
    let mut instruction: usize = 0;
    let mut i: usize = 0;
    while i < code.len()
        invariant
            i <= code@.len(),
            instruction <= cap,
            cap == old_buf.len(),
            old_buf == old(module).instruction_buffer@,
            full == spec_parse_from(code@, 0, 0, cap as int),
            module.instruction_buffer@.len() == cap,
            module.instruction_buffer@.skip(instruction as int) == old_buf.skip(instruction as int),
            full.0 == module.instruction_buffer@.take(instruction as int)
                + spec_parse_from(code@, i as int, instruction as int, cap as int).0,
            full.1 == spec_parse_from(code@, i as int, instruction as int, cap as int).1,
            !spec_parse_aborts(code@, i as int, instruction as int, cap as int),
            module.instruction_count == old(module).instruction_count,
            module.shader_type == old(module).shader_type,
        decreases code@.len() - i,
    {
        if instruction >= cap {
            proof {
                assert(module.instruction_buffer@ =~= module.instruction_buffer@.take(instruction as int)
                    + old_buf.skip(instruction as int));
                assert(full.0 =~= module.instruction_buffer@.take(instruction as int));
            }
            return Err(ShaderParseError::ShaderTooLong);
        }
        let ghost before = module.instruction_buffer@;
        match parse_instruction(code, i) {
            Err(e) => {
                proof {
                    assert(before =~= before.take(instruction as int) + old_buf.skip(instruction as int)) by {
                        assert(before.skip(instruction as int) == old_buf.skip(instruction as int));
                    }
                    assert(full.0 =~= before.take(instruction as int));
                }
                return Err(e);
            },
            Ok((ins, j)) => {
                proof { lemma_decode_advances(code@, i as int); }
                module.instruction_buffer.set(instruction, ins);
                proof {
                    let after = module.instruction_buffer@;
                    assert(after.take(instruction as int + 1) =~= before.take(instruction as int).push(ins));
                    assert(after.skip(instruction as int + 1) =~= before.skip(instruction as int + 1));
                    assert(before.skip(instruction as int + 1) =~= before.skip(instruction as int).skip(1));
                    assert(old_buf.skip(instruction as int + 1) =~= old_buf.skip(instruction as int).skip(1));
                    let rest = spec_parse_from(code@, j as int, instruction as int + 1, cap as int);
                    assert(spec_parse_from(code@, i as int, instruction as int, cap as int).0 == seq![ins] + rest.0);
                    assert(before.take(instruction as int) + (seq![ins] + rest.0)
                        =~= before.take(instruction as int).push(ins) + rest.0);
                }
                instruction = instruction + 1;
                i = j;
            },
        }
    }
    proof {
        assert(module.instruction_buffer@ =~= module.instruction_buffer@.take(instruction as int)
            + old_buf.skip(instruction as int));
        assert(full.0 =~= module.instruction_buffer@.take(instruction as int));
    }
    module.instruction_count = instruction;
    module.shader_type = shader_type;
    Ok(())
}

/// Decoding an instruction moves forward, and not past the end of the code.
pub proof fn lemma_decode_advances(code: Seq<u8>, start: int)
    requires
        0 <= start < code.len(),
    ensures
        match spec_decode(code, start) {
            Ok((_, j)) => start < j <= code.len(),
            Err(_) => true,
        },
{
    reveal(spec_decode);
}

} // verus!
