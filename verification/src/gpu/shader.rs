//! Types of the shading units: instructions, registers and resource bindings.

use vstd::prelude::*;
use core::marker::PhantomData;

verus! {

/// Marker trait of the two register kinds.
pub trait RegisterType {}

/// Stage of the pipeline a shader runs in.
#[derive(Copy, Clone, Debug, PartialEq, Eq)]
pub enum ShaderType {
    Vertex,
    Fragment,
    Compute,
}

impl ShaderType {

    pub open spec fn spec_from_u8(x: u8) -> Option<ShaderType> {
        if x == 0 {
            Some(ShaderType::Vertex)
        } else if x == 1 {
            Some(ShaderType::Fragment)
        } else if x == 2 {
            Some(ShaderType::Compute)
        } else {
            None
        }
    }

    /// Decodes the shader kind number used in GPU commands.
    pub fn from_u8(x: u8) -> (r: Option<Self>)
        ensures
            r == Self::spec_from_u8(x),
    {
        match x {
            0 => Some(ShaderType::Vertex),
            1 => Some(ShaderType::Fragment),
            2 => Some(ShaderType::Compute),
            _ => None,
        }
    }
}

/// A parsed shader program.
pub struct ShaderModule {
    pub instruction_buffer: Vec<ShaderInstruction>,
    pub instruction_count: usize,
    pub shader_type: ShaderType,
}

/// Number of instruction slots of a shader module.
pub const SHADER_INSTRUCTION_CAPACITY: usize = 1024;

impl ShaderModule {
    /// An empty module: every slot holds `Nop`, no instruction counted.
    pub fn new() -> (r: Self)
        ensures
            r.instruction_buffer@.len() == SHADER_INSTRUCTION_CAPACITY,
            forall|k: int| 0 <= k < SHADER_INSTRUCTION_CAPACITY ==> r.instruction_buffer@[k] == ShaderInstruction::Nop,
            r.instruction_count == 0,
            r.shader_type == ShaderType::Vertex,
    {
        let mut buf: Vec<ShaderInstruction> = Vec::new();
        while buf.len() < SHADER_INSTRUCTION_CAPACITY
            invariant
                buf@.len() <= SHADER_INSTRUCTION_CAPACITY,
                forall|k: int| 0 <= k < buf@.len() ==> buf@[k] == ShaderInstruction::Nop,
            decreases SHADER_INSTRUCTION_CAPACITY - buf@.len(),
        {
            buf.push(ShaderInstruction::Nop);
        }
        ShaderModule { instruction_buffer: buf, instruction_count: 0, shader_type: ShaderType::Vertex }
    }
}

/// Maps the texture and buffer numbers a shader names to the GPU's slots.
#[derive(Clone, Debug)]
pub struct ResourceMap {
    pub texture: [u8; 64],
    pub buffer: [u8; 256],
}

impl ResourceMap {
    /// The identity map: every number names the slot of the same number.
    pub fn identity() -> (r: Self)
        ensures
            forall|k: int| 0 <= k < 64 ==> r.texture@[k] == k,
            forall|k: int| 0 <= k < 256 ==> r.buffer@[k] == k,
    {
        let mut texture = [0u8; 64];
        let mut buffer = [0u8; 256];
        let mut i: usize = 0;
        while i < 256
            invariant
                i <= 256,
                texture@.len() == 64,
                buffer@.len() == 256,
                forall|k: int| 0 <= k < i && k < 64 ==> texture@[k] == k,
                forall|k: int| 0 <= k < i ==> buffer@[k] == k,
            decreases 256 - i,
        {
            if i < 64 {
                texture[i] = i as u8;
            }
            buffer[i] = i as u8;
            i = i + 1;
        }
        ResourceMap { texture, buffer }
    }
}

impl Default for ResourceMap {
    fn default() -> (r: Self)
        ensures
            forall|k: int| 0 <= k < 64 ==> r.texture@[k] == k,
            forall|k: int| 0 <= k < 256 ==> r.buffer@[k] == k,
    {
        Self::identity()
    }
}

/// Number of components of a value read into a register.
#[derive(Copy, Clone, Debug, PartialEq, Eq)]
pub enum ShaderCardinality {
    Scalar,
    V2,
    V3,
    V4,
}

impl ShaderCardinality {

    pub open spec fn spec_from_u8(x: u8) -> Option<ShaderCardinality> {
        if x == 0 {
            Some(ShaderCardinality::Scalar)
        } else if x == 1 {
            Some(ShaderCardinality::V2)
        } else if x == 2 {
            Some(ShaderCardinality::V3)
        } else if x == 3 {
            Some(ShaderCardinality::V4)
        } else {
            None
        }
    }

    /// Decodes the cardinality number used in GPU commands.
    pub fn from_u8(x: u8) -> (r: Option<Self>)
        ensures
            r == Self::spec_from_u8(x),
    {
        match x {
            0 => Some(ShaderCardinality::Scalar),
            1 => Some(ShaderCardinality::V2),
            2 => Some(ShaderCardinality::V3),
            3 => Some(ShaderCardinality::V4),
            _ => None,
        }
    }
}

/// How the bytes of a shader input are turned into a register value.
#[derive(Copy, Clone, Debug, PartialEq, Eq)]
pub enum ShaderInputType {
    UIntFromU8,
    UIntFromU16,
    UIntFromU32,
    IntFromI8,
    IntFromI16,
    IntFromI32,
    F32FromU8,
    F32FromU16,
    F32FromU32,
    F32FromI8,
    F32FromI16,
    F32FromI32,
    F32FromUNorm8,
    F32FromUNorm16,
    F32FromUNorm32,
    F32FromINorm8,
    F32FromINorm16,
    F32FromINorm32,
    F32FromF32,
}

impl ShaderInputType {

    pub open spec fn spec_from_u8(x: u8) -> Option<ShaderInputType> {
        if x == 0 {
            Some(ShaderInputType::UIntFromU8)
        } else if x == 1 {
            Some(ShaderInputType::UIntFromU16)
        } else if x == 2 {
            Some(ShaderInputType::UIntFromU32)
        } else if x == 3 {
            Some(ShaderInputType::IntFromI8)
        } else if x == 4 {
            Some(ShaderInputType::IntFromI16)
        } else if x == 5 {
            Some(ShaderInputType::IntFromI32)
        } else if x == 6 {
            Some(ShaderInputType::F32FromU8)
        } else if x == 7 {
            Some(ShaderInputType::F32FromU16)
        } else if x == 8 {
            Some(ShaderInputType::F32FromU32)
        } else if x == 9 {
            Some(ShaderInputType::F32FromI8)
        } else if x == 10 {
            Some(ShaderInputType::F32FromI16)
        } else if x == 11 {
            Some(ShaderInputType::F32FromI32)
        } else if x == 12 {
            Some(ShaderInputType::F32FromUNorm8)
        } else if x == 13 {
            Some(ShaderInputType::F32FromUNorm16)
        } else if x == 14 {
            Some(ShaderInputType::F32FromUNorm32)
        } else if x == 15 {
            Some(ShaderInputType::F32FromINorm8)
        } else if x == 16 {
            Some(ShaderInputType::F32FromINorm16)
        } else if x == 17 {
            Some(ShaderInputType::F32FromINorm32)
        } else if x == 18 {
            Some(ShaderInputType::F32FromF32)
        } else {
            None
        }
    }

    /// Decodes the input type number used in GPU commands.
    pub fn from_u8(x: u8) -> (r: Option<Self>)
        ensures
            r == Self::spec_from_u8(x),
    {
        match x {
            0 => Some(ShaderInputType::UIntFromU8),
            1 => Some(ShaderInputType::UIntFromU16),
            2 => Some(ShaderInputType::UIntFromU32),
            3 => Some(ShaderInputType::IntFromI8),
            4 => Some(ShaderInputType::IntFromI16),
            5 => Some(ShaderInputType::IntFromI32),
            6 => Some(ShaderInputType::F32FromU8),
            7 => Some(ShaderInputType::F32FromU16),
            8 => Some(ShaderInputType::F32FromU32),
            9 => Some(ShaderInputType::F32FromI8),
            10 => Some(ShaderInputType::F32FromI16),
            11 => Some(ShaderInputType::F32FromI32),
            12 => Some(ShaderInputType::F32FromUNorm8),
            13 => Some(ShaderInputType::F32FromUNorm16),
            14 => Some(ShaderInputType::F32FromUNorm32),
            15 => Some(ShaderInputType::F32FromINorm8),
            16 => Some(ShaderInputType::F32FromINorm16),
            17 => Some(ShaderInputType::F32FromINorm32),
            18 => Some(ShaderInputType::F32FromF32),
            _ => None,
        }
    }

    /// Size in bytes of one element of this input type.
    pub open spec fn spec_element_size(self) -> usize {
        match self {
            ShaderInputType::UIntFromU8 | ShaderInputType::IntFromI8 | ShaderInputType::F32FromU8
            | ShaderInputType::F32FromI8 | ShaderInputType::F32FromUNorm8
            | ShaderInputType::F32FromINorm8 => 1,
            ShaderInputType::UIntFromU16 | ShaderInputType::IntFromI16 | ShaderInputType::F32FromU16
            | ShaderInputType::F32FromI16 | ShaderInputType::F32FromUNorm16
            | ShaderInputType::F32FromINorm16 => 2,
            _ => 4,
        }
    }

    /// Size in bytes of one element of this input type.
    pub fn element_size(&self) -> (r: usize)
        ensures
            r == self.spec_element_size(),
    {
        match self {
            ShaderInputType::UIntFromU8 | ShaderInputType::IntFromI8 | ShaderInputType::F32FromU8
            | ShaderInputType::F32FromI8 | ShaderInputType::F32FromUNorm8
            | ShaderInputType::F32FromINorm8 => 1,
            ShaderInputType::UIntFromU16 | ShaderInputType::IntFromI16 | ShaderInputType::F32FromU16
            | ShaderInputType::F32FromI16 | ShaderInputType::F32FromUNorm16
            | ShaderInputType::F32FromINorm16 => 2,
            _ => 4,
        }
    }
}

/// Fills one shader constant from a buffer.
#[derive(Copy, Clone, Debug, PartialEq, Eq)]
pub struct ShaderConstantAssignment {
    pub constant: u8,
    pub source_buffer: u8,
    pub offset: u32,
    pub t: ShaderInputType,
    pub c: ShaderCardinality,
}

/// Register kind of four-component registers.
#[derive(Copy, Clone, Debug, PartialEq, Eq, Structural)]
pub struct Vector;

impl RegisterType for Vector {}

/// Register kind of one-component registers.
#[derive(Copy, Clone, Debug, PartialEq, Eq, Structural)]
pub struct Scalar;

impl RegisterType for Scalar {}

/// A register of a shading unit, of kind `Type`.
#[derive(Copy, Debug, PartialEq, Eq)]
pub enum RegisterAddress<Type: RegisterType> {
    Local(u8, PhantomData<Type>),
    Constant(u8, PhantomData<Type>),
    Input(u8, PhantomData<Type>),
    Output(u8, PhantomData<Type>),
}

impl<Type: RegisterType> Clone for RegisterAddress<Type> {
    fn clone(&self) -> (r: Self)
        ensures
            r == *self,
    {
        match self {
            RegisterAddress::Local(i, _) => RegisterAddress::Local(*i, PhantomData),
            RegisterAddress::Constant(i, _) => RegisterAddress::Constant(*i, PhantomData),
            RegisterAddress::Input(i, _) => RegisterAddress::Input(*i, PhantomData),
            RegisterAddress::Output(i, _) => RegisterAddress::Output(*i, PhantomData),
        }
    }
}

/// One component of a vector register.
#[derive(Copy, Clone, Debug, PartialEq, Eq, Structural)]
pub enum VectorChannel {
    X,
    Y,
    Z,
    W,
}

impl VectorChannel {
    /// Position of the component in a vector.
    pub open spec fn spec_index(self) -> usize {
        match self {
            VectorChannel::X => 0,
            VectorChannel::Y => 1,
            VectorChannel::Z => 2,
            VectorChannel::W => 3,
        }
    }

    /// Position of the component in a vector.
    pub fn index(&self) -> (r: usize)
        ensures
            r == self.spec_index(),
    {
        match self {
            VectorChannel::X => 0,
            VectorChannel::Y => 1,
            VectorChannel::Z => 2,
            VectorChannel::W => 3,
        }
    }
}

/// Width of one element read from a buffer.
#[derive(Copy, Clone, Debug, PartialEq, Eq)]
pub enum BufferReadType {
    D8,
    D16,
    D32,
}

/// Number and width of the elements read from a buffer into a vector.
#[derive(Copy, Clone, Debug, PartialEq, Eq)]
pub enum VectorBufferReadType {
    Scalar(BufferReadType),
    V2(BufferReadType),
    V3(BufferReadType),
    V4(BufferReadType),
}

/// Format of one element written to a buffer.
#[derive(Copy, Clone, Debug, PartialEq, Eq)]
pub enum BufferWriteType {
    I8,
    I16,
    I32,
    U8,
    U16,
    U32,
    INorm8,
    INorm16,
    INorm32,
    UNorm8,
    UNorm16,
    UNorm32,
    F32,
}

/// Number and format of the elements written from a vector to a buffer.
#[derive(Copy, Clone, Debug, PartialEq, Eq)]
pub enum VectorBufferWriteType {
    Scalar(BufferWriteType),
    V2(BufferWriteType),
    V3(BufferWriteType),
    V4(BufferWriteType),
}

/// How the bits of a register are read by an operation.
#[derive(Copy, Clone, Debug, PartialEq, Eq, Structural)]
pub enum OpDataType {
    F32,
    I32,
}

/// How texels are turned into register values.
#[derive(Copy, Clone, Debug, PartialEq, Eq, Structural)]
pub enum TextureLoadType {
    F32FromINorm,
    F32FromUNorm,
    F32FromInt,
    F32FromUInt,
    F32FromF32,
    I32FromInt,
    I32FromUInt,
    I32FromF32,
}

/// Conversions between register interpretations.
#[derive(Copy, Clone, Debug, PartialEq, Eq, Structural)]
pub enum OpDataTypeConversion {
    F32ToI32,
    F32ToU32,
    I32ToF32,
    U32ToF32,
}

/// Operations of one operand.
#[derive(Copy, Clone, Debug, PartialEq, Eq, Structural)]
pub enum ScalarUnaryOp {
    Convert(OpDataTypeConversion),
    Negative(OpDataType),
    Sign(OpDataType),
    Reciporocal,
    Sin,
    Cos,
    Tan,
    ASin,
    ACos,
    Atan,
    Ln,
    Exp,
}

/// Comparisons; a comparison yields 1 when it holds and 0 otherwise.
#[derive(Copy, Clone, Debug, PartialEq, Eq, Structural)]
pub enum Comparison {
    Equal,
    NotEqual,
    GreaterThan,
    LessThanOrEqual,
}

impl Comparison {

    pub open spec fn spec_from_u8(x: u8) -> Option<Comparison> {
        if x == 0 {
            Some(Comparison::Equal)
        } else if x == 1 {
            Some(Comparison::NotEqual)
        } else if x == 2 {
            Some(Comparison::GreaterThan)
        } else if x == 3 {
            Some(Comparison::LessThanOrEqual)
        } else {
            None
        }
    }

    /// Decodes the comparison number used in shader code.
    pub fn from_u8(x: u8) -> (r: Option<Self>)
        ensures
            r == Self::spec_from_u8(x),
    {
        match x {
            0 => Some(Comparison::Equal),
            1 => Some(Comparison::NotEqual),
            2 => Some(Comparison::GreaterThan),
            3 => Some(Comparison::LessThanOrEqual),
            _ => None,
        }
    }
}

/// Operations of two operands.
#[derive(Copy, Clone, Debug, PartialEq, Eq, Structural)]
pub enum ScalarBinaryOp {
    Compare(OpDataType, Comparison),
    Add(OpDataType),
    Subtract(OpDataType),
    Multiply(OpDataType),
    Divide(OpDataType),
    Modulo(OpDataType),
    Atan2,
    CompareUnsigned(Comparison),
    And,
    AndNot,
    Or,
    Xor,
}

/// Operations of three operands.
#[derive(Copy, Clone, Debug, PartialEq, Eq, Structural)]
pub enum ScalarTernaryOp {
    Fma(OpDataType),
}

/// Operations from a vector to a vector.
#[derive(Copy, Clone, Debug, PartialEq, Eq, Structural)]
pub enum VectorToVectorUnaryOp {
    Normalize2,
    Normalize3,
    Normalize4,
}

/// Operations from a vector to a scalar.
#[derive(Copy, Clone, Debug, PartialEq, Eq, Structural)]
pub enum VectorToScalarUnaryOp {
    Magnitude2,
    Magnitude3,
    Magnitude4,
    SquareMagnitude2,
    SquareMagnitude3,
    SquareMagnitude4,
}

/// Operations of two vectors giving a vector.
#[derive(Copy, Clone, Debug, PartialEq, Eq, Structural)]
pub enum VectorToVectorBinaryOp {
    CrossProduct,
}

/// One decoded shader instruction.
#[derive(Debug, Copy, Clone, PartialEq, Eq)]
pub enum ShaderInstruction {
    PushVector(RegisterAddress<Vector>),
    PushScalar(RegisterAddress<Scalar>),
    PopVector(RegisterAddress<Vector>),
    PopScalar(RegisterAddress<Scalar>),
    CopyVectorRegister {
        from: RegisterAddress<Vector>,
        to: RegisterAddress<Vector>
    },
    CopyScalarRegister {
        from: RegisterAddress<Scalar>,
        to: RegisterAddress<Scalar>
    },
    ConditionallyCopyVectorRegister {
        cond: RegisterAddress<Scalar>,
        from: RegisterAddress<Vector>,
        to: RegisterAddress<Vector>
    },
    ConditionallyCopyScalarRegister {
        cond: RegisterAddress<Scalar>,
        from: RegisterAddress<Scalar>,
        to: RegisterAddress<Scalar>
    },
    CopyVectorComponentToScalar {
        channel: VectorChannel,
        from: RegisterAddress<Vector>,
        to: RegisterAddress<Scalar>
    },
    ConditionallyCopyVectorComponentToScalar {
        cond: RegisterAddress<Scalar>,
        channel: VectorChannel,
        from: RegisterAddress<Vector>,
        to: RegisterAddress<Scalar>
    },
    CopyScalarToVectorComponent {
        channel: VectorChannel,
        from: RegisterAddress<Scalar>,
        to: RegisterAddress<Vector>
    },
    ConditionallyCopyScalarToVectorComponent {
        cond: RegisterAddress<Scalar>,
        channel: VectorChannel,
        from: RegisterAddress<Scalar>,
        to: RegisterAddress<Vector>
    },
    CopyScalarToVectorComponentsMasked {
        from: RegisterAddress<Scalar>,
        to: RegisterAddress<Vector>,
        mask: u8
    },
    ConditionallyCopyScalarToVectorComponentsMasked {
        cond: RegisterAddress<Scalar>,
        channel: VectorChannel,
        from: RegisterAddress<Scalar>,
        to: RegisterAddress<Vector>,
        mask: u8
    },
    ReadBufferToVector {
        data_type: VectorBufferReadType,
        vector: RegisterAddress<Vector>,
        offset: u32,
        addr_src_u32: Option<RegisterAddress<Scalar>>,
        buffer: u8,
    },
    WriteVectorToBuffer {
        data_type: VectorBufferWriteType,
        src: RegisterAddress<Vector>,
        offset: u32,
        addr_src_u32: Option<RegisterAddress<Scalar>>,
        buffer: u8,
    },
    ConditionallyWriteVectorToBuffer {
        cond: RegisterAddress<Scalar>,
        data_type: VectorBufferWriteType,
        src: RegisterAddress<Vector>,
        offset: u32,
        addr_src_u32: Option<RegisterAddress<Scalar>>,
        buffer: u8,
    },
    ReadBufferToScalar {
        data_type: BufferReadType,
        scalar: RegisterAddress<Scalar>,
        offset: u32,
        addr_src_u32: Option<RegisterAddress<Scalar>>,
        buffer: u8,
    },
    WriteScalarToBuffer {
        data_type: BufferWriteType,
        scalar: RegisterAddress<Scalar>,
        offset: u32,
        addr_dst_u32: Option<RegisterAddress<Scalar>>,
        buffer: u8,
    },
    ConditionallyWriteScalarToBuffer {
        cond: RegisterAddress<Scalar>,
        data_type: BufferWriteType,
        scalar: RegisterAddress<Scalar>,
        offset: u32,
        addr_dst_u32: Option<RegisterAddress<Scalar>>,
        buffer: u8,
    },
    LoadTextureVector {
        src_xy_u32: RegisterAddress<Vector>,
        dst: RegisterAddress<Vector>,
        load_type: TextureLoadType,
        texture: u8,
    },
    LoadTextureScalar {
        src_xy_u32: RegisterAddress<Vector>,
        channel: VectorChannel,
        dst: RegisterAddress<Scalar>,
        load_type: TextureLoadType,
        texture: u8,
    },
    ScalarUnaryOp {
        src: RegisterAddress<Scalar>,
        dst: RegisterAddress<Scalar>,
        op: ScalarUnaryOp
    },
    ScalarBinaryOp {
        src_a: RegisterAddress<Scalar>,
        src_b: RegisterAddress<Scalar>,
        dst: RegisterAddress<Scalar>,
        op: ScalarBinaryOp,
    },
    VectorComponentwiseScalarUnaryOp {
        src: RegisterAddress<Vector>,
        dst: RegisterAddress<Vector>,
        op: ScalarUnaryOp,
    },
    VectorComponentwiseScalarBinaryOp {
        src_a: RegisterAddress<Vector>,
        src_b: RegisterAddress<Vector>,
        dst: RegisterAddress<Vector>,
        op: ScalarBinaryOp,
    },
    VectorComponentwiseScalarTernaryOp {
        src_a: RegisterAddress<Vector>,
        src_b: RegisterAddress<Vector>,
        src_c: RegisterAddress<Vector>,
        dst: RegisterAddress<Vector>,
        op: ScalarTernaryOp,
    },
    VectorComponentwiseScalarUnaryOpMasked {
        src: RegisterAddress<Vector>,
        dst: RegisterAddress<Vector>,
        op: ScalarUnaryOp,
        mask: u8
    },
    VectorComponentwiseScalarBinaryOpMasked {
        src_a: RegisterAddress<Vector>,
        src_b: RegisterAddress<Vector>,
        dst: RegisterAddress<Vector>,
        op: ScalarBinaryOp,
        mask: u8,
    },
    VectorComponentwiseScalarTernaryOpMasked {
        src_a: RegisterAddress<Vector>,
        src_b: RegisterAddress<Vector>,
        src_c: RegisterAddress<Vector>,
        dst: RegisterAddress<Vector>,
        op: ScalarTernaryOp,
        mask: u8,
    },
    VectorToVectorUnaryOp {
        src: RegisterAddress<Vector>,
        dst: RegisterAddress<Vector>,
        op: VectorToVectorUnaryOp
    },
    VectorToScalarUnaryOp {
        src: RegisterAddress<Vector>,
        dst: RegisterAddress<Scalar>,
        op: VectorToScalarUnaryOp
    },
    MatrixMultiply4x4V4 {
        a0: RegisterAddress<Vector>,
        a1: RegisterAddress<Vector>,
        a2: RegisterAddress<Vector>,
        a3: RegisterAddress<Vector>,
        x: RegisterAddress<Vector>,
        dest: RegisterAddress<Vector>,
    },
    Nop,
}

/// Number of lanes a shading unit runs at once.
pub const CORE_COUNT: usize = 0x1000;
/// Depth of the register stacks.
pub const STACK_SIZE: usize = 0x400;
/// Number of local registers of each kind.
pub const LOCAL_COUNT: usize = 0x20;
/// Number of input and of output registers of each kind.
pub const INPUT_OUTPUT_COUNT: usize = 0x100;
/// Number of constant registers of each kind.
pub const CONST_COUNT: usize = 0x100;

/// Byte `offset` of `bytes`, or 0 past the end.
pub open spec fn spec_read_bytes_u8(bytes: Seq<u8>, offset: int) -> u8 {
    if offset >= bytes.len() { 0 } else { bytes[offset] }
}

/// The 16-bit value at `offset`, its first byte the high one, or 0 when it does not fit.
pub open spec fn spec_read_bytes_u16(bytes: Seq<u8>, offset: int) -> u16 {
    if offset + 2 > bytes.len() { 0 } else { (bytes[offset + 1] as int + bytes[offset] as int * 256) as u16 }
}

/// The little-endian 32-bit value at `offset`, or 0 when it does not fit.
pub open spec fn spec_read_bytes_u32(bytes: Seq<u8>, offset: int) -> u32 {
    if offset + 4 > bytes.len() {
        0
    } else {
        (bytes[offset] as int + bytes[offset + 1] as int * 0x100 + bytes[offset + 2] as int * 0x10000
            + bytes[offset + 3] as int * 0x1000000) as u32
    }
}

/// Reads a byte of a buffer; past the end it reads 0.
pub fn read_bytes_u8(bytes: &[u8], offset: usize) -> (r: u8)
    ensures
        r == spec_read_bytes_u8(bytes@, offset as int),
{
    if offset >= bytes.len() {
        0
    } else {
        bytes[offset]
    }
}

/// Reads two bytes of a buffer, the first as the high byte; 0 when they do not fit.
pub fn read_bytes_u16(bytes: &[u8], offset: usize) -> (r: u16)
    ensures
        r == spec_read_bytes_u16(bytes@, offset as int),
{
    if offset >= bytes.len() || bytes.len() - offset < 2 {
        0
    } else {
        let lo = bytes[offset + 1] as u16;
        let hi = bytes[offset] as u16;
        assert(((lo << 0u16) | (hi << 8u16)) == lo + hi * 256) by (bit_vector)
            requires lo < 256, hi < 256;
        (lo << 0) | (hi << 8)
    }
}

/// Reads four bytes of a buffer as a little-endian value; 0 when they do not fit.
pub fn read_bytes_u32(bytes: &[u8], offset: usize) -> (r: u32)
    ensures
        r == spec_read_bytes_u32(bytes@, offset as int),
{
    if offset >= bytes.len() || bytes.len() - offset < 4 {
        0
    } else {
        let b0 = bytes[offset] as u32;
        let b1 = bytes[offset + 1] as u32;
        let b2 = bytes[offset + 2] as u32;
        let b3 = bytes[offset + 3] as u32;
        assert(((b0 << 0u32) | (b1 << 8u32) | (b2 << 16u32) | (b3 << 24u32))
            == b0 + b1 * 0x100 + b2 * 0x10000 + b3 * 0x1000000) by (bit_vector)
            requires b0 < 256, b1 < 256, b2 < 256, b3 < 256;
        (b0 << 0) | (b1 << 8) | (b2 << 16) | (b3 << 24)
    }
}

} // verus!
