//! The graphics pipeline state a program hands the GPU: what feeds the vertex shader, how
//! the rasterizer fills varyings and constants, and where fragments are written. Addresses
//! are guest addresses, 32 bits wide.

use vstd::prelude::*;

verus! {

/// The three parts of a graphics pipeline, by address.
#[derive(Copy, Clone, Debug)]
pub struct GraphicsPipelineState {
    pub vertex: u32,
    pub fragment: u32,
    pub raster: u32,
}

impl GraphicsPipelineState {
    /// A pipeline of the vertex, fragment and rasterizer states at the given addresses.
    pub fn new(vertex: u32, fragment: u32, raster: u32) -> (r: Self)
        ensures
            r.vertex == vertex,
            r.fragment == fragment,
            r.raster == raster,
    {
        Self { vertex, fragment, raster }
    }
}

/// The vertex inputs: a list of assignments, by address, and its length.
#[derive(Copy, Clone, Debug)]
pub struct VertexState {
    pub inputs: u32,
    pub input_count: u8,
    pub _dummy: [u8; 3],
}

impl VertexState {
    /// The vertex state of the `input_count` assignments at `inputs`; the count is kept to
    /// its low byte, as the layout holds one byte for it.
    pub fn new(inputs: u32, input_count: usize) -> (r: Self)
        ensures
            r.inputs == inputs,
            r.input_count == input_count as u8,
            r._dummy == [0u8, 0, 0],
    {
        Self { inputs, input_count: input_count as u8, _dummy: [0u8, 0, 0] }
    }
}

/// How a shader input is read from its buffer and what it becomes.
#[derive(Copy, Clone, Debug, PartialEq, Eq, Structural)]
pub enum ShaderInputType {
    UIntFromU8,
    UIntFromU16,
    UIntFromU32,
    IntFromI8,
    IntFromI16,
    IntFromI32,
    F32FromU8,
    F32FromU16,
    F32FromU32,
    F32FromI8,
    F32FromI16,
    F32FromI32,
    F32FromUNorm8,
    F32FromUNorm16,
    F32FromUNorm32,
    F32FromINorm8,
    F32FromINorm16,
    F32FromINorm32,
    F32FromF32,
}

impl ShaderInputType {
    /// The byte that stands for the value in the layouts the GPU reads.
    pub open spec fn spec_to_u8(self) -> u8 {
        match self {
            ShaderInputType::UIntFromU8 => 0,
            ShaderInputType::UIntFromU16 => 1,
            ShaderInputType::UIntFromU32 => 2,
            ShaderInputType::IntFromI8 => 3,
            ShaderInputType::IntFromI16 => 4,
            ShaderInputType::IntFromI32 => 5,
            ShaderInputType::F32FromU8 => 6,
            ShaderInputType::F32FromU16 => 7,
            ShaderInputType::F32FromU32 => 8,
            ShaderInputType::F32FromI8 => 9,
            ShaderInputType::F32FromI16 => 10,
            ShaderInputType::F32FromI32 => 11,
            ShaderInputType::F32FromUNorm8 => 12,
            ShaderInputType::F32FromUNorm16 => 13,
            ShaderInputType::F32FromUNorm32 => 14,
            ShaderInputType::F32FromINorm8 => 15,
            ShaderInputType::F32FromINorm16 => 16,
            ShaderInputType::F32FromINorm32 => 17,
            ShaderInputType::F32FromF32 => 18,
        }
    }

    /// The byte that stands for the value in the layouts the GPU reads.
    pub fn to_u8(&self) -> (r: u8)
        ensures
            r == self.spec_to_u8(),
    {
        match self {
            ShaderInputType::UIntFromU8 => 0,
            ShaderInputType::UIntFromU16 => 1,
            ShaderInputType::UIntFromU32 => 2,
            ShaderInputType::IntFromI8 => 3,
            ShaderInputType::IntFromI16 => 4,
            ShaderInputType::IntFromI32 => 5,
            ShaderInputType::F32FromU8 => 6,
            ShaderInputType::F32FromU16 => 7,
            ShaderInputType::F32FromU32 => 8,
            ShaderInputType::F32FromI8 => 9,
            ShaderInputType::F32FromI16 => 10,
            ShaderInputType::F32FromI32 => 11,
            ShaderInputType::F32FromUNorm8 => 12,
            ShaderInputType::F32FromUNorm16 => 13,
            ShaderInputType::F32FromUNorm32 => 14,
            ShaderInputType::F32FromINorm8 => 15,
            ShaderInputType::F32FromINorm16 => 16,
            ShaderInputType::F32FromINorm32 => 17,
            ShaderInputType::F32FromF32 => 18,
        }
    }
}

/// How many components a shader input has.
#[derive(Copy, Clone, Debug, PartialEq, Eq, Structural)]
pub enum ShaderCardinality {
    Scalar,
    V2,
    V3,
    V4,
}

impl ShaderCardinality {
    /// The byte that stands for the value in the layouts the GPU reads.
    pub open spec fn spec_to_u8(self) -> u8 {
        match self {
            ShaderCardinality::Scalar => 0,
            ShaderCardinality::V2 => 1,
            ShaderCardinality::V3 => 2,
            ShaderCardinality::V4 => 3,
        }
    }

    /// The byte that stands for the value in the layouts the GPU reads.
    pub fn to_u8(&self) -> (r: u8)
        ensures
            r == self.spec_to_u8(),
    {
        match self {
            ShaderCardinality::Scalar => 0,
            ShaderCardinality::V2 => 1,
            ShaderCardinality::V3 => 2,
            ShaderCardinality::V4 => 3,
        }
    }
}

impl ShaderCardinality {
    /// The cardinality a byte stands for: 0 to 3; other bytes stand for none.
    pub open spec fn spec_from_u8(x: u8) -> Option<Self> {
        match x {
            0 => Some(Self::Scalar),
            1 => Some(Self::V2),
            2 => Some(Self::V3),
            3 => Some(Self::V4),
            _ => None,
        }
    }

    /// The cardinality a byte stands for: 0 to 3; other bytes stand for none.
    pub fn from_u8(x: u8) -> (r: Option<Self>)
        ensures
            r == Self::spec_from_u8(x),
    {
        match x {
            0 => Some(Self::Scalar),
            1 => Some(Self::V2),
            2 => Some(Self::V3),
            3 => Some(Self::V4),
            _ => None,
        }
    }
}

/// Reading a cardinality back from its byte gives it again, and only bytes below 4 stand
/// for a cardinality.
pub proof fn law_cardinality_round_trip(c: ShaderCardinality, x: u8)
    ensures
        ShaderCardinality::spec_from_u8(c.spec_to_u8()) == Some(c),
        ShaderCardinality::spec_from_u8(x) is Some <==> x < 4,
{
}

/// Where one vertex shader input comes from.
#[derive(Copy, Clone, Debug)]
pub struct VertexInputAssignment {
    pub input: u8,
    pub buffer_src: u8,
    pub input_type: ShaderInputType,
    pub input_cardinality: ShaderCardinality,
    pub offset: u32,
    pub stride: u32,
}

/// The fragment stage: its depth state (address 0 for none) and its output list.
#[derive(Copy, Clone, Debug)]
pub struct FragmentState {
    pub depth_state: u32,
    pub output_assignments: u32,
    pub output_assignment_count: u8,
    pub _dummy: [u8; 3],
}

impl FragmentState {
    /// The fragment state with the depth state at `depth` if any (address 0 if none), and
    /// the `output_assignment_count` outputs at `output_assignments`, the count kept to its
    /// low byte.
    pub fn new(depth: Option<u32>, output_assignments: u32, output_assignment_count: usize) -> (r: Self)
        ensures
            r.depth_state == (match depth { Some(d) => d, None => 0 }),
            r.output_assignments == output_assignments,
            r.output_assignment_count == output_assignment_count as u8,
            r._dummy == [0u8, 0, 0],
    {
        Self {
            depth_state: match depth { Some(d) => d, None => 0 },
            output_assignments,
            output_assignment_count: output_assignment_count as u8,
            _dummy: [0u8, 0, 0],
        }
    }
}

/// How a fragment output is converted into its texture.
#[derive(Copy, Clone, Debug, PartialEq, Eq, Structural)]
pub enum FragmentOutputType {
    F32ToF32,
    F32ToInt,
    F32ToUInt,
    F32ToINorm,
    F32ToUNorm,
    IntToInt,
    IntToF32,
    UIntToUInt,
    UIntToF32,
}

impl FragmentOutputType {
    /// The byte that stands for the value in the layouts the GPU reads.
    pub open spec fn spec_to_u8(self) -> u8 {
        match self {
            FragmentOutputType::F32ToF32 => 0,
            FragmentOutputType::F32ToInt => 1,
            FragmentOutputType::F32ToUInt => 2,
            FragmentOutputType::F32ToINorm => 3,
            FragmentOutputType::F32ToUNorm => 4,
            FragmentOutputType::IntToInt => 5,
            FragmentOutputType::IntToF32 => 6,
            FragmentOutputType::UIntToUInt => 7,
            FragmentOutputType::UIntToF32 => 8,
        }
    }

    /// The byte that stands for the value in the layouts the GPU reads.
    pub fn to_u8(&self) -> (r: u8)
        ensures
            r == self.spec_to_u8(),
    {
        match self {
            FragmentOutputType::F32ToF32 => 0,
            FragmentOutputType::F32ToInt => 1,
            FragmentOutputType::F32ToUInt => 2,
            FragmentOutputType::F32ToINorm => 3,
            FragmentOutputType::F32ToUNorm => 4,
            FragmentOutputType::IntToInt => 5,
            FragmentOutputType::IntToF32 => 6,
            FragmentOutputType::UIntToUInt => 7,
            FragmentOutputType::UIntToF32 => 8,
        }
    }
}

/// Where one fragment output is written.
#[derive(Copy, Clone, Debug)]
pub struct FragmentOutputAssignment {
    pub output: u8,
    pub texture: u8,
    pub output_type: FragmentOutputType,
    pub output_cardinality: ShaderCardinality,
    pub offset: [u32; 2],
}

/// When a fragment passes the depth test.
#[derive(Copy, Clone, Debug, PartialEq, Eq, Structural)]
pub enum DepthCompareFn {
    Never,
    Always,
    Less,
    LessOrEqual,
    Greater,
    GreaterOrEqual,
}

impl DepthCompareFn {
    /// The byte that stands for the value in the layouts the GPU reads.
    pub open spec fn spec_to_u8(self) -> u8 {
        match self {
            DepthCompareFn::Never => 0,
            DepthCompareFn::Always => 1,
            DepthCompareFn::Less => 2,
            DepthCompareFn::LessOrEqual => 3,
            DepthCompareFn::Greater => 4,
            DepthCompareFn::GreaterOrEqual => 5,
        }
    }

    /// The byte that stands for the value in the layouts the GPU reads.
    pub fn to_u8(&self) -> (r: u8)
        ensures
            r == self.spec_to_u8(),
    {
        match self {
            DepthCompareFn::Never => 0,
            DepthCompareFn::Always => 1,
            DepthCompareFn::Less => 2,
            DepthCompareFn::LessOrEqual => 3,
            DepthCompareFn::Greater => 4,
            DepthCompareFn::GreaterOrEqual => 5,
        }
    }
}

/// The depth test of the fragment stage.
#[derive(Copy, Clone, Debug)]
pub struct FragmentDepthState {
    pub texture: u8,
    pub compare_fn: DepthCompareFn,
    pub depth_write: u8,
}

/// What the rasterizer hands the fragment shader: varyings and constants, and the buffer and
/// texture numbers the shaders' resource numbers map to; each a list by address, with its
/// length.
#[derive(Copy, Clone, Debug)]
pub struct RasterizerState {
    pub varyings: u32,
    pub constants: u32,
    pub buffer_mappings: u32,
    pub texture_mappings: u32,
    pub varying_count: u8,
    pub constant_count: u8,
    pub buffer_mapping_count: u8,
    pub texture_mapping_count: u8,
}

impl RasterizerState {
    /// The rasterizer state of the four lists, each given by address and length; each length
    /// is kept to its low byte.
    pub fn new(
        varyings: u32,
        varying_count: usize,
        constants: u32,
        constant_count: usize,
        buffer_mappings: u32,
        buffer_mapping_count: usize,
        texture_mappings: u32,
        texture_mapping_count: usize,
    ) -> (r: Self)
        ensures
            r.varyings == varyings,
            r.varying_count == varying_count as u8,
            r.constants == constants,
            r.constant_count == constant_count as u8,
            r.buffer_mappings == buffer_mappings,
            r.buffer_mapping_count == buffer_mapping_count as u8,
            r.texture_mappings == texture_mappings,
            r.texture_mapping_count == texture_mapping_count as u8,
    {
        Self {
            varyings,
            varying_count: varying_count as u8,
            constants,
            constant_count: constant_count as u8,
            buffer_mappings,
            buffer_mapping_count: buffer_mapping_count as u8,
            texture_mappings,
            texture_mapping_count: texture_mapping_count as u8,
        }
    }
}

/// How a varying is carried from the vertices to a fragment.
#[derive(Copy, Clone, Debug, PartialEq, Eq, Structural)]
pub enum Interpolation {
    ProvokingVertex,
    Linear,
    Barycentric,
    Max,
    Min,
}

impl Interpolation {
    /// The byte that stands for the value in the layouts the GPU reads.
    pub open spec fn spec_to_u8(self) -> u8 {
        match self {
            Interpolation::ProvokingVertex => 0,
            Interpolation::Linear => 1,
            Interpolation::Barycentric => 2,
            Interpolation::Max => 3,
            Interpolation::Min => 4,
        }
    }

    /// The byte that stands for the value in the layouts the GPU reads.
    pub fn to_u8(&self) -> (r: u8)
        ensures
            r == self.spec_to_u8(),
    {
        match self {
            Interpolation::ProvokingVertex => 0,
            Interpolation::Linear => 1,
            Interpolation::Barycentric => 2,
            Interpolation::Max => 3,
            Interpolation::Min => 4,
        }
    }
}

/// The type of a varying.
#[derive(Copy, Clone, Debug, PartialEq, Eq, Structural)]
pub enum VaryingType {
    F32,
    F32x2,
    F32x3,
    F32x4,
    I32,
    I32x2,
    I32x3,
    I32x4,
}

impl VaryingType {
    /// The byte that stands for the value in the layouts the GPU reads.
    pub open spec fn spec_to_u8(self) -> u8 {
        match self {
            VaryingType::F32 => 0,
            VaryingType::F32x2 => 1,
            VaryingType::F32x3 => 2,
            VaryingType::F32x4 => 3,
            VaryingType::I32 => 4,
            VaryingType::I32x2 => 5,
            VaryingType::I32x3 => 6,
            VaryingType::I32x4 => 7,
        }
    }

    /// The byte that stands for the value in the layouts the GPU reads.
    pub fn to_u8(&self) -> (r: u8)
        ensures
            r == self.spec_to_u8(),
    {
        match self {
            VaryingType::F32 => 0,
            VaryingType::F32x2 => 1,
            VaryingType::F32x3 => 2,
            VaryingType::F32x4 => 3,
            VaryingType::I32 => 4,
            VaryingType::I32x2 => 5,
            VaryingType::I32x3 => 6,
            VaryingType::I32x4 => 7,
        }
    }
}

/// One varying: its type, its interpolation and its slot.
#[derive(Copy, Clone, Debug)]
pub struct VaryingAssignment {
    pub t: VaryingType,
    pub i: Interpolation,
    pub slot: u8,
    pub _dummy: u8,
}

/// One shader constant: where it is read from and what it becomes.
#[derive(Copy, Clone, Debug)]
pub struct ConstantAssignment {
    pub offset: u32,
    pub constant: u8,
    pub src_buffer: u8,
    pub c: ShaderCardinality,
    pub t: ShaderInputType,
}

} // verus!
