//! Types of the rasterizer's configuration.

use vstd::prelude::*;
use super::shader::{ResourceMap, ShaderConstantAssignment, CORE_COUNT, INPUT_OUTPUT_COUNT};
use super::shading_unit::ShadingUnitIOArray;

verus! {

/// How a varying is carried from the vertices to a fragment.
#[derive(Copy, Clone, Debug, PartialEq, Eq, Structural)]
pub enum Interpolation {
    ProvokingVertexFlat,
    Linear,
    Smooth,
    Max,
    Min,
}

impl Interpolation {
    pub open spec fn spec_from_u8(x: u8) -> Option<Interpolation> {
        if x == 0 {
            Some(Interpolation::ProvokingVertexFlat)
        } else if x == 1 {
            Some(Interpolation::Linear)
        } else if x == 2 {
            Some(Interpolation::Smooth)
        } else if x == 3 {
            Some(Interpolation::Max)
        } else if x == 4 {
            Some(Interpolation::Min)
        } else {
            None
        }
    }

    /// Decodes the interpolation number of a pipeline state.
    pub fn from_u8(x: u8) -> (r: Option<Self>)
        ensures
            r == Self::spec_from_u8(x),
    {
        match x {
            0 => Some(Interpolation::ProvokingVertexFlat),
            1 => Some(Interpolation::Linear),
            2 => Some(Interpolation::Smooth),
            3 => Some(Interpolation::Max),
            4 => Some(Interpolation::Min),
            _ => None,
        }
    }
}

/// Type and component count of a varying, with its interpolation.
#[derive(Copy, Clone, Debug, PartialEq, Eq, Structural)]
pub enum ShaderVaryingType {
    F32(Interpolation),
    F32x2(Interpolation),
    F32x3(Interpolation),
    F32x4(Interpolation),
    I32(Interpolation),
    I32x2(Interpolation),
    I32x3(Interpolation),
    I32x4(Interpolation),
}

impl ShaderVaryingType {
    /// The varying type number `x` of a pipeline state, interpolated as given.
    pub open spec fn spec_from_u8(x: u8, interpolation: Interpolation) -> Option<ShaderVaryingType> {
        if x == 0 {
            Some(ShaderVaryingType::F32(interpolation))
        } else if x == 1 {
            Some(ShaderVaryingType::F32x2(interpolation))
        } else if x == 2 {
            Some(ShaderVaryingType::F32x3(interpolation))
        } else if x == 3 {
            Some(ShaderVaryingType::F32x4(interpolation))
        } else if x == 4 {
            Some(ShaderVaryingType::I32(interpolation))
        } else if x == 5 {
            Some(ShaderVaryingType::I32x2(interpolation))
        } else if x == 6 {
            Some(ShaderVaryingType::I32x3(interpolation))
        } else if x == 7 {
            Some(ShaderVaryingType::I32x4(interpolation))
        } else {
            None
        }
    }

    /// Decodes the varying type number of a pipeline state.
    pub fn from_u8(x: u8, interpolation: Interpolation) -> (r: Option<Self>)
        ensures
            r == Self::spec_from_u8(x, interpolation),
    {
        match x {
            0 => Some(ShaderVaryingType::F32(interpolation)),
            1 => Some(ShaderVaryingType::F32x2(interpolation)),
            2 => Some(ShaderVaryingType::F32x3(interpolation)),
            3 => Some(ShaderVaryingType::F32x4(interpolation)),
            4 => Some(ShaderVaryingType::I32(interpolation)),
            5 => Some(ShaderVaryingType::I32x2(interpolation)),
            6 => Some(ShaderVaryingType::I32x3(interpolation)),
            7 => Some(ShaderVaryingType::I32x4(interpolation)),
            _ => None,
        }
    }
}

/// The varying written to a slot.
#[derive(Copy, Clone, Debug, PartialEq, Eq, Structural)]
pub struct RasterizerVaryingAssignment {
    pub slot: u8,
    pub t: ShaderVaryingType,
}

/// The rasterizer's configuration for a draw.
#[derive(Clone, Debug)]
pub struct RasterizerState {
    pub varyings: Vec<RasterizerVaryingAssignment>,
    pub constants: Vec<ShaderConstantAssignment>,
    pub resource_map: ResourceMap,
}

impl Default for RasterizerState {
    fn default() -> (r: Self)
        ensures
            r.varyings@.len() == 0,
            r.constants@.len() == 0,
            forall|k: int| 0 <= k < 64 ==> r.resource_map.texture@[k] == k,
            forall|k: int| 0 <= k < 256 ==> r.resource_map.buffer@[k] == k,
    {
        RasterizerState { varyings: Vec::new(), constants: Vec::new(), resource_map: ResourceMap::identity() }
    }
}

/// The rectangle of the target a draw covers.
#[derive(Copy, Clone, Debug, PartialEq, Eq)]
pub struct RasterRect {
    pub upper_left: (u32, u32),
    pub lower_right: (u32, u32),
}


/// How many components a varying copies from its provoking vertex: 1 for a scalar, 2 to 4
/// for a vector, and 0 when it is not flat.
pub open spec fn flat_components(t: ShaderVaryingType) -> int {
    match t {
        ShaderVaryingType::F32(Interpolation::ProvokingVertexFlat) | ShaderVaryingType::I32(Interpolation::ProvokingVertexFlat) => 1,
        ShaderVaryingType::F32x2(Interpolation::ProvokingVertexFlat) | ShaderVaryingType::I32x2(Interpolation::ProvokingVertexFlat) => 2,
        ShaderVaryingType::F32x3(Interpolation::ProvokingVertexFlat) | ShaderVaryingType::I32x3(Interpolation::ProvokingVertexFlat) => 3,
        ShaderVaryingType::F32x4(Interpolation::ProvokingVertexFlat) | ShaderVaryingType::I32x4(Interpolation::ProvokingVertexFlat) => 4,
        _ => 0,
    }
}

/// `dst` with its first `n` components taken from `src`.
pub open spec fn with_first_components(dst: [u32; 4], src: [u32; 4], n: int) -> [u32; 4] {
    [
        if n > 0 { src[0] } else { dst[0] },
        if n > 1 { src[1] } else { dst[1] },
        if n > 2 { src[2] } else { dst[2] },
        if n > 3 { src[3] } else { dst[3] },
    ]
}

/// The provoking vertex of fragment `i`: the first component of its vertex-id register.
pub open spec fn provoking_vertex(fragment_in: Seq<[u32; 4]>, vertex_ids_slot: int, i: int) -> int {
    fragment_in[vertex_ids_slot * CORE_COUNT + i][0] as int
}

/// Fills a flat varying of the first `invocation_count` fragments: each fragment takes the
/// varying's components (see `flat_components`) from its provoking vertex's output, in the
/// scalar registers for a scalar varying and in the vector registers otherwise; nothing else
/// changes, and a varying that is not flat changes nothing.
pub fn copy_flat_varying(
    vertex_out: &ShadingUnitIOArray,
    fragment_in: &mut ShadingUnitIOArray,
    varying: RasterizerVaryingAssignment,
    vertex_ids_slot: usize,
    invocation_count: usize,
)
    requires
        vertex_out.wf(),
        old(fragment_in).wf(),
        invocation_count <= CORE_COUNT,
        vertex_ids_slot < INPUT_OUTPUT_COUNT,
        forall|i: int| 0 <= i < invocation_count ==> provoking_vertex(old(fragment_in).vector_array@, vertex_ids_slot as int, i) < CORE_COUNT,
    ensures
        final(fragment_in).wf(),
        ({
            let n = flat_components(varying.t);
            let base = varying.slot * CORE_COUNT;
            let ids = old(fragment_in).vector_array@;
            &&& n != 1 ==> final(fragment_in).scalar_array@ == old(fragment_in).scalar_array@
            &&& n == 1 ==> forall|k: int| 0 <= k < old(fragment_in).scalar_array@.len() ==> #[trigger] final(fragment_in).scalar_array@[k] == if base <= k < base + invocation_count {
                vertex_out.scalar_array@[base + provoking_vertex(ids, vertex_ids_slot as int, k - base)]
            } else {
                old(fragment_in).scalar_array@[k]
            }
            &&& n < 2 ==> final(fragment_in).vector_array@ == old(fragment_in).vector_array@
            &&& n >= 2 ==> forall|k: int| 0 <= k < old(fragment_in).vector_array@.len() ==> #[trigger] final(fragment_in).vector_array@[k] == if base <= k < base + invocation_count {
                with_first_components(ids[k], vertex_out.vector_array@[base + provoking_vertex(ids, vertex_ids_slot as int, k - base)], n)
            } else {
                ids[k]
            }
        }),
{
    let n: usize = match varying.t {
        ShaderVaryingType::F32(Interpolation::ProvokingVertexFlat) | ShaderVaryingType::I32(Interpolation::ProvokingVertexFlat) => 1,
        ShaderVaryingType::F32x2(Interpolation::ProvokingVertexFlat) | ShaderVaryingType::I32x2(Interpolation::ProvokingVertexFlat) => 2,
        ShaderVaryingType::F32x3(Interpolation::ProvokingVertexFlat) | ShaderVaryingType::I32x3(Interpolation::ProvokingVertexFlat) => 3,
        ShaderVaryingType::F32x4(Interpolation::ProvokingVertexFlat) | ShaderVaryingType::I32x4(Interpolation::ProvokingVertexFlat) => 4,
        _ => 0,
    };
    if n == 0 {
        return;
    }
    let ghost ids = fragment_in.vector_array@;
    let ghost scalars = fragment_in.scalar_array@;
    let base = (varying.slot as usize) * CORE_COUNT;
    let mut i: usize = 0;
    while i < invocation_count
        invariant
            n == flat_components(varying.t),
            1 <= n <= 4,
            base == varying.slot * CORE_COUNT,
            varying.slot < INPUT_OUTPUT_COUNT,
            vertex_out.wf(),
            fragment_in.wf(),
            i <= invocation_count <= CORE_COUNT,
            vertex_ids_slot < INPUT_OUTPUT_COUNT,
            ids.len() == INPUT_OUTPUT_COUNT * CORE_COUNT,
            scalars.len() == INPUT_OUTPUT_COUNT * CORE_COUNT,
            forall|j: int| 0 <= j < invocation_count ==> provoking_vertex(ids, vertex_ids_slot as int, j) < CORE_COUNT,
            n != 1 ==> fragment_in.scalar_array@ == scalars,
            n == 1 ==> fragment_in.vector_array@ == ids,
            n == 1 ==> forall|k: int| 0 <= k < scalars.len() ==> #[trigger] fragment_in.scalar_array@[k] == if base <= k < base + i {
                vertex_out.scalar_array@[base + provoking_vertex(ids, vertex_ids_slot as int, k - base)]
            } else {
                scalars[k]
            },
            n >= 2 ==> forall|k: int| 0 <= k < ids.len() ==> #[trigger] fragment_in.vector_array@[k] == if base <= k < base + i {
                with_first_components(ids[k], vertex_out.vector_array@[base + provoking_vertex(ids, vertex_ids_slot as int, k - base)], n as int)
            } else {
                ids[k]
            },
        decreases invocation_count - i,
    {
        let id_at = vertex_ids_slot * CORE_COUNT + i;
        assert(fragment_in.vector_array@[id_at as int] == ids[id_at as int]);
        let v0 = fragment_in.vector_array[id_at][0] as usize;
        assert(v0 == provoking_vertex(ids, vertex_ids_slot as int, i as int));
        let k = base + i;
        if n == 1 {
            let x = vertex_out.scalar_array[base + v0];
            fragment_in.scalar_array.set(k, x);
        } else {
            let src = vertex_out.vector_array[base + v0];
            let dst = fragment_in.vector_array[k];
            assert(dst == ids[k as int]);
            let value = [
                src[0],
                src[1],
                if n > 2 { src[2] } else { dst[2] },
                if n > 3 { src[3] } else { dst[3] },
            ];
            assert(value == with_first_components(ids[k as int], src, n as int));
            fragment_in.vector_array.set(k, value);
        }
        i = i + 1;
    }
}

} // verus!
