//! Filling the constant registers of a draw from buffers: which register and component each
//! assignment fills, and the word it reads there. Words of the integer input types are final;
//! the others are turned into floating-point values before they are stored.

use vstd::prelude::*;
use super::shader::{
    read_bytes_u16, read_bytes_u32, read_bytes_u8, spec_read_bytes_u16, spec_read_bytes_u32, spec_read_bytes_u8,
    ResourceMap, ShaderCardinality, ShaderConstantAssignment, ShaderInputType, CONST_COUNT,
};
use super::shading_unit::{with_component, ShadingUnitConstantArray};

verus! {

/// One word to store in a constant register.
#[derive(Copy, Clone, Debug, PartialEq, Eq)]
pub struct ConstantWrite {
    /// The constant register.
    pub constant: u8,
    /// The component of the vector register, or `None` for the scalar register.
    pub component: Option<u8>,
    /// How the word is read and what it becomes.
    pub t: ShaderInputType,
    /// The element read from the buffer, zero-extended.
    pub raw: u32,
    /// The word to store, for the integer input types; `None` for those made into
    /// floating-point values.
    pub word: Option<u32>,
}

/// How many components an assignment fills.
pub open spec fn component_count(c: ShaderCardinality) -> int {
    match c {
        ShaderCardinality::Scalar => 1,
        ShaderCardinality::V2 => 2,
        ShaderCardinality::V3 => 3,
        ShaderCardinality::V4 => 4,
    }
}

/// The element of input type `t` at `off`, zero-extended; 0 when it does not fit.
pub open spec fn spec_raw_element(t: ShaderInputType, bytes: Seq<u8>, off: int) -> u32 {
    let size = t.spec_element_size();
    if size == 1 {
        spec_read_bytes_u8(bytes, off) as u32
    } else if size == 2 {
        spec_read_bytes_u16(bytes, off) as u32
    } else {
        spec_read_bytes_u32(bytes, off)
    }
}

/// The word an integer input type stores for an element: as read, or sign-extended from 8 or
/// 16 bits; the 32-bit floating-point type stores its bits as read. `None` for the types made
/// into floating-point values.
pub open spec fn spec_int_word(t: ShaderInputType, raw: u32) -> Option<u32> {
    match t {
        ShaderInputType::UIntFromU8 | ShaderInputType::UIntFromU16 | ShaderInputType::UIntFromU32
        | ShaderInputType::IntFromI32 | ShaderInputType::F32FromF32 => Some(raw),
        ShaderInputType::IntFromI8 => Some(((raw as u8) as i8) as i32 as u32),
        ShaderInputType::IntFromI16 => Some(((raw as u16) as i16) as i32 as u32),
        _ => None,
    }
}

/// The writes of one assignment: component `c` reads the element `c` places after the
/// assignment's offset in the buffer its buffer number maps to.
pub open spec fn spec_writes_of(a: ShaderConstantAssignment, rm: ResourceMap, buffers: Seq<Vec<u8>>) -> Seq<ConstantWrite> {
    let bytes = buffers[rm.buffer@[a.source_buffer as int] as int]@;
    Seq::new(component_count(a.c) as nat, |c: int| {
        let raw = spec_raw_element(a.t, bytes, a.offset + a.t.spec_element_size() * c);
        ConstantWrite {
            constant: a.constant,
            component: if a.c is Scalar { None } else { Some(c as u8) },
            t: a.t,
            raw,
            word: spec_int_word(a.t, raw),
        }
    })
}

/// The writes of all assignments, in order: a later write to the same place wins.
pub open spec fn spec_constant_writes(constants: Seq<ShaderConstantAssignment>, rm: ResourceMap, buffers: Seq<Vec<u8>>) -> Seq<ConstantWrite>
    decreases constants.len(),
{
    if constants.len() == 0 {
        Seq::empty()
    } else {
        spec_constant_writes(constants.drop_last(), rm, buffers) + spec_writes_of(constants.last(), rm, buffers)
    }
}

/// The element of input type `t` at `off` (see `spec_raw_element`).
fn raw_element(t: ShaderInputType, bytes: &[u8], off: u64) -> (r: u32)
    ensures
        r == spec_raw_element(t, bytes@, off as int),
{
    if off > bytes.len() as u64 {
        return 0;
    }
    let o = off as usize;
    let size = t.element_size();
    if size == 1 {
        read_bytes_u8(bytes, o) as u32
    } else if size == 2 {
        read_bytes_u16(bytes, o) as u32
    } else {
        read_bytes_u32(bytes, o)
    }
}

/// The word an integer input type stores (see `spec_int_word`).
fn int_word(t: ShaderInputType, raw: u32) -> (r: Option<u32>)
    ensures
        r == spec_int_word(t, raw),
{
    match t {
        ShaderInputType::UIntFromU8 | ShaderInputType::UIntFromU16 | ShaderInputType::UIntFromU32
        | ShaderInputType::IntFromI32 | ShaderInputType::F32FromF32 => Some(raw),
        ShaderInputType::IntFromI8 => Some(((raw as u8) as i8) as i32 as u32),
        ShaderInputType::IntFromI16 => Some(((raw as u16) as i16) as i32 as u32),
        _ => None,
    }
}

/// How many components an assignment fills.
fn components(c: ShaderCardinality) -> (r: u64)
    ensures
        r == component_count(c),
{
    match c {
        ShaderCardinality::Scalar => 1,
        ShaderCardinality::V2 => 2,
        ShaderCardinality::V3 => 3,
        ShaderCardinality::V4 => 4,
    }
}

/// The writes of all assignments, in order, with `buffers` the bytes of the GPU's buffers and
/// `resource_map` mapping buffer numbers to them (see `spec_constant_writes`).
pub fn constant_writes(constants: &[ShaderConstantAssignment], resource_map: &ResourceMap, buffers: &Vec<Vec<u8>>) -> (r: Vec<ConstantWrite>)
    requires
        buffers@.len() == 256,
    ensures
        r@ == spec_constant_writes(constants@, *resource_map, buffers@),
{
    let mut out: Vec<ConstantWrite> = Vec::new();
    let mut k: usize = 0;
    while k < constants.len()
        invariant
            buffers@.len() == 256,
            k <= constants@.len(),
            out@ == spec_constant_writes(constants@.take(k as int), *resource_map, buffers@),
        decreases constants@.len() - k,
    {
        let a = constants[k];
        let bytes = buffers[resource_map.buffer[a.source_buffer as usize] as usize].as_slice();
        let count = components(a.c);
        let size = a.t.element_size() as u64;
        let ghost start = out@;
        let mut c: u64 = 0;
        while c < count
            invariant
                count == component_count(a.c),
                size == a.t.spec_element_size(),
                bytes@ == buffers@[resource_map.buffer@[a.source_buffer as int] as int]@,
                c <= count,
                out@ == start + spec_writes_of(a, *resource_map, buffers@).take(c as int),
            decreases count - c,
        {
            let raw = raw_element(a.t, bytes, a.offset as u64 + size * c);
            out.push(ConstantWrite {
                constant: a.constant,
                component: match a.c {
                    ShaderCardinality::Scalar => None,
                    _ => Some(c as u8),
                },
                t: a.t,
                raw,
                word: int_word(a.t, raw),
            });
            c = c + 1;
            assert(out@ =~= start + spec_writes_of(a, *resource_map, buffers@).take(c as int));
        }
        assert(constants@.take(k + 1).drop_last() =~= constants@.take(k as int));
        assert(spec_writes_of(a, *resource_map, buffers@).take(count as int) =~= spec_writes_of(a, *resource_map, buffers@));
        k = k + 1;
    }
    assert(constants@.take(constants@.len() as int) =~= constants@);
    out
}

/// Stores `value` where write `w` goes: the scalar register, or one component of the vector
/// register.
pub fn apply_constant_write(constant_array: &mut ShadingUnitConstantArray, w: &ConstantWrite, value: u32)
    requires
        old(constant_array).wf(),
        w.component matches Some(c) ==> c < 4,
    ensures
        final(constant_array).wf(),
        w.component is None ==> final(constant_array).scalar_constant_array@
            == old(constant_array).scalar_constant_array@.update(w.constant as int, value)
            && final(constant_array).vector_constant_array == old(constant_array).vector_constant_array,
        w.component matches Some(c) ==> final(constant_array).vector_constant_array@
            == old(constant_array).vector_constant_array@.update(w.constant as int,
                with_component(old(constant_array).vector_constant_array@[w.constant as int], c as int, value))
            && final(constant_array).scalar_constant_array == old(constant_array).scalar_constant_array,
{
    let k = w.constant as usize;
    assert(k < CONST_COUNT);
    match w.component {
        None => constant_array.scalar_constant_array.set(k, value),
        Some(c) => {
            let v = constant_array.vector_constant_array[k];
            let updated = [
                if c == 0 { value } else { v[0] },
                if c == 1 { value } else { v[1] },
                if c == 2 { value } else { v[2] },
                if c == 3 { value } else { v[3] },
            ];
            constant_array.vector_constant_array.set(k, updated);
        },
    }
}


/// The constant registers, scalar and vector, after a write of `value` as `w` says.
pub open spec fn spec_after_write(regs: (Seq<u32>, Seq<[u32; 4]>), w: ConstantWrite, value: u32) -> (Seq<u32>, Seq<[u32; 4]>) {
    match w.component {
        None => (regs.0.update(w.constant as int, value), regs.1),
        Some(c) => (regs.0, regs.1.update(w.constant as int, with_component(regs.1[w.constant as int], c as int, value))),
    }
}

/// The constant registers after the first `n` of `writes`, each storing the value at its
/// place in `values`, one after another.
pub open spec fn spec_after_writes(regs: (Seq<u32>, Seq<[u32; 4]>), writes: Seq<ConstantWrite>, values: Seq<u32>, n: int) -> (Seq<u32>, Seq<[u32; 4]>)
    decreases n,
{
    if n <= 0 {
        regs
    } else {
        spec_after_write(spec_after_writes(regs, writes, values, n - 1), writes[n - 1], values[n - 1])
    }
}

/// Stores `values[k]` as `writes[k]` says, for each `k` in order: a later write to the same
/// place wins.
pub fn apply_constant_writes(constant_array: &mut ShadingUnitConstantArray, writes: &Vec<ConstantWrite>, values: &Vec<u32>)
    requires
        old(constant_array).wf(),
        values@.len() == writes@.len(),
        forall|j: int| 0 <= j < writes@.len() ==> ((#[trigger] writes@[j]).component matches Some(c) ==> c < 4),
    ensures
        final(constant_array).wf(),
        (final(constant_array).scalar_constant_array@, final(constant_array).vector_constant_array@)
            == spec_after_writes((old(constant_array).scalar_constant_array@, old(constant_array).vector_constant_array@),
                writes@, values@, writes@.len() as int),
{
    let ghost start = (constant_array.scalar_constant_array@, constant_array.vector_constant_array@);
    let mut k: usize = 0;
    while k < writes.len()
        invariant
            constant_array.wf(),
            k <= writes@.len(),
            values@.len() == writes@.len(),
            forall|j: int| 0 <= j < writes@.len() ==> ((#[trigger] writes@[j]).component matches Some(c) ==> c < 4),
            (constant_array.scalar_constant_array@, constant_array.vector_constant_array@)
                == spec_after_writes(start, writes@, values@, k as int),
        decreases writes@.len() - k,
    {
        let ghost w = writes@[k as int];
        assert(w.component matches Some(c) ==> c < 4);
        apply_constant_write(constant_array, &writes[k], values[k]);
        k = k + 1;
    }
}

/// Every write of an assignment list names an existing component, so each can be applied.
pub proof fn law_writes_name_components(constants: Seq<ShaderConstantAssignment>, rm: ResourceMap, buffers: Seq<Vec<u8>>)
    ensures
        forall|j: int| 0 <= j < spec_constant_writes(constants, rm, buffers).len() ==>
            ((#[trigger] spec_constant_writes(constants, rm, buffers)[j]).component matches Some(c) ==> c < 4),
    decreases constants.len(),
{
    if constants.len() > 0 {
        law_writes_name_components(constants.drop_last(), rm, buffers);
    }
}

} // verus!
