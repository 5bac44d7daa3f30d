//! Allocation of the GPU's numbered resources with bit tables.

use vstd::prelude::*;
use vstd::std_specs::bits::u32_leading_ones;

verus! {

/// The allocation tables: one bit per resource number.
pub struct TrackedResources {
    pub constant_sampler_allocs: [u32; 2],
    pub texture_allocs: [u32; 2],
    pub buffer_allocs: [u32; 8],
    pub shader_allocs: [u32; 4],
    pub pipeline_state_allocs: [u32; 2],
}

/// A constant sampler's number.
#[derive(Clone, Copy, Debug)]
pub struct ConstantSamplerHandle(pub u8);
/// A texture's number.
#[derive(Clone, Copy, Debug)]
pub struct TextureHandle(pub u8);
/// A buffer's number.
#[derive(Clone, Copy, Debug)]
pub struct BufferHandle(pub u8);
/// A shader's number.
#[derive(Clone, Copy, Debug)]
pub struct ShaderHandle(pub u8);
/// A pipeline state's number.
#[derive(Clone, Copy, Debug)]
pub struct PipelineStateHandle(pub u8);

/// What an allocation from the words `flags[w..]` does: the first word not all ones gives the
/// number of its leading one bits `x` (counted from the top); bit `x` (counted from the
/// bottom) is set and the number `x + 32 * w` returned. `None` when every word is full.
pub open spec fn spec_alloc_from(flags: Seq<u32>, w: int) -> (Seq<u32>, Option<u8>)
    decreases flags.len() - w,
{
    if w < 0 || w >= flags.len() {
        (flags, None)
    } else if flags[w] != 0xFFFF_FFFF && u32_leading_ones(flags[w]) != 32 {
        let x = u32_leading_ones(flags[w]);
        (flags.update(w, flags[w] | (1u32 << x)), Some((x + w * 32) as u8))
    } else {
        spec_alloc_from(flags, w + 1)
    }
}

/// The tables after freeing number `x`: bit `x % 32` of word `x / 32` cleared.
pub open spec fn spec_free(flags: Seq<u32>, x: u8) -> Seq<u32> {
    flags.update((x / 32) as int, flags[(x / 32) as int] & !(1u32 << (x % 32) as u32))
}

/// Allocates a number from a table (see `spec_alloc_from`).
fn alloc_number<const N: usize>(alloc_flags: &mut [u32; N]) -> (r: Option<u8>)
    requires
        N <= 8,
    ensures
        (final(alloc_flags)@, r) == spec_alloc_from(old(alloc_flags)@, 0),
{
    let mut w: usize = 0;
    while w < N
        invariant
            N <= 8,
            w <= N,
            alloc_flags@ == old(alloc_flags)@,
            spec_alloc_from(old(alloc_flags)@, 0) == spec_alloc_from(old(alloc_flags)@, w as int),
        decreases N - w,
    {
        if alloc_flags[w] != 0xFFFF_FFFF {
            let x = alloc_flags[w].leading_ones();
            if x != 32 {
                proof {
                    vstd::std_specs::bits::axiom_u32_leading_ones(alloc_flags@[w as int]);
                }
                alloc_flags[w] = alloc_flags[w] | (1u32 << x);
                return Some(x as u8 + (w * 32) as u8);
            }
        }
        w = w + 1;
    }
    None
}

/// Frees number `x` in a table.
fn free_number<const N: usize>(alloc_flags: &mut [u32; N], x: u8)
    requires
        (x / 32) < N,
    ensures
        final(alloc_flags)@ == spec_free(old(alloc_flags)@, x),
{
    let w = (x >> 5) as usize;
    assert((x >> 5u8) == x / 32 && (x & 31u8) == x % 32) by (bit_vector);
    alloc_flags[w] = alloc_flags[w] & !(1u32 << (x & 31));
}

impl TrackedResources {
    /// Empty tables: nothing allocated.
    pub fn new() -> (r: Self)
        ensures
            r.constant_sampler_allocs@ == seq![0u32, 0],
            r.texture_allocs@ == seq![0u32, 0],
            r.buffer_allocs@ == seq![0u32, 0, 0, 0, 0, 0, 0, 0],
            r.shader_allocs@ == seq![0u32, 0, 0, 0],
            r.pipeline_state_allocs@ == seq![0u32, 0],
    {
        let r = TrackedResources {
            constant_sampler_allocs: [0; 2],
            texture_allocs: [0; 2],
            buffer_allocs: [0; 8],
            shader_allocs: [0; 4],
            pipeline_state_allocs: [0; 2],
        };
        proof {
            assert(r.constant_sampler_allocs@ =~= seq![0u32, 0]);
            assert(r.texture_allocs@ =~= seq![0u32, 0]);
            assert(r.buffer_allocs@ =~= seq![0u32, 0, 0, 0, 0, 0, 0, 0]);
            assert(r.shader_allocs@ =~= seq![0u32, 0, 0, 0]);
            assert(r.pipeline_state_allocs@ =~= seq![0u32, 0]);
        }
        r
    }

    /// Allocates a texture number (see `spec_alloc_from`).
    pub fn alloc_texture(&mut self) -> (r: Option<TextureHandle>)
        ensures
            (final(self).texture_allocs@, match r { Some(h) => Some(h.0), None => None }) == spec_alloc_from(old(self).texture_allocs@, 0),
            final(self).buffer_allocs == old(self).buffer_allocs,
            final(self).shader_allocs == old(self).shader_allocs,
            final(self).pipeline_state_allocs == old(self).pipeline_state_allocs,
            final(self).constant_sampler_allocs == old(self).constant_sampler_allocs,
    {
        match alloc_number(&mut self.texture_allocs) {
            Some(x) => Some(TextureHandle(x)),
            None => None,
        }
    }

    /// Frees a texture number.
    pub fn free_texture(&mut self, handle: TextureHandle)
        requires
            handle.0 / 32 < 2,
        ensures
            final(self).texture_allocs@ == spec_free(old(self).texture_allocs@, handle.0),
            final(self).buffer_allocs == old(self).buffer_allocs,
            final(self).shader_allocs == old(self).shader_allocs,
            final(self).pipeline_state_allocs == old(self).pipeline_state_allocs,
            final(self).constant_sampler_allocs == old(self).constant_sampler_allocs,
    {
        free_number(&mut self.texture_allocs, handle.0)
    }

    /// Allocates a buffer number (see `spec_alloc_from`).
    pub fn alloc_buffer(&mut self) -> (r: Option<BufferHandle>)
        ensures
            (final(self).buffer_allocs@, match r { Some(h) => Some(h.0), None => None }) == spec_alloc_from(old(self).buffer_allocs@, 0),
            final(self).texture_allocs == old(self).texture_allocs,
            final(self).shader_allocs == old(self).shader_allocs,
            final(self).pipeline_state_allocs == old(self).pipeline_state_allocs,
            final(self).constant_sampler_allocs == old(self).constant_sampler_allocs,
    {
        match alloc_number(&mut self.buffer_allocs) {
            Some(x) => Some(BufferHandle(x)),
            None => None,
        }
    }

    /// Frees a buffer number.
    pub fn free_buffer(&mut self, handle: BufferHandle)
        requires
            handle.0 / 32 < 8,
        ensures
            final(self).buffer_allocs@ == spec_free(old(self).buffer_allocs@, handle.0),
            final(self).texture_allocs == old(self).texture_allocs,
            final(self).shader_allocs == old(self).shader_allocs,
            final(self).pipeline_state_allocs == old(self).pipeline_state_allocs,
            final(self).constant_sampler_allocs == old(self).constant_sampler_allocs,
    {
        free_number(&mut self.buffer_allocs, handle.0)
    }

    /// Allocates a shader number (see `spec_alloc_from`).
    pub fn alloc_shader(&mut self) -> (r: Option<ShaderHandle>)
        ensures
            (final(self).shader_allocs@, match r { Some(h) => Some(h.0), None => None }) == spec_alloc_from(old(self).shader_allocs@, 0),
            final(self).texture_allocs == old(self).texture_allocs,
            final(self).buffer_allocs == old(self).buffer_allocs,
            final(self).pipeline_state_allocs == old(self).pipeline_state_allocs,
            final(self).constant_sampler_allocs == old(self).constant_sampler_allocs,
    {
        match alloc_number(&mut self.shader_allocs) {
            Some(x) => Some(ShaderHandle(x)),
            None => None,
        }
    }

    /// Frees a shader number.
    pub fn free_shader(&mut self, handle: ShaderHandle)
        requires
            handle.0 / 32 < 4,
        ensures
            final(self).shader_allocs@ == spec_free(old(self).shader_allocs@, handle.0),
            final(self).texture_allocs == old(self).texture_allocs,
            final(self).buffer_allocs == old(self).buffer_allocs,
            final(self).pipeline_state_allocs == old(self).pipeline_state_allocs,
            final(self).constant_sampler_allocs == old(self).constant_sampler_allocs,
    {
        free_number(&mut self.shader_allocs, handle.0)
    }

    /// Allocates a pipeline state number (see `spec_alloc_from`).
    pub fn alloc_pipeline_state(&mut self) -> (r: Option<PipelineStateHandle>)
        ensures
            (final(self).pipeline_state_allocs@, match r { Some(h) => Some(h.0), None => None }) == spec_alloc_from(old(self).pipeline_state_allocs@, 0),
            final(self).texture_allocs == old(self).texture_allocs,
            final(self).buffer_allocs == old(self).buffer_allocs,
            final(self).shader_allocs == old(self).shader_allocs,
            final(self).constant_sampler_allocs == old(self).constant_sampler_allocs,
    {
        match alloc_number(&mut self.pipeline_state_allocs) {
            Some(x) => Some(PipelineStateHandle(x)),
            None => None,
        }
    }

    /// Frees a pipeline state number.
    pub fn free_pipeline_state(&mut self, handle: PipelineStateHandle)
        requires
            handle.0 / 32 < 2,
        ensures
            final(self).pipeline_state_allocs@ == spec_free(old(self).pipeline_state_allocs@, handle.0),
            final(self).texture_allocs == old(self).texture_allocs,
            final(self).buffer_allocs == old(self).buffer_allocs,
            final(self).shader_allocs == old(self).shader_allocs,
            final(self).constant_sampler_allocs == old(self).constant_sampler_allocs,
    {
        free_number(&mut self.pipeline_state_allocs, handle.0)
    }

    /// Allocates a constant sampler number (see `spec_alloc_from`).
    pub fn alloc_constant_sampler(&mut self) -> (r: Option<ConstantSamplerHandle>)
        ensures
            (final(self).constant_sampler_allocs@, match r { Some(h) => Some(h.0), None => None }) == spec_alloc_from(old(self).constant_sampler_allocs@, 0),
            final(self).texture_allocs == old(self).texture_allocs,
            final(self).buffer_allocs == old(self).buffer_allocs,
            final(self).shader_allocs == old(self).shader_allocs,
            final(self).pipeline_state_allocs == old(self).pipeline_state_allocs,
    {
        match alloc_number(&mut self.constant_sampler_allocs) {
            Some(x) => Some(ConstantSamplerHandle(x)),
            None => None,
        }
    }

    /// Frees a constant sampler number.
    pub fn free_constant_sampler(&mut self, handle: ConstantSamplerHandle)
        requires
            handle.0 / 32 < 2,
        ensures
            final(self).constant_sampler_allocs@ == spec_free(old(self).constant_sampler_allocs@, handle.0),
            final(self).texture_allocs == old(self).texture_allocs,
            final(self).buffer_allocs == old(self).buffer_allocs,
            final(self).shader_allocs == old(self).shader_allocs,
            final(self).pipeline_state_allocs == old(self).pipeline_state_allocs,
    {
        free_number(&mut self.constant_sampler_allocs, handle.0)
    }
}

/// On empty tables the first allocation gives number 0; because the bit set is counted from
/// the bottom and the free bit sought from the top, the next allocation gives 0 again.
pub proof fn law_alloc_on_empty_table()
    ensures
        spec_alloc_from(seq![0u32, 0], 0).1 == Some(0u8),
        spec_alloc_from(spec_alloc_from(seq![0u32, 0], 0).0, 0).1 == Some(0u8),
{
    vstd::std_specs::bits::axiom_u32_leading_ones(0u32);
    vstd::std_specs::bits::axiom_u32_leading_ones(1u32);
    assert(0u32 | (1u32 << 0u32) == 1u32 && (1u32 >> 31u32) & 1u32 == 0u32 && (0u32 >> 31u32) & 1u32 == 0u32) by (bit_vector);
    assert(u32_leading_ones(0u32) == 0);
    assert(u32_leading_ones(1u32) == 0);
    assert(seq![0u32, 0].update(0, 1u32) =~= seq![1u32, 0]);
}

/// An allocated number lies within the table, and the word it came from gets a bit set.
pub proof fn law_alloc_in_range(flags: Seq<u32>, w: int)
    requires
        0 <= w,
        flags.len() <= 8,
    ensures
        ({
            let (after, r) = spec_alloc_from(flags, w);
            &&& after.len() == flags.len()
            &&& r matches Some(x) ==> (x as int) < 32 * flags.len()
        }),
    decreases flags.len() - w,
{
    if w < flags.len() {
        vstd::std_specs::bits::axiom_u32_leading_ones(flags[w]);
        if !(flags[w] != 0xFFFF_FFFF && u32_leading_ones(flags[w]) != 32) {
            law_alloc_in_range(flags, w + 1);
        }
    }
}

} // verus!
