//! Uniform-buffer bookkeeping of the shadow demo: the aligned dynamic offsets
//! the entities write and draw with, the per-light slots of the light uniform
//! buffer, and the sizes of both buffers.

use vstd::prelude::*;

use crate::mesh::{index_buffer_bytes, index_bytes_wf};

verus! {

/// Alignment that dynamic uniform-buffer offsets must honour.
pub const BIND_BUFFER_ALIGNMENT: u64 = 256;

/// Size in bytes of one entity's uniforms: a 4-by-4 float matrix and a color.
pub const ENTITY_UNIFORM_SIZE: u64 = 80;

/// Size in bytes of one light's uniforms: a 4-by-4 float projection, a
/// position and a color.
pub const LIGHT_UNIFORM_SIZE: u64 = 96;

/// Size in bytes of the projection matrix at the head of a light's uniforms.
pub const LIGHT_PROJ_SIZE: u64 = 64;

/// How many lights the light uniform buffer holds room for.
pub const MAX_LIGHTS: u64 = 10;

/// One entity's uniforms fit in one aligned slot.
pub proof fn lemma_entity_uniforms_fit()
    ensures
        ENTITY_UNIFORM_SIZE <= BIND_BUFFER_ALIGNMENT,
{
}

/// Dynamic offset of entity `i`'s uniforms: one aligned slot per entity, the
/// ground plane in slot 0 and cube `k` in slot `k + 1`.
pub fn entity_uniform_offset(i: u64) -> (r: u64)
    requires
        i * 256 <= u64::MAX,
    ensures
        r == i * BIND_BUFFER_ALIGNMENT,
        r % BIND_BUFFER_ALIGNMENT == 0,
    {
    proof {
        assert((i * 256) % 256 == 0) by (nonlinear_arith);
    }
    i * BIND_BUFFER_ALIGNMENT
}

/// Size of the entity uniform buffer: one aligned slot for each entity.
pub fn entity_uniform_buffer_size(num_entities: u64) -> (r: u64)
    requires
        num_entities * 256 <= u64::MAX,
    ensures
        r == num_entities * BIND_BUFFER_ALIGNMENT,
{
    num_entities * BIND_BUFFER_ALIGNMENT
}

/// Byte offset of light `i` in the light uniform buffer.
pub fn light_uniform_offset(i: u64) -> (r: u64)
    requires
        i * 96 <= u64::MAX,
    ensures
        r == i * LIGHT_UNIFORM_SIZE,
{
    i * LIGHT_UNIFORM_SIZE
}

/// Size of the light uniform buffer: room for the maximum light count.
pub fn light_uniform_buffer_size() -> (r: u64)
    ensures
        r == MAX_LIGHTS * LIGHT_UNIFORM_SIZE,
        r == 960,
{
    MAX_LIGHTS * LIGHT_UNIFORM_SIZE
}

/// The byte image of one light's uniforms as the lighting demos upload them:
/// the position, one padding word — uniform layouts demand 16-byte spacing
/// before the color — and the color, each word little endian. Scalars arrive
/// as the 32-bit patterns the front end produced.
pub fn light_raw_bytes(position: [u32; 3], color: [u32; 3]) -> (out: Vec<u8>)
    ensures
        index_bytes_wf(
            seq![position@[0], position@[1], position@[2], 0u32, color@[0], color@[1], color@[2]],
            out@,
        ),
        out@.len() == 28,
{
    let mut words: Vec<u32> = Vec::new();
    words.push(position[0]);
    words.push(position[1]);
    words.push(position[2]);
    words.push(0);
    words.push(color[0]);
    words.push(color[1]);
    words.push(color[2]);
    proof {
        assert(words@ =~= seq![
            position@[0],
            position@[1],
            position@[2],
            0u32,
            color@[0],
            color@[1],
            color@[2],
        ]);
    }
    index_buffer_bytes(&words)
}

/// The byte image of the forward pass's uniforms: the projection matrix's 16
/// words, then the light count, then three words of padding.
pub fn forward_uniform_bytes(proj: &Vec<u32>, num_lights: u32) -> (out: Vec<u8>)
    requires
        proj@.len() == 16,
    ensures
        index_bytes_wf(proj@ + seq![num_lights, 0u32, 0u32, 0u32], out@),
        out@.len() == 80,
{
    let mut words: Vec<u32> = Vec::new();
    let mut i: usize = 0;
    while i < proj.len()
        invariant
            i <= proj@.len(),
            words@ == proj@.take(i as int),
        decreases proj@.len() - i,
    {
        words.push(proj[i]);
        proof {
            assert(words@ =~= proj@.take(i + 1));
        }
        i = i + 1;
    }
    words.push(num_lights);
    words.push(0);
    words.push(0);
    words.push(0);
    proof {
        assert(proj@.take(proj@.len() as int) =~= proj@);
        assert(words@ =~= proj@ + seq![num_lights, 0u32, 0u32, 0u32]);
    }
    index_buffer_bytes(&words)
}

/// The byte image of one entity's uniforms: its model matrix and its color.
/// The image fills `ENTITY_UNIFORM_SIZE` bytes of the entity's aligned slot.
pub fn entity_uniform_bytes(model: &Vec<u32>, color: [u32; 4]) -> (out: Vec<u8>)
    requires
        model@.len() == 16,
    ensures
        index_bytes_wf(model@ + color@, out@),
        out@.len() == ENTITY_UNIFORM_SIZE,
{
    let mut words: Vec<u32> = Vec::new();
    let mut i: usize = 0;
    while i < model.len()
        invariant
            i <= model@.len(),
            words@ == model@.take(i as int),
        decreases model@.len() - i,
    {
        words.push(model[i]);
        proof {
            assert(words@ =~= model@.take(i + 1));
        }
        i = i + 1;
    }
    words.push(color[0]);
    words.push(color[1]);
    words.push(color[2]);
    words.push(color[3]);
    proof {
        assert(model@.take(model@.len() as int) =~= model@);
        assert(words@ =~= model@ + color@);
    }
    index_buffer_bytes(&words)
}

/// The copy that primes a shadow pass for light `i`: the projection matrix is
/// copied from light `i`'s slot to the head of the shadow uniform buffer.
#[derive(Clone, Copy, PartialEq, Eq, Structural, Debug)]
pub struct ShadowCopy {
    pub src_offset: u64,
    pub dst_offset: u64,
    pub size: u64,
}

/// The shadow-pass copy for light `i`.
pub fn shadow_uniform_copy(i: u64) -> (c: ShadowCopy)
    requires
        i * 96 <= u64::MAX,
    ensures
        c.src_offset == i * LIGHT_UNIFORM_SIZE,
        c.dst_offset == 0,
        c.size == LIGHT_PROJ_SIZE,
{
    ShadowCopy { src_offset: light_uniform_offset(i), dst_offset: 0, size: LIGHT_PROJ_SIZE }
}

} // verus!
