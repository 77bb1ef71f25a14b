//! Vertex buffer layouts: the attribute offsets, shader locations and stride
//! that the demos hand to pipeline construction, computed from the attribute
//! formats instead of spelled out by hand.

use vstd::prelude::*;

verus! {

/// Formats the demo vertices use.
#[derive(Clone, Copy, PartialEq, Eq, Structural, Debug)]
pub enum VertexFormat {
    Char4,
    Float2,
    Float3,
    Float4,
}

/// Size in bytes of one attribute of this format.
pub open spec fn spec_format_size(f: VertexFormat) -> int {
    match f {
        VertexFormat::Char4 => 4,
        VertexFormat::Float2 => 8,
        VertexFormat::Float3 => 12,
        VertexFormat::Float4 => 16,
    }
}

/// Size in bytes of one attribute of this format.
pub fn format_size(f: VertexFormat) -> (s: u64)
    ensures
        s == spec_format_size(f),
{
    match f {
        VertexFormat::Char4 => 4,
        VertexFormat::Float2 => 8,
        VertexFormat::Float3 => 12,
        VertexFormat::Float4 => 16,
    }
}

/// Byte offset of attribute `i`: the sizes of all attributes before it.
pub open spec fn spec_offset_of(formats: Seq<VertexFormat>, i: int) -> int
    decreases i,
{
    if i <= 0 {
        0
    } else {
        spec_offset_of(formats, i - 1) + spec_format_size(formats[i - 1])
    }
}

/// One attribute of a vertex buffer descriptor.
#[derive(Clone, Copy, PartialEq, Eq, Structural, Debug)]
pub struct VertexAttribute {
    pub offset: u64,
    pub shader_location: u32,
    pub format: VertexFormat,
}

/// Attributes laid out back to back: attribute `i` has shader location `i`,
/// format `formats[i]`, and the offset where the previous attribute ended.
pub open spec fn attributes_wf(formats: Seq<VertexFormat>, attrs: Seq<VertexAttribute>) -> bool {
    &&& attrs.len() == formats.len()
    &&& forall|i: int|
        0 <= i < attrs.len() ==> {
            let a = #[trigger] attrs[i];
            &&& a.format == formats[i]
            &&& a.shader_location == i
            &&& a.offset == spec_offset_of(formats, i)
        }
}

/// Lays the attributes of a vertex out back to back, returning them together
/// with the stride: the total size of one vertex.
pub fn vertex_attributes(formats: &Vec<VertexFormat>) -> (r: (Vec<VertexAttribute>, u64))
    requires
        formats@.len() * 16 <= u64::MAX,
        formats@.len() <= u32::MAX,
    ensures
        attributes_wf(formats@, r.0@),
        r.1 == spec_offset_of(formats@, formats@.len() as int),
{
    let mut attrs: Vec<VertexAttribute> = Vec::new();
    let mut offset: u64 = 0;
    let mut i: usize = 0;
    while i < formats.len()
        invariant
            i <= formats@.len(),
            formats@.len() * 16 <= u64::MAX,
            formats@.len() <= u32::MAX,
            attrs@.len() == i,
            offset == spec_offset_of(formats@, i as int),
            offset <= 16 * i,
            forall|k: int|
                0 <= k < i ==> {
                    let a = #[trigger] attrs@[k];
                    &&& a.format == formats@[k]
                    &&& a.shader_location == k
                    &&& a.offset == spec_offset_of(formats@, k)
                },
        decreases formats@.len() - i,
    {
        proof {
            assert(16 * (i as int) + 16 <= 16 * formats@.len()) by (nonlinear_arith)
                requires
                    i < formats@.len(),
            ;
            assert(16 * formats@.len() <= u64::MAX);
        }
        let f = formats[i];
        attrs.push(VertexAttribute { offset, shader_location: i as u32, format: f });
        offset = offset + format_size(f);
        i = i + 1;
    }
    (attrs, offset)
}

/// The layout of the interleaved model vertex: position, texture coordinates,
/// normal, tangent and bitangent, at the offsets the shaders expect.
pub fn geom_vertex_desc() -> (r: (Vec<VertexAttribute>, u64))
    ensures
        r.0@.len() == 5,
        r.0@[0] == (VertexAttribute {
            offset: 0,
            shader_location: 0,
            format: VertexFormat::Float3,
        }),
        r.0@[1] == (VertexAttribute {
            offset: 12,
            shader_location: 1,
            format: VertexFormat::Float2,
        }),
        r.0@[2] == (VertexAttribute {
            offset: 20,
            shader_location: 2,
            format: VertexFormat::Float3,
        }),
        r.0@[3] == (VertexAttribute {
            offset: 32,
            shader_location: 3,
            format: VertexFormat::Float3,
        }),
        r.0@[4] == (VertexAttribute {
            offset: 44,
            shader_location: 4,
            format: VertexFormat::Float3,
        }),
        r.1 == 56,
{
    let mut formats: Vec<VertexFormat> = Vec::new();
    formats.push(VertexFormat::Float3);
    formats.push(VertexFormat::Float2);
    formats.push(VertexFormat::Float3);
    formats.push(VertexFormat::Float3);
    formats.push(VertexFormat::Float3);
    let r = vertex_attributes(&formats);
    proof {
        assert(spec_offset_of(formats@, 0) == 0);
        assert(spec_offset_of(formats@, 1) == 12);
        assert(spec_offset_of(formats@, 2) == 20);
        assert(spec_offset_of(formats@, 3) == 32);
        assert(spec_offset_of(formats@, 4) == 44);
        assert(spec_offset_of(formats@, 5) == 56);
    }
    r
}

/// The layout of the textured cube vertex: a four-component position and a
/// texture coordinate.
pub fn cube_vertex_desc() -> (r: (Vec<VertexAttribute>, u64))
    ensures
        r.0@.len() == 2,
        r.0@[0] == (VertexAttribute {
            offset: 0,
            shader_location: 0,
            format: VertexFormat::Float4,
        }),
        r.0@[1] == (VertexAttribute {
            offset: 16,
            shader_location: 1,
            format: VertexFormat::Float2,
        }),
        r.1 == 24,
{
    let mut formats: Vec<VertexFormat> = Vec::new();
    formats.push(VertexFormat::Float4);
    formats.push(VertexFormat::Float2);
    let r = vertex_attributes(&formats);
    proof {
        assert(spec_offset_of(formats@, 0) == 0);
        assert(spec_offset_of(formats@, 1) == 16);
        assert(spec_offset_of(formats@, 2) == 24);
    }
    r
}

/// The layout of the shadow-demo vertex: signed-byte position and normal.
pub fn shadow_vertex_desc() -> (r: (Vec<VertexAttribute>, u64))
    ensures
        r.0@.len() == 2,
        r.0@[0] == (VertexAttribute {
            offset: 0,
            shader_location: 0,
            format: VertexFormat::Char4,
        }),
        r.0@[1] == (VertexAttribute {
            offset: 4,
            shader_location: 1,
            format: VertexFormat::Char4,
        }),
        r.1 == 8,
{
    let mut formats: Vec<VertexFormat> = Vec::new();
    formats.push(VertexFormat::Char4);
    formats.push(VertexFormat::Char4);
    let r = vertex_attributes(&formats);
    proof {
        assert(spec_offset_of(formats@, 0) == 0);
        assert(spec_offset_of(formats@, 1) == 4);
        assert(spec_offset_of(formats@, 2) == 8);
    }
    r
}

} // verus!
