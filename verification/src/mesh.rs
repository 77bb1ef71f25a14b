//! Meshes as the model loader assembles them: interleaved vertices built from
//! the flat position, texture-coordinate and normal arrays of a parsed OBJ
//! file, the triangle indices, and the byte images of both buffers as they
//! are uploaded to the GPU.
//!
//! Scalar vertex components are carried as opaque 32-bit words (the IEEE bit
//! patterns the file loader produced): the library only moves and stores
//! them, it never computes with them.

use vstd::prelude::*;

verus! {

/// One interleaved mesh vertex: position, texture coordinates, normal, and
/// the tangent and bitangent that a compute pass fills in later.
#[derive(Clone, Copy, Debug)]
pub struct Vertex {
    pub position: [u32; 3],
    pub tex_coords: [u32; 2],
    pub normal: [u32; 3],
    pub tangent: [u32; 3],
    pub bitangent: [u32; 3],
}

impl Vertex {
    /// Builds a vertex from its components.
    pub fn new(
        position: [u32; 3],
        tex_coords: [u32; 2],
        normal: [u32; 3],
        tangent: [u32; 3],
        bitangent: [u32; 3],
    ) -> (v: Vertex)
        ensures
            v.position@ == position@,
            v.tex_coords@ == tex_coords@,
            v.normal@ == normal@,
            v.tangent@ == tangent@,
            v.bitangent@ == bitangent@,
    {
        Vertex { position, tex_coords, normal, tangent, bitangent }
    }
}

/// Vertex `i` of the assembled mesh carries the `i`-th position, texture
/// coordinate and normal of the flat arrays, with zeroed tangent space.
pub open spec fn vertex_assembled(
    positions: Seq<u32>,
    texcoords: Seq<u32>,
    normals: Seq<u32>,
    v: Vertex,
    i: int,
) -> bool {
    &&& v.position@ =~= seq![positions[3 * i], positions[3 * i + 1], positions[3 * i + 2]]
    &&& v.tex_coords@ =~= seq![texcoords[2 * i], texcoords[2 * i + 1]]
    &&& v.normal@ =~= seq![normals[3 * i], normals[3 * i + 1], normals[3 * i + 2]]
    &&& v.tangent@ =~= seq![0u32, 0u32, 0u32]
    &&& v.bitangent@ =~= seq![0u32, 0u32, 0u32]
}

/// Interleaves the flat arrays of a parsed model into vertices: one vertex
/// per three positions, with its two texture coordinates and three normals,
/// and a zeroed tangent space for the compute pass to fill in.
pub fn build_vertices(positions: &Vec<u32>, texcoords: &Vec<u32>, normals: &Vec<u32>) -> (r: Vec<
    Vertex,
>)
    requires
        texcoords@.len() >= 2 * (positions@.len() / 3),
        normals@.len() >= 3 * (positions@.len() / 3),
    ensures
        r@.len() == positions@.len() / 3,
        forall|i: int|
            0 <= i < r@.len() ==> vertex_assembled(
                positions@,
                texcoords@,
                normals@,
                #[trigger] r@[i],
                i,
            ),
{
    let plen = positions.len();
    let n = plen / 3;
    let mut r: Vec<Vertex> = Vec::new();
    let mut i: usize = 0;
    while i < n
        invariant
            i <= n,
            plen == positions@.len(),
            n == positions@.len() / 3,
            texcoords@.len() >= 2 * n,
            normals@.len() >= 3 * n,
            r@.len() == i,
            forall|k: int|
                0 <= k < i ==> vertex_assembled(positions@, texcoords@, normals@, #[trigger] r@[k], k),
        decreases n - i,
    {
        proof {
            assert(3 * (positions@.len() as int / 3) <= positions@.len());
            assert(3 * (i as int) + 2 < 3 * (n as int));
            assert(2 * (i as int) + 1 < 2 * (n as int));
        }
        let v = Vertex::new(
            [positions[i * 3], positions[i * 3 + 1], positions[i * 3 + 2]],
            [texcoords[i * 2], texcoords[i * 2 + 1]],
            [normals[i * 3], normals[i * 3 + 1], normals[i * 3 + 2]],
            [0, 0, 0],
            [0, 0, 0],
        );
        r.push(v);
        i = i + 1;
    }
    r
}

/// A named mesh: its vertices, triangle indices and the material slot it
/// draws with.
pub struct Mesh {
    pub name: String,
    pub vertices: Vec<Vertex>,
    pub indices: Vec<u32>,
    pub material_id: usize,
}

impl Mesh {
    /// Every index addresses a vertex of this mesh.
    pub open spec fn indices_wf(self) -> bool {
        forall|k: int| 0 <= k < self.indices@.len() ==> (#[trigger] self.indices@[k]) < self.vertices@.len()
    }

    /// Decidable form of `indices_wf`.
    pub fn indices_wf_check(&self) -> (r: bool)
        ensures
            r == self.indices_wf(),
    {
        let mut k: usize = 0;
        while k < self.indices.len()
            invariant
                k <= self.indices@.len(),
                forall|j: int| 0 <= j < k ==> (#[trigger] self.indices@[j]) < self.vertices@.len(),
            decreases self.indices@.len() - k,
        {
            if self.indices[k] as usize >= self.vertices.len() {
                return false;
            }
            k = k + 1;
        }
        true
    }
}

/// Assembles a mesh from the flat arrays of one parsed OBJ object: vertices
/// interleaved as `build_vertices` does, the indices as parsed, and the
/// material slot defaulting to the first material when the object names none.
pub fn build_mesh(
    name: String,
    positions: &Vec<u32>,
    texcoords: &Vec<u32>,
    normals: &Vec<u32>,
    indices: Vec<u32>,
    material_id: Option<usize>,
) -> (m: Mesh)
    requires
        texcoords@.len() >= 2 * (positions@.len() / 3),
        normals@.len() >= 3 * (positions@.len() / 3),
    ensures
        m.name@ == name@,
        m.vertices@.len() == positions@.len() / 3,
        forall|i: int|
            0 <= i < m.vertices@.len() ==> vertex_assembled(
                positions@,
                texcoords@,
                normals@,
                #[trigger] m.vertices@[i],
                i,
            ),
        m.indices@ == indices@,
        m.material_id == match material_id {
            Some(id) => id,
            None => 0,
        },
{
    let vertices = build_vertices(positions, texcoords, normals);
    let material_id = match material_id {
        Some(id) => id,
        None => 0,
    };
    Mesh { name, vertices, indices, material_id }
}

/// The vertex and index counts handed to the tangent compute pass, as the
/// 32-bit values the shader reads (larger counts wrap, as the cast does).
#[derive(Clone, Copy, PartialEq, Eq, Structural, Debug)]
pub struct ComputeInfo {
    pub num_vertices: u32,
    pub num_indices: u32,
}

/// Counts of a mesh for the compute dispatch.
pub fn compute_info(mesh: &Mesh) -> (c: ComputeInfo)
    ensures
        c.num_vertices == mesh.vertices@.len() as u32,
        c.num_indices == mesh.indices@.len() as u32,
{
    ComputeInfo {
        num_vertices: #[verifier::truncate] (mesh.vertices.len() as u32),
        num_indices: #[verifier::truncate] (mesh.indices.len() as u32),
    }
}

/// The four little-endian bytes of a 32-bit word.
pub open spec fn le_bytes_of_u32(x: u32) -> Seq<u8> {
    seq![
        (x % 256) as u8,
        ((x / 256) % 256) as u8,
        ((x / 65536) % 256) as u8,
        ((x / 16777216) % 256) as u8,
    ]
}

/// Scalar `j` of a vertex, in interleaved buffer order: position, texture
/// coordinates, normal, tangent, bitangent.
pub open spec fn vertex_scalar(v: Vertex, j: int) -> u32 {
    if j < 3 {
        v.position@[j]
    } else if j < 5 {
        v.tex_coords@[j - 3]
    } else if j < 8 {
        v.normal@[j - 5]
    } else if j < 11 {
        v.tangent@[j - 8]
    } else {
        v.bitangent@[j - 11]
    }
}

/// Number of scalars in one interleaved vertex.
pub const VERTEX_SCALARS: usize = 14;

/// Number of bytes one interleaved vertex occupies.
pub const VERTEX_STRIDE: usize = 56;

/// The byte image of an index buffer: little-endian 32-bit words in order.
pub open spec fn index_bytes_wf(indices: Seq<u32>, out: Seq<u8>) -> bool {
    &&& out.len() == 4 * indices.len()
    &&& forall|k: int|
        0 <= k < out.len() ==> out[k] == le_bytes_of_u32(indices[k / 4])[k % 4]
}

/// The byte image of a vertex buffer: each vertex as 14 little-endian 32-bit
/// scalars, 56 bytes per vertex.
pub open spec fn vertex_bytes_wf(vertices: Seq<Vertex>, out: Seq<u8>) -> bool {
    &&& out.len() == 56 * vertices.len()
    &&& forall|k: int|
        0 <= k < out.len() ==> out[k] == le_bytes_of_u32(
            vertex_scalar(vertices[k / 56], (k % 56) / 4),
        )[k % 4]
}

/// Appends the four little-endian bytes of one word.
fn push_le_bytes(out: &mut Vec<u8>, x: u32)
    ensures
        final (out)@ == old(out)@ + le_bytes_of_u32(x),
{
    out.push((x % 256) as u8);
    out.push(((x / 256) % 256) as u8);
    out.push(((x / 65536) % 256) as u8);
    out.push(((x / 16777216) % 256) as u8);
    proof {
        assert(out@ =~= old(out)@ + le_bytes_of_u32(x));
    }
}

/// Serialises an index buffer to the bytes uploaded to the GPU.
pub fn index_buffer_bytes(indices: &Vec<u32>) -> (out: Vec<u8>)
    ensures
        index_bytes_wf(indices@, out@),
{
    let mut out: Vec<u8> = Vec::new();
    let mut i: usize = 0;
    while i < indices.len()
        invariant
            i <= indices@.len(),
            out@.len() == 4 * i,
            forall|k: int|
                0 <= k < out@.len() ==> out@[k] == le_bytes_of_u32(indices@[k / 4])[k % 4],
        decreases indices@.len() - i,
    {
        push_le_bytes(&mut out, indices[i]);
        proof {
            lemma_le_byte_index(i as int, 4);
        }
        i = i + 1;
    }
    out
}

/// Bytes `4 * i .. 4 * i + 4` of a word-aligned buffer belong to word `i`.
proof fn lemma_le_byte_index(i: int, width: int) by (nonlinear_arith)
    requires
        0 <= i,
        1 <= width,
    ensures
        forall|b: int|
            0 <= b < width ==> (#[trigger] ((i * width + b) / width)) == i && (i * width + b)
                % width == b,
{
}

/// Serialises a vertex buffer to the bytes uploaded to the GPU: 14 scalars of
/// 4 bytes for each vertex, interleaved in buffer order.
pub fn vertex_buffer_bytes(vertices: &Vec<Vertex>) -> (out: Vec<u8>)
    ensures
        vertex_bytes_wf(vertices@, out@),
{
    let mut out: Vec<u8> = Vec::new();
    let mut i: usize = 0;
    while i < vertices.len()
        invariant
            i <= vertices@.len(),
            out@.len() == 56 * i,
            forall|k: int|
                0 <= k < out@.len() ==> out@[k] == le_bytes_of_u32(
                    vertex_scalar(vertices@[k / 56], (k % 56) / 4),
                )[k % 4],
        decreases vertices@.len() - i,
    {
        let v = vertices[i];
        let mut j: usize = 0;
        while j < 14
            invariant
                j <= 14,
                i < vertices@.len(),
                v == vertices@[i as int],
                out@.len() == 56 * i + 4 * j,
                forall|k: int|
                    0 <= k < out@.len() ==> out@[k] == le_bytes_of_u32(
                        vertex_scalar(vertices@[k / 56], (k % 56) / 4),
                    )[k % 4],
            decreases 14 - j,
        {
            let s: u32 = if j < 3 {
                v.position[j]
            } else if j < 5 {
                v.tex_coords[j - 3]
            } else if j < 8 {
                v.normal[j - 5]
            } else if j < 11 {
                v.tangent[j - 8]
            } else {
                v.bitangent[j - 11]
            };
            push_le_bytes(&mut out, s);
            proof {
                assert(s == vertex_scalar(vertices@[i as int], j as int));
                lemma_vertex_byte_index(i as int, j as int);
            }
            j = j + 1;
        }
        i = i + 1;
    }
    out
}

/// Bytes `56 * i + 4 * j .. + 4` of a vertex buffer belong to scalar `j` of
/// vertex `i`.
proof fn lemma_vertex_byte_index(i: int, j: int) by (nonlinear_arith)
    requires
        0 <= i,
        0 <= j < 14,
    ensures
        forall|b: int|
            0 <= b < 4 ==> #[trigger] ((56 * i + 4 * j + b) / 56) == i && ((56 * i + 4 * j + b)
                % 56) / 4 == j && (56 * i + 4 * j + b) % 4 == b,
{
}

} // verus!
