//! Integer-coordinate demo meshes: the unit cube and the ground plane that the
//! shadow and instancing demos draw. Vertex components are small integers that
//! the GPU expands to floats; indices form two triangles per quad face.

use vstd::prelude::*;

verus! {

/// Vertex of the shadow-demo meshes: corner position and face normal, both as
/// signed bytes with a homogeneous fourth component.
#[derive(Clone, Copy, Debug)]
pub struct Vertex {
    pub pos: [i8; 4],
    pub normal: [i8; 4],
}

/// Vertex of the textured-cube demos: corner position and texture coordinate.
#[derive(Clone, Copy, Debug)]
pub struct TexVertex {
    pub pos: [i8; 4],
    pub tex_coord: [i8; 2],
}

/// Builds one mesh vertex from a position and a normal, filling in the
/// homogeneous components (1 for a point, 0 for a direction).
pub fn vertex(pos: [i8; 3], nor: [i8; 3]) -> (v: Vertex)
    ensures
        v.pos@ =~= seq![pos[0], pos[1], pos[2], 1],
        v.normal@ =~= seq![nor[0], nor[1], nor[2], 0],
{
    Vertex { pos: [pos[0], pos[1], pos[2], 1], normal: [nor[0], nor[1], nor[2], 0] }
}

/// Builds one textured vertex from a position and a texture coordinate.
pub fn tex_vertex(pos: [i8; 3], tc: [i8; 2]) -> (v: TexVertex)
    ensures
        v.pos@ =~= seq![pos[0], pos[1], pos[2], 1],
        v.tex_coord@ =~= seq![tc[0], tc[1]],
{
    TexVertex { pos: [pos[0], pos[1], pos[2], 1], tex_coord: [tc[0], tc[1]] }
}

/// Index pattern of one quad face: two triangles over corners 0, 1, 2, 3.
pub open spec fn quad_pattern(j: int) -> int {
    if j == 0 {
        0
    } else if j == 1 {
        1
    } else if j == 2 {
        2
    } else if j == 3 {
        2
    } else if j == 4 {
        3
    } else {
        0
    }
}

/// The outward normal of cube face `f`, in the order the faces are laid out:
/// top, bottom, right, left, front, back.
pub open spec fn cube_face_normal(f: int) -> (int, int, int) {
    if f == 0 {
        (0, 0, 1)
    } else if f == 1 {
        (0, 0, -1)
    } else if f == 2 {
        (1, 0, 0)
    } else if f == 3 {
        (-1, 0, 0)
    } else if f == 4 {
        (0, 1, 0)
    } else {
        (0, -1, 0)
    }
}

/// Cube index buffer: index `k` addresses corner `quad_pattern(k % 6)` of face
/// `k / 6`, four vertices per face.
pub open spec fn cube_indices_wf(idx: Seq<u16>) -> bool {
    &&& idx.len() == 36
    &&& forall|k: int| 0 <= k < 36 ==> idx[k] == 4 * (k / 6) + quad_pattern(k % 6)
}

/// Every cube index addresses one of the 24 cube vertices, so an indexed
/// draw over the whole index buffer stays in range.
pub proof fn lemma_cube_indices_in_range(idx: Seq<u16>)
    requires
        cube_indices_wf(idx),
    ensures
        forall|k: int| 0 <= k < idx.len() ==> (#[trigger] idx[k]) < 24,
{
    assert forall|k: int| 0 <= k < idx.len() implies (#[trigger] idx[k]) < 24 by {
        assert(idx[k] == 4 * (k / 6) + quad_pattern(k % 6));
        assert(k / 6 <= 5);
        assert(quad_pattern(k % 6) <= 3);
    }
}

/// A cube vertex belonging to face `f`: its position is a corner of the
/// [-1, 1] cube, it carries the outward normal of that face, and it lies on
/// the plane of the face (position dot normal is 1).
pub open spec fn cube_vertex_ok(v: Vertex, f: int) -> bool {
    let n = cube_face_normal(f);
    &&& v.pos@.len() == 4
    &&& v.normal@.len() == 4
    &&& (v.pos@[0] == -1 || v.pos@[0] == 1)
    &&& (v.pos@[1] == -1 || v.pos@[1] == 1)
    &&& (v.pos@[2] == -1 || v.pos@[2] == 1)
    &&& v.pos@[3] == 1
    &&& v.normal@[0] == n.0
    &&& v.normal@[1] == n.1
    &&& v.normal@[2] == n.2
    &&& v.normal@[3] == 0
    &&& v.pos@[0] * n.0 + v.pos@[1] * n.1 + v.pos@[2] * n.2 == 1
}

/// Cube vertex buffer: 24 vertices, four per face, each in order a valid
/// vertex of its face.
pub open spec fn cube_vertices_wf(verts: Seq<Vertex>) -> bool {
    &&& verts.len() == 24
    &&& forall|i: int| 0 <= i < 24 ==> cube_vertex_ok(#[trigger] verts[i], i / 4)
}

/// Four pairwise distinct positions: a quad face with them is not degenerate.
pub open spec fn quad_corners_distinct(a: Vertex, b: Vertex, c: Vertex, d: Vertex) -> bool {
    &&& a.pos@ != b.pos@
    &&& a.pos@ != c.pos@
    &&& a.pos@ != d.pos@
    &&& b.pos@ != c.pos@
    &&& b.pos@ != d.pos@
    &&& c.pos@ != d.pos@
}

/// The four vertices of each of the six cube faces sit at distinct corners.
pub open spec fn cube_faces_nondegenerate(verts: Seq<Vertex>) -> bool {
    &&& verts.len() == 24
    &&& quad_corners_distinct(verts[0], verts[1], verts[2], verts[3])
    &&& quad_corners_distinct(verts[4], verts[5], verts[6], verts[7])
    &&& quad_corners_distinct(verts[8], verts[9], verts[10], verts[11])
    &&& quad_corners_distinct(verts[12], verts[13], verts[14], verts[15])
    &&& quad_corners_distinct(verts[16], verts[17], verts[18], verts[19])
    &&& quad_corners_distinct(verts[20], verts[21], verts[22], verts[23])
}


/// Appends the four corners of one quad face.
fn push4(out: &mut Vec<Vertex>, a: Vertex, b: Vertex, c: Vertex, d: Vertex)
    ensures
        final (out)@ == old(out)@ + seq![a, b, c, d],
{
    out.push(a);
    out.push(b);
    out.push(c);
    out.push(d);
    proof {
        assert(out@ =~= old(out)@ + seq![a, b, c, d]);
    }
}

/// Appends the four corners of one textured quad face.
fn push4t(out: &mut Vec<TexVertex>, a: TexVertex, b: TexVertex, c: TexVertex, d: TexVertex)
    ensures
        final (out)@ == old(out)@ + seq![a, b, c, d],
{
    out.push(a);
    out.push(b);
    out.push(c);
    out.push(d);
    proof {
        assert(out@ =~= old(out)@ + seq![a, b, c, d]);
    }
}

/// The unit cube as the demos draw it: 24 vertices (four per face, each with
/// the face's outward normal) and 36 indices (two triangles per face).
#[verifier::rlimit(100)]
pub fn create_cube() -> (r: (Vec<Vertex>, Vec<u16>))
    ensures
        cube_vertices_wf(r.0@),
        cube_faces_nondegenerate(r.0@),
        cube_indices_wf(r.1@),
{
    let mut vertex_data: Vec<Vertex> = Vec::new();
    // top (0, 0, 1)
    push4(
        &mut vertex_data,
        vertex([-1, -1, 1], [0, 0, 1]),
        vertex([1, -1, 1], [0, 0, 1]),
        vertex([1, 1, 1], [0, 0, 1]),
        vertex([-1, 1, 1], [0, 0, 1]),
    );
    // bottom (0, 0, -1)
    push4(
        &mut vertex_data,
        vertex([-1, 1, -1], [0, 0, -1]),
        vertex([1, 1, -1], [0, 0, -1]),
        vertex([1, -1, -1], [0, 0, -1]),
        vertex([-1, -1, -1], [0, 0, -1]),
    );
    // right (1, 0, 0)
    push4(
        &mut vertex_data,
        vertex([1, -1, -1], [1, 0, 0]),
        vertex([1, 1, -1], [1, 0, 0]),
        vertex([1, 1, 1], [1, 0, 0]),
        vertex([1, -1, 1], [1, 0, 0]),
    );
    // left (-1, 0, 0)
    push4(
        &mut vertex_data,
        vertex([-1, -1, 1], [-1, 0, 0]),
        vertex([-1, 1, 1], [-1, 0, 0]),
        vertex([-1, 1, -1], [-1, 0, 0]),
        vertex([-1, -1, -1], [-1, 0, 0]),
    );
    // front (0, 1, 0)
    push4(
        &mut vertex_data,
        vertex([1, 1, -1], [0, 1, 0]),
        vertex([-1, 1, -1], [0, 1, 0]),
        vertex([-1, 1, 1], [0, 1, 0]),
        vertex([1, 1, 1], [0, 1, 0]),
    );
    // back (0, -1, 0)
    push4(
        &mut vertex_data,
        vertex([1, -1, 1], [0, -1, 0]),
        vertex([-1, -1, 1], [0, -1, 0]),
        vertex([-1, -1, -1], [0, -1, 0]),
        vertex([1, -1, -1], [0, -1, 0]),
    );

    proof {
        assert(cube_faces_nondegenerate(vertex_data@));
    }
    let index_data = quad_face_indices();

    (vertex_data, index_data)
}

/// Two triangles for each of the six cube faces.
fn quad_face_indices() -> (idx: Vec<u16>)
    ensures
        cube_indices_wf(idx@),
{
    let mut idx: Vec<u16> = Vec::new();
    let mut f: u16 = 0;
    while f < 6
        invariant
            f <= 6,
            idx@.len() == 6 * f,
            forall|k: int|
                0 <= k < idx@.len() ==> idx@[k] == 4 * (k / 6) + quad_pattern(k % 6),
        decreases 6 - f,
    {
        let base = 4 * f;
        idx.push(base);
        idx.push(base + 1);
        idx.push(base + 2);
        idx.push(base + 2);
        idx.push(base + 3);
        idx.push(base);
        proof {
            assert forall|k: int| 0 <= k < idx@.len() implies idx@[k] == 4 * (k / 6) + quad_pattern(
                k % 6,
            ) by {
                if k >= 6 * f {
                    assert(k / 6 == f as int) by (nonlinear_arith)
                        requires
                            6 * f <= k < 6 * f + 6,
                    ;
                    assert(k % 6 == k - 6 * (f as int)) by (nonlinear_arith)
                        requires
                            6 * f <= k < 6 * f + 6,
                    ;
                }
            }
        }
        f = f + 1;
    }
    idx
}

/// The ground plane: a single quad of half-width `size` in the z = 0 plane,
/// facing up.
pub fn create_plane(size: i8) -> (r: (Vec<Vertex>, Vec<u16>))
    requires
        size != i8::MIN,
    ensures
        r.0@.len() == 4,
        r.0@[0].pos@ =~= seq![size, (-size) as i8, 0, 1],
        r.0@[1].pos@ =~= seq![size, size, 0, 1],
        r.0@[2].pos@ =~= seq![(-size) as i8, (-size) as i8, 0, 1],
        r.0@[3].pos@ =~= seq![(-size) as i8, size, 0, 1],
        forall|i: int| 0 <= i < 4 ==> (#[trigger] r.0@[i]).normal@ =~= seq![0i8, 0, 1, 0],
        r.1@ =~= seq![0u16, 1, 2, 2, 1, 3],
{
    let neg = -size;
    let mut vertex_data: Vec<Vertex> = Vec::new();
    vertex_data.push(vertex([size, neg, 0], [0, 0, 1]));
    vertex_data.push(vertex([size, size, 0], [0, 0, 1]));
    vertex_data.push(vertex([neg, neg, 0], [0, 0, 1]));
    vertex_data.push(vertex([neg, size, 0], [0, 0, 1]));

    let mut index_data: Vec<u16> = Vec::new();
    index_data.push(0);
    index_data.push(1);
    index_data.push(2);
    index_data.push(2);
    index_data.push(1);
    index_data.push(3);

    (vertex_data, index_data)
}

/// Textured-cube vertices: every texture coordinate is 0 or 1, and positions
/// are cube corners as in `cube_vertices_wf`.
pub open spec fn tex_cube_vertices_wf(verts: Seq<TexVertex>) -> bool {
    &&& verts.len() == 24
    &&& forall|i: int|
        0 <= i < 24 ==> {
            let v = #[trigger] verts[i];
            &&& v.pos@.len() == 4
            &&& v.tex_coord@.len() == 2
            &&& (v.pos@[0] == -1 || v.pos@[0] == 1)
            &&& (v.pos@[1] == -1 || v.pos@[1] == 1)
            &&& (v.pos@[2] == -1 || v.pos@[2] == 1)
            &&& v.pos@[3] == 1
            &&& (v.tex_coord@[0] == 0 || v.tex_coord@[0] == 1)
            &&& (v.tex_coord@[1] == 0 || v.tex_coord@[1] == 1)
        }
}

/// The textured unit cube: 24 vertices with texture coordinates and the same
/// 36 quad-face indices, plus the index count that the draw call uses.
pub fn create_vertices() -> (r: (Vec<TexVertex>, Vec<u16>, usize))
    ensures
        tex_cube_vertices_wf(r.0@),
        cube_indices_wf(r.1@),
        r.2 == r.1@.len(),
{
    let mut vertex_data: Vec<TexVertex> = Vec::new();
    // top (0, 0, 1)
    push4t(
        &mut vertex_data,
        tex_vertex([-1, -1, 1], [0, 0]),
        tex_vertex([1, -1, 1], [1, 0]),
        tex_vertex([1, 1, 1], [1, 1]),
        tex_vertex([-1, 1, 1], [0, 1]),
    );
    // bottom (0, 0, -1)
    push4t(
        &mut vertex_data,
        tex_vertex([-1, 1, -1], [1, 0]),
        tex_vertex([1, 1, -1], [0, 0]),
        tex_vertex([1, -1, -1], [0, 1]),
        tex_vertex([-1, -1, -1], [1, 1]),
    );
    // right (1, 0, 0)
    push4t(
        &mut vertex_data,
        tex_vertex([1, -1, -1], [0, 0]),
        tex_vertex([1, 1, -1], [1, 0]),
        tex_vertex([1, 1, 1], [1, 1]),
        tex_vertex([1, -1, 1], [0, 1]),
    );
    // left (-1, 0, 0)
    push4t(
        &mut vertex_data,
        tex_vertex([-1, -1, 1], [1, 0]),
        tex_vertex([-1, 1, 1], [0, 0]),
        tex_vertex([-1, 1, -1], [0, 1]),
        tex_vertex([-1, -1, -1], [1, 1]),
    );
    // front (0, 1, 0)
    push4t(
        &mut vertex_data,
        tex_vertex([1, 1, -1], [1, 0]),
        tex_vertex([-1, 1, -1], [0, 0]),
        tex_vertex([-1, 1, 1], [0, 1]),
        tex_vertex([1, 1, 1], [1, 1]),
    );
    // back (0, -1, 0)
    push4t(
        &mut vertex_data,
        tex_vertex([1, -1, 1], [0, 0]),
        tex_vertex([-1, -1, 1], [1, 0]),
        tex_vertex([-1, -1, -1], [1, 1]),
        tex_vertex([1, -1, -1], [0, 1]),
    );

    let index_data = quad_face_indices();
    let n = index_data.len();

    (vertex_data, index_data, n)
}

} // verus!

