use render_core::geometry::{create_cube, create_plane, create_vertices, tex_vertex, vertex};

const CUBE_INDICES: [u16; 36] = [
    0, 1, 2, 2, 3, 0, // top
    4, 5, 6, 6, 7, 4, // bottom
    8, 9, 10, 10, 11, 8, // right
    12, 13, 14, 14, 15, 12, // left
    16, 17, 18, 18, 19, 16, // front
    20, 21, 22, 22, 23, 20, // back
];

#[test]
fn vertex_fills_homogeneous_components() {
    let v = vertex([-1, 2, 3], [0, 0, 1]);
    assert_eq!(v.pos, [-1, 2, 3, 1]);
    assert_eq!(v.normal, [0, 0, 1, 0]);
}

#[test]
fn tex_vertex_fills_homogeneous_component() {
    let v = tex_vertex([1, -1, 1], [1, 0]);
    assert_eq!(v.pos, [1, -1, 1, 1]);
    assert_eq!(v.tex_coord, [1, 0]);
}

#[test]
fn cube_has_quad_face_indices() {
    let (verts, idx) = create_cube();
    assert_eq!(verts.len(), 24);
    assert_eq!(idx, CUBE_INDICES.to_vec());
    assert!(idx.iter().all(|&i| (i as usize) < verts.len()));
}

#[test]
fn cube_vertices_match_table() {
    let (verts, _) = create_cube();
    // top face
    assert_eq!(verts[0].pos, [-1, -1, 1, 1]);
    assert_eq!(verts[1].pos, [1, -1, 1, 1]);
    assert_eq!(verts[2].pos, [1, 1, 1, 1]);
    assert_eq!(verts[3].pos, [-1, 1, 1, 1]);
    for v in &verts[0..4] {
        assert_eq!(v.normal, [0, 0, 1, 0]);
    }
    // bottom face normal
    for v in &verts[4..8] {
        assert_eq!(v.normal, [0, 0, -1, 0]);
    }
    // right face lies on x = 1
    for v in &verts[8..12] {
        assert_eq!(v.pos[0], 1);
        assert_eq!(v.normal, [1, 0, 0, 0]);
    }
    // back face
    assert_eq!(verts[23].pos, [1, -1, -1, 1]);
    assert_eq!(verts[23].normal, [0, -1, 0, 0]);
}

#[test]
fn plane_is_one_quad() {
    let (verts, idx) = create_plane(7);
    assert_eq!(verts.len(), 4);
    assert_eq!(verts[0].pos, [7, -7, 0, 1]);
    assert_eq!(verts[1].pos, [7, 7, 0, 1]);
    assert_eq!(verts[2].pos, [-7, -7, 0, 1]);
    assert_eq!(verts[3].pos, [-7, 7, 0, 1]);
    for v in &verts {
        assert_eq!(v.normal, [0, 0, 1, 0]);
    }
    assert_eq!(idx, vec![0, 1, 2, 2, 1, 3]);
}

#[test]
fn textured_cube_matches_table() {
    let (verts, idx, count) = create_vertices();
    assert_eq!(verts.len(), 24);
    assert_eq!(idx, CUBE_INDICES.to_vec());
    assert_eq!(count, 36);
    assert_eq!(verts[0].pos, [-1, -1, 1, 1]);
    assert_eq!(verts[0].tex_coord, [0, 0]);
    assert_eq!(verts[2].tex_coord, [1, 1]);
    assert_eq!(verts[23].pos, [1, -1, -1, 1]);
    assert_eq!(verts[23].tex_coord, [0, 1]);
}
