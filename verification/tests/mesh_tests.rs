use render_core::mesh::{
    build_mesh, build_vertices, compute_info, index_buffer_bytes, vertex_buffer_bytes, Mesh,
    Vertex, VERTEX_SCALARS, VERTEX_STRIDE,
};

#[test]
fn vertices_interleave_flat_arrays() {
    let positions: Vec<u32> = vec![10, 11, 12, 20, 21, 22];
    let texcoords: Vec<u32> = vec![100, 101, 200, 201];
    let normals: Vec<u32> = vec![30, 31, 32, 40, 41, 42];
    let verts = build_vertices(&positions, &texcoords, &normals);
    assert_eq!(verts.len(), 2);
    assert_eq!(verts[0].position, [10, 11, 12]);
    assert_eq!(verts[0].tex_coords, [100, 101]);
    assert_eq!(verts[0].normal, [30, 31, 32]);
    assert_eq!(verts[0].tangent, [0, 0, 0]);
    assert_eq!(verts[0].bitangent, [0, 0, 0]);
    assert_eq!(verts[1].position, [20, 21, 22]);
    assert_eq!(verts[1].tex_coords, [200, 201]);
    assert_eq!(verts[1].normal, [40, 41, 42]);
}

#[test]
fn mesh_defaults_to_first_material() {
    let positions: Vec<u32> = vec![1, 2, 3];
    let texcoords: Vec<u32> = vec![4, 5];
    let normals: Vec<u32> = vec![6, 7, 8];
    let m = build_mesh(
        "cube".to_string(),
        &positions,
        &texcoords,
        &normals,
        vec![0, 0, 0],
        None,
    );
    assert_eq!(m.name, "cube");
    assert_eq!(m.vertices.len(), 1);
    assert_eq!(m.material_id, 0);
    let m2 = build_mesh(
        "cube".to_string(),
        &positions,
        &texcoords,
        &normals,
        vec![0],
        Some(3),
    );
    assert_eq!(m2.material_id, 3);
}

#[test]
fn index_bounds_are_checked() {
    let v = Vertex::new([0; 3], [0; 2], [0; 3], [0; 3], [0; 3]);
    let ok = Mesh {
        name: "m".to_string(),
        vertices: vec![v, v],
        indices: vec![0, 1, 1],
        material_id: 0,
    };
    assert!(ok.indices_wf_check());
    let bad = Mesh {
        name: "m".to_string(),
        vertices: vec![v, v],
        indices: vec![0, 2],
        material_id: 0,
    };
    assert!(!bad.indices_wf_check());
}

#[test]
fn compute_info_counts() {
    let v = Vertex::new([0; 3], [0; 2], [0; 3], [0; 3], [0; 3]);
    let m = Mesh {
        name: "m".to_string(),
        vertices: vec![v, v, v],
        indices: vec![0, 1, 2, 2, 1, 0],
        material_id: 0,
    };
    let info = compute_info(&m);
    assert_eq!(info.num_vertices, 3);
    assert_eq!(info.num_indices, 6);
}

#[test]
fn index_bytes_are_little_endian() {
    let out = index_buffer_bytes(&vec![1, 0x0102_0304]);
    assert_eq!(out, vec![1, 0, 0, 0, 0x04, 0x03, 0x02, 0x01]);
}

#[test]
fn vertex_bytes_interleave_scalars() {
    assert_eq!(VERTEX_SCALARS, 14);
    assert_eq!(VERTEX_STRIDE, 56);
    let v = Vertex::new(
        [1, 2, 3],
        [4, 5],
        [6, 7, 8],
        [9, 10, 11],
        [12, 13, 0x0102_0304],
    );
    let out = vertex_buffer_bytes(&vec![v]);
    assert_eq!(out.len(), 56);
    // First scalar: position.x == 1.
    assert_eq!(&out[0..4], &[1, 0, 0, 0]);
    // Scalar 3 is the first texture coordinate.
    assert_eq!(&out[12..16], &[4, 0, 0, 0]);
    // Scalar 5 is the first normal component.
    assert_eq!(&out[20..24], &[6, 0, 0, 0]);
    // Scalar 8 is the first tangent component.
    assert_eq!(&out[32..36], &[9, 0, 0, 0]);
    // The last scalar is the bitangent's z, little endian.
    assert_eq!(&out[52..56], &[0x04, 0x03, 0x02, 0x01]);
}

#[test]
fn vertex_bytes_of_two_vertices() {
    let a = Vertex::new([1, 1, 1], [1, 1], [1, 1, 1], [1, 1, 1], [1, 1, 1]);
    let b = Vertex::new([2, 2, 2], [2, 2], [2, 2, 2], [2, 2, 2], [2, 2, 2]);
    let out = vertex_buffer_bytes(&vec![a, b]);
    assert_eq!(out.len(), 112);
    assert_eq!(out[0], 1);
    assert_eq!(out[56], 2);
}
