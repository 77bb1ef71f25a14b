use render_core::binding::BindingBuilder;
use render_core::controller::{CameraController, Key};
use render_core::draw::{
    draw_commands, draw_geom, draw_geom_instanced_with_light_and_inner_material,
    draw_geom_with_light_and_other_material, draw_light_model, Geom, Material, MaterialChoice,
};
use render_core::instances::{grid_positions, GridPos, NUM_INSTANCES_PER_ROW};
use render_core::mesh::{Mesh, Vertex};
use render_core::uniforms::{
    entity_uniform_buffer_size, entity_uniform_bytes, entity_uniform_offset,
    forward_uniform_bytes, light_raw_bytes, light_uniform_buffer_size, light_uniform_offset,
    shadow_uniform_copy, BIND_BUFFER_ALIGNMENT, ENTITY_UNIFORM_SIZE, LIGHT_PROJ_SIZE,
    LIGHT_UNIFORM_SIZE, MAX_LIGHTS,
};
use render_core::vertex_layout::{
    cube_vertex_desc, format_size, geom_vertex_desc, shadow_vertex_desc, vertex_attributes,
    VertexFormat,
};

#[test]
fn geom_vertex_layout_offsets() {
    let (attrs, stride) = geom_vertex_desc();
    let offsets: Vec<u64> = attrs.iter().map(|a| a.offset).collect();
    assert_eq!(offsets, vec![0, 12, 20, 32, 44]);
    let locations: Vec<u32> = attrs.iter().map(|a| a.shader_location).collect();
    assert_eq!(locations, vec![0, 1, 2, 3, 4]);
    assert_eq!(stride, 56);
}

#[test]
fn cube_and_shadow_vertex_layouts() {
    let (attrs, stride) = cube_vertex_desc();
    assert_eq!(attrs[1].offset, 16);
    assert_eq!(stride, 24);
    let (attrs, stride) = shadow_vertex_desc();
    assert_eq!(attrs[0].format, VertexFormat::Char4);
    assert_eq!(attrs[1].offset, 4);
    assert_eq!(stride, 8);
}

#[test]
fn attribute_layout_accumulates_sizes() {
    assert_eq!(format_size(VertexFormat::Float2), 8);
    let formats = vec![VertexFormat::Float4, VertexFormat::Char4, VertexFormat::Float3];
    let (attrs, stride) = vertex_attributes(&formats);
    assert_eq!(attrs[0].offset, 0);
    assert_eq!(attrs[1].offset, 16);
    assert_eq!(attrs[2].offset, 20);
    assert_eq!(stride, 32);
}

#[test]
fn uniform_slots_are_aligned() {
    assert_eq!(BIND_BUFFER_ALIGNMENT, 256);
    assert!(ENTITY_UNIFORM_SIZE <= BIND_BUFFER_ALIGNMENT);
    assert_eq!(entity_uniform_offset(0), 0);
    assert_eq!(entity_uniform_offset(1), 256);
    assert_eq!(entity_uniform_offset(4), 1024);
    // Ground plane plus four cubes.
    assert_eq!(entity_uniform_buffer_size(5), 1280);
}

#[test]
fn light_slots() {
    assert_eq!(LIGHT_UNIFORM_SIZE, 96);
    assert_eq!(light_uniform_offset(0), 0);
    assert_eq!(light_uniform_offset(1), 96);
    assert_eq!(light_uniform_buffer_size(), MAX_LIGHTS * LIGHT_UNIFORM_SIZE);
    assert_eq!(light_uniform_buffer_size(), 960);
    let c = shadow_uniform_copy(1);
    assert_eq!(c.src_offset, 96);
    assert_eq!(c.dst_offset, 0);
    assert_eq!(c.size, LIGHT_PROJ_SIZE);
    assert_eq!(c.size, 64);
}

#[test]
fn draw_mesh_is_the_unit_of_a_pass() {
    let v = test_vertex();
    let mesh = Mesh {
        name: "m".to_string(),
        vertices: vec![v, v, v],
        indices: vec![0, 1, 2],
        material_id: 0,
    };
    let c = render_core::draw::draw_mesh(&mesh, 4, true, Some(2), 1, 3);
    assert_eq!(c.mesh_index, 4);
    assert_eq!(c.index_count, 3);
    assert!(c.with_light);
    assert_eq!(c.material, Some(2));
    assert_eq!((c.instance_start, c.instance_end), (1, 3));
}

#[test]
fn empty_and_single_grids() {
    assert_eq!(grid_positions(0).len(), 0);
    let one = grid_positions(1);
    assert_eq!(one, vec![GridPos { x: 0, z: 0 }]);
}

#[test]
fn light_bytes_pad_before_the_color() {
    let out = light_raw_bytes([1, 2, 3], [4, 5, 6]);
    assert_eq!(out.len(), 28);
    assert_eq!(&out[0..4], &[1, 0, 0, 0]);
    assert_eq!(&out[8..12], &[3, 0, 0, 0]);
    // The padding word keeps the color 16-byte aligned.
    assert_eq!(&out[12..16], &[0, 0, 0, 0]);
    assert_eq!(&out[16..20], &[4, 0, 0, 0]);
    assert_eq!(&out[24..28], &[6, 0, 0, 0]);
}

#[test]
fn forward_uniform_bytes_carry_the_light_count() {
    let proj: Vec<u32> = (1..=16).collect();
    let out = forward_uniform_bytes(&proj, 2);
    assert_eq!(out.len(), 80);
    assert_eq!(&out[0..4], &[1, 0, 0, 0]);
    assert_eq!(&out[60..64], &[16, 0, 0, 0]);
    assert_eq!(&out[64..68], &[2, 0, 0, 0]);
    assert_eq!(&out[68..80], &[0; 12]);
}

#[test]
fn entity_uniform_bytes_fill_one_slot() {
    let model: Vec<u32> = (0..16).collect();
    let out = entity_uniform_bytes(&model, [7, 8, 9, 10]);
    assert_eq!(out.len() as u64, ENTITY_UNIFORM_SIZE);
    assert_eq!(&out[64..68], &[7, 0, 0, 0]);
    assert_eq!(&out[76..80], &[10, 0, 0, 0]);
}

#[test]
fn instance_grid_is_row_major() {
    assert_eq!(NUM_INSTANCES_PER_ROW, 10);
    let grid = grid_positions(10);
    assert_eq!(grid.len(), 100);
    assert_eq!(grid[0], GridPos { x: 0, z: 0 });
    assert_eq!(grid[9], GridPos { x: 9, z: 0 });
    assert_eq!(grid[10], GridPos { x: 0, z: 1 });
    assert_eq!(grid[17], GridPos { x: 7, z: 1 });
    assert_eq!(grid[99], GridPos { x: 9, z: 9 });
}

#[test]
fn controller_tracks_movement_keys() {
    let mut c = CameraController::new();
    assert!(c.process_key(Key::W, true));
    assert!(c.forward_pressed);
    assert_eq!(c.forward_axis(), 1);
    assert!(c.process_key(Key::S, true));
    assert_eq!(c.forward_axis(), 0);
    assert!(c.process_key(Key::W, false));
    assert_eq!(c.forward_axis(), -1);
    // Arrow keys steer the same directions.
    assert!(c.process_key(Key::Up, true));
    assert!(c.forward_pressed);
    assert!(c.process_key(Key::Right, true));
    assert_eq!(c.right_axis(), 1);
    assert!(c.process_key(Key::Space, true));
    assert!(c.process_key(Key::LShift, true));
    assert_eq!(c.up_axis(), 0);
    // Unhandled keys change nothing.
    let before = c;
    assert!(!c.process_key(Key::Other, true));
    assert_eq!(c, before);
}

fn test_vertex() -> Vertex {
    Vertex::new([0; 3], [0; 2], [0; 3], [0; 3], [0; 3])
}

fn two_mesh_geom() -> Geom {
    let v = test_vertex();
    let meshes = vec![
        Mesh {
            name: "a".to_string(),
            vertices: vec![v, v, v],
            indices: vec![0, 1, 2],
            material_id: 1,
        },
        Mesh {
            name: "b".to_string(),
            vertices: vec![v, v, v],
            indices: vec![0, 1, 2, 2, 1, 0],
            material_id: 0,
        },
    ];
    let materials = vec![
        Material { name: "m0".to_string(), binding: BindingBuilder::new().build() },
        Material { name: "m1".to_string(), binding: BindingBuilder::new().build() },
    ];
    Geom { meshes, materials }
}

#[test]
fn plain_draw_records_one_command_per_mesh() {
    let geom = two_mesh_geom();
    let cmds = draw_geom(&geom);
    assert_eq!(cmds.len(), 2);
    assert_eq!(cmds[0].mesh_index, 0);
    assert_eq!(cmds[0].index_count, 3);
    assert!(!cmds[0].with_light);
    assert_eq!(cmds[0].material, None);
    assert_eq!((cmds[0].instance_start, cmds[0].instance_end), (0, 1));
    assert_eq!(cmds[1].index_count, 6);
}

#[test]
fn inner_material_draw_uses_each_meshes_slot() {
    let geom = two_mesh_geom();
    assert!(geom.materials_wf_check());
    let cmds = draw_geom_instanced_with_light_and_inner_material(&geom, 0, 100);
    assert_eq!(cmds[0].material, Some(1));
    assert_eq!(cmds[1].material, Some(0));
    assert!(cmds[0].with_light);
    assert_eq!((cmds[0].instance_start, cmds[0].instance_end), (0, 100));
}

#[test]
fn other_material_draw_uses_one_slot() {
    let geom = two_mesh_geom();
    let cmds = draw_geom_with_light_and_other_material(&geom, 0);
    assert_eq!(cmds[0].material, Some(0));
    assert_eq!(cmds[1].material, Some(0));
}

#[test]
fn light_pass_binds_light_without_material() {
    let geom = two_mesh_geom();
    let cmds = draw_light_model(&geom);
    assert!(cmds[0].with_light);
    assert_eq!(cmds[0].material, None);
    let custom = draw_commands(&geom, false, MaterialChoice::OtherMaterial(1), 2, 5);
    assert_eq!(custom[1].material, Some(1));
    assert_eq!((custom[1].instance_start, custom[1].instance_end), (2, 5));
}
