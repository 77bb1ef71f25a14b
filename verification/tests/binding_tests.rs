use render_core::binding::{
    bindings_consistent_check, shared_target_ok_check, BindResource, Binding, BindingBuilder,
    BindingType, BufferPlan, LayoutEntry, TextureDesc, STAGE_COMPUTE, STAGE_FRAGMENT, STAGE_VERTEX,
    UNIFORM_BUFFER_USAGE, USAGE_STORAGE, USAGE_VERTEX,
};

fn small_texture() -> TextureDesc {
    TextureDesc { width: 4, height: 4, depth: 1, bytes_per_pixel: 4, mip_level_count: 1 }
}

#[test]
fn builder_accumulates_labels_and_bindings() {
    let b = BindingBuilder::new()
        .uniform_buffer("camera", vec![1, 2, 3, 4], STAGE_VERTEX, false)
        .storage_buffer("instances", vec![9, 9], STAGE_VERTEX, false, true)
        .texture("diffuse_texture", small_texture(), STAGE_FRAGMENT, false);
    assert_eq!(b.labels, vec!["camera", "instances", "diffuse_texture"]);
    assert_eq!(b.bindings.len(), 3);
}

#[test]
fn binding_plans_follow_kinds() {
    let binding = BindingBuilder::new()
        .uniform_buffer("camera", vec![1, 2, 3, 4], STAGE_VERTEX, false)
        .texture("diffuse_texture", small_texture(), STAGE_FRAGMENT, false)
        .storage_buffer_custom(
            "vertex_buffer",
            vec![7],
            USAGE_VERTEX | USAGE_STORAGE,
            STAGE_VERTEX | STAGE_COMPUTE,
            false,
            false,
        )
        .build();

    // One buffer slot per binding.
    assert_eq!(binding.buffers.len(), 3);
    match &binding.buffers[0] {
        BufferPlan::Init { contents, usage } => {
            assert_eq!(contents, &vec![1, 2, 3, 4]);
            assert_eq!(*usage, UNIFORM_BUFFER_USAGE);
        }
        _ => panic!("uniform slot should be a fresh buffer"),
    }
    match &binding.buffers[1] {
        BufferPlan::Dummy => {}
        _ => panic!("texture slot should be a placeholder"),
    }
    match &binding.buffers[2] {
        BufferPlan::Init { contents, usage } => {
            assert_eq!(contents, &vec![7]);
            assert_eq!(*usage, USAGE_VERTEX | USAGE_STORAGE);
        }
        _ => panic!("storage slot should be a fresh buffer"),
    }

    // The texture contributes a texture entry and a sampler entry.
    assert_eq!(
        binding.layout,
        vec![
            LayoutEntry::UniformBuffer { visibility: STAGE_VERTEX, dynamic: false },
            LayoutEntry::SampledTexture { visibility: STAGE_FRAGMENT },
            LayoutEntry::Sampler { visibility: STAGE_FRAGMENT, comparison: false },
            LayoutEntry::StorageBuffer {
                visibility: STAGE_VERTEX | STAGE_COMPUTE,
                dynamic: false,
                readonly: false
            },
        ]
    );

    assert_eq!(
        binding.resources,
        vec![
            BindResource::Buffer { index: 0 },
            BindResource::TextureAndSampler { index: 1 },
            BindResource::Buffer { index: 2 },
        ]
    );
}

#[test]
fn shared_bindings_reuse_buffers() {
    let inner = BindingType::Storage {
        contents: vec![1],
        usage: USAGE_STORAGE,
        visibility: STAGE_COMPUTE,
        dynamic: false,
        readonly: true,
    };
    let binding = BindingBuilder::new()
        .assign_storage_buffer("dst_vertex_buffer", Box::new(inner), 42)
        .build();
    match &binding.buffers[0] {
        BufferPlan::Shared { buffer } => assert_eq!(*buffer, 42),
        _ => panic!("shared slot should reuse the registered buffer"),
    }
    assert_eq!(
        binding.layout,
        vec![LayoutEntry::StorageBuffer {
            visibility: STAGE_COMPUTE,
            dynamic: false,
            readonly: true
        }]
    );
}

#[test]
fn shared_binding_kinds_are_checked() {
    let good = BindingType::SharedUniformBuffer {
        binding: Box::new(BindingType::Uniform {
            contents: vec![],
            visibility: STAGE_VERTEX,
            dynamic: false,
        }),
        buffer: 0,
    };
    let bad = BindingType::SharedUniformBuffer {
        binding: Box::new(BindingType::Texture {
            texture: small_texture(),
            visibility: STAGE_FRAGMENT,
            comparison: false,
        }),
        buffer: 0,
    };
    assert!(shared_target_ok_check(&good));
    assert!(!shared_target_ok_check(&bad));
    assert!(bindings_consistent_check(&vec![good]));
    let plain = BindingType::Uniform { contents: vec![], visibility: STAGE_VERTEX, dynamic: false };
    assert!(!bindings_consistent_check(&vec![plain, bad]));
}

#[test]
fn label_lookup_finds_last_occurrence() {
    let binding = BindingBuilder::new()
        .uniform_buffer("light", vec![1], STAGE_VERTEX, false)
        .uniform_buffer("camera", vec![2], STAGE_VERTEX, false)
        .uniform_buffer("light", vec![3], STAGE_FRAGMENT, false)
        .build();
    assert_eq!(binding.index_of_label("light"), Some(2));
    assert_eq!(binding.index_of_label("camera"), Some(1));
    assert_eq!(binding.index_of_label("missing"), None);
}

#[test]
fn buffer_writes_target_the_labelled_slot() {
    let binding = BindingBuilder::new()
        .uniform_buffer("camera", vec![0; 16], STAGE_VERTEX, false)
        .uniform_buffer("light", vec![0; 8], STAGE_FRAGMENT, false)
        .build();
    let w = binding.write_buffer_at_label("light", 4);
    assert_eq!(w.buffer_index, 1);
    assert_eq!(w.offset, 4);
    let w0 = binding.write_buffer_at_index(0, 0);
    assert_eq!(w0.buffer_index, 0);
}

#[test]
fn texture_writes_cover_the_whole_texture() {
    let binding = BindingBuilder::new()
        .texture("normal_texture", small_texture(), STAGE_FRAGMENT, false)
        .build();
    let w = binding.write_texture_at_label("normal_texture");
    assert_eq!(w.binding_index, 0);
    // 4 x 4 pixels at 4 bytes each: 64 bytes, 16 per row, 4 rows.
    assert_eq!(w.bytes_per_row, 16);
    assert_eq!(w.rows_per_image, 4);
    assert_eq!(w.width, 4);
    assert_eq!(w.height, 4);
    assert_eq!(w.depth, 1);
    assert_eq!(w.mip_level, 1);
}

#[test]
fn binding_new_keeps_inputs() {
    let labels = vec!["a".to_string(), "b".to_string()];
    let bindings = vec![
        BindingType::Uniform { contents: vec![5], visibility: STAGE_VERTEX, dynamic: false },
        BindingType::Storage {
            contents: vec![6],
            usage: USAGE_STORAGE,
            visibility: STAGE_COMPUTE,
            dynamic: false,
            readonly: false,
        },
    ];
    let b = Binding::new(labels, bindings);
    assert_eq!(b.labels, vec!["a", "b"]);
    assert_eq!(b.bindings.len(), 2);
    assert_eq!(b.layout.len(), 2);
}
