//! Model of the bind-group abstraction that the refactored demo renderer is
//! built on: a list of labelled bindings from which three plans are computed —
//! the bind-group-layout entries, the buffer slots (fresh, shared or dummy)
//! and the bind-group resources — plus label lookup for writes.
//!
//! GPU objects themselves (buffers, textures, samplers) live outside the
//! library; a texture appears here as its plain description and a shared
//! buffer as the numeric handle the front end registered it under.

use vstd::prelude::*;

verus! {

/// Shader-stage visibility bits.
pub const STAGE_NONE: u32 = 0;

pub const STAGE_VERTEX: u32 = 1;

pub const STAGE_FRAGMENT: u32 = 2;

pub const STAGE_COMPUTE: u32 = 4;

/// Buffer-usage bits.
pub const USAGE_MAP_READ: u32 = 1;

pub const USAGE_MAP_WRITE: u32 = 2;

pub const USAGE_COPY_SRC: u32 = 4;

pub const USAGE_COPY_DST: u32 = 8;

pub const USAGE_INDEX: u32 = 16;

pub const USAGE_VERTEX: u32 = 32;

pub const USAGE_UNIFORM: u32 = 64;

pub const USAGE_STORAGE: u32 = 128;

/// Usage of a fresh uniform buffer: readable and writable by copies.
pub const UNIFORM_BUFFER_USAGE: u32 = USAGE_UNIFORM | USAGE_COPY_SRC | USAGE_COPY_DST;

/// Plain description of a texture: its extent, pixel size and mip levels.
/// This is all the write path reads of a texture.
#[derive(Clone, Copy, PartialEq, Eq, Structural, Debug)]
pub struct TextureDesc {
    pub width: u32,
    pub height: u32,
    pub depth: u32,
    pub bytes_per_pixel: u32,
    pub mip_level_count: u32,
}

impl TextureDesc {
    /// Total size in bytes of the texture data.
    pub open spec fn spec_size_bytes(self) -> int {
        self.width * self.height * self.depth * self.bytes_per_pixel
    }

    /// A texture the write path can handle: no zero extent, and a total size
    /// that fits the 32-bit arithmetic the copy layout is computed in.
    pub open spec fn wf(self) -> bool {
        &&& self.width >= 1
        &&& self.height >= 1
        &&& self.depth >= 1
        &&& self.bytes_per_pixel >= 1
        &&& self.mip_level_count >= 1
        &&& self.spec_size_bytes() <= u32::MAX
    }
}

/// One labelled entry of a binding: its own buffer contents or texture, or a
/// share of another binding's buffer or texture. A shared buffer is carried as
/// the numeric handle under which the front end registered it.
pub enum BindingType {
    Uniform { contents: Vec<u8>, visibility: u32, dynamic: bool },
    Storage { contents: Vec<u8>, usage: u32, visibility: u32, dynamic: bool, readonly: bool },
    Texture { texture: TextureDesc, visibility: u32, comparison: bool },
    StorageTexture { texture: TextureDesc, visibility: u32, readonly: bool },
    SharedUniformBuffer { binding: Box<BindingType>, buffer: usize },
    SharedStorageBuffer { binding: Box<BindingType>, buffer: usize },
    SharedTexture { binding: Box<BindingType>, texture: TextureDesc },
    SharedStorageTexture { binding: Box<BindingType>, texture: TextureDesc },
}

impl BindingType {
    /// Whether a buffer stands behind this binding, so that buffer writes may
    /// target it.
    pub open spec fn has_buffer(self) -> bool {
        match self {
            BindingType::Uniform { .. } => true,
            BindingType::Storage { .. } => true,
            BindingType::SharedUniformBuffer { .. } => true,
            BindingType::SharedStorageBuffer { .. } => true,
            _ => false,
        }
    }

    /// Whether a texture stands behind this binding, so that texture writes
    /// may target it.
    pub open spec fn has_texture(self) -> bool {
        match self {
            BindingType::Texture { .. } => true,
            BindingType::StorageTexture { .. } => true,
            BindingType::SharedTexture { .. } => true,
            BindingType::SharedStorageTexture { .. } => true,
            _ => false,
        }
    }

    /// The texture description behind a texture binding.
    pub open spec fn spec_texture(self) -> TextureDesc
        recommends
            self.has_texture(),
    {
        match self {
            BindingType::Texture { texture, .. } => texture,
            BindingType::StorageTexture { texture, .. } => texture,
            BindingType::SharedTexture { texture, .. } => texture,
            BindingType::SharedStorageTexture { texture, .. } => texture,
            _ => TextureDesc { width: 0, height: 0, depth: 0, bytes_per_pixel: 0, mip_level_count: 0 },
        }
    }

    /// A shared binding must wrap a binding of the matching base kind; layout
    /// planning refuses anything else.
    pub open spec fn shared_target_ok(self) -> bool {
        match self {
            BindingType::SharedUniformBuffer { binding, .. } => {
                &*binding matches BindingType::Uniform { .. }
            },
            BindingType::SharedStorageBuffer { binding, .. } => {
                &*binding matches BindingType::Storage { .. }
            },
            BindingType::SharedTexture { binding, .. } => {
                &*binding matches BindingType::Texture { .. }
            },
            BindingType::SharedStorageTexture { binding, .. } => {
                &*binding matches BindingType::StorageTexture { .. }
            },
            _ => true,
        }
    }
}

/// Every shared binding in the list wraps the matching base kind.
pub open spec fn bindings_consistent(s: Seq<BindingType>) -> bool {
    forall|i: int| 0 <= i < s.len() ==> (#[trigger] s[i]).shared_target_ok()
}

/// One entry of a bind-group layout. A buffer binding yields one entry; a
/// texture binding yields a sampled/storage texture entry followed by a
/// sampler entry.
#[derive(Clone, Copy, PartialEq, Eq, Structural, Debug)]
pub enum LayoutEntry {
    UniformBuffer { visibility: u32, dynamic: bool },
    StorageBuffer { visibility: u32, dynamic: bool, readonly: bool },
    SampledTexture { visibility: u32 },
    Sampler { visibility: u32, comparison: bool },
    StorageTexture { visibility: u32, readonly: bool },
}

/// The layout entries that one binding contributes, in order. A shared
/// binding contributes the entries of the binding it wraps.
pub open spec fn layout_entries_of(b: BindingType) -> Seq<LayoutEntry>
    recommends
        b.shared_target_ok(),
    decreases b,
{
    match b {
        BindingType::Uniform { visibility, dynamic, .. } => {
            seq![LayoutEntry::UniformBuffer { visibility, dynamic }]
        },
        BindingType::Storage { visibility, dynamic, readonly, .. } => {
            seq![LayoutEntry::StorageBuffer { visibility, dynamic, readonly }]
        },
        BindingType::Texture { visibility, comparison, .. } => {
            seq![
                LayoutEntry::SampledTexture { visibility },
                LayoutEntry::Sampler { visibility, comparison },
            ]
        },
        BindingType::StorageTexture { visibility, readonly, .. } => {
            seq![LayoutEntry::StorageTexture { visibility, readonly }]
        },
        BindingType::SharedUniformBuffer { binding, .. } => layout_entries_of(*binding),
        BindingType::SharedStorageBuffer { binding, .. } => layout_entries_of(*binding),
        BindingType::SharedTexture { binding, .. } => layout_entries_of(*binding),
        BindingType::SharedStorageTexture { binding, .. } => layout_entries_of(*binding),
    }
}

/// Layout entries of a whole binding list, concatenated in order.
pub open spec fn layout_of(s: Seq<BindingType>) -> Seq<LayoutEntry>
    decreases s.len(),
{
    if s.len() == 0 {
        Seq::empty()
    } else {
        layout_of(s.drop_last()) + layout_entries_of(s.last())
    }
}

/// How one buffer slot of the binding is to be realised.
pub enum BufferPlan {
    /// Create a fresh buffer holding these bytes, with this usage.
    Init { contents: Vec<u8>, usage: u32 },
    /// Reuse the already-created buffer registered under this handle.
    Shared { buffer: usize },
    /// Texture slot: only an empty placeholder buffer is needed.
    Dummy,
}

/// The buffer slot that one binding calls for: fresh for uniform and storage
/// contents, the registered handle for shared buffers, a placeholder for
/// textures.
pub open spec fn plan_matches(b: BindingType, p: BufferPlan) -> bool {
    match b {
        BindingType::Uniform { contents, .. } => {
            &&& p matches BufferPlan::Init { contents: c, usage }
            &&& c@ == contents@
            &&& usage == UNIFORM_BUFFER_USAGE
        },
        BindingType::Storage { contents, usage: u, .. } => {
            &&& p matches BufferPlan::Init { contents: c, usage }
            &&& c@ == contents@
            &&& usage == u
        },
        BindingType::SharedUniformBuffer { buffer, .. } => {
            p matches BufferPlan::Shared { buffer: h } && h == buffer
        },
        BindingType::SharedStorageBuffer { buffer, .. } => {
            p matches BufferPlan::Shared { buffer: h } && h == buffer
        },
        _ => p matches BufferPlan::Dummy,
    }
}

/// One resource of the bind group: buffer slot `i` of the buffer plan, or the
/// texture view and sampler of binding `i`.
#[derive(Clone, Copy, PartialEq, Eq, Structural, Debug)]
pub enum BindResource {
    Buffer { index: usize },
    TextureAndSampler { index: usize },
}

/// The bind-group resource that binding `i` contributes.
pub open spec fn resource_matches(b: BindingType, r: BindResource, i: int) -> bool {
    if b.has_texture() {
        r matches BindResource::TextureAndSampler { index } && index == i
    } else {
        r matches BindResource::Buffer { index } && index == i
    }
}

/// A buffer write that the front end is to submit: which buffer slot of the
/// binding, at which byte offset.
#[derive(Clone, Copy, PartialEq, Eq, Structural, Debug)]
pub struct BufferWrite {
    pub buffer_index: usize,
    pub offset: u64,
}

/// A texture write that the front end is to submit: which binding's texture,
/// and the data layout of the copy.
#[derive(Clone, Copy, PartialEq, Eq, Structural, Debug)]
pub struct TextureWrite {
    pub binding_index: usize,
    pub mip_level: u32,
    pub bytes_per_row: u32,
    pub rows_per_image: u32,
    pub width: u32,
    pub height: u32,
    pub depth: u32,
}

/// Byte-for-byte copy of a buffer's contents.
fn clone_bytes(v: &Vec<u8>) -> (r: Vec<u8>)
    ensures
        r@ == v@,
{
    let mut r: Vec<u8> = Vec::new();
    let mut i: usize = 0;
    while i < v.len()
        invariant
            i <= v@.len(),
            r@ == v@.take(i as int),
        decreases v@.len() - i,
    {
        r.push(v[i]);
        proof {
            assert(r@ =~= v@.take(i + 1));
        }
        i = i + 1;
    }
    proof {
        assert(v@.take(v@.len() as int) =~= v@);
    }
    r
}

/// A labelled set of bindings together with the three plans computed from it.
pub struct Binding {
    pub labels: Vec<String>,
    pub bindings: Vec<BindingType>,
    pub buffers: Vec<BufferPlan>,
    pub layout: Vec<LayoutEntry>,
    pub resources: Vec<BindResource>,
}

impl Binding {
    /// The plans agree with the bindings and every label has its slot.
    pub open spec fn wf(self) -> bool {
        &&& self.labels@.len() == self.bindings@.len()
        &&& bindings_consistent(self.bindings@)
        &&& self.buffers@.len() == self.bindings@.len()
        &&& forall|i: int|
            0 <= i < self.bindings@.len() ==> plan_matches(self.bindings@[i], #[trigger] self.buffers@[i])
        &&& self.layout@ == layout_of(self.bindings@)
        &&& self.resources@.len() == self.bindings@.len()
        &&& forall|i: int|
            0 <= i < self.bindings@.len() ==> resource_matches(
                self.bindings@[i],
                #[trigger] self.resources@[i],
                i,
            )
    }

    /// Builds the binding: one label per binding, and every shared binding
    /// wrapping its matching base kind; the buffer, layout and resource plans
    /// are computed from the binding list.
    pub fn new(labels: Vec<String>, bindings: Vec<BindingType>) -> (b: Binding)
        requires
            labels@.len() == bindings@.len(),
            bindings_consistent(bindings@),
        ensures
            b.wf(),
            b.labels.deep_view() == labels.deep_view(),
            b.bindings@ == bindings@,
    {
        let buffers = Self::create_buffers(&bindings);
        let layout = Self::create_bind_group_layout(&bindings);
        let resources = Self::create_bind_group(&bindings);
        Binding { labels, bindings, buffers, layout, resources }
    }

    /// One buffer slot per binding: fresh buffers for uniform and storage
    /// contents, the registered handle for shared buffers, placeholders for
    /// texture bindings.
    fn create_buffers(bindings: &Vec<BindingType>) -> (r: Vec<BufferPlan>)
        ensures
            r@.len() == bindings@.len(),
            forall|i: int|
                0 <= i < bindings@.len() ==> plan_matches(bindings@[i], #[trigger] r@[i]),
    {
        let mut r: Vec<BufferPlan> = Vec::new();
        let mut i: usize = 0;
        while i < bindings.len()
            invariant
                i <= bindings@.len(),
                r@.len() == i,
                forall|k: int| 0 <= k < i ==> plan_matches(bindings@[k], #[trigger] r@[k]),
            decreases bindings@.len() - i,
        {
            match &bindings[i] {
                BindingType::Uniform { contents, .. } => {
                    r.push(BufferPlan::Init {
                        contents: clone_bytes(contents),
                        usage: UNIFORM_BUFFER_USAGE,
                    });
                },
                BindingType::Storage { contents, usage, .. } => {
                    r.push(BufferPlan::Init { contents: clone_bytes(contents), usage: *usage });
                },
                BindingType::SharedUniformBuffer { buffer, .. } => {
                    r.push(BufferPlan::Shared { buffer: *buffer });
                },
                BindingType::SharedStorageBuffer { buffer, .. } => {
                    r.push(BufferPlan::Shared { buffer: *buffer });
                },
                _ => {
                    r.push(BufferPlan::Dummy);
                },
            }
            i = i + 1;
        }
        r
    }

    /// The bind-group-layout entries of all bindings, concatenated in order;
    /// each shared binding contributes the entries of the binding it wraps.
    fn create_bind_group_layout(bindings: &Vec<BindingType>) -> (r: Vec<LayoutEntry>)
        requires
            bindings_consistent(bindings@),
        ensures
            r@ == layout_of(bindings@),
    {
        let mut r: Vec<LayoutEntry> = Vec::new();
        let mut i: usize = 0;
        while i < bindings.len()
            invariant
                i <= bindings@.len(),
                bindings_consistent(bindings@),
                r@ == layout_of(bindings@.take(i as int)),
            decreases bindings@.len() - i,
        {
            let mut entries = layout_entries_for(&bindings[i]);
            r.append(&mut entries);
            proof {
                assert(bindings@.take(i + 1).drop_last() =~= bindings@.take(i as int));
                assert(bindings@.take(i + 1).last() == bindings@[i as int]);
            }
            i = i + 1;
        }
        proof {
            assert(bindings@.take(bindings@.len() as int) =~= bindings@);
        }
        r
    }

    /// The bind-group resources in binding order: the buffer slot for buffer
    /// bindings, the texture view and sampler for texture bindings.
    fn create_bind_group(bindings: &Vec<BindingType>) -> (r: Vec<BindResource>)
        ensures
            r@.len() == bindings@.len(),
            forall|i: int|
                0 <= i < bindings@.len() ==> resource_matches(bindings@[i], #[trigger] r@[i], i),
    {
        let mut r: Vec<BindResource> = Vec::new();
        let mut i: usize = 0;
        while i < bindings.len()
            invariant
                i <= bindings@.len(),
                r@.len() == i,
                forall|k: int| 0 <= k < i ==> resource_matches(bindings@[k], #[trigger] r@[k], k),
            decreases bindings@.len() - i,
        {
            match &bindings[i] {
                BindingType::Texture { .. } => {
                    r.push(BindResource::TextureAndSampler { index: i });
                },
                BindingType::StorageTexture { .. } => {
                    r.push(BindResource::TextureAndSampler { index: i });
                },
                BindingType::SharedTexture { .. } => {
                    r.push(BindResource::TextureAndSampler { index: i });
                },
                BindingType::SharedStorageTexture { .. } => {
                    r.push(BindResource::TextureAndSampler { index: i });
                },
                _ => {
                    r.push(BindResource::Buffer { index: i });
                },
            }
            i = i + 1;
        }
        r
    }

    /// Index of the slot a label names: the last slot pushed under that label,
    /// as in the label map the renderer keeps.
    pub open spec fn spec_label_index(labels: Seq<Seq<char>>, l: Seq<char>) -> Option<int>
        decreases labels.len(),
    {
        if labels.len() == 0 {
            None
        } else if labels.last() == l {
            Some((labels.len() - 1) as int)
        } else {
            Self::spec_label_index(labels.drop_last(), l)
        }
    }

    /// Looks a label up, returning the index of the last binding that carries
    /// it, or nothing if no binding does.
    pub fn index_of_label(&self, label: &str) -> (r: Option<usize>)
        ensures
            match r {
                Some(i) => {
                    &&& Self::spec_label_index(self.labels.deep_view(), label@) == Some(i as int)
                    &&& i < self.labels@.len()
                },
                None => Self::spec_label_index(self.labels.deep_view(), label@) is None,
            },
    {
        let ghost dv = self.labels.deep_view();
        let l: String = label.to_owned();
        let mut i: usize = self.labels.len();
        proof {
            assert(dv.take(dv.len() as int) =~= dv);
        }
        while i > 0
            invariant
                i <= self.labels@.len(),
                dv == self.labels.deep_view(),
                dv.len() == self.labels@.len(),
                l@ == label@,
                Self::spec_label_index(dv, label@) == Self::spec_label_index(
                    dv.take(i as int),
                    label@,
                ),
            decreases i,
        {
            let prev: usize = i;
            i = i - 1;
            proof {
                assert(dv.take(prev as int).last() == dv[i as int]);
                assert(dv.take(prev as int).drop_last() =~= dv.take(i as int));
                assert(dv[i as int] == self.labels@[i as int]@);
            }
            if String::eq(&self.labels[i], &l) {
                return Some(i);
            }
        }
        None
    }

    /// The buffer write that a write at slot `index` performs: it targets
    /// buffer slot `index` at the given offset. Only a binding with a buffer
    /// behind it can be written.
    pub fn write_buffer_at_index(&self, index: usize, offset: u64) -> (w: BufferWrite)
        requires
            index < self.bindings@.len(),
            self.bindings@[index as int].has_buffer(),
        ensures
            w.buffer_index == index,
            w.offset == offset,
    {
        match &self.bindings[index] {
            BindingType::Uniform { .. } => BufferWrite { buffer_index: index, offset },
            BindingType::Storage { .. } => BufferWrite { buffer_index: index, offset },
            BindingType::SharedUniformBuffer { .. } => BufferWrite { buffer_index: index, offset },
            BindingType::SharedStorageBuffer { .. } => BufferWrite { buffer_index: index, offset },
            _ => vstd::pervasive::unreached(),
        }
    }

    /// The buffer write that a write at a label performs. The label must name
    /// a binding, and that binding must have a buffer behind it.
    pub fn write_buffer_at_label(&self, label: &str, offset: u64) -> (w: BufferWrite)
        requires
            self.wf(),
            Self::spec_label_index(self.labels.deep_view(), label@) matches Some(i)
                && self.bindings@[i].has_buffer(),
        ensures
            Self::spec_label_index(self.labels.deep_view(), label@) matches Some(i)
                && w.buffer_index == i,
            w.offset == offset,
    {
        match self.index_of_label(label) {
            Some(index) => self.write_buffer_at_index(index, offset),
            None => vstd::pervasive::unreached(),
        }
    }

    /// The texture write that a write at slot `index` performs: the copy
    /// covers the whole texture, row by row.
    pub fn write_texture_at_index(&self, index: usize) -> (w: TextureWrite)
        requires
            index < self.bindings@.len(),
            self.bindings@[index as int].has_texture(),
            self.bindings@[index as int].spec_texture().wf(),
        ensures
            w.binding_index == index,
            w.mip_level == self.bindings@[index as int].spec_texture().mip_level_count,
            w.rows_per_image == self.bindings@[index as int].spec_texture().height,
            w.bytes_per_row == self.bindings@[index as int].spec_texture().spec_size_bytes()
                / (self.bindings@[index as int].spec_texture().height as int),
            w.width == self.bindings@[index as int].spec_texture().width,
            w.height == self.bindings@[index as int].spec_texture().height,
            w.depth == self.bindings@[index as int].spec_texture().depth,
    {
        let texture: TextureDesc = match &self.bindings[index] {
            BindingType::Texture { texture, .. } => *texture,
            BindingType::StorageTexture { texture, .. } => *texture,
            BindingType::SharedTexture { texture, .. } => *texture,
            BindingType::SharedStorageTexture { texture, .. } => *texture,
            _ => vstd::pervasive::unreached(),
        };
        let size_bytes = texture_size_bytes(&texture);
        TextureWrite {
            binding_index: index,
            mip_level: texture.mip_level_count,
            bytes_per_row: size_bytes / texture.height,
            rows_per_image: texture.height,
            width: texture.width,
            height: texture.height,
            depth: texture.depth,
        }
    }

    /// The texture write that a write at a label performs. The label must name
    /// a binding with a texture behind it.
    pub fn write_texture_at_label(&self, label: &str) -> (w: TextureWrite)
        requires
            self.wf(),
            Self::spec_label_index(self.labels.deep_view(), label@) matches Some(i)
                && self.bindings@[i].has_texture() && self.bindings@[i].spec_texture().wf(),
        ensures
            Self::spec_label_index(self.labels.deep_view(), label@) matches Some(i) && {
                let t = self.bindings@[i].spec_texture();
                &&& w.binding_index == i
                &&& w.mip_level == t.mip_level_count
                &&& w.rows_per_image == t.height
                &&& w.bytes_per_row == t.spec_size_bytes() / (t.height as int)
                &&& w.width == t.width
                &&& w.height == t.height
                &&& w.depth == t.depth
            },
    {
        match self.index_of_label(label) {
            Some(index) => self.write_texture_at_index(index),
            None => vstd::pervasive::unreached(),
        }
    }
}

/// The one or two layout entries that a single binding contributes.
fn layout_entries_for(b: &BindingType) -> (r: Vec<LayoutEntry>)
    requires
        b.shared_target_ok(),
    ensures
        r@ == layout_entries_of(*b),
{
    let mut r: Vec<LayoutEntry> = Vec::new();
    match b {
        BindingType::Uniform { visibility, dynamic, .. } => {
            r.push(LayoutEntry::UniformBuffer { visibility: *visibility, dynamic: *dynamic });
        },
        BindingType::Storage { visibility, dynamic, readonly, .. } => {
            r.push(LayoutEntry::StorageBuffer {
                visibility: *visibility,
                dynamic: *dynamic,
                readonly: *readonly,
            });
        },
        BindingType::Texture { visibility, comparison, .. } => {
            r.push(LayoutEntry::SampledTexture { visibility: *visibility });
            r.push(LayoutEntry::Sampler { visibility: *visibility, comparison: *comparison });
        },
        BindingType::StorageTexture { visibility, readonly, .. } => {
            r.push(LayoutEntry::StorageTexture {
                visibility: *visibility,
                readonly: *readonly,
            });
        },
        BindingType::SharedUniformBuffer { binding, .. } => {
            match &**binding {
                BindingType::Uniform { visibility, dynamic, .. } => {
                    r.push(LayoutEntry::UniformBuffer {
                        visibility: *visibility,
                        dynamic: *dynamic,
                    });
                },
                _ => {
                    proof {
                        assert(false);
                    }
                },
            }
            proof {
                assert(r@ =~= layout_entries_of(**binding));
            }
        },
        BindingType::SharedStorageBuffer { binding, .. } => {
            match &**binding {
                BindingType::Storage { visibility, dynamic, readonly, .. } => {
                    r.push(LayoutEntry::StorageBuffer {
                        visibility: *visibility,
                        dynamic: *dynamic,
                        readonly: *readonly,
                    });
                },
                _ => {
                    proof {
                        assert(false);
                    }
                },
            }
            proof {
                assert(r@ =~= layout_entries_of(**binding));
            }
        },
        BindingType::SharedTexture { binding, .. } => {
            match &**binding {
                BindingType::Texture { visibility, comparison, .. } => {
                    r.push(LayoutEntry::SampledTexture { visibility: *visibility });
                    r.push(LayoutEntry::Sampler {
                        visibility: *visibility,
                        comparison: *comparison,
                    });
                },
                _ => {
                    proof {
                        assert(false);
                    }
                },
            }
            proof {
                assert(r@ =~= layout_entries_of(**binding));
            }
        },
        BindingType::SharedStorageTexture { binding, .. } => {
            match &**binding {
                BindingType::StorageTexture { visibility, readonly, .. } => {
                    r.push(LayoutEntry::StorageTexture {
                        visibility: *visibility,
                        readonly: *readonly,
                    });
                },
                _ => {
                    proof {
                        assert(false);
                    }
                },
            }
            proof {
                assert(r@ =~= layout_entries_of(**binding));
            }
        },
    }
    proof {
        assert(r@ =~= layout_entries_of(*b));
    }
    r
}


/// What the label map means: a found index is in range, carries the label,
/// and is the last slot that does; absence means no slot carries the label.
pub proof fn lemma_label_index_correct(labels: Seq<Seq<char>>, l: Seq<char>)
    ensures
        match Binding::spec_label_index(labels, l) {
            Some(i) => {
                &&& 0 <= i < labels.len()
                &&& labels[i] == l
                &&& forall|j: int| i < j < labels.len() ==> labels[j] != l
            },
            None => forall|j: int| 0 <= j < labels.len() ==> labels[j] != l,
        },
    decreases labels.len(),
{
    if labels.len() > 0 {
        if labels.last() == l {
        } else {
            lemma_label_index_correct(labels.drop_last(), l);
            assert(forall|j: int|
                0 <= j < labels.len() - 1 ==> labels.drop_last()[j] == #[trigger] labels[j]);
        }
    }
}

/// Whether one binding satisfies the shared-binding rule, decidably.
pub fn shared_target_ok_check(b: &BindingType) -> (r: bool)
    ensures
        r == b.shared_target_ok(),
{
    match b {
        BindingType::SharedUniformBuffer { binding, .. } => {
            matches!(&**binding, BindingType::Uniform { .. })
        },
        BindingType::SharedStorageBuffer { binding, .. } => {
            matches!(&**binding, BindingType::Storage { .. })
        },
        BindingType::SharedTexture { binding, .. } => {
            matches!(&**binding, BindingType::Texture { .. })
        },
        BindingType::SharedStorageTexture { binding, .. } => {
            matches!(&**binding, BindingType::StorageTexture { .. })
        },
        _ => true,
    }
}

/// Whether every shared binding of the list wraps its matching base kind;
/// the front end tests this before it builds a binding.
pub fn bindings_consistent_check(bindings: &Vec<BindingType>) -> (r: bool)
    ensures
        r == bindings_consistent(bindings@),
{
    let mut i: usize = 0;
    while i < bindings.len()
        invariant
            i <= bindings@.len(),
            forall|k: int| 0 <= k < i ==> (#[trigger] bindings@[k]).shared_target_ok(),
        decreases bindings@.len() - i,
    {
        if !shared_target_ok_check(&bindings[i]) {
            return false;
        }
        i = i + 1;
    }
    true
}

/// Accumulates labelled bindings and builds a `Binding` from them.
pub struct BindingBuilder {
    pub labels: Vec<String>,
    pub bindings: Vec<BindingType>,
}

impl BindingBuilder {
    /// One label per binding accumulated so far.
    pub open spec fn wf(self) -> bool {
        self.labels@.len() == self.bindings@.len()
    }

    /// The builder after pushing one more labelled binding.
    pub open spec fn pushed(self, prev: BindingBuilder, label: Seq<char>, b: BindingType) -> bool {
        &&& self.labels.deep_view() == prev.labels.deep_view().push(label)
        &&& self.bindings@ == prev.bindings@.push(b)
    }

    /// An empty builder.
    pub fn new() -> (r: BindingBuilder)
        ensures
            r.wf(),
            r.labels@.len() == 0,
            r.bindings@.len() == 0,
    {
        BindingBuilder { labels: Vec::new(), bindings: Vec::new() }
    }

    fn push_entry(&mut self, label: &str, b: BindingType)
        ensures
            final (self).pushed(*old(self), label@, b),
            old(self).wf() ==> final (self).wf(),
    {
        self.labels.push(label.to_owned());
        self.bindings.push(b);
        proof {
            assert(self.labels.deep_view() =~= old(self).labels.deep_view().push(label@));
        }
    }

    /// Adds a uniform buffer holding these bytes.
    pub fn uniform_buffer(self, label: &str, contents: Vec<u8>, visibility: u32, dynamic: bool) -> (
        r: BindingBuilder)
        ensures
            r.pushed(self, label@, BindingType::Uniform { contents, visibility, dynamic }),
            self.wf() ==> r.wf(),
    {
        let mut r = self;
        r.push_entry(label, BindingType::Uniform { contents, visibility, dynamic });
        r
    }

    /// Adds a storage buffer holding these bytes, with the plain storage
    /// usage.
    pub fn storage_buffer(
        self,
        label: &str,
        contents: Vec<u8>,
        visibility: u32,
        dynamic: bool,
        readonly: bool,
    ) -> (r: BindingBuilder)
        ensures
            r.pushed(
                self,
                label@,
                BindingType::Storage {
                    contents,
                    usage: USAGE_STORAGE,
                    visibility,
                    dynamic,
                    readonly,
                },
            ),
            self.wf() ==> r.wf(),
    {
        let mut r = self;
        r.push_entry(
            label,
            BindingType::Storage { contents, usage: USAGE_STORAGE, visibility, dynamic, readonly },
        );
        r
    }

    /// Adds a storage buffer with a caller-chosen usage.
    pub fn storage_buffer_custom(
        self,
        label: &str,
        contents: Vec<u8>,
        usage: u32,
        visibility: u32,
        dynamic: bool,
        readonly: bool,
    ) -> (r: BindingBuilder)
        ensures
            r.pushed(
                self,
                label@,
                BindingType::Storage { contents, usage, visibility, dynamic, readonly },
            ),
            self.wf() ==> r.wf(),
    {
        let mut r = self;
        r.push_entry(label, BindingType::Storage { contents, usage, visibility, dynamic, readonly });
        r
    }

    /// Adds a sampled texture with its sampler.
    pub fn texture(self, label: &str, texture: TextureDesc, visibility: u32, comparison: bool) -> (
        r: BindingBuilder)
        ensures
            r.pushed(self, label@, BindingType::Texture { texture, visibility, comparison }),
            self.wf() ==> r.wf(),
    {
        let mut r = self;
        r.push_entry(label, BindingType::Texture { texture, visibility, comparison });
        r
    }

    /// Adds a storage texture with its sampler.
    pub fn storage_texture(
        self,
        label: &str,
        texture: TextureDesc,
        visibility: u32,
        readonly: bool,
    ) -> (r: BindingBuilder)
        ensures
            r.pushed(self, label@, BindingType::StorageTexture { texture, visibility, readonly }),
            self.wf() ==> r.wf(),
    {
        let mut r = self;
        r.push_entry(label, BindingType::StorageTexture { texture, visibility, readonly });
        r
    }

    /// Shares the uniform buffer of another binding, registered under the
    /// given handle.
    pub fn assign_uniform_buffer(self, label: &str, binding: Box<BindingType>, buffer: usize) -> (
        r: BindingBuilder)
        ensures
            r.pushed(self, label@, BindingType::SharedUniformBuffer { binding, buffer }),
            self.wf() ==> r.wf(),
    {
        let mut r = self;
        r.push_entry(label, BindingType::SharedUniformBuffer { binding, buffer });
        r
    }

    /// Shares the storage buffer of another binding, registered under the
    /// given handle.
    pub fn assign_storage_buffer(self, label: &str, binding: Box<BindingType>, buffer: usize) -> (
        r: BindingBuilder)
        ensures
            r.pushed(self, label@, BindingType::SharedStorageBuffer { binding, buffer }),
            self.wf() ==> r.wf(),
    {
        let mut r = self;
        r.push_entry(label, BindingType::SharedStorageBuffer { binding, buffer });
        r
    }

    /// Shares the texture of another binding.
    pub fn assign_texture(self, label: &str, binding: Box<BindingType>, texture: TextureDesc) -> (
        r: BindingBuilder)
        ensures
            r.pushed(self, label@, BindingType::SharedTexture { binding, texture }),
            self.wf() ==> r.wf(),
    {
        let mut r = self;
        r.push_entry(label, BindingType::SharedTexture { binding, texture });
        r
    }

    /// Shares the storage texture of another binding.
    pub fn assign_storage_texture(
        self,
        label: &str,
        binding: Box<BindingType>,
        texture: TextureDesc,
    ) -> (r: BindingBuilder)
        ensures
            r.pushed(self, label@, BindingType::SharedStorageTexture { binding, texture }),
            self.wf() ==> r.wf(),
    {
        let mut r = self;
        r.push_entry(label, BindingType::SharedStorageTexture { binding, texture });
        r
    }

    /// Builds the binding from what was accumulated.
    pub fn build(self) -> (b: Binding)
        requires
            self.wf(),
            bindings_consistent(self.bindings@),
        ensures
            b.wf(),
            b.labels.deep_view() == self.labels.deep_view(),
            b.bindings@ == self.bindings@,
    {
        Binding::new(self.labels, self.bindings)
    }
}

/// Total size in bytes of a texture's data, as 32-bit arithmetic.
fn texture_size_bytes(t: &TextureDesc) -> (r: u32)
    requires
        t.wf(),
    ensures
        r == t.spec_size_bytes(),
{
    proof {
        lemma_size_parts(
            t.width as int,
            t.height as int,
            t.depth as int,
            t.bytes_per_pixel as int,
        );
    }
    t.width * t.height * t.depth * t.bytes_per_pixel
}

/// Partial products of the texture size stay below the total when every
/// factor is at least one.
proof fn lemma_size_parts(w: int, h: int, d: int, b: int) by (nonlinear_arith)
    requires
        w >= 1,
        h >= 1,
        d >= 1,
        b >= 1,
    ensures
        w * h <= w * h * d * b,
        w * h * d <= w * h * d * b,
{
}

} // verus!
