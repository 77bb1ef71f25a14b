//! The decisions of the per-frame draw path: for a loaded model, the list of
//! indexed draw calls to record — which mesh, how many indices, which
//! material slot, whether the light bind group is set, and the instance
//! range. The front end replays the list against a render pass.

use vstd::prelude::*;

use crate::binding::Binding;
use crate::mesh::Mesh;

verus! {

/// A named material: its texture bindings, ready to be set as a bind group.
pub struct Material {
    pub name: String,
    pub binding: Binding,
}

/// A loaded model: its meshes and the materials they draw with.
pub struct Geom {
    pub meshes: Vec<Mesh>,
    pub materials: Vec<Material>,
}

impl Geom {
    /// Every mesh names a material slot that exists.
    pub open spec fn materials_wf(self) -> bool {
        forall|i: int|
            0 <= i < self.meshes@.len() ==> (#[trigger] self.meshes@[i]).material_id
                < self.materials@.len()
    }

    /// Decidable form of `materials_wf`.
    pub fn materials_wf_check(&self) -> (r: bool)
        ensures
            r == self.materials_wf(),
    {
        let mut i: usize = 0;
        while i < self.meshes.len()
            invariant
                i <= self.meshes@.len(),
                forall|k: int|
                    0 <= k < i ==> (#[trigger] self.meshes@[k]).material_id
                        < self.materials@.len(),
            decreases self.meshes@.len() - i,
        {
            if self.meshes[i].material_id >= self.materials.len() {
                return false;
            }
            i = i + 1;
        }
        true
    }
}

/// Which material bind group a draw sets.
#[derive(Clone, Copy, PartialEq, Eq, Structural, Debug)]
pub enum MaterialChoice {
    /// No material bind group.
    NoMaterial,
    /// Each mesh's own material slot.
    InnerMaterial,
    /// One fixed material slot for every mesh.
    OtherMaterial(usize),
}

/// One recorded indexed draw: mesh `mesh_index` with its vertex and index
/// buffers, `0 .. index_count` indices, optionally the light bind group and a
/// material slot, over the given instance range.
#[derive(Clone, Copy, PartialEq, Eq, Structural, Debug)]
pub struct DrawCommand {
    pub mesh_index: usize,
    pub index_count: u32,
    pub with_light: bool,
    pub material: Option<usize>,
    pub instance_start: u32,
    pub instance_end: u32,
}

/// The command that drawing mesh `i` of the model produces.
pub open spec fn command_for(
    geom: Geom,
    i: int,
    with_light: bool,
    material: MaterialChoice,
    instance_start: u32,
    instance_end: u32,
    c: DrawCommand,
) -> bool {
    &&& c.mesh_index == i
    &&& c.index_count == geom.meshes@[i].indices@.len() as u32
    &&& c.with_light == with_light
    &&& c.material == match material {
        MaterialChoice::NoMaterial => None::<usize>,
        MaterialChoice::InnerMaterial => Some(geom.meshes@[i].material_id),
        MaterialChoice::OtherMaterial(m) => Some(m),
    }
    &&& c.instance_start == instance_start
    &&& c.instance_end == instance_end
}

/// The draw of one mesh: its indices in full, over the given instance range,
/// with the chosen bind groups.
pub fn draw_mesh(
    mesh: &Mesh,
    mesh_index: usize,
    with_light: bool,
    material: Option<usize>,
    instance_start: u32,
    instance_end: u32,
) -> (c: DrawCommand)
    ensures
        c.mesh_index == mesh_index,
        c.index_count == mesh.indices@.len() as u32,
        c.with_light == with_light,
        c.material == material,
        c.instance_start == instance_start,
        c.instance_end == instance_end,
{
    DrawCommand {
        mesh_index,
        index_count: #[verifier::truncate] (mesh.indices.len() as u32),
        with_light,
        material,
        instance_start,
        instance_end,
    }
}

/// Records one draw per mesh, in mesh order. With `InnerMaterial` every mesh
/// must name an existing material slot.
pub fn draw_commands(
    geom: &Geom,
    with_light: bool,
    material: MaterialChoice,
    instance_start: u32,
    instance_end: u32,
) -> (r: Vec<DrawCommand>)
    requires
        material is InnerMaterial ==> geom.materials_wf(),
    ensures
        r@.len() == geom.meshes@.len(),
        forall|i: int|
            0 <= i < r@.len() ==> command_for(
                *geom,
                i,
                with_light,
                material,
                instance_start,
                instance_end,
                #[trigger] r@[i],
            ),
{
    let mut r: Vec<DrawCommand> = Vec::new();
    let mut i: usize = 0;
    while i < geom.meshes.len()
        invariant
            i <= geom.meshes@.len(),
            material is InnerMaterial ==> geom.materials_wf(),
            r@.len() == i,
            forall|k: int|
                0 <= k < i ==> command_for(
                    *geom,
                    k,
                    with_light,
                    material,
                    instance_start,
                    instance_end,
                    #[trigger] r@[k],
                ),
        decreases geom.meshes@.len() - i,
    {
        let mesh = &geom.meshes[i];
        let material_slot: Option<usize> = match material {
            MaterialChoice::NoMaterial => None,
            MaterialChoice::InnerMaterial => Some(mesh.material_id),
            MaterialChoice::OtherMaterial(m) => Some(m),
        };
        r.push(draw_mesh(mesh, i, with_light, material_slot, instance_start, instance_end));
        i = i + 1;
    }
    r
}

/// Draws every mesh once with only the camera uniforms bound.
pub fn draw_geom(geom: &Geom) -> (r: Vec<DrawCommand>)
    ensures
        r@.len() == geom.meshes@.len(),
        forall|i: int|
            0 <= i < r@.len() ==> command_for(
                *geom,
                i,
                false,
                MaterialChoice::NoMaterial,
                0,
                1,
                #[trigger] r@[i],
            ),
{
    draw_commands(geom, false, MaterialChoice::NoMaterial, 0, 1)
}

/// Draws every mesh once with the light bind group set.
pub fn draw_geom_with_light(geom: &Geom) -> (r: Vec<DrawCommand>)
    ensures
        r@.len() == geom.meshes@.len(),
        forall|i: int|
            0 <= i < r@.len() ==> command_for(
                *geom,
                i,
                true,
                MaterialChoice::NoMaterial,
                0,
                1,
                #[trigger] r@[i],
            ),
{
    draw_commands(geom, true, MaterialChoice::NoMaterial, 0, 1)
}

/// Draws every mesh once with the light set and its own material.
pub fn draw_geom_with_light_and_inner_material(geom: &Geom) -> (r: Vec<DrawCommand>)
    requires
        geom.materials_wf(),
    ensures
        r@.len() == geom.meshes@.len(),
        forall|i: int|
            0 <= i < r@.len() ==> command_for(
                *geom,
                i,
                true,
                MaterialChoice::InnerMaterial,
                0,
                1,
                #[trigger] r@[i],
            ),
{
    draw_commands(geom, true, MaterialChoice::InnerMaterial, 0, 1)
}

/// Draws every mesh once with the light set and one fixed material.
pub fn draw_geom_with_light_and_other_material(geom: &Geom, material: usize) -> (r: Vec<
    DrawCommand,
>)
    ensures
        r@.len() == geom.meshes@.len(),
        forall|i: int|
            0 <= i < r@.len() ==> command_for(
                *geom,
                i,
                true,
                MaterialChoice::OtherMaterial(material),
                0,
                1,
                #[trigger] r@[i],
            ),
{
    draw_commands(geom, true, MaterialChoice::OtherMaterial(material), 0, 1)
}

/// Draws every mesh over an instance range.
pub fn draw_geom_instanced(geom: &Geom, instance_start: u32, instance_end: u32) -> (r: Vec<
    DrawCommand,
>)
    ensures
        r@.len() == geom.meshes@.len(),
        forall|i: int|
            0 <= i < r@.len() ==> command_for(
                *geom,
                i,
                false,
                MaterialChoice::NoMaterial,
                instance_start,
                instance_end,
                #[trigger] r@[i],
            ),
{
    draw_commands(geom, false, MaterialChoice::NoMaterial, instance_start, instance_end)
}

/// Draws every mesh over an instance range with the light set.
pub fn draw_geom_instanced_with_light(geom: &Geom, instance_start: u32, instance_end: u32) -> (r:
    Vec<DrawCommand>)
    ensures
        r@.len() == geom.meshes@.len(),
        forall|i: int|
            0 <= i < r@.len() ==> command_for(
                *geom,
                i,
                true,
                MaterialChoice::NoMaterial,
                instance_start,
                instance_end,
                #[trigger] r@[i],
            ),
{
    draw_commands(geom, true, MaterialChoice::NoMaterial, instance_start, instance_end)
}

/// Draws every mesh over an instance range with the light set and its own
/// material.
pub fn draw_geom_instanced_with_light_and_inner_material(
    geom: &Geom,
    instance_start: u32,
    instance_end: u32,
) -> (r: Vec<DrawCommand>)
    requires
        geom.materials_wf(),
    ensures
        r@.len() == geom.meshes@.len(),
        forall|i: int|
            0 <= i < r@.len() ==> command_for(
                *geom,
                i,
                true,
                MaterialChoice::InnerMaterial,
                instance_start,
                instance_end,
                #[trigger] r@[i],
            ),
{
    draw_commands(geom, true, MaterialChoice::InnerMaterial, instance_start, instance_end)
}

/// Draws every mesh over an instance range with the light set and one fixed
/// material.
pub fn draw_geom_instanced_with_light_and_other_material(
    geom: &Geom,
    material: usize,
    instance_start: u32,
    instance_end: u32,
) -> (r: Vec<DrawCommand>)
    ensures
        r@.len() == geom.meshes@.len(),
        forall|i: int|
            0 <= i < r@.len() ==> command_for(
                *geom,
                i,
                true,
                MaterialChoice::OtherMaterial(material),
                instance_start,
                instance_end,
                #[trigger] r@[i],
            ),
{
    draw_commands(geom, true, MaterialChoice::OtherMaterial(material), instance_start, instance_end)
}

/// The light-pipeline pass over a model: every mesh once, light bound, no
/// material.
pub fn draw_light_model(geom: &Geom) -> (r: Vec<DrawCommand>)
    ensures
        r@.len() == geom.meshes@.len(),
        forall|i: int|
            0 <= i < r@.len() ==> command_for(
                *geom,
                i,
                true,
                MaterialChoice::NoMaterial,
                0,
                1,
                #[trigger] r@[i],
            ),
{
    draw_commands(geom, true, MaterialChoice::NoMaterial, 0, 1)
}

/// The light-pipeline pass over a model, over an instance range.
pub fn draw_light_model_instanced(geom: &Geom, instance_start: u32, instance_end: u32) -> (r: Vec<
    DrawCommand,
>)
    ensures
        r@.len() == geom.meshes@.len(),
        forall|i: int|
            0 <= i < r@.len() ==> command_for(
                *geom,
                i,
                true,
                MaterialChoice::NoMaterial,
                instance_start,
                instance_end,
                #[trigger] r@[i],
            ),
{
    draw_commands(geom, true, MaterialChoice::NoMaterial, instance_start, instance_end)
}

} // verus!
