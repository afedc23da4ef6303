//! The world: every entity of the scene, the asset stores and the scene-wide
//! settings, together with the count of dice spawned so far.

use crate::components::{
    AmbientLight, Entity, MaterialHandle, Mesh, MeshHandle, StandardMaterial,
};
use vstd::prelude::*;

verus! {

/// The world as the scene's systems see and change it.
///
/// Entities are never removed or reordered, so the index at which an entity
/// was spawned names it for good.
#[derive(Debug, PartialEq, Eq)]
pub struct World {
    pub entities: Vec<Entity>,
    pub meshes: Vec<Mesh>,
    pub materials: Vec<StandardMaterial>,
    pub ambient_light: Option<AmbientLight>,
    /// How many dice have been spawned since the world was made.
    pub spawn_count: u64,
}

/// The mathematical content of a [`World`].
pub struct WorldView {
    pub entities: Seq<Entity>,
    pub meshes: Seq<Mesh>,
    pub materials: Seq<StandardMaterial>,
    pub ambient_light: Option<AmbientLight>,
    pub spawn_count: nat,
}

impl View for World {
    type V = WorldView;

    open spec fn view(&self) -> WorldView {
        WorldView {
            entities: self.entities@,
            meshes: self.meshes@,
            materials: self.materials@,
            ambient_light: self.ambient_light,
            spawn_count: self.spawn_count as nat,
        }
    }
}

impl WorldView {
    /// The world with nothing in it.
    pub open spec fn empty() -> WorldView {
        WorldView {
            entities: Seq::empty(),
            meshes: Seq::empty(),
            materials: Seq::empty(),
            ambient_light: None,
            spawn_count: 0,
        }
    }

    /// Whether `entity` fits in as the next entity: its parent, if it names
    /// one, is already there.
    pub open spec fn admits(self, entity: Entity) -> bool {
        entity.parent matches Some(p) ==> p < self.entities.len()
    }

    /// The entities form a forest in which every child was spawned after its
    /// parent.
    pub open spec fn wf(self) -> bool {
        forall|i: int|
            0 <= i < self.entities.len() ==> (#[trigger] self.entities[i].parent matches Some(p)
                ==> p < i)
    }

    /// This world after `entity` has been spawned.
    pub open spec fn spawn(self, entity: Entity) -> WorldView {
        WorldView { entities: self.entities.push(entity), ..self }
    }

    /// This world after `mesh` has been stored.
    pub open spec fn add_mesh(self, mesh: Mesh) -> WorldView {
        WorldView { meshes: self.meshes.push(mesh), ..self }
    }

    /// This world after `material` has been stored.
    pub open spec fn add_material(self, material: StandardMaterial) -> WorldView {
        WorldView { materials: self.materials.push(material), ..self }
    }
}

impl World {
    /// The world with nothing in it.
    pub fn new() -> (world: World)
        ensures
            world@ == WorldView::empty(),
            world@.wf(),
    {
        World {
            entities: Vec::new(),
            meshes: Vec::new(),
            materials: Vec::new(),
            ambient_light: None,
            spawn_count: 0,
        }
    }

    /// Adds `entity` to the world, after all the others, and returns the
    /// index that names it.
    pub fn spawn(&mut self, entity: Entity) -> (id: usize)
        ensures
            final(self)@ == old(self)@.spawn(entity),
            id == old(self)@.entities.len(),
            old(self)@.wf() && old(self)@.admits(entity) ==> final(self)@.wf(),
    {
        let id = self.entities.len();
        self.entities.push(entity);
        id
    }

    /// Stores `mesh` and returns the handle that names it.
    pub fn add_mesh(&mut self, mesh: Mesh) -> (handle: MeshHandle)
        ensures
            final(self)@ == old(self)@.add_mesh(mesh),
            handle.id == old(self)@.meshes.len(),
    {
        let id = self.meshes.len();
        self.meshes.push(mesh);
        MeshHandle { id }
    }

    /// Stores `material` and returns the handle that names it.
    pub fn add_material(&mut self, material: StandardMaterial) -> (handle: MaterialHandle)
        ensures
            final(self)@ == old(self)@.add_material(material),
            handle.id == old(self)@.materials.len(),
    {
        let id = self.materials.len();
        self.materials.push(material);
        MaterialHandle { id }
    }
}

} // verus!
