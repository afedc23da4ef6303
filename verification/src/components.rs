//! The data that an entity of the scene can carry.

use crate::units::{Milli, Vec3};
use vstd::prelude::*;

verus! {

/// A colour, in one of the two notations the scene uses.
#[derive(Clone, Copy, Debug, PartialEq, Eq)]
pub enum Color {
    /// Red, green and blue, each from 0 to 1.
    Rgb { red: Milli, green: Milli, blue: Milli },
    /// Hue in degrees; saturation and lightness from 0 to 1.
    Hsl { hue: Milli, saturation: Milli, lightness: Milli },
}

/// How an entity is turned relative to its parent.
#[derive(Clone, Copy, Debug, PartialEq, Eq)]
pub enum Orientation {
    /// Not turned at all.
    Identity,
    /// Turned by the given angle about the local X axis.
    RotationX(Milli),
    /// Facing `target` from the entity's own position, with `up` pointing
    /// upwards: the inverse of the right-handed look-at view matrix.
    LookingAt { target: Vec3, up: Vec3 },
}

/// Position and orientation of an entity, relative to its parent if it has one.
#[derive(Clone, Copy, Debug, PartialEq, Eq)]
pub struct Transform {
    pub translation: Vec3,
    pub orientation: Orientation,
}

/// How the lens of a camera projects the scene.
#[derive(Clone, Copy, Debug, PartialEq, Eq)]
pub enum Projection {
    Perspective,
    Orthographic,
}

/// How the physics simulation moves a body.
#[derive(Clone, Copy, Debug, PartialEq, Eq)]
pub enum RigidBody {
    /// Moved by forces and contacts.
    Dynamic,
    /// Never moved.
    Fixed,
}

/// A box-shaped collision volume, given by half of its extent along each axis.
#[derive(Clone, Copy, Debug, PartialEq, Eq)]
pub struct Collider {
    pub half_extents: Vec3,
}

/// A light that shines from one point in all directions.
#[derive(Clone, Copy, Debug, PartialEq, Eq)]
pub struct PointLight {
    pub intensity: Milli,
    pub range: Milli,
    pub shadows_enabled: bool,
}

/// The light that reaches every surface of the scene, whatever its position.
#[derive(Clone, Copy, Debug, PartialEq, Eq)]
pub struct AmbientLight {
    pub color: Color,
    pub brightness: Milli,
}

/// A piece of geometry that can be rendered.
#[derive(Clone, Copy, Debug, PartialEq, Eq)]
pub enum Mesh {
    /// An axis-aligned cube with the given edge length.
    Cube { size: Milli },
}

/// A surface material of one solid colour.
#[derive(Clone, Copy, Debug, PartialEq, Eq)]
pub struct StandardMaterial {
    pub base_color: Color,
}

/// Names a mesh by its place in the world's mesh store. Two handles name the
/// same mesh exactly when they are equal.
#[derive(Clone, Copy, Debug, PartialEq, Eq)]
pub struct MeshHandle {
    pub id: usize,
}

/// Names a material by its place in the world's material store.
#[derive(Clone, Copy, Debug, PartialEq, Eq)]
pub struct MaterialHandle {
    pub id: usize,
}

/// The one mesh that all dice share.
#[derive(Clone, Copy, Debug, PartialEq, Eq)]
pub struct DiceMesh(pub MeshHandle);

/// The one material that all dice share.
#[derive(Clone, Copy, Debug, PartialEq, Eq)]
pub struct DiceMaterial(pub MaterialHandle);

/// One entity of the scene: a transform, and whatever else it carries.
#[derive(Clone, Copy, Debug, PartialEq, Eq)]
pub struct Entity {
    /// The entity this one is attached under, by its index in the world.
    pub parent: Option<usize>,
    pub transform: Transform,
    pub camera: Option<Projection>,
    pub point_light: Option<PointLight>,
    pub mesh: Option<MeshHandle>,
    pub material: Option<MaterialHandle>,
    pub rigid_body: Option<RigidBody>,
    pub collider: Option<Collider>,
    /// Colour of the collider's outline in diagnostic rendering. It has no
    /// effect on the simulation.
    pub debug_color: Option<Color>,
}

impl Transform {
    /// The transform that only moves to `translation`.
    pub open spec fn at(translation: Vec3) -> Transform {
        Transform { translation, orientation: Orientation::Identity }
    }

    /// A transform that moves to `(x, y, z)` and does not turn.
    pub fn from_xyz(x: Milli, y: Milli, z: Milli) -> (t: Transform)
        ensures
            t == Transform::at(Vec3 { x, y, z }),
    {
        Transform { translation: Vec3 { x, y, z }, orientation: Orientation::Identity }
    }
}

impl Entity {
    /// The entity that has the given transform, no parent and nothing else.
    pub open spec fn bare(transform: Transform) -> Entity {
        Entity {
            parent: None,
            transform,
            camera: None,
            point_light: None,
            mesh: None,
            material: None,
            rigid_body: None,
            collider: None,
            debug_color: None,
        }
    }

    /// An entity with the given transform, no parent and nothing else.
    pub fn new(transform: Transform) -> (e: Entity)
        ensures
            e == Entity::bare(transform),
    {
        Entity {
            parent: None,
            transform,
            camera: None,
            point_light: None,
            mesh: None,
            material: None,
            rigid_body: None,
            collider: None,
            debug_color: None,
        }
    }
}

} // verus!
