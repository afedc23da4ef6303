//! What the scene consists of: each entity, asset and setting, written down
//! once as a value that the systems are held to.

use crate::components::{
    AmbientLight, Collider, Color, DiceMaterial, DiceMesh, Entity, Mesh, Orientation, PointLight,
    Projection, RigidBody, StandardMaterial, Transform,
};
use crate::units::{Milli, Vec3};
use vstd::prelude::*;

verus! {

/// Half of the ground's extent along X and along Z: 200.1.
pub const GROUND_SIZE: i64 = 200_100;

/// Half of the ground's thickness: 0.1.
pub const GROUND_HEIGHT: i64 = 100;

/// The number of dice along one side of the grid that a die is placed in.
pub const NUM: u32 = 2;

/// Half of a die's edge: 1.0.
pub const RAD: i64 = 1_000;

/// The angle by which a die's parent is tilted about its X axis: 0.2 radians.
pub const TILT: i64 = 200;

/// The number of debug colours.
pub const PALETTE_LEN: u64 = 3;

/// The camera: at (-30, 30, 100), looking at (0, 10, 0), with Y pointing up.
pub open spec fn camera() -> Entity {
    Entity {
        camera: Some(Projection::Perspective),
        ..Entity::bare(
            Transform {
                translation: Vec3::whole(-30, 30, 100),
                orientation: Orientation::LookingAt {
                    target: Vec3::whole(0, 10, 0),
                    up: Vec3::whole(0, 1, 0),
                },
            },
        )
    }
}

/// The ground: a box collider without a rigid body, so that nothing ever
/// moves it, lowered by half its thickness.
pub open spec fn ground() -> Entity {
    Entity {
        collider: Some(
            Collider {
                half_extents: Vec3 {
                    x: Milli(GROUND_SIZE),
                    y: Milli(GROUND_HEIGHT),
                    z: Milli(GROUND_SIZE),
                },
            },
        ),
        ..Entity::bare(
            Transform::at(Vec3 { x: Milli(0), y: Milli((-GROUND_HEIGHT) as i64), z: Milli(0) }),
        )
    }
}

/// The scene-wide light: white, at brightness 0.02.
pub open spec fn ambient_light() -> AmbientLight {
    AmbientLight {
        color: Color::Rgb { red: Milli(1_000), green: Milli(1_000), blue: Milli(1_000) },
        brightness: Milli(20),
    }
}

/// The lamp: at (4, 8, 10), intensity 9000, range 100, casting shadows.
pub open spec fn point_light() -> Entity {
    Entity {
        point_light: Some(
            PointLight {
                intensity: Milli::whole(9000),
                range: Milli::whole(100),
                shadows_enabled: true,
            },
        ),
        ..Entity::bare(Transform::at(Vec3::whole(4, 8, 10)))
    }
}

/// The mesh that the dice share: a cube with edge 2.0.
pub open spec fn dice_mesh_asset() -> Mesh {
    Mesh::Cube { size: Milli(2_000) }
}

/// The material that the dice share: the green (0.2, 1.0, 0.2).
pub open spec fn dice_material_asset() -> StandardMaterial {
    StandardMaterial {
        base_color: Color::Rgb { red: Milli(200), green: Milli(1_000), blue: Milli(200) },
    }
}

/// The debug colours, in the order in which they are cycled through.
pub open spec fn palette() -> Seq<Color> {
    seq![
        Color::Hsl { hue: Milli(220_000), saturation: Milli(1_000), lightness: Milli(300) },
        Color::Hsl { hue: Milli(180_000), saturation: Milli(1_000), lightness: Milli(300) },
        Color::Hsl { hue: Milli(260_000), saturation: Milli(1_000), lightness: Milli(700) },
    ]
}

/// The place in the palette of the die that brings the count of dice to
/// `count`.
pub open spec fn palette_index(count: nat) -> int {
    (count % (PALETTE_LEN as nat)) as int
}

/// The debug colour of the die that brings the count of dice to `count`.
pub open spec fn debug_color(count: nat) -> Color {
    palette()[palette_index(count)]
}

/// Where a die is put, relative to its parent, for a grid of `num` dice a
/// side: left of the centre by half the grid, right of it along Z by as much,
/// and 3 up.
pub open spec fn die_position(num: nat) -> Vec3 {
    Vec3::whole(-((num / 2) as int), 3, (num / 2) as int)
}

/// The node that a die hangs under: at the origin, tilted about X.
pub open spec fn die_parent() -> Entity {
    Entity::bare(
        Transform {
            translation: Vec3::whole(0, 0, 0),
            orientation: Orientation::RotationX(Milli(TILT)),
        },
    )
}

/// The die itself, attached under the entity `parent`: a dynamic body with a
/// cube collider, drawn with the shared mesh and material, and tagged with
/// the debug colour that falls to the `count`-th die.
pub open spec fn die(
    parent: usize,
    dice_mesh: DiceMesh,
    dice_material: DiceMaterial,
    count: nat,
) -> Entity {
    Entity {
        parent: Some(parent),
        mesh: Some(dice_mesh.0),
        material: Some(dice_material.0),
        rigid_body: Some(RigidBody::Dynamic),
        collider: Some(
            Collider { half_extents: Vec3 { x: Milli(RAD), y: Milli(RAD), z: Milli(RAD) } },
        ),
        debug_color: Some(debug_color(count)),
        ..Entity::bare(Transform::at(die_position(NUM as nat)))
    }
}

/// Picks the debug colour of the die that brings the count of dice to `count`.
pub fn pick_debug_color(count: u64) -> (color: Color)
    ensures
        color == debug_color(count as nat),
{
    let colors: [Color; 3] = [
        Color::Hsl { hue: Milli(220_000), saturation: Milli(1_000), lightness: Milli(300) },
        Color::Hsl { hue: Milli(180_000), saturation: Milli(1_000), lightness: Milli(300) },
        Color::Hsl { hue: Milli(260_000), saturation: Milli(1_000), lightness: Milli(700) },
    ];
    let slot: usize = (count % PALETTE_LEN) as usize;
    colors[slot]
}

/// Computes where a die is put for a grid of `num` dice a side.
pub fn place_die(num: u32) -> (position: Vec3)
    ensures
        position == die_position(num as nat),
{
    let center: i32 = (num / 2) as i32;
    Vec3::from_ints(-center, 3, center)
}

} // verus!
