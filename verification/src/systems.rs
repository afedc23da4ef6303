//! The three systems of the scene: two that run once at startup, and one that
//! runs every frame and spawns a die when the space bar goes down.

use crate::blueprint::{
    ambient_light, camera, dice_material_asset, dice_mesh_asset, die, die_parent, ground,
    pick_debug_color, place_die, point_light, GROUND_HEIGHT, GROUND_SIZE, NUM, RAD, TILT,
};
use crate::components::{
    AmbientLight, Collider, Color, DiceMaterial, DiceMesh, Entity, MaterialHandle, Mesh,
    MeshHandle, Orientation, PointLight, Projection, RigidBody, StandardMaterial, Transform,
};
use crate::input::{read_space_just_pressed, space_just_pressed};
use crate::units::{Milli, Vec3};
use crate::world::{World, WorldView};
use bevy::input::keyboard::KeyCode;
use bevy::input::Input;
use vstd::prelude::*;

verus! {

/// The world after the static part of the scene has been set up in `w`: the
/// ground and the lamp are spawned, in this order, the ambient light is set,
/// and the dice's mesh and material are stored.
pub open spec fn with_static_scene(w: WorldView) -> WorldView {
    WorldView {
        entities: w.entities.push(ground()).push(point_light()),
        meshes: w.meshes.push(dice_mesh_asset()),
        materials: w.materials.push(dice_material_asset()),
        ambient_light: Some(ambient_light()),
        spawn_count: w.spawn_count,
    }
}

/// The world after one frame in which the space bar went down (`fresh`) or
/// did not. A fresh press spawns one die under a parent of its own and counts
/// it; without one the world stays as it is.
pub open spec fn tick(
    w: WorldView,
    dice_mesh: DiceMesh,
    dice_material: DiceMaterial,
    fresh: bool,
) -> WorldView {
    if fresh {
        let count = w.spawn_count + 1;
        let parent = w.entities.len() as usize;
        WorldView {
            entities: w.entities.push(die_parent()).push(
                die(parent, dice_mesh, dice_material, count),
            ),
            spawn_count: count,
            ..w
        }
    } else {
        w
    }
}

/// Spawns the camera.
pub fn setup_graphics(world: &mut World)
    ensures
        final(world)@ == old(world)@.spawn(camera()),
        old(world)@.wf() ==> final(world)@.wf(),
{
    let transform = Transform {
        translation: Vec3::from_ints(-30, 30, 100),
        orientation: Orientation::LookingAt {
            target: Vec3::from_ints(0, 10, 0),
            up: Vec3::from_ints(0, 1, 0),
        },
    };
    world.spawn(Entity { camera: Some(Projection::Perspective), ..Entity::new(transform) });
}

/// Sets up the static part of the scene and returns the handles of the mesh
/// and the material that every die will share.
pub fn setup_physics(world: &mut World) -> (shared: (DiceMesh, DiceMaterial))
    ensures
        final(world)@ == with_static_scene(old(world)@),
        old(world)@.wf() ==> final(world)@.wf(),
        shared.0 == DiceMesh(MeshHandle { id: old(world)@.meshes.len() as usize }),
        shared.1 == DiceMaterial(MaterialHandle { id: old(world)@.materials.len() as usize }),
        final(world)@.meshes[shared.0.0.id as int] == dice_mesh_asset(),
        final(world)@.materials[shared.1.0.id as int] == dice_material_asset(),
{
    // The ground, lowered so that its top face is at height 0.
    let ground_size = Milli(GROUND_SIZE);
    let ground_height = Milli(GROUND_HEIGHT);
    world.spawn(
        Entity {
            collider: Some(
                Collider { half_extents: Vec3 { x: ground_size, y: ground_height, z: ground_size } },
            ),
            ..Entity::new(Transform::from_xyz(Milli(0), Milli(-GROUND_HEIGHT), Milli(0)))
        },
    );

    // The two lights.
    world.ambient_light = Some(
        AmbientLight {
            color: Color::Rgb { red: Milli(1_000), green: Milli(1_000), blue: Milli(1_000) },
            brightness: Milli(20),
        },
    );
    let lamp_at = Vec3::from_ints(4, 8, 10);
    world.spawn(
        Entity {
            point_light: Some(
                PointLight {
                    intensity: Milli::from_int(9000),
                    range: Milli::from_int(100),
                    shadows_enabled: true,
                },
            ),
            ..Entity::new(Transform::from_xyz(lamp_at.x, lamp_at.y, lamp_at.z))
        },
    );

    // What the dice will be drawn with.
    let mesh = world.add_mesh(Mesh::Cube { size: Milli(2_000) });
    let material = world.add_material(
        StandardMaterial {
            base_color: Color::Rgb { red: Milli(200), green: Milli(1_000), blue: Milli(200) },
        },
    );
    (DiceMesh(mesh), DiceMaterial(material))
}

/// Runs one frame for which it is known whether the space bar went down
/// (`fresh`): spawns a die if it did, and does nothing otherwise.
pub fn spawn_dice_on(
    world: &mut World,
    dice_mesh: &DiceMesh,
    dice_material: &DiceMaterial,
    fresh: bool,
)
    requires
        fresh ==> old(world).spawn_count < u64::MAX,
    ensures
        final(world)@ == tick(old(world)@, *dice_mesh, *dice_material, fresh),
        old(world)@.wf() ==> final(world)@.wf(),
        !fresh ==> final(world)@ == old(world)@,
        fresh ==> final(world)@.entities.len() == old(world)@.entities.len() + 2,
{
    if fresh {
        let position = place_die(NUM);
        let tilted = Transform {
            translation: Vec3::from_ints(0, 0, 0),
            orientation: Orientation::RotationX(Milli(TILT)),
        };
        let parent = world.spawn(Entity::new(tilted));
        let count: u64 = world.spawn_count + 1;
        world.spawn(
            Entity {
                parent: Some(parent),
                mesh: Some(dice_mesh.0),
                material: Some(dice_material.0),
                rigid_body: Some(RigidBody::Dynamic),
                collider: Some(
                    Collider { half_extents: Vec3 { x: Milli(RAD), y: Milli(RAD), z: Milli(RAD) } },
                ),
                debug_color: Some(pick_debug_color(count)),
                ..Entity::new(Transform::from_xyz(position.x, position.y, position.z))
            },
        );
        world.spawn_count = count;
    }
}

/// Runs one frame: spawns a die if `keys` reports that the space bar went
/// down since the last frame, and does nothing otherwise.
pub fn spawn_new_dice(
    world: &mut World,
    dice_mesh: &DiceMesh,
    dice_material: &DiceMaterial,
    keys: &Input<KeyCode>,
)
    requires
        old(world).spawn_count < u64::MAX,
    ensures
        final(world)@ == tick(old(world)@, *dice_mesh, *dice_material, space_just_pressed(*keys)),
        old(world)@.wf() ==> final(world)@.wf(),
        !space_just_pressed(*keys) ==> final(world)@ == old(world)@,
{
    let fresh = read_space_just_pressed(keys);
    spawn_dice_on(world, dice_mesh, dice_material, fresh);
}

} // verus!
