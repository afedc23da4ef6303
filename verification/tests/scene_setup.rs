use dice_scene::components::{
    AmbientLight, Collider, Color, DiceMaterial, DiceMesh, Entity, MaterialHandle, Mesh,
    MeshHandle, Orientation, PointLight, Projection, StandardMaterial, Transform,
};
use dice_scene::systems::{setup_graphics, setup_physics};
use dice_scene::units::{Milli, Vec3};
use dice_scene::world::World;

fn point(x: i64, y: i64, z: i64) -> Vec3 {
    Vec3 { x: Milli(x), y: Milli(y), z: Milli(z) }
}

fn bare(transform: Transform) -> Entity {
    Entity {
        parent: None,
        transform,
        camera: None,
        point_light: None,
        mesh: None,
        material: None,
        rigid_body: None,
        collider: None,
        debug_color: None,
    }
}

#[test]
fn new_world_is_empty() {
    let world = World::new();
    assert!(world.entities.is_empty());
    assert!(world.meshes.is_empty());
    assert!(world.materials.is_empty());
    assert_eq!(world.ambient_light, None);
    assert_eq!(world.spawn_count, 0);
}

#[test]
fn milli_from_int_scales_by_a_thousand() {
    assert_eq!(Milli::from_int(0), Milli(0));
    assert_eq!(Milli::from_int(3), Milli(3_000));
    assert_eq!(Milli::from_int(-30), Milli(-30_000));
    assert_eq!(Milli::from_int(i32::MAX), Milli(2_147_483_647_000));
    assert_eq!(Milli::from_int(i32::MIN), Milli(-2_147_483_648_000));
}

#[test]
fn vec3_from_ints_scales_each_coordinate() {
    assert_eq!(Vec3::from_ints(-30, 30, 100), point(-30_000, 30_000, 100_000));
    assert_eq!(Vec3::from_ints(0, 0, 0), point(0, 0, 0));
}

#[test]
fn transform_from_xyz_does_not_turn() {
    let t = Transform::from_xyz(Milli(1), Milli(-2), Milli(3));
    assert_eq!(t, Transform { translation: point(1, -2, 3), orientation: Orientation::Identity });
}

#[test]
fn entity_new_carries_only_its_transform() {
    let t = Transform::from_xyz(Milli(5), Milli(6), Milli(7));
    assert_eq!(Entity::new(t), bare(t));
}

#[test]
fn spawn_appends_and_returns_the_index() {
    let mut world = World::new();
    let first = bare(Transform::from_xyz(Milli(1), Milli(0), Milli(0)));
    let second = Entity { parent: Some(0), ..bare(Transform::from_xyz(Milli(2), Milli(0), Milli(0))) };
    assert_eq!(world.spawn(first), 0);
    assert_eq!(world.spawn(second), 1);
    assert_eq!(world.entities, vec![first, second]);
    assert!(world.meshes.is_empty());
    assert!(world.materials.is_empty());
    assert_eq!(world.ambient_light, None);
    assert_eq!(world.spawn_count, 0);
}

#[test]
fn assets_are_named_by_their_place_in_the_store() {
    let mut world = World::new();
    let small = Mesh::Cube { size: Milli(500) };
    let large = Mesh::Cube { size: Milli(4_000) };
    assert_eq!(world.add_mesh(small), MeshHandle { id: 0 });
    assert_eq!(world.add_mesh(large), MeshHandle { id: 1 });
    assert_eq!(world.meshes, vec![small, large]);
    let red = StandardMaterial {
        base_color: Color::Rgb { red: Milli(1_000), green: Milli(0), blue: Milli(0) },
    };
    assert_eq!(world.add_material(red), MaterialHandle { id: 0 });
    assert_eq!(world.materials, vec![red]);
    assert!(world.entities.is_empty());
}

#[test]
fn setup_graphics_spawns_one_camera() {
    let mut world = World::new();
    setup_graphics(&mut world);
    let camera = Entity {
        camera: Some(Projection::Perspective),
        ..bare(Transform {
            translation: point(-30_000, 30_000, 100_000),
            orientation: Orientation::LookingAt {
                target: point(0, 10_000, 0),
                up: point(0, 1_000, 0),
            },
        })
    };
    assert_eq!(world.entities, vec![camera]);
    assert!(world.meshes.is_empty());
    assert!(world.materials.is_empty());
    assert_eq!(world.ambient_light, None);
    assert_eq!(world.spawn_count, 0);
}

#[test]
fn setup_physics_builds_the_static_scene() {
    let mut world = World::new();
    let (dice_mesh, dice_material) = setup_physics(&mut world);

    let ground = Entity {
        collider: Some(Collider { half_extents: point(200_100, 100, 200_100) }),
        ..bare(Transform { translation: point(0, -100, 0), orientation: Orientation::Identity })
    };
    let lamp = Entity {
        point_light: Some(PointLight {
            intensity: Milli(9_000_000),
            range: Milli(100_000),
            shadows_enabled: true,
        }),
        ..bare(Transform { translation: point(4_000, 8_000, 10_000), orientation: Orientation::Identity })
    };
    assert_eq!(world.entities, vec![ground, lamp]);
    assert_eq!(
        world.ambient_light,
        Some(AmbientLight {
            color: Color::Rgb { red: Milli(1_000), green: Milli(1_000), blue: Milli(1_000) },
            brightness: Milli(20),
        })
    );
    assert_eq!(world.meshes, vec![Mesh::Cube { size: Milli(2_000) }]);
    assert_eq!(
        world.materials,
        vec![StandardMaterial {
            base_color: Color::Rgb { red: Milli(200), green: Milli(1_000), blue: Milli(200) },
        }]
    );
    assert_eq!(dice_mesh, DiceMesh(MeshHandle { id: 0 }));
    assert_eq!(dice_material, DiceMaterial(MaterialHandle { id: 0 }));
    assert_eq!(world.spawn_count, 0);
}

#[test]
fn ground_top_face_is_at_height_zero() {
    let mut world = World::new();
    setup_physics(&mut world);
    let ground = world.entities[0];
    let half_height = ground.collider.expect("the ground has a collider").half_extents.y;
    assert_eq!(ground.transform.translation.y.0 + half_height.0, 0);
    assert_eq!(ground.rigid_body, None);
}

#[test]
fn shared_handles_name_the_assets_that_setup_stored() {
    let mut world = World::new();
    world.add_mesh(Mesh::Cube { size: Milli(1) });
    world.add_mesh(Mesh::Cube { size: Milli(2) });
    world.add_material(StandardMaterial {
        base_color: Color::Rgb { red: Milli(0), green: Milli(0), blue: Milli(0) },
    });
    let (dice_mesh, dice_material) = setup_physics(&mut world);
    assert_eq!(dice_mesh, DiceMesh(MeshHandle { id: 2 }));
    assert_eq!(dice_material, DiceMaterial(MaterialHandle { id: 1 }));
    assert_eq!(world.meshes[dice_mesh.0.id], Mesh::Cube { size: Milli(2_000) });
    assert_eq!(world.meshes.len(), 3);
    assert_eq!(world.materials.len(), 2);
}

#[test]
fn startup_systems_commute_up_to_spawn_order() {
    let mut one = World::new();
    setup_graphics(&mut one);
    setup_physics(&mut one);
    let mut other = World::new();
    setup_physics(&mut other);
    setup_graphics(&mut other);
    assert_eq!(one.entities.len(), 3);
    assert_eq!(other.entities.len(), 3);
    assert_eq!(one.entities[0], other.entities[2]);
    assert_eq!(one.entities[1], other.entities[0]);
    assert_eq!(one.entities[2], other.entities[1]);
    assert_eq!(one.meshes, other.meshes);
    assert_eq!(one.materials, other.materials);
    assert_eq!(one.ambient_light, other.ambient_light);
}
