//! A world over many frames: what a sequence of frames makes of it, and what
//! holds of the result whatever the frames were.

use crate::blueprint::{
    ambient_light, camera, debug_color, dice_material_asset, dice_mesh_asset, die, die_parent,
    ground, palette, point_light,
};
use crate::components::{
    Collider, DiceMaterial, DiceMesh, MaterialHandle, MeshHandle, Orientation, RigidBody,
    Transform,
};
use crate::systems::{tick, with_static_scene};
use crate::units::{Milli, Vec3};
use crate::world::WorldView;
use vstd::prelude::*;
use vstd::seq_lib::to_multiset_build;

verus! {

/// The world that the frames `inputs` make of `w`. The frames are given
/// oldest first, each by whether the space bar went down in it.
pub open spec fn run(
    w: WorldView,
    dice_mesh: DiceMesh,
    dice_material: DiceMaterial,
    inputs: Seq<bool>,
) -> WorldView
    decreases inputs.len(),
{
    if inputs.len() == 0 {
        w
    } else {
        tick(
            run(w, dice_mesh, dice_material, inputs.drop_last()),
            dice_mesh,
            dice_material,
            inputs.last(),
        )
    }
}

/// In how many of the frames `inputs` the space bar went down.
pub open spec fn presses(inputs: Seq<bool>) -> nat
    decreases inputs.len(),
{
    if inputs.len() == 0 {
        0
    } else if inputs.last() {
        presses(inputs.drop_last()) + 1
    } else {
        presses(inputs.drop_last())
    }
}

/// Where the parent of the `j`-th die stands, counting from 0, among the
/// entities of a world that held `before` entities when the frames began.
pub open spec fn parent_index(before: nat, j: nat) -> int {
    (before + 2 * j) as int
}

/// Where the `j`-th die itself stands: right after its parent.
pub open spec fn die_index(before: nat, j: nat) -> int {
    (before + 2 * j + 1) as int
}

/// A run adds two entities for every press and counts one die for it; it
/// leaves the meshes, the materials and the ambient light as they were.
pub proof fn run_grows_by_presses(
    w: WorldView,
    dice_mesh: DiceMesh,
    dice_material: DiceMaterial,
    inputs: Seq<bool>,
)
    ensures
        run(w, dice_mesh, dice_material, inputs).entities.len() == w.entities.len() + 2 * presses(
            inputs,
        ),
        run(w, dice_mesh, dice_material, inputs).spawn_count == w.spawn_count + presses(inputs),
        run(w, dice_mesh, dice_material, inputs).meshes == w.meshes,
        run(w, dice_mesh, dice_material, inputs).materials == w.materials,
        run(w, dice_mesh, dice_material, inputs).ambient_light == w.ambient_light,
    decreases inputs.len(),
{
    if inputs.len() > 0 {
        run_grows_by_presses(w, dice_mesh, dice_material, inputs.drop_last());
    }
}

/// A run keeps a well-formed world well-formed.
pub proof fn run_keeps_well_formed(
    w: WorldView,
    dice_mesh: DiceMesh,
    dice_material: DiceMaterial,
    inputs: Seq<bool>,
)
    requires
        w.wf(),
    ensures
        run(w, dice_mesh, dice_material, inputs).wf(),
    decreases inputs.len(),
{
    if inputs.len() > 0 {
        run_keeps_well_formed(w, dice_mesh, dice_material, inputs.drop_last());
    }
}

/// Frames without a press create nothing: however many of them pass, the
/// world is what it was.
pub proof fn idle_frames_change_nothing(
    w: WorldView,
    dice_mesh: DiceMesh,
    dice_material: DiceMaterial,
    inputs: Seq<bool>,
)
    requires
        forall|i: int| 0 <= i < inputs.len() ==> !inputs[i],
    ensures
        run(w, dice_mesh, dice_material, inputs) == w,
        presses(inputs) == 0,
    decreases inputs.len(),
{
    if inputs.len() > 0 {
        idle_frames_change_nothing(w, dice_mesh, dice_material, inputs.drop_last());
    }
}

/// A frame with a press creates exactly one die under one parent, after all
/// the entities that were there, and touches nothing else. The parent is at
/// the origin, tilted by 0.2 radians about X; the die is a dynamic body at
/// (-1, 3, 1) under it, with a cube collider of half-extent 1.0.
pub proof fn press_spawns_one_die(w: WorldView, dice_mesh: DiceMesh, dice_material: DiceMaterial)
    ensures
        ({
            let after = tick(w, dice_mesh, dice_material, true);
            let n = w.entities.len() as int;
            &&& after.entities.len() == n + 2
            &&& after.entities.subrange(0, n) == w.entities
            &&& after.spawn_count == w.spawn_count + 1
            &&& after.meshes == w.meshes
            &&& after.materials == w.materials
            &&& after.ambient_light == w.ambient_light
            &&& after.entities[n].parent is None
            &&& after.entities[n].transform == (Transform {
                translation: Vec3 { x: Milli(0), y: Milli(0), z: Milli(0) },
                orientation: Orientation::RotationX(Milli(200)),
            })
            &&& after.entities[n].collider is None
            &&& after.entities[n].mesh is None
            &&& after.entities[n + 1].parent == Some(n as usize)
            &&& after.entities[n + 1].transform == Transform::at(
                Vec3 { x: Milli(-1_000i64), y: Milli(3_000), z: Milli(1_000) },
            )
            &&& after.entities[n + 1].rigid_body == Some(RigidBody::Dynamic)
            &&& after.entities[n + 1].collider == Some(
                Collider {
                    half_extents: Vec3 { x: Milli(1_000), y: Milli(1_000), z: Milli(1_000) },
                },
            )
            &&& after.entities[n + 1].mesh == Some(dice_mesh.0)
            &&& after.entities[n + 1].material == Some(dice_material.0)
            &&& after.entities[n + 1].debug_color == Some(debug_color(w.spawn_count + 1))
        }),
{
    let after = tick(w, dice_mesh, dice_material, true);
    let n = w.entities.len() as int;
    assert(after.entities.subrange(0, n) =~= w.entities);
}

/// The debug colour depends on the count of dice by its remainder modulo 3
/// alone: the first die gets the second colour of the palette, the next one
/// the third, the one after that the first, and so on with period 3.
pub proof fn debug_colors_cycle(count: nat)
    ensures
        debug_color(count + 3) == debug_color(count),
        count % 3 == 1 ==> debug_color(count) == palette()[1],
        count % 3 == 2 ==> debug_color(count) == palette()[2],
        count % 3 == 0 ==> debug_color(count) == palette()[0],
        palette().len() == 3,
{
}

/// A run never changes or moves an entity that was there when it began.
pub proof fn run_keeps_entities(
    w: WorldView,
    dice_mesh: DiceMesh,
    dice_material: DiceMaterial,
    inputs: Seq<bool>,
    i: int,
)
    requires
        0 <= i < w.entities.len(),
    ensures
        i < run(w, dice_mesh, dice_material, inputs).entities.len(),
        run(w, dice_mesh, dice_material, inputs).entities[i] == w.entities[i],
    decreases inputs.len(),
{
    if inputs.len() > 0 {
        run_keeps_entities(w, dice_mesh, dice_material, inputs.drop_last(), i);
    }
}

/// The `j`-th press of a run, counting from 0, leaves a parent and, right
/// after it and attached under it, a die that uses the shared mesh and the
/// shared material and carries the debug colour that falls to it by the
/// count of dice.
pub proof fn run_places_dice(
    w: WorldView,
    dice_mesh: DiceMesh,
    dice_material: DiceMaterial,
    inputs: Seq<bool>,
    j: nat,
)
    requires
        j < presses(inputs),
    ensures
        ({
            let after = run(w, dice_mesh, dice_material, inputs);
            let p = parent_index(w.entities.len(), j);
            let d = die_index(w.entities.len(), j);
            &&& 0 <= p < d < after.entities.len()
            &&& after.entities[p] == die_parent()
            &&& after.entities[d] == die(
                p as usize,
                dice_mesh,
                dice_material,
                w.spawn_count + j + 1,
            )
        }),
    decreases inputs.len(),
{
    let front = inputs.drop_last();
    let before = run(w, dice_mesh, dice_material, front);
    run_grows_by_presses(w, dice_mesh, dice_material, front);
    run_grows_by_presses(w, dice_mesh, dice_material, inputs);
    if j < presses(front) {
        run_places_dice(w, dice_mesh, dice_material, front, j);
    }
}

/// A run adds nothing but dice and their parents: every entity that was not
/// there when the run began is the parent of a die or, at the next index, the
/// die itself. No camera, lamp or ground is ever added.
pub proof fn run_adds_only_dice(
    w: WorldView,
    dice_mesh: DiceMesh,
    dice_material: DiceMaterial,
    inputs: Seq<bool>,
    i: int,
)
    requires
        w.entities.len() <= i < run(w, dice_mesh, dice_material, inputs).entities.len(),
    ensures
        ({
            let after = run(w, dice_mesh, dice_material, inputs);
            let offset = i - w.entities.len();
            let j = (offset / 2) as nat;
            &&& j < presses(inputs)
            &&& offset % 2 == 0 ==> i == parent_index(w.entities.len(), j) && after.entities[i]
                == die_parent()
            &&& offset % 2 == 1 ==> i == die_index(w.entities.len(), j) && after.entities[i] == die(
                (i - 1) as usize,
                dice_mesh,
                dice_material,
                w.spawn_count + j + 1,
            )
            &&& after.entities[i].camera is None
            &&& after.entities[i].point_light is None
            &&& after.entities[i].collider is Some ==> after.entities[i].rigid_body == Some(
                RigidBody::Dynamic,
            )
        }),
{
    let j = ((i - w.entities.len()) / 2) as nat;
    run_grows_by_presses(w, dice_mesh, dice_material, inputs);
    run_places_dice(w, dice_mesh, dice_material, inputs, j);
}

/// In a world that has spawned no die yet, the dice get the palette's colours
/// in the order 1, 2, 0, 1, 2, 0 and so on: the `j`-th die, counting from 0,
/// carries the colour at `(j + 1) % 3`.
pub proof fn dice_colors_follow_the_cycle(
    w: WorldView,
    dice_mesh: DiceMesh,
    dice_material: DiceMaterial,
    inputs: Seq<bool>,
    j: nat,
)
    requires
        w.spawn_count == 0,
        j < presses(inputs),
    ensures
        run(w, dice_mesh, dice_material, inputs).entities[die_index(w.entities.len(), j)].debug_color
            == Some(palette()[((j + 1) % 3) as int]),
{
    run_places_dice(w, dice_mesh, dice_material, inputs, j);
}

/// Every die of a run references the one shared mesh and the one shared
/// material, and the run stores no mesh or material of its own.
pub proof fn dice_share_mesh_and_material(
    w: WorldView,
    dice_mesh: DiceMesh,
    dice_material: DiceMaterial,
    inputs: Seq<bool>,
    j: nat,
)
    requires
        j < presses(inputs),
    ensures
        run(w, dice_mesh, dice_material, inputs).entities[die_index(w.entities.len(), j)].mesh
            == Some(dice_mesh.0),
        run(w, dice_mesh, dice_material, inputs).entities[die_index(
            w.entities.len(),
            j,
        )].material == Some(dice_material.0),
        run(w, dice_mesh, dice_material, inputs).meshes == w.meshes,
        run(w, dice_mesh, dice_material, inputs).materials == w.materials,
{
    run_places_dice(w, dice_mesh, dice_material, inputs, j);
    run_grows_by_presses(w, dice_mesh, dice_material, inputs);
}

/// Setting up the static scene stores exactly one mesh, the cube with edge
/// 2.0, and exactly one material, the green one.
pub proof fn setup_stores_one_mesh_and_material(w: WorldView)
    ensures
        with_static_scene(w).meshes == w.meshes.push(dice_mesh_asset()),
        with_static_scene(w).materials == w.materials.push(dice_material_asset()),
        with_static_scene(w).meshes.len() == w.meshes.len() + 1,
        with_static_scene(w).materials.len() == w.materials.len() + 1,
{
}

/// The ground that the static scene was set up with stays what it was,
/// however many dice are spawned afterwards: a collider of half-extents
/// (200.1, 0.1, 200.1) without a rigid body, at height -0.1, so that its top
/// face is at height 0.
pub proof fn ground_stays_fixed(
    w: WorldView,
    dice_mesh: DiceMesh,
    dice_material: DiceMaterial,
    inputs: Seq<bool>,
)
    ensures
        ({
            let after = run(with_static_scene(w), dice_mesh, dice_material, inputs);
            let g = after.entities[w.entities.len() as int];
            &&& w.entities.len() < after.entities.len()
            &&& g == ground()
            &&& g.collider == Some(
                Collider {
                    half_extents: Vec3 { x: Milli(200_100), y: Milli(100), z: Milli(200_100) },
                },
            )
            &&& g.rigid_body is None
            &&& g.transform == Transform::at(Vec3 { x: Milli(0), y: Milli(-100i64), z: Milli(0) })
            &&& g.transform.translation.y.0 + g.collider->0.half_extents.y.0 == 0
        }),
{
    run_keeps_entities(
        with_static_scene(w),
        dice_mesh,
        dice_material,
        inputs,
        w.entities.len() as int,
    );
}

/// The two startup systems may run in either order: the world ends up with
/// the same entities, spawned in another order, and is the same otherwise.
pub proof fn startup_order_does_not_matter(w: WorldView)
    ensures
        ({
            let camera_first = with_static_scene(w.spawn(camera()));
            let camera_last = with_static_scene(w).spawn(camera());
            &&& camera_first.entities.to_multiset() == camera_last.entities.to_multiset()
            &&& camera_first.meshes == camera_last.meshes
            &&& camera_first.materials == camera_last.materials
            &&& camera_first.ambient_light == camera_last.ambient_light
            &&& camera_first.spawn_count == camera_last.spawn_count
        }),
{
    let e = w.entities;
    to_multiset_build(e, camera());
    to_multiset_build(e.push(camera()), ground());
    to_multiset_build(e.push(camera()).push(ground()), point_light());
    to_multiset_build(e, ground());
    to_multiset_build(e.push(ground()), point_light());
    to_multiset_build(e.push(ground()).push(point_light()), camera());
    assert(e.to_multiset().insert(camera()).insert(ground()).insert(point_light())
        =~= e.to_multiset().insert(ground()).insert(point_light()).insert(camera()));
}

/// The world as the first frame finds it: the empty world after both startup
/// systems, the camera's first.
pub open spec fn started() -> WorldView {
    with_static_scene(WorldView::empty().spawn(camera()))
}

/// The handle of the dice's mesh in the world that [`started`] describes.
pub open spec fn started_mesh() -> DiceMesh {
    DiceMesh(MeshHandle { id: 0 })
}

/// The handle of the dice's material in the world that [`started`] describes.
pub open spec fn started_material() -> DiceMaterial {
    DiceMaterial(MaterialHandle { id: 0 })
}

/// From startup on, whatever the frames bring: the world holds the camera,
/// the ground and the lamp where startup put them, one mesh and one material,
/// the ambient light as it was set, and two more entities for every press.
pub proof fn started_world_keeps_its_scene(inputs: Seq<bool>)
    ensures
        ({
            let after = run(started(), started_mesh(), started_material(), inputs);
            &&& after.wf()
            &&& after.entities.len() == 3 + 2 * presses(inputs)
            &&& after.entities[0] == camera()
            &&& after.entities[1] == ground()
            &&& after.entities[2] == point_light()
            &&& after.meshes == seq![dice_mesh_asset()]
            &&& after.materials == seq![dice_material_asset()]
            &&& after.ambient_light == Some(ambient_light())
            &&& after.spawn_count == presses(inputs)
        }),
{
    let w = started();
    run_grows_by_presses(w, started_mesh(), started_material(), inputs);
    run_keeps_well_formed(w, started_mesh(), started_material(), inputs);
    run_keeps_entities(w, started_mesh(), started_material(), inputs, 0);
    run_keeps_entities(w, started_mesh(), started_material(), inputs, 1);
    run_keeps_entities(w, started_mesh(), started_material(), inputs, 2);
    assert(w.meshes =~= seq![dice_mesh_asset()]);
    assert(w.materials =~= seq![dice_material_asset()]);
}

} // verus!
