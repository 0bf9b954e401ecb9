//! Scene presets: canned combinations of shapes, camera and lighting.
//!
//! A preset is a pure function from an aspect ratio to a `Scene`, invoked
//! once at startup.  No process-wide mutable state: the base camera and
//! lighting are built here explicitly.

use crate::fixed::FX_ONE;
use crate::ops::{Vec3, Vec4};
use crate::shape_maker;
use crate::trig::FX_QUARTER_TAU;
use crate::types::{Camera, CameraS, CameraType, Lighting, Scene, Shape};
use std::collections::HashMap;
use vstd::prelude::*;

verus! {

broadcast use vstd::std_specs::hash::group_hash_axioms;

/// The base camera's z position: seven units behind the origin.
pub const BASE_CAM_Z: i64 = -30064771072;

/// The base camera's near clip distance: a tenth of a unit.
pub const BASE_NEAR: i64 = 429496729;

/// The base camera's far clip distance: a hundred units.
pub const BASE_FAR: i64 = 429496729600;

/// The movement and rotation sensitivity: two units per second.
pub const SENS_MOVE: i64 = 8589934592;

/// The zoom sensitivity: a fifth of a radian per second.
pub const SENS_ZOOM: i64 = 858993459;

/// The ambient light intensity: eight tenths.
pub const AMBIENT_INT: i64 = 3435973836;

/// The diffuse light intensity: six tenths.
pub const DIFFUSE_INT: i64 = 2576980377;

/// One half, as a scalar.
pub const FX_HALF: i64 = 2147483648;

/// The camera every preset starts from: at `z = -7` looking forward, a
/// quarter-turn field of view, and the given aspect ratio.
pub open spec fn base_camera_s(aspect: int) -> CameraS {
    CameraS {
        position: crate::ops::Vec3s { x: 0, y: 0, z: BASE_CAM_Z as int },
        theta: crate::ops::Vec3s { x: 0, y: 0, z: 0 },
        fov: FX_QUARTER_TAU as int,
        aspect: aspect,
        near: BASE_NEAR as int,
        far: BASE_FAR as int,
    }
}

/// What every preset's lighting looks like.
pub open spec fn base_lighting_ok(l: Lighting) -> bool {
    &&& l.ambient_intensity == AMBIENT_INT
    &&& l.diffuse_intensity == DIFFUSE_INT
    &&& l.ambient_color@ == (crate::ops::Vec4s {
        x: 0,
        y: 0,
        z: FX_HALF as int,
        w: FX_ONE as int,
    })
    &&& l.diffuse_color@ == (crate::ops::Vec4s {
        x: FX_HALF as int,
        y: FX_ONE as int,
        z: FX_HALF as int,
        w: FX_ONE as int,
    })
    &&& l.diffuse_direction@ == (crate::ops::Vec3s {
        x: -(FX_ONE as int),
        y: -(FX_ONE as int),
        z: -(FX_ONE as int),
    })
    &&& l.sources@.len() == 0
}

/// Assemble a scene from shapes, keyed by their position in the vector.
fn make_scene(aspect: i64, shapes: Vec<Shape>) -> (r: Scene)
    requires
        shapes@.len() <= u32::MAX as int,
    ensures
        r@.cam@ == base_camera_s(aspect as int),
        r@.cam_type == CameraType::Free,
        base_lighting_ok(r@.lighting),
        r@.sensitivities == (SENS_MOVE, SENS_MOVE, SENS_ZOOM),
        forall|i: u32|
            (i as int) < shapes@.len() ==> #[trigger] r@.shapes.contains_key(i) && r@.shapes[i]
                == shapes@[i as int],
        forall|k: u32| #[trigger] r@.shapes.contains_key(k) ==> (k as int) < shapes@.len(),
{
    let ghost orig = shapes@;
    let mut shapes = shapes;
    let mut table: HashMap<u32, Shape> = HashMap::new();
    let mut id: usize = shapes.len();
    proof {
        assert(orig.take(orig.len() as int) =~= orig);
    }
    while id > 0
        invariant
            id == shapes@.len(),
            id <= orig.len() <= u32::MAX as int,
            shapes@ == orig.take(id as int),
            forall|i: u32|
                id <= (i as int) && (i as int) < orig.len() ==> #[trigger] table@.contains_key(i)
                    && table@[i] == orig[i as int],
            forall|k: u32|
                #[trigger] table@.contains_key(k) ==> id <= (k as int) && (k as int) < orig.len(),
        decreases id,
    {
        let shape = shapes.pop().unwrap();
        proof {
            assert(orig.take(id as int).subrange(0, id as int - 1) =~= orig.take(id as int - 1));
            assert(orig.take(id as int)[id as int - 1] == orig[id as int - 1]);
        }
        id = id - 1;
        table.insert(id as u32, shape);
    }
    Scene {
        shapes: table,
        cam: Camera {
            position: Vec3 { x: 0, y: 0, z: BASE_CAM_Z },
            theta: Vec3 { x: 0, y: 0, z: 0 },
            fov: FX_QUARTER_TAU,
            aspect,
            near: BASE_NEAR,
            far: BASE_FAR,
        },
        cam_type: CameraType::Free,
        lighting: Lighting {
            ambient_intensity: AMBIENT_INT,
            diffuse_intensity: DIFFUSE_INT,
            ambient_color: Vec4 { x: 0, y: 0, z: FX_HALF, w: FX_ONE },
            diffuse_color: Vec4 { x: FX_HALF, y: FX_ONE, z: FX_HALF, w: FX_ONE },
            diffuse_direction: Vec3 { x: -FX_ONE, y: -FX_ONE, z: -FX_ONE },
            sources: Vec::new(),
        },
        sensitivities: (SENS_MOVE, SENS_MOVE, SENS_ZOOM),
    }
}

/// A nucleus: for now a unit cube at the given position, unrotated.
pub fn make_nucleus(protons: u8, neutrons: u8, position: Vec3) -> (r: Shape)
    ensures
        r.position == position,
        r.orientation == (Vec3 { x: 0i64, y: 0i64, z: 0i64 }),
        r.scale == FX_ONE,
        r.mesh.wf(),
        r.mesh@.faces == shape_maker::box_faces_s(),
{
    let size: i64 = FX_ONE;
    Shape::new(shape_maker::cube(size), position, Vec3 { x: 0, y: 0, z: 0 })
}

/// The multi-nucleus demo: three unit cubes around the origin, the free
/// camera, and the base lighting.
pub fn scene_1(aspect: i64) -> (r: Scene)
    ensures
        r@.cam@ == base_camera_s(aspect as int),
        r@.cam_type == CameraType::Free,
        base_lighting_ok(r@.lighting),
        r@.sensitivities == (SENS_MOVE, SENS_MOVE, SENS_ZOOM),
        forall|k: u32| #[trigger] r@.shapes.contains_key(k) ==> k < 3,
        r@.shapes.contains_key(0) && r@.shapes[0].position@ == (crate::ops::Vec3s {
            x: 0,
            y: 0,
            z: 0,
        }),
        r@.shapes.contains_key(1) && r@.shapes[1].position@ == (crate::ops::Vec3s {
            x: FX_ONE as int,
            y: -(FX_ONE as int),
            z: -4 * (FX_ONE as int),
        }),
        r@.shapes.contains_key(2) && r@.shapes[2].position@ == (crate::ops::Vec3s {
            x: -3 * (FX_ONE as int),
            y: 4 * (FX_ONE as int),
            z: 0,
        }),
        forall|k: u32| #[trigger] r@.shapes.contains_key(k) ==> r@.shapes[k].mesh.wf(),
        forall|k: u32|
            #[trigger] r@.shapes.contains_key(k) ==> r@.shapes[k].orientation@ == (
            crate::ops::Vec3s { x: 0, y: 0, z: 0 }),
{
    let s0 = make_nucleus(8, 8, Vec3 { x: 0, y: 0, z: 0 });
    let s1 = make_nucleus(8, 8, Vec3 { x: FX_ONE, y: -FX_ONE, z: -4 * FX_ONE });
    let s2 = make_nucleus(8, 8, Vec3 { x: -3 * FX_ONE, y: 4 * FX_ONE, z: 0 });
    let mut shapes: Vec<Shape> = Vec::new();
    shapes.push(s0);
    shapes.push(s1);
    shapes.push(s2);
    proof {
        assert(shapes@ =~= seq![s0, s1, s2]);
    }
    let sc = make_scene(aspect, shapes);
    proof {
        assert(sc@.shapes.contains_key(0u32) && sc@.shapes[0u32] == shapes@[0]);
        assert(sc@.shapes.contains_key(1u32) && sc@.shapes[1u32] == shapes@[1]);
        assert(sc@.shapes.contains_key(2u32) && sc@.shapes[2u32] == shapes@[2]);
    }
    sc
}

} // verus!
