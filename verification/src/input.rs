//! The input translator: held key codes plus elapsed frame time become
//! camera or single-shape mutations, gated by the camera mode.
//!
//! The whole frame step is specified exactly: `handle_pressed` leaves the
//! scene equal to `steps_s`, the left fold of `step_s` over the held codes.
//! Every law about input — mode gating, zoom clamping, order independence
//! of movement — is proved of that fold.

use crate::fixed::{fx_mul, fx_mul_s, lemma_fx_mul_bound, FX_LIM, FX_ONE};
use crate::ops::{
    add3_s, add_arr, dot_v, lemma_dot4_bound, mat_vec_s, mul_arr, scale3_s, vec3_ok, Vec3, Vec3s,
    Vec4, Vec4s,
};
use crate::transforms::{lemma_rotate_s_bounded, rotate, rotate_s};
use crate::trig::FX_TAU;
use crate::types::{Camera, CameraType, Scene, SceneV, Shape};
use vstd::prelude::*;

verus! {

broadcast use vstd::std_specs::hash::group_hash_axioms;

/// Longest elapsed frame time accepted, in scaled seconds: 2^37, thirty-two
/// seconds.
pub const DT_LIM: i64 = 137438953472;

/// Largest sensitivity magnitude a well-formed scene carries: 2^38,
/// sixty-four units per second.
pub const SENS_LIM: i64 = 274877906944;

/// Largest per-frame amount (a sensitivity times an elapsed time): 2^43.
pub const AMT_LIM: i64 = 8796093022208;

/// Largest change one held code can make to one scalar: 2^49.
pub const STEP_LIM: i64 = 562949953421312;

/// Most held codes accepted in one frame.
pub const MAX_HELD: usize = 4096;

/// A requested camera movement in camera-local space.
#[derive(Copy, Clone, Debug, PartialEq, Eq, Structural)]
pub enum MoveDirection {
    Forward,
    Back,
    Left,
    Right,
    Up,
    Down,
}

/// The unit vector of a movement direction, homogenized.
pub open spec fn unit4_s(direction: MoveDirection) -> Vec4s {
    match direction {
        MoveDirection::Forward => Vec4s { x: 0, y: 0, z: FX_ONE as int, w: FX_ONE as int },
        MoveDirection::Back => Vec4s { x: 0, y: 0, z: -(FX_ONE as int), w: FX_ONE as int },
        MoveDirection::Left => Vec4s { x: -(FX_ONE as int), y: 0, z: 0, w: FX_ONE as int },
        MoveDirection::Right => Vec4s { x: FX_ONE as int, y: 0, z: 0, w: FX_ONE as int },
        MoveDirection::Up => Vec4s { x: 0, y: FX_ONE as int, z: 0, w: FX_ONE as int },
        MoveDirection::Down => Vec4s { x: 0, y: -(FX_ONE as int), z: 0, w: FX_ONE as int },
    }
}

/// The world-space displacement of a movement: the direction's unit vector
/// rotated by the camera's orientation, its homogeneous component
/// discarded, scaled by `amount`.
#[verifier::opaque]
pub open spec fn move_camera_s(direction: MoveDirection, theta: Vec3s, amount: int) -> Vec3s {
    let v = mat_vec_s(rotate_s(theta), unit4_s(direction));
    scale3_s(Vec3s { x: v.x, y: v.y, z: v.z }, amount)
}

/// A bound on every component of a three-vector.
pub open spec fn bounded3(v: Vec3s, b: int) -> bool {
    &&& -b <= v.x <= b
    &&& -b <= v.y <= b
    &&& -b <= v.z <= b
}

/// A displacement is at most `STEP_LIM` per component when the amount is at
/// most `AMT_LIM`.
pub proof fn lemma_move_camera_s_bounded(direction: MoveDirection, theta: Vec3s, amount: int)
    requires
        -AMT_LIM <= amount <= AMT_LIM,
    ensures
        bounded3(move_camera_s(direction, theta, amount), STEP_LIM as int),
{
    reveal(move_camera_s);
    lemma_rotate_s_bounded(theta);
    let m = rotate_s(theta);
    let u = unit4_s(direction);
    assert(-(FX_ONE as int) <= u.x <= FX_ONE as int && -(FX_ONE as int) <= u.y <= FX_ONE as int
        && -(FX_ONE as int) <= u.z <= FX_ONE as int && -(FX_ONE as int) <= u.w <= FX_ONE as int);
    lemma_dot4_bound(u.x, u.y, u.z, u.w, m.m00, m.m01, m.m02, m.m03, 4294967296, 68719476736);
    lemma_dot4_bound(u.x, u.y, u.z, u.w, m.m10, m.m11, m.m12, m.m13, 4294967296, 68719476736);
    lemma_dot4_bound(u.x, u.y, u.z, u.w, m.m20, m.m21, m.m22, m.m23, 4294967296, 68719476736);
    assert(4 * (4294967296int * 68719476736int / 4294967296int) == 274877906944int);
    let v = mat_vec_s(m, u);
    lemma_fx_mul_bound(v.x, amount, 274877906944, AMT_LIM as int);
    lemma_fx_mul_bound(v.y, amount, 274877906944, AMT_LIM as int);
    lemma_fx_mul_bound(v.z, amount, 274877906944, AMT_LIM as int);
    assert(274877906944int * (AMT_LIM as int) / (FX_ONE as int) == STEP_LIM as int);
}

/// Compute the world-space displacement for one movement direction, from
/// the camera's current orientation.
pub fn move_camera(direction: MoveDirection, theta: &Vec3, amount: i64) -> (r: Vec3)
    requires
        -AMT_LIM <= amount <= AMT_LIM,
    ensures
        r@ == move_camera_s(direction, theta@, amount as int),
        bounded3(r@, STEP_LIM as int),
{
    let unit_vec: Vec4 = match direction {
        MoveDirection::Forward => Vec4 { x: 0, y: 0, z: FX_ONE, w: FX_ONE },
        MoveDirection::Back => Vec4 { x: 0, y: 0, z: -FX_ONE, w: FX_ONE },
        MoveDirection::Left => Vec4 { x: -FX_ONE, y: 0, z: 0, w: FX_ONE },
        MoveDirection::Right => Vec4 { x: FX_ONE, y: 0, z: 0, w: FX_ONE },
        MoveDirection::Up => Vec4 { x: 0, y: FX_ONE, z: 0, w: FX_ONE },
        MoveDirection::Down => Vec4 { x: 0, y: -FX_ONE, z: 0, w: FX_ONE },
    };
    let m = rotate(theta);
    proof {
        reveal(move_camera_s);
        assert(unit_vec@ == unit4_s(direction));
        lemma_rotate_s_bounded(theta@);
        lemma_dot4_bound(
            unit_vec@.x,
            unit_vec@.y,
            unit_vec@.z,
            unit_vec@.w,
            m@.m00,
            m@.m01,
            m@.m02,
            m@.m03,
            4294967296,
            68719476736,
        );
        lemma_dot4_bound(
            unit_vec@.x,
            unit_vec@.y,
            unit_vec@.z,
            unit_vec@.w,
            m@.m10,
            m@.m11,
            m@.m12,
            m@.m13,
            4294967296,
            68719476736,
        );
        lemma_dot4_bound(
            unit_vec@.x,
            unit_vec@.y,
            unit_vec@.z,
            unit_vec@.w,
            m@.m20,
            m@.m21,
            m@.m22,
            m@.m23,
            4294967296,
            68719476736,
        );
        assert(4 * (4294967296int * 68719476736int / 4294967296int) == 274877906944int);
        lemma_move_camera_s_bounded(direction, theta@, amount as int);
    }
    let v: Vec4 = dot_v(&m, unit_vec);
    let v3 = Vec3 { x: v.x, y: v.y, z: v.z };
    mul_arr(&v3, amount)
}

/// The camera moved one step in a direction.
pub open spec fn cam_moved_s(s: SceneV, direction: MoveDirection, ma: int) -> SceneV {
    let d = move_camera_s(direction, s.cam.theta@, ma);
    let np = add3_s(s.cam.position@, d);
    SceneV {
        cam: Camera {
            position: Vec3 { x: np.x as i64, y: np.y as i64, z: np.z as i64 },
            ..s.cam
        },
        ..s
    }
}

/// One component of a vector bumped by `delta`: axis 0, 1 or 2.
pub open spec fn bump3_s(v: Vec3s, axis: int, delta: int) -> Vec3s {
    if axis == 0 {
        Vec3s { x: v.x + delta, y: v.y, z: v.z }
    } else if axis == 1 {
        Vec3s { x: v.x, y: v.y + delta, z: v.z }
    } else {
        Vec3s { x: v.x, y: v.y, z: v.z + delta }
    }
}

/// The camera's orientation bumped on one axis.
pub open spec fn cam_rotated_s(s: SceneV, axis: int, delta: int) -> SceneV {
    let nt = bump3_s(s.cam.theta@, axis, delta);
    SceneV {
        cam: Camera { theta: Vec3 { x: nt.x as i64, y: nt.y as i64, z: nt.z as i64 }, ..s.cam },
        ..s
    }
}

/// The sole shape's orientation bumped on one axis (the `Single` mode
/// rotation: the user spins the object rather than moving around it).
pub open spec fn shape_rotated_s(s: SceneV, axis: int, delta: int) -> SceneV {
    let sh = s.shapes[0];
    let nt = bump3_s(sh.orientation@, axis, delta);
    SceneV {
        shapes: s.shapes.insert(
            0,
            Shape { orientation: Vec3 { x: nt.x as i64, y: nt.y as i64, z: nt.z as i64 }, ..sh },
        ),
        ..s
    }
}

/// A rotation step: under `Single` it turns the sole shape, otherwise the
/// camera.  No clamp is applied to the vertical (axis 0) component: a
/// quarter-turn look limit is stated as intent around the key table but
/// deliberately left unenforced here, as an open question.
pub open spec fn rotated_s(s: SceneV, axis: int, delta: int) -> SceneV {
    if s.cam_type == CameraType::Single {
        shape_rotated_s(s, axis, delta)
    } else {
        cam_rotated_s(s, axis, delta)
    }
}

/// The field of view zoomed in by `za`, clamped below at exactly zero.
pub open spec fn zoom_in_s(fov: int, za: int) -> int {
    if fov - za < 0 {
        0
    } else {
        fov - za
    }
}

/// The field of view zoomed out by `za`, clamped above at exactly one turn.
pub open spec fn zoom_out_s(fov: int, za: int) -> int {
    if fov + za > FX_TAU as int {
        FX_TAU as int
    } else {
        fov + za
    }
}

/// The scene with a new field of view.
pub open spec fn with_fov_s(s: SceneV, fov: int) -> SceneV {
    SceneV { cam: Camera { fov: fov as i64, ..s.cam }, ..s }
}

/// A movement step, honoring the camera mode: no movement under `Single`;
/// no vertical movement under `FPS`.
pub open spec fn moved_s(s: SceneV, direction: MoveDirection, vertical: bool, ma: int) -> SceneV {
    if s.cam_type == CameraType::Single {
        s
    } else if vertical && s.cam_type == CameraType::FPS {
        s
    } else {
        cam_moved_s(s, direction, ma)
    }
}

/// What one held code does to the scene.  `ma`, `ra` and `za` are the
/// movement, rotation and zoom amounts of the frame.  Unrecognized codes
/// are ignored.
#[verifier::opaque]
pub open spec fn step_s(s: SceneV, code: u32, ma: int, ra: int, za: int) -> SceneV {
    if code == 17 {
        moved_s(s, MoveDirection::Forward, false, ma)
    } else if code == 31 {
        moved_s(s, MoveDirection::Back, false, ma)
    } else if code == 30 {
        moved_s(s, MoveDirection::Left, false, ma)
    } else if code == 32 {
        moved_s(s, MoveDirection::Right, false, ma)
    } else if code == 46 || code == 29 {
        moved_s(s, MoveDirection::Down, true, ma)
    } else if code == 57 {
        moved_s(s, MoveDirection::Up, true, ma)
    } else if code == 75 {
        rotated_s(s, 1, -ra)
    } else if code == 77 {
        rotated_s(s, 1, ra)
    } else if code == 80 {
        rotated_s(s, 0, -ra)
    } else if code == 72 {
        rotated_s(s, 0, ra)
    } else if code == 16 {
        rotated_s(s, 2, -ra)
    } else if code == 18 {
        rotated_s(s, 2, ra)
    } else if code == 13 {
        with_fov_s(s, zoom_in_s(s.cam.fov as int, za))
    } else if code == 12 {
        with_fov_s(s, zoom_out_s(s.cam.fov as int, za))
    } else {
        s
    }
}

/// The left fold of `step_s` over the held codes, in order.
pub open spec fn steps_s(s: SceneV, codes: Seq<u32>, ma: int, ra: int, za: int) -> SceneV
    decreases codes.len(),
{
    if codes.len() == 0 {
        s
    } else {
        steps_s(step_s(s, codes[0], ma, ra, za), codes.skip(1), ma, ra, za)
    }
}

/// Folding over one more code steps the fold's result once more.
pub proof fn lemma_steps_push(s: SceneV, codes: Seq<u32>, x: u32, ma: int, ra: int, za: int)
    ensures
        steps_s(s, codes.push(x), ma, ra, za) == step_s(
            steps_s(s, codes, ma, ra, za),
            x,
            ma,
            ra,
            za,
        ),
    decreases codes.len(),
{
    let snoc = codes.push(x);
    if codes.len() == 0 {
        assert(snoc[0] == x);
        assert(snoc.skip(1) =~= Seq::<u32>::empty());
        assert(steps_s(s, snoc, ma, ra, za) == steps_s(
            step_s(s, x, ma, ra, za),
            snoc.skip(1),
            ma,
            ra,
            za,
        ));
        assert(steps_s(step_s(s, x, ma, ra, za), Seq::<u32>::empty(), ma, ra, za) == step_s(
            s,
            x,
            ma,
            ra,
            za,
        ));
    } else {
        assert(snoc[0] == codes[0]);
        assert(snoc.skip(1) =~= codes.skip(1).push(x));
        assert(steps_s(s, snoc, ma, ra, za) == steps_s(
            step_s(s, codes[0], ma, ra, za),
            codes.skip(1).push(x),
            ma,
            ra,
            za,
        ));
        lemma_steps_push(step_s(s, codes[0], ma, ra, za), codes.skip(1), x, ma, ra, za);
        assert(steps_s(s, codes, ma, ra, za) == steps_s(
            step_s(s, codes[0], ma, ra, za),
            codes.skip(1),
            ma,
            ra,
            za,
        ));
    }
}

/// A scene the input translator accepts: camera pose and sensitivities in
/// range, the field of view inside one turn, shape zero present whenever
/// the camera mode is `Single`, and every shape's orientation in range.
pub open spec fn scene_wf(s: SceneV) -> bool {
    &&& vec3_ok(s.cam.position@)
    &&& vec3_ok(s.cam.theta@)
    &&& 0 <= s.cam.fov <= FX_TAU
    &&& 0 <= s.sensitivities.0 <= SENS_LIM
    &&& 0 <= s.sensitivities.1 <= SENS_LIM
    &&& 0 <= s.sensitivities.2 <= SENS_LIM
    &&& (s.cam_type == CameraType::Single ==> s.shapes.contains_key(0))
    &&& (forall|k: u32| #[trigger] s.shapes.contains_key(k) ==> vec3_ok(s.shapes[k].orientation@))
}

/// Apply every held code to the scene, in order, for one frame of
/// `delta_time` scaled seconds.  The result is exactly the fold of
/// `step_s`, with the three per-frame amounts derived from the scene's
/// sensitivities.
pub fn handle_pressed(pressed: &[u32], delta_time: i64, scene: &mut Scene)
    requires
        scene_wf(old(scene)@),
        0 <= delta_time <= DT_LIM,
        pressed@.len() <= MAX_HELD as int,
    ensures
        final(scene)@ == steps_s(
            old(scene)@,
            pressed@,
            fx_mul_s(old(scene)@.sensitivities.0 as int, delta_time as int),
            fx_mul_s(old(scene)@.sensitivities.1 as int, delta_time as int),
            fx_mul_s(old(scene)@.sensitivities.2 as int, delta_time as int),
        ),
{
    proof {
        lemma_fx_mul_bound(
            scene@.sensitivities.0 as int,
            delta_time as int,
            SENS_LIM as int,
            DT_LIM as int,
        );
        lemma_fx_mul_bound(
            scene@.sensitivities.1 as int,
            delta_time as int,
            SENS_LIM as int,
            DT_LIM as int,
        );
        lemma_fx_mul_bound(
            scene@.sensitivities.2 as int,
            delta_time as int,
            SENS_LIM as int,
            DT_LIM as int,
        );
        assert((SENS_LIM as int) * (DT_LIM as int) / (FX_ONE as int) == AMT_LIM as int);
        crate::fixed::lemma_fx_mul_nonneg(scene@.sensitivities.0 as int, delta_time as int);
        crate::fixed::lemma_fx_mul_nonneg(scene@.sensitivities.1 as int, delta_time as int);
        crate::fixed::lemma_fx_mul_nonneg(scene@.sensitivities.2 as int, delta_time as int);
    }
    let move_amount: i64 = fx_mul(scene.sensitivities.0, delta_time);
    let rotate_amount: i64 = fx_mul(scene.sensitivities.1, delta_time);
    let zoom_amount: i64 = fx_mul(scene.sensitivities.2, delta_time);
    let ghost ma = move_amount as int;
    let ghost ra = rotate_amount as int;
    let ghost za = zoom_amount as int;

    let mut i: usize = 0;
    while i < pressed.len()
        invariant
            0 <= i <= pressed@.len(),
            pressed@.len() <= MAX_HELD as int,
            ma == fx_mul_s(old(scene)@.sensitivities.0 as int, delta_time as int),
            ra == fx_mul_s(old(scene)@.sensitivities.1 as int, delta_time as int),
            za == fx_mul_s(old(scene)@.sensitivities.2 as int, delta_time as int),
            move_amount == ma && rotate_amount == ra && zoom_amount == za,
            0 <= ma <= AMT_LIM,
            0 <= ra <= AMT_LIM,
            0 <= za <= AMT_LIM,
            scene@ == steps_s(old(scene)@, pressed@.take(i as int), ma, ra, za),
            scene@.cam_type == old(scene)@.cam_type,
            bounded3(
                scene@.cam.position@,
                FX_LIM + (i as int) * (STEP_LIM as int),
            ),
            bounded3(scene@.cam.theta@, FX_LIM + (i as int) * (STEP_LIM as int)),
            0 <= scene@.cam.fov <= FX_TAU,
            scene@.cam_type == CameraType::Single ==> scene@.shapes.contains_key(0) && bounded3(
                scene@.shapes[0].orientation@,
                FX_LIM + (i as int) * (STEP_LIM as int),
            ),
        decreases pressed@.len() - i,
    {
        let ghost pre = scene@;
        let code: u32 = pressed[i];
        match code {
            17 => {
                match scene.cam_type {
                    CameraType::Single => {},
                    _ => {
                        let mv = move_camera(MoveDirection::Forward, &scene.cam.theta, move_amount);
                        scene.cam.position = add_arr(&scene.cam.position, &mv);
                    },
                }
            },
            31 => {
                match scene.cam_type {
                    CameraType::Single => {},
                    _ => {
                        let mv = move_camera(MoveDirection::Back, &scene.cam.theta, move_amount);
                        scene.cam.position = add_arr(&scene.cam.position, &mv);
                    },
                }
            },
            30 => {
                match scene.cam_type {
                    CameraType::Single => {},
                    _ => {
                        let mv = move_camera(MoveDirection::Left, &scene.cam.theta, move_amount);
                        scene.cam.position = add_arr(&scene.cam.position, &mv);
                    },
                }
            },
            32 => {
                match scene.cam_type {
                    CameraType::Single => {},
                    _ => {
                        let mv = move_camera(MoveDirection::Right, &scene.cam.theta, move_amount);
                        scene.cam.position = add_arr(&scene.cam.position, &mv);
                    },
                }
            },
            46 => {
                match scene.cam_type {
                    CameraType::Single => {},
                    CameraType::FPS => {},
                    _ => {
                        let mv = move_camera(MoveDirection::Down, &scene.cam.theta, move_amount);
                        scene.cam.position = add_arr(&scene.cam.position, &mv);
                    },
                }
            },
            29 => {
                match scene.cam_type {
                    CameraType::Single => {},
                    CameraType::FPS => {},
                    _ => {
                        let mv = move_camera(MoveDirection::Down, &scene.cam.theta, move_amount);
                        scene.cam.position = add_arr(&scene.cam.position, &mv);
                    },
                }
            },
            57 => {
                match scene.cam_type {
                    CameraType::Single => {},
                    CameraType::FPS => {},
                    _ => {
                        let mv = move_camera(MoveDirection::Up, &scene.cam.theta, move_amount);
                        scene.cam.position = add_arr(&scene.cam.position, &mv);
                    },
                }
            },
            75 => {
                rotate_step(scene, 1, true, rotate_amount, Ghost(pre), Ghost(ra));
            },
            77 => {
                rotate_step(scene, 1, false, rotate_amount, Ghost(pre), Ghost(ra));
            },
            80 => {
                rotate_step(scene, 0, true, rotate_amount, Ghost(pre), Ghost(ra));
            },
            72 => {
                rotate_step(scene, 0, false, rotate_amount, Ghost(pre), Ghost(ra));
            },
            16 => {
                rotate_step(scene, 2, true, rotate_amount, Ghost(pre), Ghost(ra));
            },
            18 => {
                rotate_step(scene, 2, false, rotate_amount, Ghost(pre), Ghost(ra));
            },
            13 => {
                let f: i64 = scene.cam.fov - zoom_amount;
                scene.cam.fov = if f < 0 {
                    0
                } else {
                    f
                };
            },
            12 => {
                let f: i64 = scene.cam.fov + zoom_amount;
                scene.cam.fov = if f > FX_TAU {
                    FX_TAU
                } else {
                    f
                };
            },
            _ => {},
        }
        proof {
            reveal(step_s);
            assert(scene@ =~= step_s(pre, code, ma, ra, za));
            assert(pressed@.take(i as int + 1) =~= pressed@.take(i as int).push(
                pressed@[i as int],
            ));
            lemma_steps_push(old(scene)@, pressed@.take(i as int), code, ma, ra, za);
        }
        i += 1;
    }
    proof {
        assert(pressed@.take(pressed@.len() as int) =~= pressed@);
    }
}

/// A code that requests camera movement.
pub open spec fn is_move_code(code: u32) -> bool {
    code == 17 || code == 31 || code == 30 || code == 32 || code == 46 || code == 29 || code == 57
}

/// Under the `Single` camera mode a movement code is a no-op: the camera's
/// position is unchanged, and so is every shape — movement keys never touch
/// shape zero; only rotation keys do.
pub proof fn lemma_single_gates_movement(s: SceneV, code: u32, ma: int, ra: int, za: int)
    requires
        s.cam_type == CameraType::Single,
        is_move_code(code),
    ensures
        step_s(s, code, ma, ra, za) == s,
{
    reveal(step_s);
}

/// Under the `FPS` camera mode a vertical movement code is a no-op: in
/// particular the camera's y position is unchanged.
pub proof fn lemma_fps_suppresses_vertical(s: SceneV, code: u32, ma: int, ra: int, za: int)
    requires
        s.cam_type == CameraType::FPS,
        code == 57 || code == 46 || code == 29,
    ensures
        step_s(s, code, ma, ra, za) == s,
{
    reveal(step_s);
}

/// Zooming clamps exactly: a field of view inside `[0, FX_TAU]` stays
/// inside whatever the code; zooming in by at least the current field of
/// view lands on exactly zero and goes no further; zooming out to the top
/// lands on exactly one turn and goes no further.
pub proof fn lemma_fov_clamped(s: SceneV, code: u32, ma: int, ra: int, za: int)
    requires
        0 <= s.cam.fov <= FX_TAU,
        0 <= za,
    ensures
        0 <= step_s(s, code, ma, ra, za).cam.fov <= FX_TAU,
        code == 13 && za >= s.cam.fov ==> step_s(s, code, ma, ra, za).cam.fov == 0,
        code == 12 && s.cam.fov + za >= FX_TAU ==> step_s(s, code, ma, ra, za).cam.fov
            == FX_TAU,
{
    reveal(step_s);
}

/// Over any run of held codes the field of view never leaves `[0, FX_TAU]`:
/// zooming clamps at the two ends and nothing else touches it.
pub proof fn lemma_fov_clamped_fold(s: SceneV, codes: Seq<u32>, ma: int, ra: int, za: int)
    requires
        0 <= s.cam.fov <= FX_TAU,
        0 <= za,
    ensures
        0 <= steps_s(s, codes, ma, ra, za).cam.fov <= FX_TAU,
    decreases codes.len(),
{
    if codes.len() > 0 {
        lemma_fov_clamped(s, codes[0], ma, ra, za);
        lemma_fov_clamped_fold(step_s(s, codes[0], ma, ra, za), codes.skip(1), ma, ra, za);
    }
}

/// Two camera movements commute: the displacements depend only on the
/// orientation, which neither movement touches, and the position
/// accumulates them additively.
proof fn lemma_cam_moved_commutes(s: SceneV, d1: MoveDirection, d2: MoveDirection, ma: int)
    requires
        vec3_ok(s.cam.position@),
        -AMT_LIM <= ma <= AMT_LIM,
    ensures
        cam_moved_s(cam_moved_s(s, d1, ma), d2, ma) == cam_moved_s(cam_moved_s(s, d2, ma), d1, ma),
{
    lemma_move_camera_s_bounded(d1, s.cam.theta@, ma);
    lemma_move_camera_s_bounded(d2, s.cam.theta@, ma);
    assert(cam_moved_s(s, d1, ma).cam.theta == s.cam.theta);
    assert(cam_moved_s(s, d2, ma).cam.theta == s.cam.theta);
}

/// Movement accumulation is order independent: two held movement codes
/// leave the scene the same in either order.
pub proof fn lemma_moves_commute(s: SceneV, c1: u32, c2: u32, ma: int, ra: int, za: int)
    requires
        vec3_ok(s.cam.position@),
        -AMT_LIM <= ma <= AMT_LIM,
        is_move_code(c1),
        is_move_code(c2),
    ensures
        step_s(step_s(s, c1, ma, ra, za), c2, ma, ra, za) == step_s(
            step_s(s, c2, ma, ra, za),
            c1,
            ma,
            ra,
            za,
        ),
{
    reveal(step_s);
    if s.cam_type != CameraType::Single {
        lemma_cam_moved_commutes(s, move_code_direction(c1), move_code_direction(c2), ma);
    }
}

/// The direction a movement code requests.
pub open spec fn move_code_direction(code: u32) -> MoveDirection {
    if code == 17 {
        MoveDirection::Forward
    } else if code == 31 {
        MoveDirection::Back
    } else if code == 30 {
        MoveDirection::Left
    } else if code == 32 {
        MoveDirection::Right
    } else if code == 57 {
        MoveDirection::Up
    } else {
        MoveDirection::Down
    }
}

/// One rotation step on the live scene: under `Single` the sole shape's
/// orientation, otherwise the camera's, bumped by the frame's rotation
/// amount on the given axis.
fn rotate_step(
    scene: &mut Scene,
    axis: u8,
    negative: bool,
    rotate_amount: i64,
    Ghost(pre): Ghost<SceneV>,
    Ghost(ra): Ghost<int>,
)
    requires
        pre == old(scene)@,
        ra == rotate_amount as int,
        -AMT_LIM <= rotate_amount <= AMT_LIM,
        axis == 0 || axis == 1 || axis == 2,
        bounded3(old(scene)@.cam.theta@, FX_LIM + (MAX_HELD as int) * (STEP_LIM as int)),
        old(scene)@.cam_type == CameraType::Single ==> old(scene)@.shapes.contains_key(0)
            && bounded3(
            old(scene)@.shapes[0].orientation@,
            FX_LIM + (MAX_HELD as int) * (STEP_LIM as int),
        ),
    ensures
        final(scene)@ == rotated_s(
            pre,
            axis as int,
            if negative {
                -ra
            } else {
                ra
            },
        ),
{
    let delta: i64 = if negative {
        -rotate_amount
    } else {
        rotate_amount
    };
    match scene.cam_type {
        CameraType::Single => {
            let sh = scene.shapes.remove(&0).unwrap();
            let o = sh.orientation;
            let no: Vec3 = if axis == 0 {
                Vec3 { x: o.x + delta, y: o.y, z: o.z }
            } else if axis == 1 {
                Vec3 { x: o.x, y: o.y + delta, z: o.z }
            } else {
                Vec3 { x: o.x, y: o.y, z: o.z + delta }
            };
            let sh2 = Shape { orientation: no, ..sh };
            scene.shapes.insert(0, sh2);
            proof {
                assert(scene@.shapes =~= pre.shapes.insert(0u32, sh2));
                assert(scene@ =~= rotated_s(pre, axis as int, delta as int));
            }
        },
        _ => {
            let t = scene.cam.theta;
            let nt: Vec3 = if axis == 0 {
                Vec3 { x: t.x + delta, y: t.y, z: t.z }
            } else if axis == 1 {
                Vec3 { x: t.x, y: t.y + delta, z: t.z }
            } else {
                Vec3 { x: t.x, y: t.y, z: t.z + delta }
            };
            scene.cam.theta = nt;
            proof {
                assert(scene@ =~= rotated_s(pre, axis as int, delta as int));
            }
        },
    }
}

} // verus!
