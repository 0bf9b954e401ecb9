use scene_core::fixed::FX_ONE;
use scene_core::ops::{div_arr4, dot_v, Mat4, Vec3, Vec4};
use scene_core::transforms::{model, proj, rotate, translate, view};
use scene_core::trig::FX_QUARTER_TAU;
use scene_core::types::Camera;

/// About 1e-7 in scaled units.
const EPS: i64 = 430;

fn close(a: i64, b: i64) -> bool {
    (a - b).abs() <= EPS
}

fn vec4_close(a: Vec4, b: Vec4) -> bool {
    close(a.x, b.x) && close(a.y, b.y) && close(a.z, b.z) && close(a.w, b.w)
}

fn identity() -> Mat4 {
    Mat4 {
        m00: FX_ONE,
        m01: 0,
        m02: 0,
        m03: 0,
        m10: 0,
        m11: FX_ONE,
        m12: 0,
        m13: 0,
        m20: 0,
        m21: 0,
        m22: FX_ONE,
        m23: 0,
        m30: 0,
        m31: 0,
        m32: 0,
        m33: FX_ONE,
    }
}

#[test]
fn rotate_zero_is_identity() {
    let r = rotate(&Vec3 { x: 0, y: 0, z: 0 });
    assert_eq!(r, identity());
}

#[test]
fn model_maps_origin_to_position() {
    let position = Vec3 { x: 5 * FX_ONE, y: -3 * FX_ONE, z: 11 * FX_ONE };
    let orientation = Vec3 { x: FX_ONE, y: FX_ONE / 3, z: -2 * FX_ONE };
    let scale_val: i64 = 3 * FX_ONE / 2;
    let m = model(&position, &orientation, scale_val);
    let origin = Vec4 { x: 0, y: 0, z: 0, w: FX_ONE };
    let mapped = dot_v(&m, origin);
    // Exact, not approximate: the fold of the fixed-point products never
    // touches the translation column.
    assert_eq!(
        mapped,
        Vec4 { x: position.x, y: position.y, z: position.z, w: FX_ONE }
    );
}

#[test]
fn translate_carries_position_in_last_column() {
    let t = translate(&Vec3 { x: FX_ONE, y: 2 * FX_ONE, z: 3 * FX_ONE });
    assert_eq!(t.m03, FX_ONE);
    assert_eq!(t.m13, 2 * FX_ONE);
    assert_eq!(t.m23, 3 * FX_ONE);
    assert_eq!((t.m30, t.m31, t.m32, t.m33), (0, 0, 0, FX_ONE));
}

#[test]
fn view_of_unrotated_camera_undoes_position() {
    let position = Vec3 { x: 4 * FX_ONE, y: -2 * FX_ONE, z: 9 * FX_ONE };
    let v = view(&position, &Vec3 { x: 0, y: 0, z: 0 });
    let p = Vec4 { x: position.x, y: position.y, z: position.z, w: FX_ONE };
    let mapped = dot_v(&v, p);
    assert_eq!(mapped, Vec4 { x: 0, y: 0, z: 0, w: FX_ONE });
}

#[test]
fn proj_corners() {
    // Points on the corners of the frustum map to the corners of the clip
    // cuboid: x and y to -1 or 1, z to 0 (near) or 1 (far), after dividing
    // by w.  This does not prove the projection right, but catches a bogus
    // one.
    let cam = Camera {
        position: Vec3 { x: 0, y: 0, z: 0 },
        theta: Vec3 { x: 0, y: 0, z: 0 },
        fov: FX_QUARTER_TAU,
        aspect: FX_ONE,
        near: FX_ONE,
        far: 100 * FX_ONE,
    };

    let p = proj(&cam);
    let wf: i64 = 200 * FX_ONE; // Width of the field of view at the far end; also its height.
    let wn: i64 = 2 * FX_ONE; // ... at the near end.

    // The top four corners of the frustum.
    let fwd_left = Vec4 { x: -wf / 2, y: wf / 2, z: cam.far, w: FX_ONE };
    let fwd_right = Vec4 { x: wf / 2, y: wf / 2, z: cam.far, w: FX_ONE };
    let aft_left = Vec4 { x: -wn / 2, y: wn / 2, z: cam.near, w: FX_ONE };
    let aft_right = Vec4 { x: wn / 2, y: wn / 2, z: cam.near, w: FX_ONE };

    // Their equivalents at the bottom.
    let fwd_left_btm = Vec4 { x: -wf / 2, y: -wf / 2, z: cam.far, w: FX_ONE };
    let fwd_right_btm = Vec4 { x: wf / 2, y: -wf / 2, z: cam.far, w: FX_ONE };
    let aft_left_btm = Vec4 { x: -wn / 2, y: -wn / 2, z: cam.near, w: FX_ONE };
    let aft_right_btm = Vec4 { x: wn / 2, y: -wn / 2, z: cam.near, w: FX_ONE };

    let fl = dot_v(&p, fwd_left);
    let fr = dot_v(&p, fwd_right);
    let al = dot_v(&p, aft_left);
    let ar = dot_v(&p, aft_right);

    let fl_btm = dot_v(&p, fwd_left_btm);
    let fr_btm = dot_v(&p, fwd_right_btm);
    let al_btm = dot_v(&p, aft_left_btm);
    let ar_btm = dot_v(&p, aft_right_btm);

    let one = FX_ONE;

    // Divide by w, which is the unmodified z component.
    assert!(vec4_close(div_arr4(&fl, fl.w), Vec4 { x: -one, y: -one, z: one, w: one }));
    assert!(vec4_close(div_arr4(&fr, fr.w), Vec4 { x: one, y: -one, z: one, w: one }));
    assert!(vec4_close(div_arr4(&al, al.w), Vec4 { x: -one, y: -one, z: 0, w: one }));
    assert!(vec4_close(div_arr4(&ar, ar.w), Vec4 { x: one, y: -one, z: 0, w: one }));

    assert!(vec4_close(div_arr4(&fl_btm, fl_btm.w), Vec4 { x: -one, y: one, z: one, w: one }));
    assert!(vec4_close(div_arr4(&fr_btm, fr_btm.w), Vec4 { x: one, y: one, z: one, w: one }));
    assert!(vec4_close(div_arr4(&al_btm, al_btm.w), Vec4 { x: -one, y: one, z: 0, w: one }));
    assert!(vec4_close(div_arr4(&ar_btm, ar_btm.w), Vec4 { x: one, y: one, z: 0, w: one }));
}
