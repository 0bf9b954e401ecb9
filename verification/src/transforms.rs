//! The transform builder: homogeneous 4x4 matrices for rotation,
//! translation, scale, model, view and perspective projection.
//!
//! Convention, used uniformly: vectors are column vectors, matrices are
//! row-major and applied as `M * v` (`ops::dot_v`), so affine transforms
//! carry their translation in the last column and the last row of every
//! affine matrix is `[0, 0, 0, 1]`.  A rotation is the product
//! `R_z * (R_y * R_x)`: the rotation about x is applied innermost.  The
//! projection maps x and y into `[-1, 1]` and z into `[0, 1]` (half-range
//! depth), and keeps the incoming z in w for the perspective divide.

use crate::fixed::{fx_div, fx_div_s, fx_mul, fx_mul_s, fx_ok, tdiv, FX_DIV_MIN, FX_ONE};
use crate::ops::{
    dot, ident_s, lemma_mat_mul_bound, mat_bounded_s, mat_mul_s, mat_vec_s, Mat4, Mat4s, Vec3,
    Vec3s, Vec4s,
};
use crate::trig::{cos_fx, cos_fx_s, sin_fx, sin_fx_s};
use crate::types::{Camera, CameraS};
use vstd::prelude::*;

verus! {

/// Largest magnitude of a position component or scale factor that the
/// composed transforms accept: 2^40, a value of 256.
pub const POSE_LIM: i64 = 1099511627776;

/// A scalar small enough to stand in a model or view transform.
pub open spec fn pose_ok(a: int) -> bool {
    -POSE_LIM <= a <= POSE_LIM
}

/// All three components small enough to stand in a model or view transform.
pub open spec fn vec3_pose_ok(v: Vec3s) -> bool {
    pose_ok(v.x) && pose_ok(v.y) && pose_ok(v.z)
}

/// The component-wise negation of a three-vector.
pub open spec fn neg3_s(v: Vec3s) -> Vec3s {
    Vec3s { x: -v.x, y: -v.y, z: -v.z }
}

/// The elementary rotation about the x axis by `a` scaled radians.
pub open spec fn rot_x_s(a: int) -> Mat4s {
    let c = cos_fx_s(a);
    let s = sin_fx_s(a);
    Mat4s {
        m00: FX_ONE as int,
        m01: 0,
        m02: 0,
        m03: 0,
        m10: 0,
        m11: c,
        m12: -s,
        m13: 0,
        m20: 0,
        m21: s,
        m22: c,
        m23: 0,
        m30: 0,
        m31: 0,
        m32: 0,
        m33: FX_ONE as int,
    }
}

/// The elementary rotation about the y axis by `a` scaled radians.
pub open spec fn rot_y_s(a: int) -> Mat4s {
    let c = cos_fx_s(a);
    let s = sin_fx_s(a);
    Mat4s {
        m00: c,
        m01: 0,
        m02: s,
        m03: 0,
        m10: 0,
        m11: FX_ONE as int,
        m12: 0,
        m13: 0,
        m20: -s,
        m21: 0,
        m22: c,
        m23: 0,
        m30: 0,
        m31: 0,
        m32: 0,
        m33: FX_ONE as int,
    }
}

/// The elementary rotation about the z axis by `a` scaled radians.
pub open spec fn rot_z_s(a: int) -> Mat4s {
    let c = cos_fx_s(a);
    let s = sin_fx_s(a);
    Mat4s {
        m00: c,
        m01: -s,
        m02: 0,
        m03: 0,
        m10: s,
        m11: c,
        m12: 0,
        m13: 0,
        m20: 0,
        m21: 0,
        m22: FX_ONE as int,
        m23: 0,
        m30: 0,
        m31: 0,
        m32: 0,
        m33: FX_ONE as int,
    }
}

/// The rotation by the three angles: `R_z * (R_y * R_x)`, the x rotation
/// applied innermost.
pub open spec fn rotate_s(theta: Vec3s) -> Mat4s {
    mat_mul_s(rot_z_s(theta.z), mat_mul_s(rot_y_s(theta.y), rot_x_s(theta.x)))
}

/// The translation by a vector: the identity with the vector in the last
/// column.
pub open spec fn translate_s(position: Vec3s) -> Mat4s {
    Mat4s {
        m00: FX_ONE as int,
        m01: 0,
        m02: 0,
        m03: position.x,
        m10: 0,
        m11: FX_ONE as int,
        m12: 0,
        m13: position.y,
        m20: 0,
        m21: 0,
        m22: FX_ONE as int,
        m23: position.z,
        m30: 0,
        m31: 0,
        m32: 0,
        m33: FX_ONE as int,
    }
}

/// The uniform scale: `val` on the first three diagonal entries and one in
/// the last.
pub open spec fn scale_s(val: int) -> Mat4s {
    Mat4s {
        m00: val,
        m01: 0,
        m02: 0,
        m03: 0,
        m10: 0,
        m11: val,
        m12: 0,
        m13: 0,
        m20: 0,
        m21: 0,
        m22: val,
        m23: 0,
        m30: 0,
        m31: 0,
        m32: 0,
        m33: FX_ONE as int,
    }
}

/// The model transform: scale, then rotate, then translate, so
/// `T * (R * S)`.
pub open spec fn model_s(position: Vec3s, orientation: Vec3s, scale_val: int) -> Mat4s {
    mat_mul_s(translate_s(position), mat_mul_s(rotate_s(orientation), scale_s(scale_val)))
}

/// The view transform: the inverse of the camera's own placement, so the
/// negated rotation applied after the negated translation:
/// `R(-theta) * T(-position)`.
pub open spec fn view_s(position: Vec3s, theta: Vec3s) -> Mat4s {
    mat_mul_s(rotate_s(neg3_s(theta)), translate_s(neg3_s(position)))
}

/// The perspective projection of a camera.  With `a` the cotangent of half
/// the field of view: `a / aspect` and `-a` scale x and y into `[-1, 1]`,
/// row two maps z into `[0, 1]` between the near and far planes, and row
/// three preserves z as w for the perspective divide.
pub open spec fn proj_s(c: CameraS) -> Mat4s {
    let half = tdiv(c.fov, 2);
    let a = fx_div_s(cos_fx_s(half), sin_fx_s(half));
    Mat4s {
        m00: fx_div_s(a, c.aspect),
        m01: 0,
        m02: 0,
        m03: 0,
        m10: 0,
        m11: -a,
        m12: 0,
        m13: 0,
        m20: 0,
        m21: 0,
        m22: fx_div_s(c.far, c.far - c.near),
        m23: -fx_div_s(fx_mul_s(c.far, c.near), c.far - c.near),
        m30: 0,
        m31: 0,
        m32: FX_ONE as int,
        m33: 0,
    }
}

/// The conditions under which the projection is well defined: ordered,
/// separated clip planes, an aspect and half-angle sine away from zero, and
/// derived entries in scalar range.  A camera holding its invariant
/// (`0 < near < far`, `0 < fov < FX_TAU`) away from these margins meets it.
pub open spec fn proj_ok(c: CameraS) -> bool {
    let half = tdiv(c.fov, 2);
    &&& fx_ok(c.fov)
    &&& fx_ok(c.near)
    &&& fx_ok(c.far)
    &&& fx_ok(c.aspect)
    &&& 0 < c.near
    &&& c.near < c.far
    &&& c.far - c.near >= FX_DIV_MIN
    &&& c.aspect >= FX_DIV_MIN
    &&& sin_fx_s(half) >= FX_DIV_MIN
    &&& fx_ok(fx_div_s(cos_fx_s(half), sin_fx_s(half)))
    &&& fx_ok(fx_mul_s(c.far, c.near))
}

/// Build the rotation matrix for the three angles.
pub fn rotate(theta: &Vec3) -> (r: Mat4)
    ensures
        r@ == rotate_s(theta@),
        mat_bounded_s(r@, 68719476736),
{
    let cos_x: i64 = cos_fx(theta.x);
    let sin_x: i64 = sin_fx(theta.x);
    let cos_y: i64 = cos_fx(theta.y);
    let sin_y: i64 = sin_fx(theta.y);
    let cos_z: i64 = cos_fx(theta.z);
    let sin_z: i64 = sin_fx(theta.z);

    let r_x = Mat4 {
        m00: FX_ONE,
        m01: 0,
        m02: 0,
        m03: 0,
        m10: 0,
        m11: cos_x,
        m12: -sin_x,
        m13: 0,
        m20: 0,
        m21: sin_x,
        m22: cos_x,
        m23: 0,
        m30: 0,
        m31: 0,
        m32: 0,
        m33: FX_ONE,
    };
    let r_y = Mat4 {
        m00: cos_y,
        m01: 0,
        m02: sin_y,
        m03: 0,
        m10: 0,
        m11: FX_ONE,
        m12: 0,
        m13: 0,
        m20: -sin_y,
        m21: 0,
        m22: cos_y,
        m23: 0,
        m30: 0,
        m31: 0,
        m32: 0,
        m33: FX_ONE,
    };
    let r_z = Mat4 {
        m00: cos_z,
        m01: -sin_z,
        m02: 0,
        m03: 0,
        m10: sin_z,
        m11: cos_z,
        m12: 0,
        m13: 0,
        m20: 0,
        m21: 0,
        m22: FX_ONE,
        m23: 0,
        m30: 0,
        m31: 0,
        m32: 0,
        m33: FX_ONE,
    };
    proof {
        lemma_mat_mul_bound(r_y@, r_x@, 4294967296, 4294967296);
        assert(4 * (4294967296int * 4294967296int / 4294967296int) == 17179869184int);
    }
    let inner: Mat4 = dot(r_y, r_x);
    proof {
        lemma_mat_mul_bound(r_z@, inner@, 4294967296, 17179869184);
        assert(4 * (4294967296int * 17179869184int / 4294967296int) == 68719476736int);
    }
    dot(r_z, inner)
}

/// Build the translation matrix for a position.
pub fn translate(position: &Vec3) -> (r: Mat4)
    ensures
        r@ == translate_s(position@),
{
    Mat4 {
        m00: FX_ONE,
        m01: 0,
        m02: 0,
        m03: position.x,
        m10: 0,
        m11: FX_ONE,
        m12: 0,
        m13: position.y,
        m20: 0,
        m21: 0,
        m22: FX_ONE,
        m23: position.z,
        m30: 0,
        m31: 0,
        m32: 0,
        m33: FX_ONE,
    }
}

/// Build the uniform scale matrix.
fn scale(val: i64) -> (r: Mat4)
    ensures
        r@ == scale_s(val as int),
{
    Mat4 {
        m00: val,
        m01: 0,
        m02: 0,
        m03: 0,
        m10: 0,
        m11: val,
        m12: 0,
        m13: 0,
        m20: 0,
        m21: 0,
        m22: val,
        m23: 0,
        m30: 0,
        m31: 0,
        m32: 0,
        m33: FX_ONE,
    }
}

/// The model matrix of a pose: scale, then rotate, then position last.
pub fn model(position: &Vec3, orientation: &Vec3, scale_val: i64) -> (r: Mat4)
    requires
        vec3_pose_ok(position@),
        pose_ok(scale_val as int),
    ensures
        r@ == model_s(position@, orientation@, scale_val as int),
{
    let r_m: Mat4 = rotate(orientation);
    let s_m: Mat4 = scale(scale_val);
    let t_m: Mat4 = translate(position);
    proof {
        lemma_mat_mul_bound(r_m@, s_m@, 68719476736, 1099511627776);
        assert(4 * (68719476736int * 1099511627776int / 4294967296int) == 70368744177664int);
    }
    let inner: Mat4 = dot(r_m, s_m);
    dot(t_m, inner)
}

/// The view matrix of a camera pose: position first, inverted.
pub fn view(position: &Vec3, theta: &Vec3) -> (r: Mat4)
    requires
        vec3_pose_ok(position@),
        fx_ok(theta@.x),
        fx_ok(theta@.y),
        fx_ok(theta@.z),
    ensures
        r@ == view_s(position@, theta@),
{
    let inv_posit = Vec3 { x: -position.x, y: -position.y, z: -position.z };
    let inv_theta = Vec3 { x: -theta.x, y: -theta.y, z: -theta.z };
    let t_m: Mat4 = translate(&inv_posit);
    let r_m: Mat4 = rotate(&inv_theta);
    dot(r_m, t_m)
}

/// The perspective projection matrix of a camera.  The caller keeps the
/// camera away from the degenerate parameters (`proj_ok`); the builder
/// itself does not validate.
pub fn proj(cam: &Camera) -> (r: Mat4)
    requires
        proj_ok(cam@),
    ensures
        r@ == proj_s(cam@),
{
    let half: i64 = cam.fov / 2;
    let sh: i64 = sin_fx(half);
    let ch: i64 = cos_fx(half);
    let a: i64 = fx_div(ch, sh);
    let m00: i64 = fx_div(a, cam.aspect);
    let denom: i64 = cam.far - cam.near;
    let m22: i64 = fx_div(cam.far, denom);
    let far_near: i64 = fx_mul(cam.far, cam.near);
    let m23: i64 = -fx_div(far_near, denom);
    Mat4 {
        m00,
        m01: 0,
        m02: 0,
        m03: 0,
        m10: 0,
        m11: -a,
        m12: 0,
        m13: 0,
        m20: 0,
        m21: 0,
        m22,
        m23,
        m30: 0,
        m31: 0,
        m32: FX_ONE,
        m33: 0,
    }
}

/// A rotation matrix's entries are never larger than sixteen, as scalars.
pub proof fn lemma_rotate_s_bounded(theta: Vec3s)
    ensures
        mat_bounded_s(rotate_s(theta), 68719476736),
{
    broadcast use crate::trig::lemma_sin_bounded, crate::trig::lemma_cos_bounded;

    lemma_mat_mul_bound(rot_y_s(theta.y), rot_x_s(theta.x), 4294967296, 4294967296);
    assert(4 * (4294967296int * 4294967296int / 4294967296int) == 17179869184int);
    lemma_mat_mul_bound(
        rot_z_s(theta.z),
        mat_mul_s(rot_y_s(theta.y), rot_x_s(theta.x)),
        4294967296,
        17179869184,
    );
    assert(4 * (4294967296int * 17179869184int / 4294967296int) == 68719476736int);
}

/// A rotation is affine: its last row is `[0, 0, 0, 1]` and its last
/// column is `[0, 0, 0, 1]`.
pub proof fn lemma_rotate_affine(theta: Vec3s)
    ensures
        rotate_s(theta).m30 == 0,
        rotate_s(theta).m31 == 0,
        rotate_s(theta).m32 == 0,
        rotate_s(theta).m33 == FX_ONE as int,
        rotate_s(theta).m03 == 0,
        rotate_s(theta).m13 == 0,
        rotate_s(theta).m23 == 0,
{
    broadcast use crate::fixed::lemma_fx_mul_zero_l, crate::fixed::lemma_fx_mul_zero_r, crate::fixed::lemma_fx_mul_one_l, crate::fixed::lemma_fx_mul_one_r;

    let rx = rot_x_s(theta.x);
    let ry = rot_y_s(theta.y);
    let rz = rot_z_s(theta.z);
    let inner = mat_mul_s(ry, rx);
    assert(inner.m30 == 0 && inner.m31 == 0 && inner.m32 == 0 && inner.m33 == FX_ONE as int);
    assert(inner.m03 == 0 && inner.m13 == 0 && inner.m23 == 0);
    assert(mat_mul_s(rz, inner).m30 == 0);
    assert(mat_mul_s(rz, inner).m33 == FX_ONE as int);
}

/// A model transform is affine with the position in its last column: the
/// last column is `[p.x, p.y, p.z, 1]` and the last row is `[0, 0, 0, 1]`.
#[verifier::rlimit(50)]
pub proof fn lemma_model_affine(position: Vec3s, orientation: Vec3s, scale_val: int)
    ensures
        model_s(position, orientation, scale_val).m03 == position.x,
        model_s(position, orientation, scale_val).m13 == position.y,
        model_s(position, orientation, scale_val).m23 == position.z,
        model_s(position, orientation, scale_val).m30 == 0,
        model_s(position, orientation, scale_val).m31 == 0,
        model_s(position, orientation, scale_val).m32 == 0,
        model_s(position, orientation, scale_val).m33 == FX_ONE as int,
{
    broadcast use crate::fixed::lemma_fx_mul_zero_l, crate::fixed::lemma_fx_mul_zero_r, crate::fixed::lemma_fx_mul_one_l, crate::fixed::lemma_fx_mul_one_r;

    lemma_rotate_affine(orientation);
    let t = translate_s(position);
    let r = rotate_s(orientation);
    let rs = mat_mul_s(r, scale_s(scale_val));
    assert(rs.m03 == fx_mul_s(r.m00, 0) + fx_mul_s(r.m01, 0) + fx_mul_s(r.m02, 0) + fx_mul_s(
        r.m03,
        FX_ONE as int,
    ));
    assert(rs.m13 == fx_mul_s(r.m10, 0) + fx_mul_s(r.m11, 0) + fx_mul_s(r.m12, 0) + fx_mul_s(
        r.m13,
        FX_ONE as int,
    ));
    assert(rs.m23 == fx_mul_s(r.m20, 0) + fx_mul_s(r.m21, 0) + fx_mul_s(r.m22, 0) + fx_mul_s(
        r.m23,
        FX_ONE as int,
    ));
    assert(rs.m33 == fx_mul_s(0, scale_val) + fx_mul_s(0, 0) + fx_mul_s(0, 0) + fx_mul_s(
        FX_ONE as int,
        FX_ONE as int,
    ));
    assert(rs.m30 == fx_mul_s(0, scale_val) + fx_mul_s(0, 0) + fx_mul_s(0, 0) + fx_mul_s(
        FX_ONE as int,
        0,
    ));
    assert(rs.m31 == fx_mul_s(0, 0) + fx_mul_s(0, scale_val) + fx_mul_s(0, 0) + fx_mul_s(
        FX_ONE as int,
        0,
    ));
    assert(rs.m32 == fx_mul_s(0, 0) + fx_mul_s(0, 0) + fx_mul_s(0, scale_val) + fx_mul_s(
        FX_ONE as int,
        0,
    ));
    assert(rs.m03 == 0 && rs.m13 == 0 && rs.m23 == 0 && rs.m33 == FX_ONE as int);
    assert(rs.m30 == 0 && rs.m31 == 0 && rs.m32 == 0);
    let m = mat_mul_s(t, rs);
    assert(m.m03 == fx_mul_s(FX_ONE as int, 0) + fx_mul_s(0, 0) + fx_mul_s(0, 0) + fx_mul_s(
        position.x,
        FX_ONE as int,
    ));
    assert(m.m13 == fx_mul_s(0, 0) + fx_mul_s(FX_ONE as int, 0) + fx_mul_s(0, 0) + fx_mul_s(
        position.y,
        FX_ONE as int,
    ));
    assert(m.m23 == fx_mul_s(0, 0) + fx_mul_s(0, 0) + fx_mul_s(FX_ONE as int, 0) + fx_mul_s(
        position.z,
        FX_ONE as int,
    ));
    assert(m.m30 == fx_mul_s(0, rs.m00) + fx_mul_s(0, rs.m10) + fx_mul_s(0, rs.m20) + fx_mul_s(
        FX_ONE as int,
        0,
    ));
    assert(m.m31 == fx_mul_s(0, rs.m01) + fx_mul_s(0, rs.m11) + fx_mul_s(0, rs.m21) + fx_mul_s(
        FX_ONE as int,
        0,
    ));
    assert(m.m32 == fx_mul_s(0, rs.m02) + fx_mul_s(0, rs.m12) + fx_mul_s(0, rs.m22) + fx_mul_s(
        FX_ONE as int,
        0,
    ));
    assert(m.m33 == fx_mul_s(0, 0) + fx_mul_s(0, 0) + fx_mul_s(0, 0) + fx_mul_s(
        FX_ONE as int,
        FX_ONE as int,
    ));
}

/// A view transform is affine: its last row is `[0, 0, 0, 1]`, like that
/// of every composition of rotation, translation and scale.
pub proof fn lemma_view_affine(position: Vec3s, theta: Vec3s)
    ensures
        view_s(position, theta).m30 == 0,
        view_s(position, theta).m31 == 0,
        view_s(position, theta).m32 == 0,
        view_s(position, theta).m33 == FX_ONE as int,
{
    broadcast use crate::fixed::lemma_fx_mul_zero_l, crate::fixed::lemma_fx_mul_zero_r, crate::fixed::lemma_fx_mul_one_l, crate::fixed::lemma_fx_mul_one_r;

    lemma_rotate_affine(neg3_s(theta));
    let r = rotate_s(neg3_s(theta));
    let t = translate_s(neg3_s(position));
    let m = mat_mul_s(r, t);
    assert(m.m30 == fx_mul_s(0, FX_ONE as int) + fx_mul_s(0, 0) + fx_mul_s(0, 0) + fx_mul_s(
        FX_ONE as int,
        0,
    ));
    assert(m.m31 == fx_mul_s(0, 0) + fx_mul_s(0, FX_ONE as int) + fx_mul_s(0, 0) + fx_mul_s(
        FX_ONE as int,
        0,
    ));
    assert(m.m32 == fx_mul_s(0, 0) + fx_mul_s(0, 0) + fx_mul_s(0, FX_ONE as int) + fx_mul_s(
        FX_ONE as int,
        0,
    ));
    assert(m.m33 == fx_mul_s(0, -position.x) + fx_mul_s(0, -position.y) + fx_mul_s(
        0,
        -position.z,
    ) + fx_mul_s(FX_ONE as int, FX_ONE as int));
}

/// The model transform applied to the origin point yields exactly the
/// position, homogenized: rounding never touches it, whatever the
/// orientation and scale.
pub proof fn lemma_model_origin(position: Vec3s, orientation: Vec3s, scale_val: int)
    ensures
        mat_vec_s(
            model_s(position, orientation, scale_val),
            Vec4s { x: 0, y: 0, z: 0, w: FX_ONE as int },
        ) == (Vec4s { x: position.x, y: position.y, z: position.z, w: FX_ONE as int }),
{
    broadcast use crate::fixed::lemma_fx_mul_zero_l, crate::fixed::lemma_fx_mul_zero_r, crate::fixed::lemma_fx_mul_one_l, crate::fixed::lemma_fx_mul_one_r;

    lemma_model_affine(position, orientation, scale_val);
}

/// Rotating by three zero angles gives exactly the identity matrix.
pub proof fn lemma_rotate_zero()
    ensures
        rotate_s(Vec3s { x: 0, y: 0, z: 0 }) == ident_s(),
{
    broadcast use crate::fixed::lemma_fx_mul_zero_l, crate::fixed::lemma_fx_mul_zero_r, crate::fixed::lemma_fx_mul_one_l, crate::fixed::lemma_fx_mul_one_r;

    crate::trig::lemma_sin_zero();
    crate::trig::lemma_cos_zero();
    assert(rot_x_s(0) == ident_s());
    assert(rot_y_s(0) == ident_s());
    assert(rot_z_s(0) == ident_s());
    assert(mat_mul_s(ident_s(), ident_s()) == ident_s());
}

} // verus!
