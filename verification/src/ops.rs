//! Vectors and matrices, and the operators that manipulate them.
//!
//! Sizes are fixed at the type level: three- and four-component vectors and
//! one 4x4 matrix type, row-major.  Each executable type has a ghost twin
//! over `int` (its view), and every operator is specified exactly against a
//! spec-level counterpart written over those twins.

use crate::fixed::{fx_mul, fx_mul_s, fx_ok, FX_ONE};
use vstd::prelude::*;

verus! {

/// Ghost twin of `Vec3`.
pub ghost struct Vec3s {
    pub x: int,
    pub y: int,
    pub z: int,
}

/// A three-component vector of fixed-point scalars.
#[derive(Clone, Copy, Debug, PartialEq, Eq, Structural)]
pub struct Vec3 {
    pub x: i64,
    pub y: i64,
    pub z: i64,
}

impl View for Vec3 {
    type V = Vec3s;

    open spec fn view(&self) -> Vec3s {
        Vec3s { x: self.x as int, y: self.y as int, z: self.z as int }
    }
}

impl Vec3 {
    pub fn new(x: i64, y: i64, z: i64) -> (r: Vec3)
        ensures
            r@ == (Vec3s { x: x as int, y: y as int, z: z as int }),
    {
        Vec3 { x, y, z }
    }
}

/// Ghost twin of `Vec4`.
pub ghost struct Vec4s {
    pub x: int,
    pub y: int,
    pub z: int,
    pub w: int,
}

/// A four-component (homogeneous) vector of fixed-point scalars.
#[derive(Clone, Copy, Debug, PartialEq, Eq, Structural)]
pub struct Vec4 {
    pub x: i64,
    pub y: i64,
    pub z: i64,
    pub w: i64,
}

impl View for Vec4 {
    type V = Vec4s;

    open spec fn view(&self) -> Vec4s {
        Vec4s { x: self.x as int, y: self.y as int, z: self.z as int, w: self.w as int }
    }
}

/// Component-wise sum of two four-vectors.
pub open spec fn add4_s(a: Vec4s, b: Vec4s) -> Vec4s {
    Vec4s { x: a.x + b.x, y: a.y + b.y, z: a.z + b.z, w: a.w + b.w }
}

/// Component-wise difference of two four-vectors.
pub open spec fn sub4_s(a: Vec4s, b: Vec4s) -> Vec4s {
    Vec4s { x: a.x - b.x, y: a.y - b.y, z: a.z - b.z, w: a.w - b.w }
}

impl Vec4 {
    pub fn new(x: i64, y: i64, z: i64, w: i64) -> (r: Vec4)
        ensures
            r@ == (Vec4s { x: x as int, y: y as int, z: z as int, w: w as int }),
    {
        Vec4 { x, y, z, w }
    }

    /// A homogeneous point from a non-homogeneous vector: w becomes one.
    pub fn from_array(vals: &Vec3) -> (r: Vec4)
        ensures
            r@ == (Vec4s { x: vals@.x, y: vals@.y, z: vals@.z, w: FX_ONE as int }),
    {
        Vec4 { x: vals.x, y: vals.y, z: vals.z, w: FX_ONE }
    }

    /// This vector scaled by a scalar, component-wise.
    pub fn mul(&self, val: i64) -> (r: Vec4)
        requires
            vec4_ok(self@),
            fx_ok(val as int),
        ensures
            r@ == scale4_s(self@, val as int),
    {
        Vec4 {
            x: fx_mul(self.x, val),
            y: fx_mul(self.y, val),
            z: fx_mul(self.z, val),
            w: fx_mul(self.w, val),
        }
    }

    /// The component-wise sum of two vectors.
    pub fn add(self, other: Vec4) -> (r: Vec4)
        requires
            i64::MIN <= self@.x + other@.x <= i64::MAX,
            i64::MIN <= self@.y + other@.y <= i64::MAX,
            i64::MIN <= self@.z + other@.z <= i64::MAX,
            i64::MIN <= self@.w + other@.w <= i64::MAX,
        ensures
            r@ == add4_s(self@, other@),
    {
        Vec4 {
            x: self.x + other.x,
            y: self.y + other.y,
            z: self.z + other.z,
            w: self.w + other.w,
        }
    }

    /// The component-wise difference of two vectors.
    pub fn sub(self, other: Vec4) -> (r: Vec4)
        requires
            i64::MIN <= self@.x - other@.x <= i64::MAX,
            i64::MIN <= self@.y - other@.y <= i64::MAX,
            i64::MIN <= self@.z - other@.z <= i64::MAX,
            i64::MIN <= self@.w - other@.w <= i64::MAX,
        ensures
            r@ == sub4_s(self@, other@),
    {
        Vec4 {
            x: self.x - other.x,
            y: self.y - other.y,
            z: self.z - other.z,
            w: self.w - other.w,
        }
    }
}

/// Ghost twin of `Mat4`.
pub ghost struct Mat4s {
    pub m00: int,
    pub m01: int,
    pub m02: int,
    pub m03: int,
    pub m10: int,
    pub m11: int,
    pub m12: int,
    pub m13: int,
    pub m20: int,
    pub m21: int,
    pub m22: int,
    pub m23: int,
    pub m30: int,
    pub m31: int,
    pub m32: int,
    pub m33: int,
}

/// A 4x4 matrix of fixed-point scalars, row-major: `mRC` is row R, column C.
#[derive(Clone, Copy, Debug, PartialEq, Eq, Structural)]
pub struct Mat4 {
    pub m00: i64,
    pub m01: i64,
    pub m02: i64,
    pub m03: i64,
    pub m10: i64,
    pub m11: i64,
    pub m12: i64,
    pub m13: i64,
    pub m20: i64,
    pub m21: i64,
    pub m22: i64,
    pub m23: i64,
    pub m30: i64,
    pub m31: i64,
    pub m32: i64,
    pub m33: i64,
}

impl View for Mat4 {
    type V = Mat4s;

    open spec fn view(&self) -> Mat4s {
        Mat4s {
            m00: self.m00 as int,
            m01: self.m01 as int,
            m02: self.m02 as int,
            m03: self.m03 as int,
            m10: self.m10 as int,
            m11: self.m11 as int,
            m12: self.m12 as int,
            m13: self.m13 as int,
            m20: self.m20 as int,
            m21: self.m21 as int,
            m22: self.m22 as int,
            m23: self.m23 as int,
            m30: self.m30 as int,
            m31: self.m31 as int,
            m32: self.m32 as int,
            m33: self.m33 as int,
        }
    }
}

/// All three components are small enough to be factors of `fx_mul`.
pub open spec fn vec3_ok(v: Vec3s) -> bool {
    fx_ok(v.x) && fx_ok(v.y) && fx_ok(v.z)
}

/// All four components are small enough to be factors of `fx_mul`.
pub open spec fn vec4_ok(v: Vec4s) -> bool {
    fx_ok(v.x) && fx_ok(v.y) && fx_ok(v.z) && fx_ok(v.w)
}

/// All sixteen entries are within `c` in magnitude.
pub open spec fn mat_bounded_s(m: Mat4s, c: int) -> bool {
    &&& -c <= m.m00 <= c
    &&& -c <= m.m01 <= c
    &&& -c <= m.m02 <= c
    &&& -c <= m.m03 <= c
    &&& -c <= m.m10 <= c
    &&& -c <= m.m11 <= c
    &&& -c <= m.m12 <= c
    &&& -c <= m.m13 <= c
    &&& -c <= m.m20 <= c
    &&& -c <= m.m21 <= c
    &&& -c <= m.m22 <= c
    &&& -c <= m.m23 <= c
    &&& -c <= m.m30 <= c
    &&& -c <= m.m31 <= c
    &&& -c <= m.m32 <= c
    &&& -c <= m.m33 <= c
}

/// All sixteen entries are small enough to be factors of `fx_mul`.
pub open spec fn mat4_ok(m: Mat4s) -> bool {
    mat_bounded_s(m, crate::fixed::FX_LIM as int)
}

/// Component-wise sum of two three-vectors.
pub open spec fn add3_s(a: Vec3s, b: Vec3s) -> Vec3s {
    Vec3s { x: a.x + b.x, y: a.y + b.y, z: a.z + b.z }
}

/// A three-vector scaled by a scalar, component-wise.
pub open spec fn scale3_s(v: Vec3s, k: int) -> Vec3s {
    Vec3s { x: fx_mul_s(v.x, k), y: fx_mul_s(v.y, k), z: fx_mul_s(v.z, k) }
}

/// A four-vector scaled by a scalar, component-wise.
pub open spec fn scale4_s(v: Vec4s, k: int) -> Vec4s {
    Vec4s { x: fx_mul_s(v.x, k), y: fx_mul_s(v.y, k), z: fx_mul_s(v.z, k), w: fx_mul_s(v.w, k) }
}

/// A four-vector divided by a scalar, component-wise.
pub open spec fn div4_s(v: Vec4s, k: int) -> Vec4s {
    Vec4s {
        x: crate::fixed::fx_div_s(v.x, k),
        y: crate::fixed::fx_div_s(v.y, k),
        z: crate::fixed::fx_div_s(v.z, k),
        w: crate::fixed::fx_div_s(v.w, k),
    }
}

/// Rows and columns swapped.
pub open spec fn transpose_s(m: Mat4s) -> Mat4s {
    Mat4s {
        m00: m.m00,
        m01: m.m10,
        m02: m.m20,
        m03: m.m30,
        m10: m.m01,
        m11: m.m11,
        m12: m.m21,
        m13: m.m31,
        m20: m.m02,
        m21: m.m12,
        m22: m.m22,
        m23: m.m32,
        m30: m.m03,
        m31: m.m13,
        m32: m.m23,
        m33: m.m33,
    }
}

/// The four-term scalar product of a row and a column.
pub open spec fn dot4_s(
    a0: int,
    a1: int,
    a2: int,
    a3: int,
    b0: int,
    b1: int,
    b2: int,
    b3: int,
) -> int {
    fx_mul_s(a0, b0) + fx_mul_s(a1, b1) + fx_mul_s(a2, b2) + fx_mul_s(a3, b3)
}

/// Row-by-column product of two matrices.
pub open spec fn mat_mul_s(a: Mat4s, b: Mat4s) -> Mat4s {
    Mat4s {
        m00: dot4_s(a.m00, a.m01, a.m02, a.m03, b.m00, b.m10, b.m20, b.m30),
        m01: dot4_s(a.m00, a.m01, a.m02, a.m03, b.m01, b.m11, b.m21, b.m31),
        m02: dot4_s(a.m00, a.m01, a.m02, a.m03, b.m02, b.m12, b.m22, b.m32),
        m03: dot4_s(a.m00, a.m01, a.m02, a.m03, b.m03, b.m13, b.m23, b.m33),
        m10: dot4_s(a.m10, a.m11, a.m12, a.m13, b.m00, b.m10, b.m20, b.m30),
        m11: dot4_s(a.m10, a.m11, a.m12, a.m13, b.m01, b.m11, b.m21, b.m31),
        m12: dot4_s(a.m10, a.m11, a.m12, a.m13, b.m02, b.m12, b.m22, b.m32),
        m13: dot4_s(a.m10, a.m11, a.m12, a.m13, b.m03, b.m13, b.m23, b.m33),
        m20: dot4_s(a.m20, a.m21, a.m22, a.m23, b.m00, b.m10, b.m20, b.m30),
        m21: dot4_s(a.m20, a.m21, a.m22, a.m23, b.m01, b.m11, b.m21, b.m31),
        m22: dot4_s(a.m20, a.m21, a.m22, a.m23, b.m02, b.m12, b.m22, b.m32),
        m23: dot4_s(a.m20, a.m21, a.m22, a.m23, b.m03, b.m13, b.m23, b.m33),
        m30: dot4_s(a.m30, a.m31, a.m32, a.m33, b.m00, b.m10, b.m20, b.m30),
        m31: dot4_s(a.m30, a.m31, a.m32, a.m33, b.m01, b.m11, b.m21, b.m31),
        m32: dot4_s(a.m30, a.m31, a.m32, a.m33, b.m02, b.m12, b.m22, b.m32),
        m33: dot4_s(a.m30, a.m31, a.m32, a.m33, b.m03, b.m13, b.m23, b.m33),
    }
}

/// A matrix applied to a column vector, row by row.
pub open spec fn mat_vec_s(m: Mat4s, v: Vec4s) -> Vec4s {
    Vec4s {
        x: dot4_s(v.x, v.y, v.z, v.w, m.m00, m.m01, m.m02, m.m03),
        y: dot4_s(v.x, v.y, v.z, v.w, m.m10, m.m11, m.m12, m.m13),
        z: dot4_s(v.x, v.y, v.z, v.w, m.m20, m.m21, m.m22, m.m23),
        w: dot4_s(v.x, v.y, v.z, v.w, m.m30, m.m31, m.m32, m.m33),
    }
}

/// The identity matrix.
pub open spec fn ident_s() -> Mat4s {
    Mat4s {
        m00: FX_ONE as int,
        m01: 0,
        m02: 0,
        m03: 0,
        m10: 0,
        m11: FX_ONE as int,
        m12: 0,
        m13: 0,
        m20: 0,
        m21: 0,
        m22: FX_ONE as int,
        m23: 0,
        m30: 0,
        m31: 0,
        m32: 0,
        m33: FX_ONE as int,
    }
}

/// Component-wise sum of two three-vectors.
pub fn add_arr(arr1: &Vec3, arr2: &Vec3) -> (r: Vec3)
    requires
        i64::MIN <= arr1@.x + arr2@.x <= i64::MAX,
        i64::MIN <= arr1@.y + arr2@.y <= i64::MAX,
        i64::MIN <= arr1@.z + arr2@.z <= i64::MAX,
    ensures
        r@ == add3_s(arr1@, arr2@),
{
    Vec3 { x: arr1.x + arr2.x, y: arr1.y + arr2.y, z: arr1.z + arr2.z }
}

/// A three-vector scaled by a scalar.
pub fn mul_arr(arr: &Vec3, val: i64) -> (r: Vec3)
    requires
        vec3_ok(arr@),
        fx_ok(val as int),
    ensures
        r@ == scale3_s(arr@, val as int),
{
    Vec3 { x: fx_mul(arr.x, val), y: fx_mul(arr.y, val), z: fx_mul(arr.z, val) }
}

/// A four-vector scaled by a scalar.
pub fn mul_arr4(arr: &Vec4, val: i64) -> (r: Vec4)
    requires
        vec4_ok(arr@),
        fx_ok(val as int),
    ensures
        r@ == scale4_s(arr@, val as int),
{
    Vec4 {
        x: fx_mul(arr.x, val),
        y: fx_mul(arr.y, val),
        z: fx_mul(arr.z, val),
        w: fx_mul(arr.w, val),
    }
}

/// A four-vector divided by a scalar, as used for the perspective divide.
pub fn div_arr4(arr: &Vec4, val: i64) -> (r: Vec4)
    requires
        vec4_ok(arr@),
        val <= -crate::fixed::FX_DIV_MIN || val >= crate::fixed::FX_DIV_MIN,
    ensures
        r@ == div4_s(arr@, val as int),
{
    Vec4 {
        x: crate::fixed::fx_div(arr.x, val),
        y: crate::fixed::fx_div(arr.y, val),
        z: crate::fixed::fx_div(arr.z, val),
        w: crate::fixed::fx_div(arr.w, val),
    }
}

/// Rows and columns swapped.
pub fn transpose(m: Mat4) -> (r: Mat4)
    ensures
        r@ == transpose_s(m@),
{
    Mat4 {
        m00: m.m00,
        m01: m.m10,
        m02: m.m20,
        m03: m.m30,
        m10: m.m01,
        m11: m.m11,
        m12: m.m21,
        m13: m.m31,
        m20: m.m02,
        m21: m.m12,
        m22: m.m22,
        m23: m.m32,
        m30: m.m03,
        m31: m.m13,
        m32: m.m23,
        m33: m.m33,
    }
}

/// The sixteen entries in row-major order, for handing to a vertex buffer.
pub fn flatten(m: &Mat4) -> (r: Vec<i64>)
    ensures
        r@ == seq![
            m.m00,
            m.m01,
            m.m02,
            m.m03,
            m.m10,
            m.m11,
            m.m12,
            m.m13,
            m.m20,
            m.m21,
            m.m22,
            m.m23,
            m.m30,
            m.m31,
            m.m32,
            m.m33,
        ],
{
    let mut r: Vec<i64> = Vec::new();
    r.push(m.m00);
    r.push(m.m01);
    r.push(m.m02);
    r.push(m.m03);
    r.push(m.m10);
    r.push(m.m11);
    r.push(m.m12);
    r.push(m.m13);
    r.push(m.m20);
    r.push(m.m21);
    r.push(m.m22);
    r.push(m.m23);
    r.push(m.m30);
    r.push(m.m31);
    r.push(m.m32);
    r.push(m.m33);
    proof {
        assert(r@ =~= seq![
            m.m00,
            m.m01,
            m.m02,
            m.m03,
            m.m10,
            m.m11,
            m.m12,
            m.m13,
            m.m20,
            m.m21,
            m.m22,
            m.m23,
            m.m30,
            m.m31,
            m.m32,
            m.m33,
        ]);
    }
    r
}

/// The four-term scalar product of a row and a column.
fn dot4(a0: i64, a1: i64, a2: i64, a3: i64, b0: i64, b1: i64, b2: i64, b3: i64) -> (r: i64)
    requires
        fx_ok(a0 as int),
        fx_ok(a1 as int),
        fx_ok(a2 as int),
        fx_ok(a3 as int),
        fx_ok(b0 as int),
        fx_ok(b1 as int),
        fx_ok(b2 as int),
        fx_ok(b3 as int),
    ensures
        r == dot4_s(a0 as int, a1 as int, a2 as int, a3 as int, b0 as int, b1 as int, b2 as int,
            b3 as int),
{
    fx_mul(a0, b0) + fx_mul(a1, b1) + fx_mul(a2, b2) + fx_mul(a3, b3)
}

/// Row-by-column product of two matrices: 64 scalar multiply-adds,
/// no shortcuts.
pub fn dot(m0: Mat4, m1: Mat4) -> (r: Mat4)
    requires
        mat4_ok(m0@),
        mat4_ok(m1@),
    ensures
        r@ == mat_mul_s(m0@, m1@),
{
    Mat4 {
        m00: dot4(m0.m00, m0.m01, m0.m02, m0.m03, m1.m00, m1.m10, m1.m20, m1.m30),
        m01: dot4(m0.m00, m0.m01, m0.m02, m0.m03, m1.m01, m1.m11, m1.m21, m1.m31),
        m02: dot4(m0.m00, m0.m01, m0.m02, m0.m03, m1.m02, m1.m12, m1.m22, m1.m32),
        m03: dot4(m0.m00, m0.m01, m0.m02, m0.m03, m1.m03, m1.m13, m1.m23, m1.m33),
        m10: dot4(m0.m10, m0.m11, m0.m12, m0.m13, m1.m00, m1.m10, m1.m20, m1.m30),
        m11: dot4(m0.m10, m0.m11, m0.m12, m0.m13, m1.m01, m1.m11, m1.m21, m1.m31),
        m12: dot4(m0.m10, m0.m11, m0.m12, m0.m13, m1.m02, m1.m12, m1.m22, m1.m32),
        m13: dot4(m0.m10, m0.m11, m0.m12, m0.m13, m1.m03, m1.m13, m1.m23, m1.m33),
        m20: dot4(m0.m20, m0.m21, m0.m22, m0.m23, m1.m00, m1.m10, m1.m20, m1.m30),
        m21: dot4(m0.m20, m0.m21, m0.m22, m0.m23, m1.m01, m1.m11, m1.m21, m1.m31),
        m22: dot4(m0.m20, m0.m21, m0.m22, m0.m23, m1.m02, m1.m12, m1.m22, m1.m32),
        m23: dot4(m0.m20, m0.m21, m0.m22, m0.m23, m1.m03, m1.m13, m1.m23, m1.m33),
        m30: dot4(m0.m30, m0.m31, m0.m32, m0.m33, m1.m00, m1.m10, m1.m20, m1.m30),
        m31: dot4(m0.m30, m0.m31, m0.m32, m0.m33, m1.m01, m1.m11, m1.m21, m1.m31),
        m32: dot4(m0.m30, m0.m31, m0.m32, m0.m33, m1.m02, m1.m12, m1.m22, m1.m32),
        m33: dot4(m0.m30, m0.m31, m0.m32, m0.m33, m1.m03, m1.m13, m1.m23, m1.m33),
    }
}

/// A matrix applied to a column vector.
pub fn dot_v(m: &Mat4, v: Vec4) -> (r: Vec4)
    requires
        mat4_ok(m@),
        vec4_ok(v@),
    ensures
        r@ == mat_vec_s(m@, v@),
{
    Vec4 {
        x: dot4(v.x, v.y, v.z, v.w, m.m00, m.m01, m.m02, m.m03),
        y: dot4(v.x, v.y, v.z, v.w, m.m10, m.m11, m.m12, m.m13),
        z: dot4(v.x, v.y, v.z, v.w, m.m20, m.m21, m.m22, m.m23),
        w: dot4(v.x, v.y, v.z, v.w, m.m30, m.m31, m.m32, m.m33),
    }
}

/// A row bounded by `ca` against a column bounded by `cb`: the four-term
/// product stays within `4 * (ca * cb / FX_ONE)`.
pub proof fn lemma_dot4_bound(
    a0: int,
    a1: int,
    a2: int,
    a3: int,
    b0: int,
    b1: int,
    b2: int,
    b3: int,
    ca: int,
    cb: int,
)
    requires
        0 <= ca,
        0 <= cb,
        -ca <= a0 <= ca,
        -ca <= a1 <= ca,
        -ca <= a2 <= ca,
        -ca <= a3 <= ca,
        -cb <= b0 <= cb,
        -cb <= b1 <= cb,
        -cb <= b2 <= cb,
        -cb <= b3 <= cb,
    ensures
        -4 * (ca * cb / (FX_ONE as int)) <= dot4_s(a0, a1, a2, a3, b0, b1, b2, b3) <= 4 * (ca * cb
            / (FX_ONE as int)),
{
    crate::fixed::lemma_fx_mul_bound(a0, b0, ca, cb);
    crate::fixed::lemma_fx_mul_bound(a1, b1, ca, cb);
    crate::fixed::lemma_fx_mul_bound(a2, b2, ca, cb);
    crate::fixed::lemma_fx_mul_bound(a3, b3, ca, cb);
}

/// A matrix bounded by `ca` times a matrix bounded by `cb` is bounded,
/// per entry, by `4 * (ca * cb / FX_ONE)`.
pub proof fn lemma_mat_mul_bound(a: Mat4s, b: Mat4s, ca: int, cb: int)
    requires
        0 <= ca,
        0 <= cb,
        mat_bounded_s(a, ca),
        mat_bounded_s(b, cb),
    ensures
        mat_bounded_s(mat_mul_s(a, b), 4 * (ca * cb / (FX_ONE as int))),
{
    lemma_dot4_bound(a.m00, a.m01, a.m02, a.m03, b.m00, b.m10, b.m20, b.m30, ca, cb);
    lemma_dot4_bound(a.m00, a.m01, a.m02, a.m03, b.m01, b.m11, b.m21, b.m31, ca, cb);
    lemma_dot4_bound(a.m00, a.m01, a.m02, a.m03, b.m02, b.m12, b.m22, b.m32, ca, cb);
    lemma_dot4_bound(a.m00, a.m01, a.m02, a.m03, b.m03, b.m13, b.m23, b.m33, ca, cb);
    lemma_dot4_bound(a.m10, a.m11, a.m12, a.m13, b.m00, b.m10, b.m20, b.m30, ca, cb);
    lemma_dot4_bound(a.m10, a.m11, a.m12, a.m13, b.m01, b.m11, b.m21, b.m31, ca, cb);
    lemma_dot4_bound(a.m10, a.m11, a.m12, a.m13, b.m02, b.m12, b.m22, b.m32, ca, cb);
    lemma_dot4_bound(a.m10, a.m11, a.m12, a.m13, b.m03, b.m13, b.m23, b.m33, ca, cb);
    lemma_dot4_bound(a.m20, a.m21, a.m22, a.m23, b.m00, b.m10, b.m20, b.m30, ca, cb);
    lemma_dot4_bound(a.m20, a.m21, a.m22, a.m23, b.m01, b.m11, b.m21, b.m31, ca, cb);
    lemma_dot4_bound(a.m20, a.m21, a.m22, a.m23, b.m02, b.m12, b.m22, b.m32, ca, cb);
    lemma_dot4_bound(a.m20, a.m21, a.m22, a.m23, b.m03, b.m13, b.m23, b.m33, ca, cb);
    lemma_dot4_bound(a.m30, a.m31, a.m32, a.m33, b.m00, b.m10, b.m20, b.m30, ca, cb);
    lemma_dot4_bound(a.m30, a.m31, a.m32, a.m33, b.m01, b.m11, b.m21, b.m31, ca, cb);
    lemma_dot4_bound(a.m30, a.m31, a.m32, a.m33, b.m02, b.m12, b.m22, b.m32, ca, cb);
    lemma_dot4_bound(a.m30, a.m31, a.m32, a.m33, b.m03, b.m13, b.m23, b.m33, ca, cb);
}

} // verus!
