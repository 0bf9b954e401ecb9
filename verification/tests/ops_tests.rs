use scene_core::fixed::{FX_DIV_MIN, FX_ONE};
use scene_core::ops::{
    add_arr, div_arr4, dot, dot_v, flatten, mul_arr, mul_arr4, transpose, Mat4, Vec3, Vec4,
};

fn mat(rows: [[i64; 4]; 4]) -> Mat4 {
    Mat4 {
        m00: rows[0][0],
        m01: rows[0][1],
        m02: rows[0][2],
        m03: rows[0][3],
        m10: rows[1][0],
        m11: rows[1][1],
        m12: rows[1][2],
        m13: rows[1][3],
        m20: rows[2][0],
        m21: rows[2][1],
        m22: rows[2][2],
        m23: rows[2][3],
        m30: rows[3][0],
        m31: rows[3][1],
        m32: rows[3][2],
        m33: rows[3][3],
    }
}

fn mat_scaled(rows: [[i64; 4]; 4]) -> Mat4 {
    let mut r = rows;
    for row in r.iter_mut() {
        for v in row.iter_mut() {
            *v *= FX_ONE;
        }
    }
    mat(r)
}

#[test]
fn it_works() {
    assert_eq!(2 + 2, 4);
}

#[test]
fn dot_A() {
    let a = mat_scaled([
        [1, 2, 3, 4],
        [4, 2, 1, -1],
        [0, -4, 1, 3],
        [9, 1, -5, 1],
    ]);
    let b = mat_scaled([
        [-1, 7, -2, 4],
        [4, 2, 1, -1],
        [0, -4, 1, 1],
        [4, 1, 10, -2],
    ]);
    let expected = mat_scaled([
        [23, 3, 43, -3],
        [0, 27, -15, 17],
        [-4, -9, 27, -1],
        [-1, 86, -12, 28],
    ]);
    assert_eq!(dot(a, b), expected);
}

#[test]
fn transpose_swaps_rows_and_columns() {
    let a = mat([
        [1, 2, 3, 4],
        [5, 6, 7, 8],
        [9, 10, 11, 12],
        [13, 14, 15, 16],
    ]);
    let expected = mat([
        [1, 5, 9, 13],
        [2, 6, 10, 14],
        [3, 7, 11, 15],
        [4, 8, 12, 16],
    ]);
    assert_eq!(transpose(a), expected);
}

#[test]
fn flatten_is_row_major() {
    let a = mat([
        [1, 2, 3, 4],
        [5, 6, 7, 8],
        [9, 10, 11, 12],
        [13, 14, 15, 16],
    ]);
    let flat = flatten(&a);
    let expected: Vec<i64> = (1..=16).collect();
    assert_eq!(flat, expected);
}

#[test]
fn add_and_scale_are_component_wise() {
    let a = Vec3 { x: FX_ONE, y: 2 * FX_ONE, z: -3 * FX_ONE };
    let b = Vec3 { x: 10 * FX_ONE, y: -2 * FX_ONE, z: FX_ONE };
    let s = add_arr(&a, &b);
    assert_eq!(s, Vec3 { x: 11 * FX_ONE, y: 0, z: -2 * FX_ONE });

    let doubled = mul_arr(&a, 2 * FX_ONE);
    assert_eq!(doubled, Vec3 { x: 2 * FX_ONE, y: 4 * FX_ONE, z: -6 * FX_ONE });

    let v4 = Vec4 { x: FX_ONE, y: -FX_ONE, z: 2 * FX_ONE, w: FX_ONE };
    let tripled = mul_arr4(&v4, 3 * FX_ONE);
    assert_eq!(
        tripled,
        Vec4 { x: 3 * FX_ONE, y: -3 * FX_ONE, z: 6 * FX_ONE, w: 3 * FX_ONE }
    );
}

#[test]
fn div_arr4_divides_every_component() {
    let v = Vec4 { x: 8 * FX_ONE, y: -4 * FX_ONE, z: 2 * FX_ONE, w: 2 * FX_ONE };
    let halved = div_arr4(&v, 2 * FX_ONE);
    assert_eq!(
        halved,
        Vec4 { x: 4 * FX_ONE, y: -2 * FX_ONE, z: FX_ONE, w: FX_ONE }
    );
    assert!(2 * FX_ONE >= FX_DIV_MIN);
}

#[test]
fn dot_v_applies_rows_to_the_vector() {
    let m = mat_scaled([
        [1, 0, 0, 5],
        [0, 1, 0, -2],
        [0, 0, 1, 7],
        [0, 0, 0, 1],
    ]);
    let p = Vec4::from_array(&Vec3 { x: FX_ONE, y: 2 * FX_ONE, z: 3 * FX_ONE });
    let moved = dot_v(&m, p);
    assert_eq!(
        moved,
        Vec4 { x: 6 * FX_ONE, y: 0, z: 10 * FX_ONE, w: FX_ONE }
    );
}

#[test]
fn vec4_ops_follow_components() {
    let a = Vec4::new(FX_ONE, 2 * FX_ONE, 3 * FX_ONE, FX_ONE);
    let b = Vec4::new(FX_ONE, FX_ONE, FX_ONE, 0);
    assert_eq!(
        a.add(b),
        Vec4 { x: 2 * FX_ONE, y: 3 * FX_ONE, z: 4 * FX_ONE, w: FX_ONE }
    );
    assert_eq!(
        a.sub(b),
        Vec4 { x: 0, y: FX_ONE, z: 2 * FX_ONE, w: FX_ONE }
    );
    assert_eq!(
        a.mul(2 * FX_ONE),
        Vec4 { x: 2 * FX_ONE, y: 4 * FX_ONE, z: 6 * FX_ONE, w: 2 * FX_ONE }
    );
}
