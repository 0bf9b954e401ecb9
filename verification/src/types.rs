//! The data model: vertices, normals, camera and lighting.
//!
//! All components are fixed-point scalars (see `fixed`).  The mesh, shape
//! and scene containers build on these in their own modules.

use crate::fixed::{fx_div, fx_mul, fx_mul_s, fx_ok, tdiv, FX_DIV_MIN, FX_ONE};
use crate::mesh::Mesh;
use crate::ops::{vec3_ok, Vec3, Vec3s, Vec4, Vec4s};
use crate::trig::{cos_fx, cos_fx_s, sin_fx, tan_fx_s};
use std::collections::HashMap;
use vstd::prelude::*;

verus! {

/// A position in a mesh, identified there by an unsigned integer id.
#[derive(Clone, Copy, Debug, PartialEq, Eq, Structural)]
pub struct Vertex {
    pub position: Vec3,
}

/// The cross product of two three-vectors.
pub open spec fn cross_s(a: Vec3s, b: Vec3s) -> Vec3s {
    Vec3s {
        x: fx_mul_s(a.y, b.z) - fx_mul_s(a.z, b.y),
        y: fx_mul_s(a.z, b.x) - fx_mul_s(a.x, b.z),
        z: fx_mul_s(a.x, b.y) - fx_mul_s(a.y, b.x),
    }
}

impl Vertex {
    pub fn new(x: i64, y: i64, z: i64) -> (r: Vertex)
        ensures
            r.position@ == (Vec3s { x: x as int, y: y as int, z: z as int }),
    {
        Vertex { position: Vec3 { x, y, z } }
    }

    /// The component-wise difference of two vertices, as an edge vector.
    pub fn subtract(&self, other: &Vertex) -> (r: Vertex)
        requires
            i64::MIN <= self.position@.x - other.position@.x <= i64::MAX,
            i64::MIN <= self.position@.y - other.position@.y <= i64::MAX,
            i64::MIN <= self.position@.z - other.position@.z <= i64::MAX,
        ensures
            r.position@.x == self.position@.x - other.position@.x,
            r.position@.y == self.position@.y - other.position@.y,
            r.position@.z == self.position@.z - other.position@.z,
    {
        Vertex {
            position: Vec3 {
                x: self.position.x - other.position.x,
                y: self.position.y - other.position.y,
                z: self.position.z - other.position.z,
            },
        }
    }

    /// The cross product of two edge vectors, as an (unnormalized) normal.
    pub fn cross(&self, other: &Vertex) -> (r: Normal)
        requires
            vec3_ok(self.position@),
            vec3_ok(other.position@),
        ensures
            r.normal@ == cross_s(self.position@, other.position@),
    {
        Normal {
            normal: Vec3 {
                x: fx_mul(self.position.y, other.position.z) - fx_mul(
                    self.position.z,
                    other.position.y,
                ),
                y: fx_mul(self.position.z, other.position.x) - fx_mul(
                    self.position.x,
                    other.position.z,
                ),
                z: fx_mul(self.position.x, other.position.y) - fx_mul(
                    self.position.y,
                    other.position.x,
                ),
            },
        }
    }
}

/// A face direction, one per face, unnormalized.
#[derive(Clone, Copy, Debug, PartialEq, Eq, Structural)]
pub struct Normal {
    pub normal: Vec3,
}

impl Normal {
    pub fn new(x: i64, y: i64, z: i64) -> (r: Normal)
        ensures
            r.normal@ == (Vec3s { x: x as int, y: y as int, z: z as int }),
    {
        Normal { normal: Vec3 { x, y, z } }
    }
}

/// The per-vertex attributes handed to a shader: homogeneous position and
/// normal, and a specular intensity.
#[derive(Clone, Copy, Debug, PartialEq, Eq, Structural)]
pub struct VertAndExtras {
    pub position: Vec4,
    pub normal: Vec4,
    pub specular_intensity: i64,
}

impl VertAndExtras {
    /// Homogenize a vertex and a normal for the shader.
    pub fn new(posit: Vertex, norm: Normal, specular_intensity: i64) -> (r: VertAndExtras)
        ensures
            r.position@ == (Vec4s {
                x: posit.position@.x,
                y: posit.position@.y,
                z: posit.position@.z,
                w: FX_ONE as int,
            }),
            r.normal@ == (Vec4s {
                x: norm.normal@.x,
                y: norm.normal@.y,
                z: norm.normal@.z,
                w: FX_ONE as int,
            }),
            r.specular_intensity == specular_intensity,
    {
        VertAndExtras {
            position: Vec4 {
                x: posit.position.x,
                y: posit.position.y,
                z: posit.position.z,
                w: FX_ONE,
            },
            normal: Vec4 { x: norm.normal.x, y: norm.normal.y, z: norm.normal.z, w: FX_ONE },
            specular_intensity,
        }
    }
}

/// Ghost twin of `Camera`.
pub ghost struct CameraS {
    pub position: Vec3s,
    pub theta: Vec3s,
    pub fov: int,
    pub aspect: int,
    pub near: int,
    pub far: int,
}

/// The camera: pose and intrinsics.  `fov` is the vertical field of view in
/// scaled radians, `aspect` is width over height, and `near` and `far` are
/// the clip distances.
#[derive(Clone, Copy, Debug, PartialEq, Eq, Structural)]
pub struct Camera {
    pub position: Vec3,
    pub theta: Vec3,
    pub fov: i64,
    pub aspect: i64,
    pub near: i64,
    pub far: i64,
}

impl View for Camera {
    type V = CameraS;

    open spec fn view(&self) -> CameraS {
        CameraS {
            position: self.position@,
            theta: self.theta@,
            fov: self.fov as int,
            aspect: self.aspect as int,
            near: self.near as int,
            far: self.far as int,
        }
    }
}

/// The projected frustum width and height at distance `dist`:
/// `2 dist tan(fov aspect / 2)` wide and `2 dist tan(fov / 2)` high.
pub open spec fn view_size_s(c: CameraS, use_far: bool) -> (int, int) {
    let dist = if use_far {
        c.far
    } else {
        c.near
    };
    let half_w = tdiv(fx_mul_s(c.fov, c.aspect), 2);
    let half_h = tdiv(c.fov, 2);
    (2 * fx_mul_s(dist, tan_fx_s(half_w)), 2 * fx_mul_s(dist, tan_fx_s(half_h)))
}

/// The conditions under which `view_size` can be computed: the intrinsics
/// are in scalar range, neither half-angle sits where its cosine vanishes,
/// and the two tangents are in scalar range.
pub open spec fn view_size_ok(c: CameraS) -> bool {
    let half_w = tdiv(fx_mul_s(c.fov, c.aspect), 2);
    let half_h = tdiv(c.fov, 2);
    &&& fx_ok(c.fov)
    &&& fx_ok(c.aspect)
    &&& fx_ok(c.near)
    &&& fx_ok(c.far)
    &&& (cos_fx_s(half_w) <= -FX_DIV_MIN || cos_fx_s(half_w) >= FX_DIV_MIN)
    &&& (cos_fx_s(half_h) <= -FX_DIV_MIN || cos_fx_s(half_h) >= FX_DIV_MIN)
    &&& fx_ok(tan_fx_s(half_w))
    &&& fx_ok(tan_fx_s(half_h))
}

impl Camera {
    /// The projected frustum width and height at the near or far plane;
    /// a read-only helper with no side effects.
    pub fn view_size(&self, far: bool) -> (r: (i64, i64))
        requires
            view_size_ok(self@),
        ensures
            r.0 == view_size_s(self@, far).0,
            r.1 == view_size_s(self@, far).1,
    {
        let dist: i64 = if far {
            self.far
        } else {
            self.near
        };
        let fa: i64 = fx_mul(self.fov, self.aspect);
        let half_w: i64 = fa / 2;
        let half_h: i64 = self.fov / 2;
        let tan_w: i64 = fx_div(sin_fx(half_w), cos_fx(half_w));
        let tan_h: i64 = fx_div(sin_fx(half_h), cos_fx(half_h));
        let width: i64 = 2 * fx_mul(dist, tan_w);
        let height: i64 = 2 * fx_mul(dist, tan_h);
        (width, height)
    }
}

/// Which mutations keyboard input may make.
#[derive(Clone, Copy, Debug, PartialEq, Eq, Structural)]
pub enum CameraType {
    /// No camera movement; input rotates the sole shape instead.
    Single,
    /// Movement on the horizontal plane plus limited vertical.
    FPS,
    /// Unrestricted movement and rotation.
    Free,
}

/// A point light source.
#[derive(Clone, Copy, Debug, PartialEq, Eq, Structural)]
pub struct LightSource {
    pub position: Vec3,
    pub color: Vec4,
    pub intensity: i64,
}

/// The lighting configuration: ambient and diffuse terms and a sequence of
/// point sources (in practice empty, but part of the contract).
#[derive(Clone, Debug)]
pub struct Lighting {
    pub ambient_intensity: i64,
    pub diffuse_intensity: i64,
    pub ambient_color: Vec4,
    pub diffuse_color: Vec4,
    pub diffuse_direction: Vec3,
    pub sources: Vec<LightSource>,
}

/// A rigid shape: one mesh plus pose.  Shapes are independent; there is no
/// parent/child hierarchy.
pub struct Shape {
    pub mesh: Mesh,
    pub position: Vec3,
    pub scale: i64,
    pub orientation: Vec3,
    pub rotation_speed: Vec3,
    pub opacity: i64,
    pub specular_intensity: i64,
}

impl Shape {
    /// A shape at a position and orientation, with unit scale and opacity,
    /// no angular velocity and unit specular intensity.
    pub fn new(mesh: Mesh, position: Vec3, orientation: Vec3) -> (r: Shape)
        ensures
            r.mesh == mesh,
            r.position == position,
            r.scale == FX_ONE,
            r.orientation == orientation,
            r.rotation_speed == (Vec3 { x: 0i64, y: 0i64, z: 0i64 }),
            r.opacity == FX_ONE,
            r.specular_intensity == FX_ONE,
    {
        Shape {
            mesh,
            position,
            scale: FX_ONE,
            orientation,
            rotation_speed: Vec3 { x: 0, y: 0, z: 0 },
            opacity: FX_ONE,
            specular_intensity: FX_ONE,
        }
    }
}

/// Ghost twin of `Scene`.
#[verifier::ext_equal]
pub ghost struct SceneV {
    pub shapes: Map<u32, Shape>,
    pub cam: Camera,
    pub cam_type: CameraType,
    pub lighting: Lighting,
    pub sensitivities: (i64, i64, i64),
}

/// The scene: shapes keyed by stable integer id, one camera, the camera
/// mode, the lighting, and the movement, rotation and zoom sensitivities.
/// A preset builds it once; the input translator is its sole mutator.
pub struct Scene {
    pub shapes: HashMap<u32, Shape>,
    pub cam: Camera,
    pub cam_type: CameraType,
    pub lighting: Lighting,
    pub sensitivities: (i64, i64, i64),
}

impl View for Scene {
    type V = SceneV;

    open spec fn view(&self) -> SceneV {
        SceneV {
            shapes: self.shapes@,
            cam: self.cam,
            cam_type: self.cam_type,
            lighting: self.lighting,
            sensitivities: self.sensitivities,
        }
    }
}

} // verus!
