use scene_core::fixed::FX_ONE;
use scene_core::ops::Vec3;
use scene_core::scenes::{make_nucleus, scene_1, SENS_MOVE, SENS_ZOOM};
use scene_core::trig::FX_QUARTER_TAU;
use scene_core::types::{CameraType, Camera};

#[test]
fn scene_1_has_three_nuclei_and_the_base_camera() {
    let aspect: i64 = 4 * FX_ONE / 3;
    let scene = scene_1(aspect);

    assert_eq!(scene.cam_type, CameraType::Free);
    let cam: &Camera = &scene.cam;
    assert_eq!((cam.position.x, cam.position.y, cam.position.z), (0, 0, -7 * FX_ONE));
    assert_eq!(cam.fov, FX_QUARTER_TAU);
    assert_eq!(cam.aspect, aspect);
    assert_eq!(cam.far, 100 * FX_ONE);
    assert_eq!(scene.sensitivities, (SENS_MOVE, SENS_MOVE, SENS_ZOOM));

    assert_eq!(scene.shapes.len(), 3);
    let s1 = scene.shapes.get(&1).unwrap();
    assert_eq!(
        s1.position,
        Vec3 { x: FX_ONE, y: -FX_ONE, z: -4 * FX_ONE }
    );
    let s2 = scene.shapes.get(&2).unwrap();
    assert_eq!(
        s2.position,
        Vec3 { x: -3 * FX_ONE, y: 4 * FX_ONE, z: 0 }
    );
    assert_eq!(scene.lighting.sources.len(), 0);
}

#[test]
fn nucleus_is_a_unit_cube_shape() {
    let position = Vec3 { x: FX_ONE, y: 0, z: 0 };
    let shape = make_nucleus(8, 8, position);
    assert_eq!(shape.position, position);
    assert_eq!(shape.orientation, Vec3 { x: 0, y: 0, z: 0 });
    assert_eq!(shape.scale, FX_ONE);
    assert_eq!(shape.opacity, FX_ONE);
    assert_eq!(shape.mesh.faces_vert.len(), 6);
    // Unit cube corners sit at half a unit from the center.
    let c6 = shape.mesh.vertices.get(&6).unwrap();
    assert_eq!(c6.position.x, FX_ONE / 2);
}

#[test]
fn view_size_matches_the_frustum_width() {
    // fov = a quarter turn and aspect 1: tan(fov / 2) is 1, so the height
    // and width at distance d are 2 d, up to the trigonometric rounding.
    let cam = Camera {
        position: Vec3 { x: 0, y: 0, z: 0 },
        theta: Vec3 { x: 0, y: 0, z: 0 },
        fov: FX_QUARTER_TAU,
        aspect: FX_ONE,
        near: FX_ONE,
        far: 100 * FX_ONE,
    };
    let (w_far, h_far) = cam.view_size(true);
    let eps: i64 = 43000; // about 1e-5 in scaled units
    assert!((w_far - 200 * FX_ONE).abs() <= eps);
    assert!((h_far - 200 * FX_ONE).abs() <= eps);
    let (w_near, h_near) = cam.view_size(false);
    assert!((w_near - 2 * FX_ONE).abs() <= eps);
    assert!((h_near - 2 * FX_ONE).abs() <= eps);
}
