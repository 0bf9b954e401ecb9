use scene_core::fixed::FX_ONE;
use scene_core::input::{handle_pressed, move_camera, MoveDirection};
use scene_core::scenes::scene_1;
use scene_core::trig::FX_TAU;
use scene_core::types::CameraType;

const W: u32 = 17;
const S_KEY: u32 = 31;
const A: u32 = 30;
const D: u32 = 32;
const SPACE: u32 = 57;
const LEFT: u32 = 75;
const UP: u32 = 72;
const ZOOM_IN: u32 = 13;
const ZOOM_OUT: u32 = 12;

/// One second of frame time, scaled.
const ONE_SECOND: i64 = FX_ONE;

fn aspect() -> i64 {
    4 * FX_ONE / 3
}

#[test]
fn forward_movement_accumulates_on_z() {
    // The base camera looks along +z unrotated, so holding W for one
    // second moves it exactly the movement sensitivity forward.
    let mut scene = scene_1(aspect());
    let z0 = scene.cam.position.z;
    handle_pressed(&[W], ONE_SECOND, &mut scene);
    assert_eq!(scene.cam.position.z, z0 + scene.sensitivities.0);
    assert_eq!(scene.cam.position.x, 0);
    assert_eq!(scene.cam.position.y, 0);
}

#[test]
fn movement_is_order_independent() {
    let mut ab = scene_1(aspect());
    let mut ba = scene_1(aspect());
    handle_pressed(&[W, A], ONE_SECOND, &mut ab);
    handle_pressed(&[A, W], ONE_SECOND, &mut ba);
    assert_eq!(ab.cam.position, ba.cam.position);
}

#[test]
fn single_mode_gates_movement() {
    let mut scene = scene_1(aspect());
    scene.cam_type = CameraType::Single;
    let p0 = scene.cam.position;
    let shape_pos = scene.shapes.get(&0).unwrap().position;
    let shape_ori = scene.shapes.get(&0).unwrap().orientation;
    handle_pressed(&[W], ONE_SECOND, &mut scene);
    // The camera stays put, and so does shape 0: movement keys touch
    // neither; only rotation keys would turn the shape.
    assert_eq!(scene.cam.position, p0);
    assert_eq!(scene.shapes.get(&0).unwrap().position, shape_pos);
    assert_eq!(scene.shapes.get(&0).unwrap().orientation, shape_ori);
}

#[test]
fn single_mode_rotates_the_shape_instead() {
    let mut scene = scene_1(aspect());
    scene.cam_type = CameraType::Single;
    let t0 = scene.cam.theta;
    handle_pressed(&[UP], ONE_SECOND, &mut scene);
    assert_eq!(scene.cam.theta, t0);
    assert_eq!(
        scene.shapes.get(&0).unwrap().orientation.x,
        scene.sensitivities.1
    );
}

#[test]
fn fps_mode_suppresses_vertical_movement() {
    let mut scene = scene_1(aspect());
    scene.cam_type = CameraType::FPS;
    let p0 = scene.cam.position;
    handle_pressed(&[SPACE], ONE_SECOND, &mut scene);
    assert_eq!(scene.cam.position.y, p0.y);
    assert_eq!(scene.cam.position, p0);
    // Horizontal movement still applies under FPS.
    handle_pressed(&[W], ONE_SECOND, &mut scene);
    assert_eq!(scene.cam.position.z, p0.z + scene.sensitivities.0);
}

#[test]
fn camera_rotation_accumulates() {
    let mut scene = scene_1(aspect());
    handle_pressed(&[LEFT], ONE_SECOND, &mut scene);
    assert_eq!(scene.cam.theta.y, -scene.sensitivities.1);
    handle_pressed(&[LEFT, LEFT], ONE_SECOND, &mut scene);
    assert_eq!(scene.cam.theta.y, -3 * scene.sensitivities.1);
}

#[test]
fn zoom_in_stops_at_exactly_zero() {
    let mut scene = scene_1(aspect());
    for _ in 0..40 {
        handle_pressed(&[ZOOM_IN], ONE_SECOND, &mut scene);
    }
    assert_eq!(scene.cam.fov, 0);
    handle_pressed(&[ZOOM_IN], ONE_SECOND, &mut scene);
    assert_eq!(scene.cam.fov, 0);
}

#[test]
fn zoom_out_stops_at_exactly_one_turn() {
    let mut scene = scene_1(aspect());
    for _ in 0..200 {
        handle_pressed(&[ZOOM_OUT], ONE_SECOND, &mut scene);
    }
    assert_eq!(scene.cam.fov, FX_TAU);
    handle_pressed(&[ZOOM_OUT], ONE_SECOND, &mut scene);
    assert_eq!(scene.cam.fov, FX_TAU);
}

#[test]
fn unknown_codes_are_ignored() {
    let mut scene = scene_1(aspect());
    let p0 = scene.cam.position;
    let t0 = scene.cam.theta;
    let f0 = scene.cam.fov;
    handle_pressed(&[200, 1, 99], ONE_SECOND, &mut scene);
    assert_eq!(scene.cam.position, p0);
    assert_eq!(scene.cam.theta, t0);
    assert_eq!(scene.cam.fov, f0);
}

#[test]
fn opposite_moves_cancel() {
    let mut scene = scene_1(aspect());
    let p0 = scene.cam.position;
    handle_pressed(&[W, S_KEY, A, D], ONE_SECOND, &mut scene);
    assert_eq!(scene.cam.position, p0);
}

#[test]
fn move_camera_scales_the_unit_vector() {
    let zero = scene_core::ops::Vec3 { x: 0, y: 0, z: 0 };
    let amount: i64 = 3 * FX_ONE;
    let fwd = move_camera(MoveDirection::Forward, &zero, amount);
    assert_eq!((fwd.x, fwd.y, fwd.z), (0, 0, amount));
    let down = move_camera(MoveDirection::Down, &zero, amount);
    assert_eq!((down.x, down.y, down.z), (0, -amount, 0));
}
