use cgmath::{InnerSpace, SquareMatrix};
use windcore::camera::{Camera, CameraController, Key, Projection};

fn controller() -> CameraController {
    // Speed 10 units per second, sensitivity 1, as the renderer starts with.
    CameraController::new(10_000_000, 1_000_000)
}

fn camera() -> Camera {
    // The startup pose: (0, 5, 20), yaw -90 degrees, pitch -20 degrees.
    Camera::new(0, 5_000_000, 20_000_000, -90_000_000, -20_000_000)
}

#[test]
fn camera_new_reduces_yaw_and_clamps_pitch() {
    let c = camera();
    assert_eq!(c.x, 0);
    assert_eq!(c.y, 5_000_000);
    assert_eq!(c.z, 20_000_000);
    assert_eq!(c.yaw, 270_000_000);
    assert_eq!(c.pitch, -20_000_000);

    let steep = Camera::new(0, 0, 0, 725_000_000, -123_000_000);
    assert_eq!(steep.yaw, 5_000_000);
    assert_eq!(steep.pitch, -89_000_000);
}

#[test]
fn forward_key_moves_along_the_forward_vector() {
    // Yaw 270 degrees looks along negative z; half a second at speed 10
    // moves the camera exactly five units forward.
    let mut ctrl = controller();
    let mut cam = camera();
    assert!(ctrl.process_keyboard(Key::KeyW, true));
    ctrl.update_camera(&mut cam, 500_000);
    assert_eq!(cam.x, 0);
    assert_eq!(cam.y, 5_000_000);
    assert_eq!(cam.z, 15_000_000);
    assert_eq!(cam.yaw, 270_000_000);
    assert_eq!(cam.pitch, -20_000_000);
}

#[test]
fn released_key_produces_no_further_displacement() {
    let mut ctrl = controller();
    let mut cam = camera();
    assert!(ctrl.process_keyboard(Key::KeyW, true));
    ctrl.update_camera(&mut cam, 500_000);
    let after_press = (cam.x, cam.y, cam.z);
    assert!(ctrl.process_keyboard(Key::KeyW, false));
    ctrl.update_camera(&mut cam, 500_000);
    assert_eq!((cam.x, cam.y, cam.z), after_press);
}

#[test]
fn unrecognized_keys_are_not_consumed() {
    let mut ctrl = controller();
    assert!(!ctrl.process_keyboard(Key::Escape, true));
    assert!(!ctrl.process_keyboard(Key::Other, true));
    assert!(ctrl.process_keyboard(Key::Space, true));
    assert!(ctrl.process_keyboard(Key::ShiftLeft, false));
    assert!(ctrl.process_keyboard(Key::ArrowLeft, true));
}

#[test]
fn vertical_keys_move_straight_up_and_down() {
    let mut ctrl = controller();
    let mut cam = camera();
    ctrl.process_keyboard(Key::Space, true);
    ctrl.update_camera(&mut cam, 1_000_000);
    // One second at speed 10: ten units up.
    assert_eq!(cam.y, 15_000_000);
    assert_eq!(cam.x, 0);
    assert_eq!(cam.z, 20_000_000);
}

#[test]
fn pitch_is_clamped_not_wrapped() {
    let mut ctrl = controller();
    let mut cam = camera();
    // A huge accumulated upward drag: pitch stops at +89 degrees.
    ctrl.process_mouse(0, -1_000_000_000_000_000);
    ctrl.update_camera(&mut cam, 1_000_000);
    assert_eq!(cam.pitch, 89_000_000);
    // And a huge downward drag stops at -89 degrees.
    ctrl.process_mouse(0, 2_000_000_000_000_000);
    ctrl.update_camera(&mut cam, 1_000_000);
    assert_eq!(cam.pitch, -89_000_000);
}

#[test]
fn rotation_accumulators_drain_each_step() {
    let mut ctrl = controller();
    let mut cam = camera();
    ctrl.process_mouse(2_000_000, 3_000_000);
    ctrl.process_mouse(1_000_000, -1_000_000);
    assert_eq!(ctrl.rotate_horizontal, 3_000_000);
    assert_eq!(ctrl.rotate_vertical, 2_000_000);
    ctrl.update_camera(&mut cam, 0);
    assert_eq!(ctrl.rotate_horizontal, 0);
    assert_eq!(ctrl.rotate_vertical, 0);
    // dt of zero rotates nothing.
    assert_eq!(cam.yaw, 270_000_000);
    assert_eq!(cam.pitch, -20_000_000);
}

#[test]
fn mouse_drag_turns_the_heading() {
    let mut ctrl = controller();
    let mut cam = camera();
    // 45 degrees of accumulated horizontal drag over one second.
    ctrl.process_mouse(45_000_000, 0);
    ctrl.update_camera(&mut cam, 1_000_000);
    assert_eq!(cam.yaw, 315_000_000);
}

#[test]
fn scroll_dollies_along_the_view_direction() {
    let mut ctrl = controller();
    let mut cam = camera();
    ctrl.process_scroll(3_000_000);
    assert_eq!(ctrl.scroll, 3_000_000);
    ctrl.update_camera(&mut cam, 1_000_000);
    // Scroll 3 at speed 10 over one second: 30 units along the view
    // direction (yaw 270, pitch -20); the fixed-point sine of -20 degrees is
    // -343163 and the cosine 939024.
    assert_eq!(ctrl.scroll, 0);
    assert_eq!(cam.x, 0);
    assert_eq!(cam.y, 5_000_000 - 10_294_890);
    assert_eq!(cam.z, 20_000_000 - 28_170_720);
}

fn view_matrix(cam: &Camera) -> cgmath::Matrix4<f32> {
    let pitch = (cam.pitch as f32 / 1_000_000.0).to_radians();
    let yaw = (cam.yaw as f32 / 1_000_000.0).to_radians();
    let (sin_pitch, cos_pitch) = pitch.sin_cos();
    let (sin_yaw, cos_yaw) = yaw.sin_cos();
    cgmath::Matrix4::look_to_rh(
        cgmath::Point3::new(
            cam.x as f32 / 1_000_000.0,
            cam.y as f32 / 1_000_000.0,
            cam.z as f32 / 1_000_000.0,
        ),
        cgmath::Vector3::new(cos_pitch * cos_yaw, sin_pitch, cos_pitch * sin_yaw).normalize(),
        cgmath::Vector3::unit_y(),
    )
}

#[test]
fn startup_pose_gives_an_invertible_view_matrix() {
    let det = view_matrix(&camera()).determinant();
    assert!(det.abs() > 1e-3);
}

#[test]
fn view_matrix_is_invertible_for_any_clamped_pitch() {
    let mut pitch: i64 = -89_000_000;
    while pitch <= 89_000_000 {
        let mut yaw: i64 = -360_000_000;
        while yaw <= 360_000_000 {
            let cam = Camera::new(1_000_000, -2_000_000, 3_000_000, yaw, pitch);
            let det = view_matrix(&cam).determinant();
            assert!(det.abs() > 1e-3);
            yaw += 33_000_000;
        }
        pitch += 8_900_000;
    }
}

#[test]
fn projection_resize_tracks_the_surface() {
    let mut p = Projection::new(800, 600, 45_000_000, 100_000, 100_000_000);
    assert_eq!(p.width, 800);
    assert_eq!(p.height, 600);
    p.resize(1920, 1080);
    assert_eq!(p.width, 1920);
    assert_eq!(p.height, 1080);
    assert_eq!(p.fovy, 45_000_000);
    assert_eq!(p.znear, 100_000);
    assert_eq!(p.zfar, 100_000_000);
}
