use rendercore::FX;
use rendercore::camera::{Camera, CamEvent, CamInput, CursorAction, FreeCamera};
use rendercore::fps_camera::FPSCamera;
use rendercore::free_camera_ex3::FreeCameraEx3;
use rendercore::linalg::Vec3Fx;

fn idle_input() -> CamInput {
    CamInput {
        forward: false,
        back: false,
        left: false,
        right: false,
        sprint: false,
        roll_left: false,
        roll_right: false,
        look: false,
        cursor_x: 0,
        cursor_y: 0,
    }
}

fn normsq(v: Vec3Fx) -> i64 {
    v.x * v.x + v.y * v.y + v.z * v.z
}

#[test]
fn direction_unit_length_over_angles() {
    // |direction|^2 stays within the proved bracket [FX^2 - 10 FX - 2, FX^2 + 6 FX]
    // for a sweep of yaw/pitch pairs.
    let lo = FX * FX - 10 * FX - 2;
    let hi = FX * FX + 6 * FX;
    let yaws = [-90 * FX, 0, 17 * FX + 12345, 45 * FX, 123 * FX, 359 * FX, -359 * FX];
    let pitches = [0, 10 * FX, -37 * FX + 777, 85 * FX, -85 * FX, 60 * FX];
    for &yaw in yaws.iter() {
        for &pitch in pitches.iter() {
            let cam = FreeCamera::new(Vec3Fx::new(0, 0, 0), 0, pitch, yaw, 800, 600);
            let n = normsq(cam.direction);
            assert!(n >= lo && n <= hi, "normsq {} out of range for yaw {} pitch {}", n, yaw, pitch);
        }
    }
}

#[test]
fn end_to_end_forward_move() {
    // Camera at (0,0,3), yaw -90 deg, pitch 0: direction is exactly (0,0,-1);
    // moving forward for one second at speed 1 lands exactly at (0,0,2).
    let mut cam = FreeCamera::new(Vec3Fx::new(0, 0, 3 * FX), 0, 0, -90 * FX, 800, 800);
    assert_eq!(cam.direction, Vec3Fx::new(0, 0, -FX));
    let mut input = idle_input();
    input.forward = true;
    let action = cam.update(&input, FX);
    assert_eq!(action, CursorAction::Show);
    assert_eq!(cam.position, Vec3Fx::new(0, 0, 2 * FX));
}

#[test]
fn pitch_stays_clamped_under_mouse_look() {
    let mut cam = FreeCamera::new(Vec3Fx::new(0, 0, 0), 0, 0, -90 * FX, 800, 800);
    let mut input = idle_input();
    input.look = true;
    // First frame is the latch: cursor is hidden and centered, no rotation.
    let action = cam.update(&input, FX);
    assert_eq!(action, CursorAction::HideAndCenter);
    // Drive the cursor far below and far above center, many times.
    for step in 0..20 {
        input.cursor_y = if step % 2 == 0 { 32_000 * FX } else { -32_000 * FX };
        input.cursor_x = 31_000 * FX;
        let action = cam.update(&input, FX);
        assert_eq!(action, CursorAction::Center);
        assert!(cam.pitch >= -85 * FX && cam.pitch <= 85 * FX, "pitch {}", cam.pitch);
    }
    // Releasing the trigger restores the cursor and resets the latch.
    input.look = false;
    let action = cam.update(&input, FX);
    assert_eq!(action, CursorAction::Show);
    assert!(cam.first_click);
}

#[test]
fn fov_stays_clamped_under_scroll() {
    let mut cam = FreeCamera::new(Vec3Fx::new(0, 0, 0), 0, 0, -90 * FX, 800, 800);
    for step in 0..16 {
        let y = if step % 2 == 0 { 1_000_000 } else { -1_000_000 };
        cam.handle_window_event(&CamEvent::Scroll { x_offset: 0, y_offset: y }, FX);
        assert!(cam.fov >= FX && cam.fov <= 90 * FX, "fov {}", cam.fov);
    }
    // Scrolling far in one direction pins the field of view at a bound.
    for _ in 0..8 {
        cam.handle_window_event(&CamEvent::Scroll { x_offset: 0, y_offset: 1_000_000 }, FX);
    }
    assert_eq!(cam.fov, FX);
    for _ in 0..8 {
        cam.handle_window_event(&CamEvent::Scroll { x_offset: 0, y_offset: -1_000_000 }, FX);
    }
    assert_eq!(cam.fov, 90 * FX);
}

#[test]
fn matrix_uploaded_at_most_once_per_frame() {
    let mut cam = FreeCamera::new(Vec3Fx::new(0, 0, 3 * FX), 0, 0, -90 * FX, 800, 800);
    let mut input = idle_input();
    input.forward = true;
    cam.update(&input, FX);
    // The frame moved the camera: the first call returns the fresh matrix,
    // the second (say, for another shader program) returns nothing.
    let first = cam.set_cam_matrix();
    assert!(first.is_some());
    let second = cam.set_cam_matrix();
    assert!(second.is_none());
    // An idle frame recomputes nothing and uploads nothing.
    cam.update(&idle_input(), FX);
    assert!(cam.set_cam_matrix().is_none());
    // A resize marks the matrix dirty again; the next set recomputes and
    // uploads once.
    cam.handle_window_event(&CamEvent::FramebufferSize { width: 1024, height: 768 }, FX);
    assert!(cam.set_cam_matrix().is_some());
    assert!(cam.set_cam_matrix().is_none());
}

#[test]
fn force_set_always_returns_matrix() {
    let mut cam = FreeCamera::new(Vec3Fx::new(0, 0, 0), 0, 0, -90 * FX, 800, 800);
    assert!(cam.set_cam_matrix().is_some());
    assert!(cam.set_cam_matrix().is_none());
    // Even with nothing dirty, a forced set recomputes and returns the matrix.
    let m = cam.force_set_cam_matrix();
    assert_eq!(m.r3.z, -FX);
}

#[test]
fn fps_camera_moves_in_plane_only() {
    // Pitch the camera down, then move forward: a first-person camera keeps
    // its height; its horizontal step is a full unit.
    let mut cam = FPSCamera::new(Vec3Fx::new(0, 0, 0), 0, -45 * FX, -90 * FX, 800, 800);
    let mut input = idle_input();
    input.forward = true;
    cam.update(&input, FX);
    assert_eq!(cam.position.y, 0);
    assert!(cam.position.z < 0);
    // speed is 10 units/s by default; allow fixed-point rounding slack.
    let expect = -10 * FX;
    assert!((cam.position.z - expect).abs() <= 16, "z {}", cam.position.z);
}

#[test]
fn manual_view_matches_look_at_on_axis() {
    // The hand-assembled view matrix agrees with the look-at construction
    // for an axis-aligned camera, where both are exact.
    let free = FreeCamera::new(Vec3Fx::new(3 * FX, 2 * FX, FX), 0, 0, -90 * FX, 800, 800);
    let ex3 = FreeCameraEx3::new(Vec3Fx::new(3 * FX, 2 * FX, FX), 0, 0, -90 * FX, 800, 800);
    assert_eq!(free.cam_matrix, ex3.cam_matrix);
}

#[test]
fn scroll_changes_matrix_resize_changes_aspect() {
    let mut cam = FreeCamera::new(Vec3Fx::new(0, 0, 0), 0, 0, -90 * FX, 800, 800);
    cam.set_cam_matrix();
    let before = cam.force_set_cam_matrix();
    cam.handle_window_event(&CamEvent::Scroll { x_offset: 0, y_offset: -10 * FX }, FX);
    let after = cam.set_cam_matrix().expect("scroll must mark the matrix dirty");
    assert_ne!(before.r1.y, after.r1.y);
}

#[test]
fn roll_keys_rotate_up_vector() {
    let mut cam = FreeCamera::new(Vec3Fx::new(0, 0, 0), 0, 0, -90 * FX, 800, 800);
    assert_eq!(cam.up, Vec3Fx::new(0, FX, 0));
    let mut input = idle_input();
    input.roll_left = true;
    // Default roll speed is 25 deg/s; three seconds of rolling tilts `up`
    // far away from the world axis.
    for _ in 0..3 {
        cam.update(&input, FX);
    }
    assert!(cam.up.x.abs() > FX / 2, "up {:?}", cam.up);
    // Engaging mouse-look resets the roll; after the latch frame the up
    // vector returns to the world axis.
    input.roll_left = false;
    input.look = true;
    cam.update(&input, FX);
    cam.update(&input, FX);
    assert_eq!(cam.up, Vec3Fx::new(0, FX, 0));
}
