//! A free camera variant that builds its view matrix without a look-at
//! call: the rotation block comes from the camera basis and the translation
//! block from the negated position, multiplied in fixed point.

use vstd::prelude::*;
use crate::fixed::{FX, fx_clamp};
use crate::trig::norm360;
use crate::linalg::{V3, Vec3Fx, Mat4Fx, v3_normalize, v3_cross};
use crate::camera::{
    Camera, CamG, CamEvent, CamInput, CursorAction, wf_g,
    dir_step_g, matrix_step_g, event_step_g, free_update_g, free_init_g, cam_set_g,
    rate, scroll_fov, look_pitch, look_yaw, compute_direction, compute_up,
    move_along, move_against,
};
use crate::linalg::M4;

verus! {

/// A free-roaming camera that assembles its view matrix by hand from an
/// orthonormal basis and a translation block, instead of calling the
/// look-at construction; otherwise it behaves like `FreeCamera`.
pub struct FreeCameraEx3 {
    pub width: u32,
    pub height: u32,
    pub position: Vec3Fx,
    pub roll: i64,
    pub pitch: i64,
    pub yaw: i64,
    pub direction: Vec3Fx,
    pub up: Vec3Fx,
    pub cam_matrix: Mat4Fx,
    pub speed: i64,
    pub shift_multiplier: i64,
    pub roll_speed: i64,
    pub sensitivity: i64,
    pub zoom_sensitivity: i64,
    pub fov: i64,
    pub near_plane: i64,
    pub far_plane: i64,
    pub first_click: bool,
    pub calculate_cam_matrix: bool,
    pub is_matrix_updated: bool,
}

impl View for FreeCameraEx3 {
    type V = CamG;

    open spec fn view(&self) -> CamG {
        CamG {
            width: self.width as int,
            height: self.height as int,
            position: self.position@,
            roll: self.roll as int,
            pitch: self.pitch as int,
            yaw: self.yaw as int,
            direction: self.direction@,
            up: self.up@,
            cam_matrix: self.cam_matrix@,
            speed: self.speed as int,
            shift_multiplier: self.shift_multiplier as int,
            roll_speed: self.roll_speed as int,
            sensitivity: self.sensitivity as int,
            zoom_sensitivity: self.zoom_sensitivity as int,
            fov: self.fov as int,
            near_plane: self.near_plane as int,
            far_plane: self.far_plane as int,
            first_click: self.first_click,
            calculate_cam_matrix: self.calculate_cam_matrix,
            is_matrix_updated: self.is_matrix_updated,
        }
    }
}

impl Camera for FreeCameraEx3 {
    open spec fn wf(&self) -> bool {
        wf_g(self@)
    }

    open spec fn update_spec(&self, i: CamInput, dt: int) -> (CamG, CursorAction) {
        free_update_g(self@, i, dt, true)
    }

    open spec fn event_spec(&self, e: CamEvent, dt: int) -> CamG {
        event_step_g(self@, e, dt)
    }

    open spec fn matrix_spec(&self, calc_dir: bool) -> CamG {
        matrix_step_g(self@, calc_dir, true)
    }

    open spec fn dir_spec(&self) -> CamG {
        dir_step_g(self@)
    }

    open spec fn set_spec(&self) -> (CamG, Option<M4>) {
        cam_set_g(self@, true)
    }

    open spec fn init_spec(position: V3, roll: int, pitch: int, yaw: int,
        width: int, height: int) -> CamG {
        CamG {
            calculate_cam_matrix: false,
            ..matrix_step_g(free_init_g(position, roll, pitch, yaw, width, height),
                true, true)
        }
    }

    /// Recomputes the direction and up vectors from the Euler angles.
    fn update_cam_direction(&mut self)
    {
        let d = compute_direction(self.yaw, self.pitch);
        self.direction = d;
        self.up = compute_up(self.roll, d);
    }

    /// Recomputes the cached view-projection matrix (and, if asked, the
    /// direction first); marks the matrix as freshly computed.
    fn update_cam_matrix(&mut self, calc_dir: bool)
    {
        if calc_dir {
            self.update_cam_direction();
        }
        let view = crate::viewproj::view_manual(self.position, self.direction, self.up);
        let proj = crate::viewproj::perspective(
            self.width, self.height, self.fov, self.near_plane, self.far_plane);
        self.cam_matrix = crate::linalg::m4_mul(&proj, &view);
        self.is_matrix_updated = true;
        self.calculate_cam_matrix = false;
    }

    /// Handles a window event: a framebuffer resize updates the viewport, a
    /// scroll zooms by adjusting the field of view within `[1, 90]` degrees;
    /// both mark the matrix for recomputation. Other events are ignored.
    fn handle_window_event(&mut self, event: &CamEvent, time_delta: i64)
    {
        match event {
            CamEvent::FramebufferSize { width, height } => {
                self.width = *width;
                self.height = *height;
                self.calculate_cam_matrix = true;
            },
            CamEvent::Scroll { x_offset: _, y_offset } => {
                self.fov = scroll_fov(self.fov, *y_offset, time_delta, self.zoom_sensitivity);
                self.calculate_cam_matrix = true;
            },
            CamEvent::Other => {},
        }
    }

    /// Recomputes the matrix if it is marked dirty, and returns it exactly
    /// when it has not yet been pushed this frame; the caller uploads the
    /// returned matrix to its shader program. Clears the "pushed" flag, so a
    /// second call in the same frame returns nothing.
    fn set_cam_matrix(&mut self) -> (upload: Option<Mat4Fx>)
    {
        if self.calculate_cam_matrix {
            self.update_cam_matrix(true);
        }
        if self.is_matrix_updated {
            self.is_matrix_updated = false;
            Some(self.cam_matrix)
        } else {
            None
        }
    }

    /// Unconditionally recomputes and returns the matrix for upload,
    /// regardless of the per-frame flag lifecycle.
    fn force_set_cam_matrix(&mut self) -> (upload: Mat4Fx)
    {
        self.calculate_cam_matrix = true;
        let r = self.set_cam_matrix();
        match r {
            Some(m) => m,
            None => Mat4Fx::identity(),
        }
    }

    /// The per-frame update: applies sprint, mouse-look (with a first-frame
    /// latch that hides and centers the cursor), roll keys, movement keys,
    /// and recomputes the direction and matrix lazily. Returns the cursor
    /// action for the host window.
    #[verifier::rlimit(60)]
    #[verifier::spinoff_prover]
    fn update(&mut self, input: &CamInput, time_delta: i64) -> (action: CursorAction)
    {
        let update_speed = rate(self.speed, self.shift_multiplier, input.sprint, time_delta);
        let update_roll_speed = rate(
            self.roll_speed, self.shift_multiplier, input.sprint, time_delta);
        let update_sensitivity = rate(self.sensitivity, 0, false, time_delta);

        // Reset here so that set_cam_matrix can serve several shader
        // programs per frame.
        self.is_matrix_updated = false;
        self.calculate_cam_matrix = false;

        if input.look {
            // Mouse input is added to pitch/yaw directly, which does not
            // account for a non-zero roll; reset it.
            self.roll = 0;
            if self.first_click {
                self.first_click = false;
                return CursorAction::HideAndCenter;
            }
            self.pitch = look_pitch(self.pitch, update_sensitivity, input.cursor_y, self.height);
            self.yaw = look_yaw(self.yaw, update_sensitivity, input.cursor_x, self.width);
            self.calculate_cam_matrix = true;
        } else {
            self.first_click = true;
        }

        if input.roll_left {
            self.calculate_cam_matrix = true;
            self.roll = norm360(self.roll - update_roll_speed);
        }
        if input.roll_right {
            self.calculate_cam_matrix = true;
            self.roll = norm360(self.roll + update_roll_speed);
        }

        if self.calculate_cam_matrix {
            self.update_cam_direction();
        }

        if input.forward {
            self.calculate_cam_matrix = true;
            self.position = move_along(self.position, update_speed, self.direction);
        }
        if input.back {
            self.calculate_cam_matrix = true;
            self.position = move_against(self.position, update_speed, self.direction);
        }
        if input.left {
            self.calculate_cam_matrix = true;
            let st = v3_normalize(v3_cross(self.direction, self.up));
            self.position = move_against(self.position, update_speed, st);
        }
        if input.right {
            self.calculate_cam_matrix = true;
            let st = v3_normalize(v3_cross(self.direction, self.up));
            self.position = move_along(self.position, update_speed, st);
        }

        if self.calculate_cam_matrix {
            self.update_cam_matrix(false);
        }

        if input.look {
            CursorAction::Center
        } else {
            CursorAction::Show
        }
    }

    /// Builds a camera at the given position and orientation, with the
    /// remaining scalars at their defaults, and computes the first matrix.
    fn new(position: Vec3Fx, roll: i64, pitch: i64, yaw: i64,
        width: u32, height: u32) -> (cam: FreeCameraEx3)
    {
        let mut cam = FreeCameraEx3 {
            width: width,
            height: height,
            position: position,
            roll: norm360(roll),
            pitch: fx_clamp(pitch, -85 * FX, 85 * FX),
            yaw: norm360(yaw),
            direction: Vec3Fx::zero(),
            up: Vec3Fx::zero(),
            cam_matrix: Mat4Fx::identity(),
            speed: FX,
            shift_multiplier: 5 * FX,
            roll_speed: 25 * FX,
            sensitivity: 2000 * FX,
            zoom_sensitivity: 100 * FX,
            fov: 45 * FX,
            near_plane: 6554,
            far_plane: 100 * FX,
            first_click: true,
            calculate_cam_matrix: true,
            is_matrix_updated: true,
        };
        cam.update_cam_matrix(true);
        cam.calculate_cam_matrix = false;
        cam
    }
}

impl Default for FreeCameraEx3 {
    /// The camera at the origin looking down the negative `z` axis, with a
    /// `100 x 100` viewport; the matrix is left at the identity and marked
    /// for recomputation.
    fn default() -> (cam: FreeCameraEx3)
        ensures
            cam.wf(),
            cam@ == free_init_g(V3 { x: 0, y: 0, z: 0 }, 0, 0, -90 * 65536, 100, 100),
    {
        FreeCameraEx3 {
            width: 100,
            height: 100,
            position: Vec3Fx::zero(),
            roll: norm360(0),
            pitch: 0,
            yaw: norm360(-90 * FX),
            direction: Vec3Fx::zero(),
            up: Vec3Fx::zero(),
            cam_matrix: Mat4Fx::identity(),
            speed: FX,
            shift_multiplier: 5 * FX,
            roll_speed: 25 * FX,
            sensitivity: 2000 * FX,
            zoom_sensitivity: 100 * FX,
            fov: 45 * FX,
            near_plane: 6554,
            far_plane: 100 * FX,
            first_click: true,
            calculate_cam_matrix: true,
            is_matrix_updated: true,
        }
    }
}

} // verus!
