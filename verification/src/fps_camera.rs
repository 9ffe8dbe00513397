//! A first-person camera: like the free camera, but movement is projected
//! onto the horizontal plane (the vertical position never changes) and
//! there are no roll keys.

use vstd::prelude::*;
use crate::fixed::{FX, fxi, fx_clamp};
use crate::trig::norm360;
use crate::linalg::{
    V3, V2, Vec3Fx, Vec2Fx, Mat4Fx,
    v2_normalize_s, v2_rotate_s, v2_normalize, v2_rotate,
};
use crate::camera::{
    Camera, CamG, CamEvent, CamInput, CursorAction, wf_g,
    rate_s, look_pitch_s, look_yaw_s,
    dir_step_g, matrix_step_g, event_step_g, cam_set_g,
    move2_s, move2_back_s,
    rate, scroll_fov, look_pitch, look_yaw, compute_direction, compute_up,
    move2_along, move2_against,
};
use crate::linalg::M4;

verus! {

/// The view direction projected onto the horizontal plane and normalized.
pub open spec fn plane_dir_s(d: V3) -> V2 {
    v2_normalize_s(V2 { x: d.x, y: d.z })
}

/// The planar strafe axis: the planar direction rotated by a quarter turn.
pub open spec fn plane_left_s(d: V3) -> V2 {
    v2_rotate_s(plane_dir_s(d), 90 * fxi())
}

/// The full per-frame update of a first-person camera (ghost step), with
/// the cursor action its host window should perform.
pub open spec fn fps_update_g(c: CamG, i: CamInput, dt: int) -> (CamG, CursorAction) {
    let update_speed = rate_s(c.speed, c.shift_multiplier, i.sprint, dt);
    let update_sens = rate_s(c.sensitivity, 0, false, dt);
    let c0 = CamG { is_matrix_updated: false, calculate_cam_matrix: false, ..c };
    if i.look && c0.first_click {
        (CamG { first_click: false, ..c0 }, CursorAction::HideAndCenter)
    } else {
        let c1 = if i.look {
            CamG {
                pitch: look_pitch_s(c0.pitch, update_sens, i.cursor_y as int, c0.height),
                yaw: look_yaw_s(c0.yaw, update_sens, i.cursor_x as int, c0.width),
                calculate_cam_matrix: true,
                ..c0
            }
        } else {
            CamG { first_click: true, ..c0 }
        };
        let c4 = if c1.calculate_cam_matrix { dir_step_g(c1) } else { c1 };
        let pd = plane_dir_s(c4.direction);
        let pl = plane_left_s(c4.direction);
        let c5 = if i.forward {
            CamG {
                position: move2_s(c4.position, update_speed, pd),
                calculate_cam_matrix: true,
                ..c4
            }
        } else {
            c4
        };
        let c6 = if i.back {
            CamG {
                position: move2_back_s(c5.position, update_speed, pd),
                calculate_cam_matrix: true,
                ..c5
            }
        } else {
            c5
        };
        let c7 = if i.left {
            CamG {
                position: move2_back_s(c6.position, update_speed, pl),
                calculate_cam_matrix: true,
                ..c6
            }
        } else {
            c6
        };
        let c8 = if i.right {
            CamG {
                position: move2_s(c7.position, update_speed, pl),
                calculate_cam_matrix: true,
                ..c7
            }
        } else {
            c7
        };
        let c9 = if c8.calculate_cam_matrix { matrix_step_g(c8, false, false) } else { c8 };
        (c9, if i.look { CursorAction::Center } else { CursorAction::Show })
    }
}

/// The initial state of a first-person camera: like the free camera's, but
/// faster by default and with no roll rate.
pub open spec fn fps_init_g(position: V3, roll: int, pitch: int, yaw: int,
    width: int, height: int) -> CamG {
    CamG {
        width: width,
        height: height,
        position: position,
        roll: crate::trig::norm360_s(roll),
        pitch: crate::fixed::clamp_s(pitch, -85 * fxi(), 85 * fxi()),
        yaw: crate::trig::norm360_s(yaw),
        direction: V3 { x: 0, y: 0, z: 0 },
        up: V3 { x: 0, y: 0, z: 0 },
        cam_matrix: crate::linalg::m4_identity_s(),
        speed: 10 * fxi(),
        shift_multiplier: 5 * fxi(),
        roll_speed: 0,
        sensitivity: 2000 * fxi(),
        zoom_sensitivity: 100 * fxi(),
        fov: 45 * fxi(),
        near_plane: 6554,
        far_plane: 100 * fxi(),
        first_click: true,
        calculate_cam_matrix: true,
        is_matrix_updated: true,
    }
}

/// A first-person camera: mouse-look and zoom as the free camera, movement
/// confined to the horizontal plane, no roll keys.
pub struct FPSCamera {
    pub width: u32,
    pub height: u32,
    pub position: Vec3Fx,
    pub roll: i64,
    pub pitch: i64,
    pub yaw: i64,
    pub direction: Vec3Fx,
    pub up: Vec3Fx,
    pub cam_matrix: Mat4Fx,
    pub speed: i64,
    pub shift_multiplier: i64,
    pub sensitivity: i64,
    pub zoom_sensitivity: i64,
    pub fov: i64,
    pub near_plane: i64,
    pub far_plane: i64,
    pub first_click: bool,
    pub calculate_cam_matrix: bool,
    pub is_matrix_updated: bool,
}

impl View for FPSCamera {
    type V = CamG;

    open spec fn view(&self) -> CamG {
        CamG {
            width: self.width as int,
            height: self.height as int,
            position: self.position@,
            roll: self.roll as int,
            pitch: self.pitch as int,
            yaw: self.yaw as int,
            direction: self.direction@,
            up: self.up@,
            cam_matrix: self.cam_matrix@,
            speed: self.speed as int,
            shift_multiplier: self.shift_multiplier as int,
            roll_speed: 0,
            sensitivity: self.sensitivity as int,
            zoom_sensitivity: self.zoom_sensitivity as int,
            fov: self.fov as int,
            near_plane: self.near_plane as int,
            far_plane: self.far_plane as int,
            first_click: self.first_click,
            calculate_cam_matrix: self.calculate_cam_matrix,
            is_matrix_updated: self.is_matrix_updated,
        }
    }
}

impl Camera for FPSCamera {
    open spec fn wf(&self) -> bool {
        wf_g(self@)
    }

    open spec fn update_spec(&self, i: CamInput, dt: int) -> (CamG, CursorAction) {
        fps_update_g(self@, i, dt)
    }

    open spec fn event_spec(&self, e: CamEvent, dt: int) -> CamG {
        event_step_g(self@, e, dt)
    }

    open spec fn matrix_spec(&self, calc_dir: bool) -> CamG {
        matrix_step_g(self@, calc_dir, false)
    }

    open spec fn dir_spec(&self) -> CamG {
        dir_step_g(self@)
    }

    open spec fn set_spec(&self) -> (CamG, Option<M4>) {
        cam_set_g(self@, false)
    }

    open spec fn init_spec(position: V3, roll: int, pitch: int, yaw: int,
        width: int, height: int) -> CamG {
        CamG {
            calculate_cam_matrix: false,
            ..matrix_step_g(fps_init_g(position, roll, pitch, yaw, width, height),
                true, false)
        }
    }

    /// Recomputes the direction and up vectors from the Euler angles.
    fn update_cam_direction(&mut self)
    {
        let d = compute_direction(self.yaw, self.pitch);
        self.direction = d;
        self.up = compute_up(self.roll, d);
    }

    /// Recomputes the cached view-projection matrix (and, if asked, the
    /// direction first); marks the matrix as freshly computed.
    fn update_cam_matrix(&mut self, calc_dir: bool)
    {
        if calc_dir {
            self.update_cam_direction();
        }
        let view = crate::viewproj::look_at(self.position, self.direction, self.up);
        let proj = crate::viewproj::perspective(
            self.width, self.height, self.fov, self.near_plane, self.far_plane);
        self.cam_matrix = crate::linalg::m4_mul(&proj, &view);
        self.is_matrix_updated = true;
        self.calculate_cam_matrix = false;
    }

    /// Handles a window event exactly as the free camera does.
    fn handle_window_event(&mut self, event: &CamEvent, time_delta: i64)
    {
        match event {
            CamEvent::FramebufferSize { width, height } => {
                self.width = *width;
                self.height = *height;
                self.calculate_cam_matrix = true;
            },
            CamEvent::Scroll { x_offset: _, y_offset } => {
                self.fov = scroll_fov(self.fov, *y_offset, time_delta, self.zoom_sensitivity);
                self.calculate_cam_matrix = true;
            },
            CamEvent::Other => {},
        }
    }

    /// Recomputes the matrix if dirty and returns it exactly when it has
    /// not yet been pushed this frame; clears the "pushed" flag.
    fn set_cam_matrix(&mut self) -> (upload: Option<Mat4Fx>)
    {
        if self.calculate_cam_matrix {
            self.update_cam_matrix(true);
        }
        if self.is_matrix_updated {
            self.is_matrix_updated = false;
            Some(self.cam_matrix)
        } else {
            None
        }
    }

    /// The per-frame update: mouse-look with the first-frame latch, then
    /// movement projected onto the horizontal plane. Returns the cursor
    /// action for the host window.
    #[verifier::rlimit(60)]
    #[verifier::spinoff_prover]
    fn update(&mut self, input: &CamInput, time_delta: i64) -> (action: CursorAction)
    {
        let update_speed = rate(self.speed, self.shift_multiplier, input.sprint, time_delta);
        let update_sensitivity = rate(self.sensitivity, 0, false, time_delta);

        self.is_matrix_updated = false;
        self.calculate_cam_matrix = false;

        if input.look {
            if self.first_click {
                self.first_click = false;
                return CursorAction::HideAndCenter;
            }
            self.pitch = look_pitch(self.pitch, update_sensitivity, input.cursor_y, self.height);
            self.yaw = look_yaw(self.yaw, update_sensitivity, input.cursor_x, self.width);
            self.calculate_cam_matrix = true;
        } else {
            self.first_click = true;
        }

        if self.calculate_cam_matrix {
            self.update_cam_direction();
        }

        let pd = v2_normalize(Vec2Fx { x: self.direction.x, y: self.direction.z });
        let pl = v2_rotate(pd, 90 * FX);
        proof {
            crate::trig::lemma_sincos_bracket(90 * fxi());
            crate::fixed::lemma_fxmul_abs_bound(
                pd.x as int, crate::trig::cos_s(90 * fxi()), 0x1_0000, 0x1_0000);
            crate::fixed::lemma_fxmul_abs_bound(
                pd.y as int, crate::trig::sin_s(90 * fxi()), 0x1_0000, 0x1_0000);
            crate::fixed::lemma_fxmul_abs_bound(
                pd.x as int, crate::trig::sin_s(90 * fxi()), 0x1_0000, 0x1_0000);
            crate::fixed::lemma_fxmul_abs_bound(
                pd.y as int, crate::trig::cos_s(90 * fxi()), 0x1_0000, 0x1_0000);
            assert(0x1_0000int * 0x1_0000 / fxi() == 0x1_0000) by {
                vstd::arithmetic::div_mod::lemma_div_multiples_vanish(0x1_0000, 65536);
            }
        }

        if input.forward {
            self.calculate_cam_matrix = true;
            self.position = move2_along(self.position, update_speed, pd);
        }
        if input.back {
            self.calculate_cam_matrix = true;
            self.position = move2_against(self.position, update_speed, pd);
        }
        if input.left {
            self.calculate_cam_matrix = true;
            self.position = move2_against(self.position, update_speed, pl);
        }
        if input.right {
            self.calculate_cam_matrix = true;
            self.position = move2_along(self.position, update_speed, pl);
        }

        if self.calculate_cam_matrix {
            self.update_cam_matrix(false);
        }

        if input.look {
            CursorAction::Center
        } else {
            CursorAction::Show
        }
    }

    /// Unconditionally recomputes and returns the matrix for upload,
    /// regardless of the per-frame flag lifecycle.
    fn force_set_cam_matrix(&mut self) -> (upload: Mat4Fx)
    {
        self.calculate_cam_matrix = true;
        let r = self.set_cam_matrix();
        match r {
            Some(m) => m,
            None => Mat4Fx::identity(),
        }
    }

    /// Builds a camera at the given position and orientation, with the
    /// remaining scalars at their defaults, and computes the first matrix.
    fn new(position: Vec3Fx, roll: i64, pitch: i64, yaw: i64,
        width: u32, height: u32) -> (cam: FPSCamera)
    {
        let mut cam = FPSCamera {
            width: width,
            height: height,
            position: position,
            roll: norm360(roll),
            pitch: fx_clamp(pitch, -85 * FX, 85 * FX),
            yaw: norm360(yaw),
            direction: Vec3Fx::zero(),
            up: Vec3Fx::zero(),
            cam_matrix: Mat4Fx::identity(),
            speed: 10 * FX,
            shift_multiplier: 5 * FX,
            sensitivity: 2000 * FX,
            zoom_sensitivity: 100 * FX,
            fov: 45 * FX,
            near_plane: 6554,
            far_plane: 100 * FX,
            first_click: true,
            calculate_cam_matrix: true,
            is_matrix_updated: true,
        };
        cam.update_cam_matrix(true);
        cam.calculate_cam_matrix = false;
        cam
    }
}

impl Default for FPSCamera {
    /// The camera at the origin looking down the negative `z` axis, with a
    /// `100 x 100` viewport; the matrix is left at the identity and marked
    /// for recomputation.
    fn default() -> (cam: FPSCamera)
        ensures
            cam.wf(),
            cam@ == fps_init_g(V3 { x: 0, y: 0, z: 0 }, 0, 0, -90 * 65536, 100, 100),
    {
        FPSCamera {
            width: 100,
            height: 100,
            position: Vec3Fx::zero(),
            roll: norm360(0),
            pitch: 0,
            yaw: norm360(-90 * FX),
            direction: Vec3Fx::zero(),
            up: Vec3Fx::zero(),
            cam_matrix: Mat4Fx::identity(),
            speed: 10 * FX,
            shift_multiplier: 5 * FX,
            sensitivity: 2000 * FX,
            zoom_sensitivity: 100 * FX,
            fov: 45 * FX,
            near_plane: 6554,
            far_plane: 100 * FX,
            first_click: true,
            calculate_cam_matrix: true,
            is_matrix_updated: true,
        }
    }
}

} // verus!
