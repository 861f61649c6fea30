//! The fly camera, its projection, and the input-accumulating controller.
//!
//! The controller records raw input (key state, mouse deltas, scroll) as it
//! arrives and integrates it into the camera exactly once per frame, scaled
//! by the elapsed time, so movement is independent of the input rate.  All
//! quantities are fixed point: positions in world units, angles in
//! microdegrees, time in microseconds (fixed-point seconds).

use vstd::prelude::*;

verus! {

use crate::fixed::{
    FX_ONE,
    clamp_spec,
    fx_add,
    fx_add_spec,
    fx_clamp,
    fx_mul,
    fx_mul_spec,
    fx_neg,
    fx_neg_spec,
};
use crate::fixed::{lemma_fx_mul_bound, lemma_fx_mul_unit};
use crate::trig::{
    cos_fx,
    cos_udeg,
    lemma_cos_bounds,
    lemma_cos_pitch_positive,
    lemma_heading_nonzero,
    lemma_sin_bounds,
    sin_fx,
    sin_udeg,
    wrap360,
    wrap360_spec,
};
use vstd::arithmetic::div_mod::{
    lemma_div_is_ordered,
    lemma_div_multiples_vanish,
    lemma_div_pos_is_pos,
    lemma_fundamental_div_mod_converse,
};
use vstd::math::abs;

/// The pitch clamp, just short of a quarter turn (89 degrees in
/// microdegrees), so the view never flips over the vertical.
pub const MAX_PITCH: i64 = 89_000_000;

/// The fly camera: position in fixed-point world units, yaw and pitch in
/// microdegrees.
pub struct Camera {
    /// Position along the world x axis.
    pub x: i64,
    /// Position along the world y axis (up).
    pub y: i64,
    /// Position along the world z axis.
    pub z: i64,
    /// Heading in the horizontal plane, reduced to `[0, FULL_TURN)`.
    pub yaw: i64,
    /// Elevation of the view direction, clamped to `[-MAX_PITCH, MAX_PITCH]`.
    pub pitch: i64,
}

impl Camera {
    /// A camera is well formed when its yaw is reduced to one turn and its
    /// pitch lies inside the clamp.
    pub open spec fn wf(self) -> bool {
        &&& 0 <= self.yaw < 360_000_000
        &&& -89_000_000 <= self.pitch <= 89_000_000
    }

    /// Builds a camera at a position with the given yaw and pitch in
    /// microdegrees; the yaw is reduced and the pitch clamped.
    pub fn new(x: i64, y: i64, z: i64, yaw: i64, pitch: i64) -> (c: Camera)
        ensures
            c.x == x && c.y == y && c.z == z,
            c.yaw as int == wrap360_spec(yaw as int),
            c.pitch as int == clamp_spec(pitch as int, -89_000_000, 89_000_000),
            c.wf(),
    {
        Camera {
            x,
            y,
            z,
            yaw: wrap360(yaw),
            pitch: fx_clamp(pitch, -MAX_PITCH, MAX_PITCH),
        }
    }
}

/// The perspective projection: the surface dimensions in pixels (their
/// quotient is the aspect ratio), the vertical field of view in
/// microdegrees, and the near and far planes in fixed-point units.
pub struct Projection {
    /// Surface width in pixels; the aspect ratio is `width / height`.
    pub width: u32,
    /// Surface height in pixels.
    pub height: u32,
    /// Vertical field of view in microdegrees.
    pub fovy: i64,
    /// Near plane distance, fixed point.
    pub znear: i64,
    /// Far plane distance, fixed point.
    pub zfar: i64,
}

impl Projection {
    /// A projection is well formed when the surface has area, the near plane
    /// is in front of the eye, and the far plane lies behind the near one.
    pub open spec fn wf(self) -> bool {
        &&& self.width > 0
        &&& self.height > 0
        &&& 0 < self.znear < self.zfar
        &&& 0 < self.fovy < 180_000_000
    }

    /// Builds a projection for a surface of the given pixel dimensions.
    pub fn new(width: u32, height: u32, fovy: i64, znear: i64, zfar: i64) -> (p: Projection)
        requires
            width > 0,
            height > 0,
            0 < znear < zfar,
            0 < fovy < 180_000_000,
        ensures
            p == (Projection { width, height, fovy, znear, zfar }),
            p.wf(),
    {
        Projection { width, height, fovy, znear, zfar }
    }

    /// Recomputes the aspect ratio for new surface dimensions.  Called on
    /// every surface resize, before the next frame is drawn, so the ratio
    /// `width / height` always matches the surface.
    pub fn resize(&mut self, width: u32, height: u32)
        requires
            old(self).wf(),
            width > 0,
            height > 0,
        ensures
            *final(self) == (Projection { width, height, ..*old(self) }),
            final(self).wf(),
    {
        self.width = width;
        self.height = height;
    }
}

/// The keys the camera controller understands, as the library's own names
/// for the physical keys the host forwards.
#[derive(Clone, Copy, PartialEq, Eq, Structural, Debug)]
pub enum Key {
    KeyW,
    KeyA,
    KeyS,
    KeyD,
    ArrowUp,
    ArrowDown,
    ArrowLeft,
    ArrowRight,
    Space,
    ShiftLeft,
    Escape,
    /// Any key the camera does not use.
    Other,
}

/// Directional intent recorded for a key: one whole unit while the key is
/// held, zero once it is released.
pub open spec fn key_amount(pressed: bool) -> int {
    if pressed {
        1_000_000
    } else {
        0
    }
}

/// Whether the camera controller consumes a key.
pub open spec fn key_recognized(key: Key) -> bool {
    !(key is Escape || key is Other)
}

/// The controller state after recording one keyboard event.
pub open spec fn spec_process_keyboard(c: CameraController, key: Key, pressed: bool) -> CameraController {
    let a = key_amount(pressed) as i64;
    match key {
        Key::KeyW | Key::ArrowUp => CameraController { amount_forward: a, ..c },
        Key::KeyS | Key::ArrowDown => CameraController { amount_backward: a, ..c },
        Key::KeyA | Key::ArrowLeft => CameraController { amount_left: a, ..c },
        Key::KeyD | Key::ArrowRight => CameraController { amount_right: a, ..c },
        Key::Space => CameraController { amount_up: a, ..c },
        Key::ShiftLeft => CameraController { amount_down: a, ..c },
        Key::Escape | Key::Other => c,
    }
}

/// The controller with its per-frame accumulators drained, as integration
/// leaves it.
pub open spec fn spec_drained(c: CameraController) -> CameraController {
    CameraController { rotate_horizontal: 0, rotate_vertical: 0, scroll: 0, ..c }
}

/// The camera after one integration step: directional intents move the
/// position along the yaw-aligned forward and right vectors, the scroll
/// accumulator moves it along the full view direction, the up and down
/// intents move it vertically, and the rotation accumulators turn yaw and
/// pitch, the pitch clamped to [`MAX_PITCH`].
pub open spec fn spec_updated_camera(c: CameraController, cam: Camera, dt: int) -> Camera {
    let sdt = fx_mul_spec(c.speed as int, dt);
    let df = fx_mul_spec(c.amount_forward - c.amount_backward, sdt);
    let dr = fx_mul_spec(c.amount_right - c.amount_left, sdt);
    let sy = sin_udeg(cam.yaw as int);
    let cy = cos_udeg(cam.yaw as int);
    let x1 = fx_add_spec(cam.x as int, fx_add_spec(fx_mul_spec(df, cy), fx_mul_spec(dr, -sy)));
    let z1 = fx_add_spec(cam.z as int, fx_add_spec(fx_mul_spec(df, sy), fx_mul_spec(dr, cy)));
    let sp = sin_udeg(cam.pitch as int);
    let cp = cos_udeg(cam.pitch as int);
    let ds = fx_mul_spec(c.scroll as int, fx_mul_spec(c.sensitivity as int, sdt));
    let x2 = fx_add_spec(x1, fx_mul_spec(ds, fx_mul_spec(cp, cy)));
    let y1 = fx_add_spec(cam.y as int, fx_mul_spec(ds, sp));
    let z2 = fx_add_spec(z1, fx_mul_spec(ds, fx_mul_spec(cp, sy)));
    let y2 = fx_add_spec(y1, fx_mul_spec(c.amount_up - c.amount_down, sdt));
    let sens_dt = fx_mul_spec(c.sensitivity as int, dt);
    let yaw2 = wrap360_spec(
        fx_add_spec(cam.yaw as int, fx_mul_spec(c.rotate_horizontal as int, sens_dt)),
    );
    let pitch2 = clamp_spec(
        fx_add_spec(cam.pitch as int, fx_mul_spec(fx_neg_spec(c.rotate_vertical as int), sens_dt)),
        -89_000_000,
        89_000_000,
    );
    Camera { x: x2 as i64, y: y2 as i64, z: z2 as i64, yaw: yaw2 as i64, pitch: pitch2 as i64 }
}

/// Accumulates raw input between frames and integrates it into the camera
/// once per frame.  Directional intents are fixed-point scalars in `[0, 1]`;
/// the rotation and scroll accumulators hold whatever arrived since the last
/// integration step and are reset by it.
pub struct CameraController {
    /// Intent to move along the left basis vector, in `[0, FX_ONE]`.
    pub amount_left: i64,
    /// Intent to move along the right basis vector, in `[0, FX_ONE]`.
    pub amount_right: i64,
    /// Intent to move along the forward basis vector, in `[0, FX_ONE]`.
    pub amount_forward: i64,
    /// Intent to move against the forward basis vector, in `[0, FX_ONE]`.
    pub amount_backward: i64,
    /// Intent to move up, in `[0, FX_ONE]`.
    pub amount_up: i64,
    /// Intent to move down, in `[0, FX_ONE]`.
    pub amount_down: i64,
    /// Accumulated horizontal mouse movement since the last integration.
    pub rotate_horizontal: i64,
    /// Accumulated vertical mouse movement since the last integration.
    pub rotate_vertical: i64,
    /// Accumulated scroll (dolly) movement since the last integration.
    pub scroll: i64,
    /// Movement speed in fixed-point units per second.
    pub speed: i64,
    /// Rotation sensitivity, fixed point.
    pub sensitivity: i64,
}

impl CameraController {
    /// A controller is well formed when every directional intent lies in
    /// `[0, FX_ONE]` and speed and sensitivity are not negative.
    pub open spec fn wf(self) -> bool {
        &&& 0 <= self.amount_left <= 1_000_000
        &&& 0 <= self.amount_right <= 1_000_000
        &&& 0 <= self.amount_forward <= 1_000_000
        &&& 0 <= self.amount_backward <= 1_000_000
        &&& 0 <= self.amount_up <= 1_000_000
        &&& 0 <= self.amount_down <= 1_000_000
        &&& 0 <= self.speed
        &&& 0 <= self.sensitivity
    }

    /// Builds an idle controller with the given speed and sensitivity.
    pub fn new(speed: i64, sensitivity: i64) -> (c: CameraController)
        requires
            0 <= speed,
            0 <= sensitivity,
        ensures
            c == (CameraController {
                amount_left: 0,
                amount_right: 0,
                amount_forward: 0,
                amount_backward: 0,
                amount_up: 0,
                amount_down: 0,
                rotate_horizontal: 0,
                rotate_vertical: 0,
                scroll: 0,
                speed,
                sensitivity,
            }),
            c.wf(),
    {
        CameraController {
            amount_left: 0,
            amount_right: 0,
            amount_forward: 0,
            amount_backward: 0,
            amount_up: 0,
            amount_down: 0,
            rotate_horizontal: 0,
            rotate_vertical: 0,
            scroll: 0,
            speed,
            sensitivity,
        }
    }

    /// Records one keyboard event: a recognized key sets the matching
    /// directional intent to one unit while pressed and back to zero when
    /// released.  Returns whether the key was consumed, so the caller can
    /// forward unconsumed events elsewhere.
    pub fn process_keyboard(&mut self, key: Key, pressed: bool) -> (consumed: bool)
        ensures
            consumed == key_recognized(key),
            *final(self) == spec_process_keyboard(*old(self), key, pressed),
            old(self).wf() ==> final(self).wf(),
    {
        let amount: i64 = if pressed {
            FX_ONE
        } else {
            0
        };
        match key {
            Key::KeyW | Key::ArrowUp => {
                self.amount_forward = amount;
                true
            }
            Key::KeyS | Key::ArrowDown => {
                self.amount_backward = amount;
                true
            }
            Key::KeyA | Key::ArrowLeft => {
                self.amount_left = amount;
                true
            }
            Key::KeyD | Key::ArrowRight => {
                self.amount_right = amount;
                true
            }
            Key::Space => {
                self.amount_up = amount;
                true
            }
            Key::ShiftLeft => {
                self.amount_down = amount;
                true
            }
            Key::Escape | Key::Other => false,
        }
    }

    /// Accumulates one mouse movement into the rotation accumulators; the
    /// sums saturate rather than wrap.
    pub fn process_mouse(&mut self, dx: i64, dy: i64)
        ensures
            final(self).rotate_horizontal as int == fx_add_spec(
                old(self).rotate_horizontal as int,
                dx as int,
            ),
            final(self).rotate_vertical as int == fx_add_spec(
                old(self).rotate_vertical as int,
                dy as int,
            ),
            *final(self) == (CameraController {
                rotate_horizontal: final(self).rotate_horizontal,
                rotate_vertical: final(self).rotate_vertical,
                ..*old(self)
            }),
            old(self).wf() ==> final(self).wf(),
    {
        self.rotate_horizontal = fx_add(self.rotate_horizontal, dx);
        self.rotate_vertical = fx_add(self.rotate_vertical, dy);
    }

    /// Accumulates one scroll event into the dolly accumulator; the sum
    /// saturates rather than wraps.
    pub fn process_scroll(&mut self, delta: i64)
        ensures
            final(self).scroll as int == fx_add_spec(old(self).scroll as int, delta as int),
            *final(self) == (CameraController { scroll: final(self).scroll, ..*old(self) }),
            old(self).wf() ==> final(self).wf(),
    {
        self.scroll = fx_add(self.scroll, delta);
    }

    /// Integrates the accumulated input into the camera, scaled by the
    /// elapsed time `dt` (fixed-point seconds): the one place camera state
    /// changes.  The per-frame accumulators drain to zero, and the new pitch
    /// is clamped to `[-MAX_PITCH, MAX_PITCH]` whatever input arrived.
    pub fn update_camera(&mut self, camera: &mut Camera, dt: i64)
        requires
            old(self).wf(),
            old(camera).wf(),
            0 <= dt,
        ensures
            *final(camera) == spec_updated_camera(*old(self), *old(camera), dt as int),
            *final(self) == spec_drained(*old(self)),
            final(self).wf(),
            final(camera).wf(),
            -89_000_000 <= final(camera).pitch <= 89_000_000,
    {
        let sdt = fx_mul(self.speed, dt);
        let df = fx_mul(self.amount_forward - self.amount_backward, sdt);
        let dr = fx_mul(self.amount_right - self.amount_left, sdt);
        let sy = sin_fx(camera.yaw);
        let cy = cos_fx(camera.yaw);
        camera.x = fx_add(camera.x, fx_add(fx_mul(df, cy), fx_mul(dr, -sy)));
        camera.z = fx_add(camera.z, fx_add(fx_mul(df, sy), fx_mul(dr, cy)));
        let sp = sin_fx(camera.pitch);
        let cp = cos_fx(camera.pitch);
        let ds = fx_mul(self.scroll, fx_mul(self.sensitivity, sdt));
        camera.x = fx_add(camera.x, fx_mul(ds, fx_mul(cp, cy)));
        camera.y = fx_add(camera.y, fx_mul(ds, sp));
        camera.z = fx_add(camera.z, fx_mul(ds, fx_mul(cp, sy)));
        self.scroll = 0;
        camera.y = fx_add(camera.y, fx_mul(self.amount_up - self.amount_down, sdt));
        let sens_dt = fx_mul(self.sensitivity, dt);
        camera.yaw = wrap360(fx_add(camera.yaw, fx_mul(self.rotate_horizontal, sens_dt)));
        camera.pitch = fx_clamp(
            fx_add(camera.pitch, fx_mul(fx_neg(self.rotate_vertical), sens_dt)),
            -MAX_PITCH,
            MAX_PITCH,
        );
        self.rotate_horizontal = 0;
        self.rotate_vertical = 0;
    }
}

/// Law: with every directional intent released and the rotation and scroll
/// accumulators empty, an integration step leaves the camera exactly where
/// it was: a released key produces no further displacement.
pub proof fn lemma_idle_controller(c: CameraController, cam: Camera, dt: int)
    requires
        c.wf(),
        cam.wf(),
        0 <= dt,
        c.amount_forward == 0,
        c.amount_backward == 0,
        c.amount_left == 0,
        c.amount_right == 0,
        c.amount_up == 0,
        c.amount_down == 0,
        c.rotate_horizontal == 0,
        c.rotate_vertical == 0,
        c.scroll == 0,
    ensures
        spec_updated_camera(c, cam, dt) == cam,
{
    let sdt = fx_mul_spec(c.speed as int, dt);
    let sens_dt = fx_mul_spec(c.sensitivity as int, dt);
    lemma_sin_bounds(cam.yaw as int);
    lemma_cos_bounds(cam.yaw as int);
    lemma_sin_bounds(cam.pitch as int);
    lemma_cos_bounds(cam.pitch as int);
    lemma_fx_mul_unit(sdt);
    lemma_fx_mul_unit(sens_dt);
    lemma_fx_mul_unit(cos_udeg(cam.yaw as int));
    lemma_fx_mul_unit(-sin_udeg(cam.yaw as int));
    lemma_fx_mul_unit(sin_udeg(cam.yaw as int));
    lemma_fx_mul_unit(sin_udeg(cam.pitch as int));
    lemma_fx_mul_unit(fx_mul_spec(c.sensitivity as int, sdt));
    lemma_fx_mul_unit(fx_mul_spec(cos_udeg(cam.pitch as int), cos_udeg(cam.yaw as int)));
    lemma_fx_mul_unit(fx_mul_spec(cos_udeg(cam.pitch as int), sin_udeg(cam.yaw as int)));
    lemma_fundamental_div_mod_converse(cam.yaw as int, 360_000_000, 0, cam.yaw as int);
}

/// Law: with only the forward key held and no other input pending, one
/// integration step moves the camera along the horizontal forward basis
/// vector by speed·dt exactly, and changes nothing else.  The bounds on the
/// position and on speed·dt keep the fixed-point step away from saturation;
/// at a position near the numeric edge the sum would saturate instead.
pub proof fn lemma_forward_motion(c: CameraController, cam: Camera, dt: int)
    requires
        c.wf(),
        cam.wf(),
        0 <= dt,
        c.amount_forward == 1_000_000,
        c.amount_backward == 0,
        c.amount_left == 0,
        c.amount_right == 0,
        c.amount_up == 0,
        c.amount_down == 0,
        c.rotate_horizontal == 0,
        c.rotate_vertical == 0,
        c.scroll == 0,
        c.speed * dt <= 1_000_000_000_000_000_000,
        -4_000_000_000_000_000_000 <= cam.x <= 4_000_000_000_000_000_000,
        -4_000_000_000_000_000_000 <= cam.z <= 4_000_000_000_000_000_000,
    ensures
        ({
            let sdt = (c.speed * dt) / 1_000_000;
            let cam2 = spec_updated_camera(c, cam, dt);
            &&& cam2.x == cam.x + fx_mul_spec(sdt, cos_udeg(cam.yaw as int))
            &&& cam2.z == cam.z + fx_mul_spec(sdt, sin_udeg(cam.yaw as int))
            &&& cam2.y == cam.y
            &&& cam2.yaw == cam.yaw
            &&& cam2.pitch == cam.pitch
        }),
{
    let sp_dt = c.speed * dt;
    assert(0 <= c.speed * dt) by (nonlinear_arith)
        requires
            0 <= c.speed,
            0 <= dt,
    ;
    lemma_div_pos_is_pos(sp_dt, 1_000_000);
    lemma_div_is_ordered(sp_dt, 1_000_000int * 1_000_000_000_000int, 1_000_000);
    lemma_div_multiples_vanish(1_000_000_000_000, 1_000_000);
    let sdt = sp_dt / 1_000_000;
    assert(fx_mul_spec(c.speed as int, dt) == sdt);
    let sy = sin_udeg(cam.yaw as int);
    let cy = cos_udeg(cam.yaw as int);
    lemma_sin_bounds(cam.yaw as int);
    lemma_cos_bounds(cam.yaw as int);
    lemma_sin_bounds(cam.pitch as int);
    lemma_cos_bounds(cam.pitch as int);
    lemma_fx_mul_unit(sdt);
    lemma_fx_mul_bound(sdt, cy, 1_000_000_000_000);
    lemma_fx_mul_bound(sdt, sy, 1_000_000_000_000);
    lemma_fx_mul_unit(-sy);
    lemma_fx_mul_unit(cy);
    lemma_fx_mul_unit(sin_udeg(cam.pitch as int));
    lemma_fx_mul_unit(fx_mul_spec(c.sensitivity as int, sdt));
    lemma_fx_mul_unit(fx_mul_spec(c.sensitivity as int, dt));
    lemma_fx_mul_unit(fx_mul_spec(cos_udeg(cam.pitch as int), cy));
    lemma_fx_mul_unit(fx_mul_spec(cos_udeg(cam.pitch as int), sy));
    lemma_fundamental_div_mod_converse(cam.yaw as int, 360_000_000, 0, cam.yaw as int);
}

/// Law: a well-formed camera pose is never degenerate: the pitch clamp keeps
/// the view direction's vertical cosine strictly positive, and the heading's
/// sine or cosine is bounded away from zero, so the view transform built
/// from this pose has a proper, invertible basis.
pub proof fn lemma_view_direction_regular(cam: Camera)
    requires
        cam.wf(),
    ensures
        cos_udeg(cam.pitch as int) >= 17_757,
        abs(sin_udeg(cam.yaw as int)) >= 705_882 || abs(cos_udeg(cam.yaw as int)) >= 705_882,
{
    lemma_cos_pitch_positive(cam.pitch as int);
    lemma_heading_nonzero(cam.yaw as int);
}

} // verus!
