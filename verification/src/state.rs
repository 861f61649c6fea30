//! The frame-loop state machine: surface configuration, depth-buffer
//! dimensions, camera, per-frame statistics, and the decisions taken for
//! every event and every frame outcome.
//!
//! The host owns the window and the GPU.  It hands every event to
//! [`State::handle_event`], performs the returned action (reconfigure,
//! render, sleep, exit), and reports each frame's outcome to
//! [`State::after_render`]; the state transitions themselves are verified.

use vstd::prelude::*;

verus! {

use vstd::arithmetic::div_mod::{
    lemma_div_is_ordered,
    lemma_div_nonincreasing,
    lemma_div_pos_is_pos,
    lemma_hoist_over_denominator,
    lemma_div_multiples_vanish,
    lemma_div_multiples_vanish_fancy,
};
use vstd::math::abs;
use crate::camera::{
    Camera,
    CameraController,
    Key,
    Projection,
    key_recognized,
    spec_drained,
    spec_process_keyboard,
    spec_updated_camera,
};
use crate::fixed::fx_add_spec;
use crate::instance::{GridInstance, NUM_INSTANCES_PER_ROW, grid_instance, grid_positions, quad_indices};

/// A two-dimensional extent in pixels.
#[derive(Clone, Copy, PartialEq, Eq, Structural, Debug)]
pub struct Extent2d {
    /// Width in pixels.
    pub width: u32,
    /// Height in pixels.
    pub height: u32,
}

/// The negotiated surface configuration: dimensions in pixels and the chosen
/// pixel format, named by its index in the capability list the adapter
/// offered at startup.
#[derive(Clone, Copy, PartialEq, Eq, Structural, Debug)]
pub struct SurfaceConfig {
    /// Surface width in pixels; never zero.
    pub width: u32,
    /// Surface height in pixels; never zero.
    pub height: u32,
    /// Index of the chosen format in the adapter's capability list.
    pub format_index: usize,
}

impl SurfaceConfig {
    /// A configuration is well formed when the surface has area.
    pub open spec fn wf(self) -> bool {
        self.width >= 1 && self.height >= 1
    }
}

/// Why presenting a frame failed, as the host reports it back.
#[derive(Clone, Copy, PartialEq, Eq, Structural, Debug)]
pub enum PresentError {
    /// The surface was lost; reconfigure it at the current size.
    Lost,
    /// The surface no longer matches the window; reconfigure it.
    Outdated,
    /// Allocation failed; the loop must stop.
    OutOfMemory,
    /// Acquiring the next frame timed out; drop the frame and go on.
    Timeout,
}

/// Why startup cannot proceed.
#[derive(Clone, Copy, PartialEq, Eq, Structural, Debug)]
pub enum StartupError {
    /// The window reported a zero-area initial size.
    ZeroWindowSize,
    /// The surface capabilities offer no pixel format.
    NoSurfaceFormat,
}

/// The life phases of the frame loop.
#[derive(Clone, Copy, PartialEq, Eq, Structural, Debug)]
pub enum Phase {
    /// No resources exist yet.
    Uninitialized,
    /// Startup is in progress.
    Initializing,
    /// Startup succeeded; events drive frames.
    Running,
    /// The loop is ending; no further frames.
    ShuttingDown,
}

/// Frame statistics in fixed point.
#[derive(Clone, Copy, PartialEq, Eq, Structural, Debug)]
pub struct Status {
    /// Frames per second measured from the last frame delta, fixed point.
    pub fps: u64,
    /// Exponential moving average of `fps`: 0.95 old, 0.05 new.
    pub fps_avg: u64,
    /// The last frame's delta in microseconds.
    pub delta: u64,
    /// Whether the host should sleep to cap the frame rate.
    pub cap_frame_rate: bool,
}

/// Frames per second in fixed point for a frame delta in microseconds: one
/// second over the delta, the delta floored at one microsecond.
pub open spec fn fps_of_delta(delta: int) -> int {
    1_000_000_000_000int / (if delta < 1 {
        1int
    } else {
        delta
    })
}

/// One step of the exponential moving average: 0.95 of the old average plus
/// 0.05 of the new sample, in integer arithmetic.
pub open spec fn ema_next(avg: int, sample: int) -> int {
    (95 * avg + 5 * sample) / 100
}

/// The average after `n` steps of [`ema_next`] with a constant sample.
pub open spec fn ema_iter(avg: int, sample: int, n: nat) -> int
    decreases n,
{
    if n == 0 {
        avg
    } else {
        ema_next(ema_iter(avg, sample, (n - 1) as nat), sample)
    }
}

/// The statistics after recording one frame delta.
pub open spec fn spec_record_frame(s: Status, delta: int) -> Status {
    Status {
        delta: delta as u64,
        fps: fps_of_delta(delta) as u64,
        fps_avg: ema_next(s.fps_avg as int, fps_of_delta(delta)) as u64,
        ..s
    }
}

impl Status {
    /// Statistics are well formed while both rates fit one second's worth of
    /// microframes (the rate of a one-microsecond delta).
    pub open spec fn wf(self) -> bool {
        self.fps <= 1_000_000_000_000 && self.fps_avg <= 1_000_000_000_000
    }

    /// Records one frame delta: stores the delta, the momentary rate, and
    /// folds the rate into the moving average.
    pub fn record_frame(&mut self, delta_micros: u64)
        requires
            old(self).wf(),
        ensures
            *final(self) == spec_record_frame(*old(self), delta_micros as int),
            final(self).wf(),
    {
        let d: u64 = if delta_micros < 1 {
            1
        } else {
            delta_micros
        };
        let f: u64 = 1_000_000_000_000u64 / d;
        proof {
            lemma_div_nonincreasing(1_000_000_000_000int, d as int);
            lemma_div_pos_is_pos(1_000_000_000_000int, d as int);
            lemma_div_is_ordered(
                95 * (self.fps_avg as int) + 5 * (f as int),
                100int * 1_000_000_000_000int,
                100,
            );
            lemma_div_multiples_vanish(1_000_000_000_000int, 100);
            lemma_div_pos_is_pos(95 * (self.fps_avg as int) + 5 * (f as int), 100);
        }
        self.delta = delta_micros;
        self.fps = f;
        self.fps_avg = (95 * self.fps_avg + 5 * f) / 100;
    }
}

impl Default for Status {
    /// Fresh statistics: nothing measured yet, frame capping enabled.
    fn default() -> (s: Self)
        ensures
            s == (Status { fps: 0, fps_avg: 0, delta: 0, cap_frame_rate: true }),
            s.wf(),
    {
        Status { fps: 0, fps_avg: 0, delta: 0, cap_frame_rate: true }
    }
}

/// Law: one step of the moving average never moves the average away from a
/// constant sample; once the gap is at most 19 millionths it stays there,
/// and a larger gap shrinks by at least one millionth per step.
pub proof fn lemma_ema_step(avg: int, sample: int)
    requires
        0 <= avg,
        0 <= sample,
    ensures
        0 <= ema_next(avg, sample),
        abs(ema_next(avg, sample) - sample) <= abs(avg - sample),
        abs(avg - sample) <= 19 ==> abs(ema_next(avg, sample) - sample) <= 19,
        abs(avg - sample) >= 20 ==> abs(ema_next(avg, sample) - sample) <= abs(avg - sample) - 1,
{
    let e = avg - sample;
    assert(95 * avg + 5 * sample == 95 * e + 100 * sample);
    lemma_hoist_over_denominator(95 * e, sample, 100nat);
    assert(ema_next(avg, sample) == sample + (95 * e) / 100);
    lemma_div_pos_is_pos(95 * avg + 5 * sample, 100);
    let q = (95 * e) / 100;
    if e >= 0 {
        lemma_div_pos_is_pos(95 * e, 100);
        if e >= 1 {
            lemma_div_is_ordered(95 * e, 100 * (e - 1) + 99, 100);
            lemma_div_multiples_vanish_fancy(e - 1, 99, 100);
            assert(q <= e - 1);
        } else {
            lemma_div_is_ordered(95 * e, 100 * e, 100);
            lemma_div_multiples_vanish(e, 100);
        }
    } else {
        lemma_div_is_ordered(100 * e, 95 * e, 100);
        lemma_div_multiples_vanish(e, 100);
        lemma_div_is_ordered(95 * e, 0, 100);
        vstd::arithmetic::div_mod::lemma_div_of0(100);
        assert(e <= q <= 0);
        if e <= -20 {
            lemma_div_is_ordered(100 * (e + 1), 95 * e, 100);
            lemma_div_multiples_vanish(e + 1, 100);
            assert(e + 1 <= q);
        }
    }
}

/// Law: under the 0.95/0.05 update, a constant rate sample pulls the moving
/// average to itself: after at least `|avg - sample|` steps the average has
/// entered the quantization band of 19 millionths around the sample and
/// stays there.
pub proof fn lemma_fps_avg_converges(avg: int, sample: int, n: nat)
    requires
        0 <= avg,
        0 <= sample,
        abs(avg - sample) <= n,
    ensures
        abs(ema_iter(avg, sample, n) - sample) <= 19,
        0 <= ema_iter(avg, sample, n),
    decreases n,
{
    if n == 0 {
    } else {
        lemma_ema_gap_bound(avg, sample, n);
    }
}

/// One input event inside the window, as the host hands it over.
#[derive(Clone, Copy, PartialEq, Eq, Structural, Debug)]
pub enum WindowInput {
    /// A keyboard event on a physical key.
    Keyboard { key: Key, pressed: bool },
    /// A scroll-wheel event, the delta already scaled to fixed point.
    MouseWheel { delta: i64 },
    /// The left mouse button changed state.
    MouseLeftButton { pressed: bool },
    /// Anything else; the camera never consumes it.
    Other,
}

/// One event-loop event, as the host hands it over.
#[derive(Clone, Copy, PartialEq, Eq, Structural, Debug)]
pub enum LoopEvent {
    /// The window asked to close.
    CloseRequested,
    /// The window was resized to the given physical size.
    Resized { width: u32, height: u32 },
    /// The platform asked for a frame; `now_micros` is the current time.
    RedrawRequested { now_micros: u64 },
    /// An input event inside the window.
    Window { input: WindowInput },
    /// Raw mouse motion, already scaled to fixed point.
    MouseMotion { dx: i64, dy: i64 },
}

/// What the host must do after the library handled an event or a frame
/// outcome.
#[derive(Clone, Copy, PartialEq, Eq, Structural, Debug)]
pub enum LoopAction {
    /// Nothing: the event was absorbed (an unconsumed input event still goes
    /// to the overlay, as every window event does).
    Absorbed,
    /// Stop the event loop.
    Exit,
    /// The surface configuration changed: reconfigure the surface and
    /// rebuild the depth attachment from the current state.
    Reconfigure,
    /// The surface is not configured yet: skip this frame and ask for
    /// another redraw.
    SkipFrame,
    /// Camera and statistics are up to date: upload the camera uniform,
    /// record and submit the frame, then report the outcome back.
    Render,
}

/// Whether the camera layer consumes a window input event.
pub open spec fn input_consumed(ev: WindowInput) -> bool {
    match ev {
        WindowInput::Keyboard { key, pressed } => key_recognized(key),
        WindowInput::MouseWheel { delta } => true,
        WindowInput::MouseLeftButton { pressed } => true,
        WindowInput::Other => false,
    }
}

/// Whether `i` is the index the startup protocol picks from the surface
/// capability list: the first format flagged sRGB, or the first format at
/// all when none is flagged.
pub open spec fn is_chosen_format(srgb: Seq<bool>, i: int) -> bool {
    if exists|j: int| 0 <= j < srgb.len() && srgb[j] {
        &&& 0 <= i < srgb.len()
        &&& srgb[i]
        &&& forall|j: int| 0 <= j < i ==> !srgb[j]
    } else {
        i == 0 && srgb.len() > 0
    }
}

/// Picks the surface format from the capability list's sRGB flags: the
/// first sRGB format, or the first format when none is sRGB.  Fails exactly
/// when the list is empty, which startup treats as fatal.
pub fn pick_format(format_is_srgb: &Vec<bool>) -> (r: Result<usize, StartupError>)
    ensures
        r is Ok <==> format_is_srgb@.len() > 0,
        r matches Err(e) ==> e is NoSurfaceFormat,
        r matches Ok(i) ==> is_chosen_format(format_is_srgb@, i as int),
{
    if format_is_srgb.len() == 0 {
        return Err(StartupError::NoSurfaceFormat);
    }
    let mut i: usize = 0;
    while i < format_is_srgb.len()
        invariant
            i <= format_is_srgb@.len(),
            forall|j: int| 0 <= j < i ==> !format_is_srgb@[j],
        decreases format_is_srgb@.len() - i,
    {
        if format_is_srgb[i] {
            return Ok(i);
        }
        i = i + 1;
    }
    Ok(0)
}

/// A frame delta in microseconds forced into the fixed-point range.
pub open spec fn dt_sat(dt: int) -> int {
    if dt > i64::MAX {
        i64::MAX as int
    } else {
        dt
    }
}

/// The frame-loop state: everything the event dispatch reads and writes,
/// with the GPU objects themselves left to the host.
pub struct State {
    /// Where the loop stands in its life cycle.
    pub phase: Phase,
    /// The last-known window size; recovery reconfigures at this size.
    pub size: Extent2d,
    /// The surface configuration.
    pub config: SurfaceConfig,
    /// The depth buffer's dimensions; always equal to the configuration's.
    pub depth: Extent2d,
    /// The fly camera.
    pub camera: Camera,
    /// The perspective projection, its aspect tied to the configuration.
    pub projection: Projection,
    /// The input accumulator.
    pub camera_controller: CameraController,
    /// Frame statistics.
    pub status: Status,
    /// Whether the left mouse button is held (the rotation latch).
    pub mouse_pressed: bool,
    /// Whether a resize has configured the surface since window creation.
    pub surface_configured: bool,
    /// When the previous frame was timed, in microseconds.
    pub last_render_time: u64,
    /// The startup instance grid.
    pub instances: Vec<GridInstance>,
    /// How many indices the quad mesh draws.
    pub num_indices: u32,
}

/// The state after a resize request: positive dimensions update the
/// last-known size, the surface configuration, the depth dimensions and the
/// projection aspect together; a zero dimension changes nothing.
pub open spec fn spec_resize(s: State, width: u32, height: u32) -> State {
    if width > 0 && height > 0 {
        State {
            size: Extent2d { width, height },
            config: SurfaceConfig { width, height, ..s.config },
            depth: Extent2d { width, height },
            projection: Projection { width, height, ..s.projection },
            ..s
        }
    } else {
        s
    }
}

/// The state after routing one window input event.
pub open spec fn spec_input(s: State, ev: WindowInput) -> State {
    match ev {
        WindowInput::Keyboard { key, pressed } => State {
            camera_controller: spec_process_keyboard(s.camera_controller, key, pressed),
            ..s
        },
        WindowInput::MouseWheel { delta } => State {
            camera_controller: CameraController {
                scroll: fx_add_spec(s.camera_controller.scroll as int, delta as int) as i64,
                ..s.camera_controller
            },
            ..s
        },
        WindowInput::MouseLeftButton { pressed } => State { mouse_pressed: pressed, ..s },
        WindowInput::Other => s,
    }
}

/// The state after one simulation step of `dt` microseconds: the controller
/// integrates into the camera and drains its accumulators.
pub open spec fn spec_update(s: State, dt_micros: int) -> State {
    State {
        camera: spec_updated_camera(s.camera_controller, s.camera, dt_sat(dt_micros)),
        camera_controller: spec_drained(s.camera_controller),
        ..s
    }
}

/// The state and action for one event-loop event.
pub open spec fn spec_handle_event(s: State, ev: LoopEvent) -> (State, LoopAction) {
    match s.phase {
        Phase::ShuttingDown => (s, LoopAction::Exit),
        Phase::Uninitialized | Phase::Initializing => (s, LoopAction::Absorbed),
        Phase::Running => match ev {
            LoopEvent::CloseRequested => (
                State { phase: Phase::ShuttingDown, ..s },
                LoopAction::Exit,
            ),
            LoopEvent::MouseMotion { dx, dy } => if s.mouse_pressed {
                (
                    State {
                        camera_controller: CameraController {
                            rotate_horizontal: fx_add_spec(
                                s.camera_controller.rotate_horizontal as int,
                                dx as int,
                            ) as i64,
                            rotate_vertical: fx_add_spec(
                                s.camera_controller.rotate_vertical as int,
                                dy as int,
                            ) as i64,
                            ..s.camera_controller
                        },
                        ..s
                    },
                    LoopAction::Absorbed,
                )
            } else {
                (s, LoopAction::Absorbed)
            },
            LoopEvent::Window { input } => if input_consumed(input) {
                (spec_input(s, input), LoopAction::Absorbed)
            } else {
                match input {
                    WindowInput::Keyboard { key: Key::Escape, pressed: true } => (
                        State { phase: Phase::ShuttingDown, ..spec_input(s, input) },
                        LoopAction::Exit,
                    ),
                    _ => (spec_input(s, input), LoopAction::Absorbed),
                }
            },
            LoopEvent::Resized { width, height } => (
                spec_resize(State { surface_configured: true, ..s }, width, height),
                LoopAction::Reconfigure,
            ),
            LoopEvent::RedrawRequested { now_micros } => if !s.surface_configured {
                (s, LoopAction::SkipFrame)
            } else {
                let delta = if now_micros >= s.last_render_time {
                    now_micros - s.last_render_time
                } else {
                    0
                };
                let s1 = State {
                    last_render_time: now_micros,
                    status: spec_record_frame(s.status, delta),
                    ..s
                };
                (spec_update(s1, delta), LoopAction::Render)
            },
        },
    }
}

/// The state and action for one frame outcome: a lost or outdated surface is
/// recovered by exactly one resize at the last-known size, out-of-memory
/// ends the loop, success and a timeout change nothing.
pub open spec fn spec_after_render(s: State, result: Result<(), PresentError>) -> (
    State,
    LoopAction,
) {
    match result {
        Ok(_) => (s, LoopAction::Absorbed),
        Err(PresentError::Lost) | Err(PresentError::Outdated) => (
            spec_resize(s, s.size.width, s.size.height),
            LoopAction::Reconfigure,
        ),
        Err(PresentError::OutOfMemory) => (
            State { phase: Phase::ShuttingDown, ..s },
            LoopAction::Exit,
        ),
        Err(PresentError::Timeout) => (s, LoopAction::Absorbed),
    }
}

/// The frame budget when the frame-rate cap is on: one sixtieth of a second
/// in microseconds.
pub const FRAME_BUDGET_MICROS: u64 = 16_667;

impl State {
    /// The state is well formed when the surface has area and the last-known
    /// size, the depth dimensions and the projection aspect all match the
    /// configuration, every component is well formed, and the startup mesh
    /// and grid have their fixed shape.
    pub open spec fn wf(self) -> bool {
        &&& self.config.wf()
        &&& self.size.width == self.config.width && self.size.height == self.config.height
        &&& self.depth.width == self.config.width && self.depth.height == self.config.height
        &&& self.projection.width == self.config.width && self.projection.height
            == self.config.height
        &&& self.projection.wf()
        &&& self.camera.wf()
        &&& self.camera_controller.wf()
        &&& self.status.wf()
        &&& self.instances@.len() == 3375
        &&& self.num_indices == 6
    }

    /// Runs the startup protocol's decisions: rejects a zero-area window and
    /// an empty format list, picks the surface format, and builds the
    /// initial configuration, depth dimensions, camera, projection,
    /// controller, statistics and instance grid.  The host performs the GPU
    /// side (adapter, device, buffers, pipelines) around it.
    pub fn new(width: u32, height: u32, format_is_srgb: &Vec<bool>, now_micros: u64) -> (r:
        Result<State, StartupError>)
        ensures
            r is Ok <==> (width > 0 && height > 0 && format_is_srgb@.len() > 0),
            r matches Err(e) ==> (e is ZeroWindowSize <==> (width == 0 || height == 0)),
            r matches Err(e) ==> (e is NoSurfaceFormat <==> !(width == 0 || height == 0)),
            r matches Ok(s) ==> {
                &&& s.wf()
                &&& s.phase is Running
                &&& s.size == (Extent2d { width, height })
                &&& s.config.width == width && s.config.height == height
                &&& is_chosen_format(format_is_srgb@, s.config.format_index as int)
                &&& s.depth == (Extent2d { width, height })
                &&& s.camera == (Camera {
                    x: 0,
                    y: 5_000_000,
                    z: 20_000_000,
                    yaw: 270_000_000,
                    pitch: -20_000_000i64,
                })
                &&& s.projection == (Projection {
                    width,
                    height,
                    fovy: 45_000_000,
                    znear: 100_000,
                    zfar: 100_000_000,
                })
                &&& s.camera_controller.speed == 10_000_000
                &&& s.camera_controller.sensitivity == 1_000_000
                &&& s.camera_controller == spec_drained(s.camera_controller)
                &&& s.camera_controller.amount_forward == 0 && s.camera_controller.amount_backward
                    == 0 && s.camera_controller.amount_left == 0 && s.camera_controller.amount_right
                    == 0 && s.camera_controller.amount_up == 0 && s.camera_controller.amount_down
                    == 0
                &&& s.status == (Status { fps: 0, fps_avg: 0, delta: 0, cap_frame_rate: true })
                &&& !s.mouse_pressed && !s.surface_configured
                &&& s.last_render_time == now_micros
                &&& s.instances@.len() == 3375
                &&& forall|k: int| 0 <= k < s.instances@.len() ==> s.instances@[k]
                    == grid_instance(k, 15)
                &&& s.num_indices == 6
            },
    {
        if width == 0 || height == 0 {
            return Err(StartupError::ZeroWindowSize);
        }
        let format_index = match pick_format(format_is_srgb) {
            Ok(i) => i,
            Err(e) => {
                return Err(e);
            },
        };
        let camera = Camera::new(0, 5_000_000, 20_000_000, -90_000_000, -20_000_000);
        proof {
            vstd::arithmetic::div_mod::lemma_fundamental_div_mod_converse(
                -90_000_000,
                360_000_000,
                -1,
                270_000_000,
            );
        }
        let projection = Projection::new(width, height, 45_000_000, 100_000, 100_000_000);
        let camera_controller = CameraController::new(10_000_000, 1_000_000);
        let instances = grid_positions(NUM_INSTANCES_PER_ROW);
        let indices = quad_indices();
        let num_indices = indices.len() as u32;
        Ok(
            State {
                phase: Phase::Running,
                size: Extent2d { width, height },
                config: SurfaceConfig { width, height, format_index },
                depth: Extent2d { width, height },
                camera,
                projection,
                camera_controller,
                status: Status::default(),
                mouse_pressed: false,
                surface_configured: false,
                last_render_time: now_micros,
                instances,
                num_indices,
            },
        )
    }

    /// Applies a resize request: positive dimensions move the last-known
    /// size, the surface configuration, the depth dimensions and the
    /// projection aspect in lock-step; a request with a zero dimension (a
    /// minimized window) is a no-op, so repeating a resize is idempotent.
    pub fn resize(&mut self, width: u32, height: u32)
        requires
            old(self).wf(),
        ensures
            *final(self) == spec_resize(*old(self), width, height),
            final(self).wf(),
    {
        if width > 0 && height > 0 {
            self.size = Extent2d { width, height };
            self.config.width = width;
            self.config.height = height;
            self.depth = Extent2d { width, height };
            self.projection.resize(width, height);
        }
    }

    /// Routes one window input event: keyboard to the controller's intents,
    /// the wheel to the scroll accumulator, the left button to the rotation
    /// latch.  Returns whether the event was consumed, so the caller can
    /// forward the rest to the overlay.
    pub fn input(&mut self, event: WindowInput) -> (consumed: bool)
        requires
            old(self).wf(),
        ensures
            consumed == input_consumed(event),
            *final(self) == spec_input(*old(self), event),
            final(self).wf(),
    {
        match event {
            WindowInput::Keyboard { key, pressed } => self.camera_controller.process_keyboard(
                key,
                pressed,
            ),
            WindowInput::MouseWheel { delta } => {
                self.camera_controller.process_scroll(delta);
                true
            },
            WindowInput::MouseLeftButton { pressed } => {
                self.mouse_pressed = pressed;
                true
            },
            WindowInput::Other => false,
        }
    }

    /// Advances the simulation by `dt_micros`: integrates the accumulated
    /// input into the camera (the host then recomputes and uploads the
    /// camera uniform from the new pose).
    pub fn update(&mut self, dt_micros: u64)
        requires
            old(self).wf(),
        ensures
            *final(self) == spec_update(*old(self), dt_micros as int),
            final(self).wf(),
    {
        let dt: i64 = if dt_micros > 0x7fff_ffff_ffff_ffff {
            i64::MAX
        } else {
            dt_micros as i64
        };
        self.camera_controller.update_camera(&mut self.camera, dt);
    }

    /// Dispatches one event-loop event while running: close or a pressed
    /// escape key ends the loop; a resize marks the surface configured and
    /// reconfigures; a redraw before the first resize is skipped, otherwise
    /// it times the frame, updates the statistics, integrates the camera and
    /// asks the host to render; input events go to the camera first.
    pub fn handle_event(&mut self, event: LoopEvent) -> (action: LoopAction)
        requires
            old(self).wf(),
        ensures
            (*final(self), action) == spec_handle_event(*old(self), event),
            final(self).wf(),
    {
        match self.phase {
            Phase::ShuttingDown => LoopAction::Exit,
            Phase::Uninitialized | Phase::Initializing => LoopAction::Absorbed,
            Phase::Running => match event {
                LoopEvent::CloseRequested => {
                    self.phase = Phase::ShuttingDown;
                    LoopAction::Exit
                },
                LoopEvent::MouseMotion { dx, dy } => {
                    if self.mouse_pressed {
                        self.camera_controller.process_mouse(dx, dy);
                    }
                    LoopAction::Absorbed
                },
                LoopEvent::Window { input } => {
                    let consumed = self.input(input);
                    if consumed {
                        LoopAction::Absorbed
                    } else {
                        match input {
                            WindowInput::Keyboard { key: Key::Escape, pressed: true } => {
                                self.phase = Phase::ShuttingDown;
                                LoopAction::Exit
                            },
                            _ => LoopAction::Absorbed,
                        }
                    }
                },
                LoopEvent::Resized { width, height } => {
                    self.surface_configured = true;
                    self.resize(width, height);
                    LoopAction::Reconfigure
                },
                LoopEvent::RedrawRequested { now_micros } => {
                    if !self.surface_configured {
                        LoopAction::SkipFrame
                    } else {
                        let delta = if now_micros >= self.last_render_time {
                            now_micros - self.last_render_time
                        } else {
                            0
                        };
                        self.last_render_time = now_micros;
                        self.status.record_frame(delta);
                        self.update(delta);
                        LoopAction::Render
                    }
                },
            },
        }
    }

    /// Maps one frame outcome to its recovery: a lost or outdated surface is
    /// reconfigured by exactly one resize at the last-known size before the
    /// next frame; out-of-memory shuts the loop down; success and a timeout
    /// leave everything unchanged (the next redraw retries naturally).
    pub fn after_render(&mut self, result: Result<(), PresentError>) -> (action: LoopAction)
        requires
            old(self).wf(),
        ensures
            (*final(self), action) == spec_after_render(*old(self), result),
            final(self).wf(),
    {
        match result {
            Ok(_) => LoopAction::Absorbed,
            Err(PresentError::Lost) | Err(PresentError::Outdated) => {
                let width = self.size.width;
                let height = self.size.height;
                self.resize(width, height);
                LoopAction::Reconfigure
            },
            Err(PresentError::OutOfMemory) => {
                self.phase = Phase::ShuttingDown;
                LoopAction::Exit
            },
            Err(PresentError::Timeout) => LoopAction::Absorbed,
        }
    }

    /// How long the host should sleep after a frame that took
    /// `frame_micros`: the rest of the frame budget when the cap is on,
    /// nothing otherwise.
    pub fn cap_sleep_micros(&self, frame_micros: u64) -> (r: u64)
        ensures
            !self.status.cap_frame_rate ==> r == 0,
            self.status.cap_frame_rate ==> r as int == (if frame_micros < 16_667 {
                16_667 - frame_micros as int
            } else {
                0int
            }),
    {
        if self.status.cap_frame_rate && frame_micros < FRAME_BUDGET_MICROS {
            FRAME_BUDGET_MICROS - frame_micros
        } else {
            0
        }
    }

    /// How many triangles one frame draws: the mesh's triangles, once per
    /// instance.
    pub fn triangle_count(&self) -> (count: u64)
        requires
            self.wf(),
        ensures
            count == (self.num_indices as int / 3) * self.instances@.len(),
    {
        (self.num_indices / 3) as u64 * (self.instances.len() as u64)
    }
}

/// Law: after any resize to positive dimensions the depth-buffer dimensions
/// and the projection aspect equal the new surface dimensions exactly.
pub proof fn lemma_resize_dimensions(s: State, width: u32, height: u32)
    requires
        width > 0,
        height > 0,
    ensures
        spec_resize(s, width, height).config.width == width,
        spec_resize(s, width, height).config.height == height,
        spec_resize(s, width, height).depth == (Extent2d { width, height }),
        spec_resize(s, width, height).projection.width == width,
        spec_resize(s, width, height).projection.height == height,
{
}

/// Law: a resize with a zero dimension leaves the whole state unchanged, the
/// surface configuration and the depth dimensions included, so spurious
/// zero-area resize events are no-ops and repeating them is idempotent.
pub proof fn lemma_zero_resize_noop(s: State, width: u32, height: u32)
    requires
        width == 0 || height == 0,
    ensures
        spec_resize(s, width, height) == s,
{
}

/// Law: a lost or outdated surface triggers exactly one resize at the
/// last-known size before the next render attempt, and no other outcome
/// resizes: success and a timeout leave the state untouched.
pub proof fn lemma_lost_surface_recovery(s: State, result: Result<(), PresentError>)
    requires
        s.wf(),
    ensures
        (result == Result::<(), PresentError>::Err(PresentError::Lost) || result == Result::<
            (),
            PresentError,
        >::Err(PresentError::Outdated)) ==> spec_after_render(s, result) == (
            spec_resize(s, s.size.width, s.size.height),
            LoopAction::Reconfigure,
        ),
        (result is Ok || result == Result::<(), PresentError>::Err(PresentError::Timeout))
            ==> spec_after_render(s, result) == (s, LoopAction::Absorbed),
{
}

/// After `n` steps the gap to a constant sample is at most the larger of 19
/// and the starting gap less `n`.
proof fn lemma_ema_gap_bound(avg: int, sample: int, n: nat)
    ensures
        0 <= avg && 0 <= sample ==> {
            &&& 0 <= ema_iter(avg, sample, n)
            &&& abs(ema_iter(avg, sample, n) - sample) <= 19 || abs(
                ema_iter(avg, sample, n) - sample,
            ) <= abs(avg - sample) - n
        },
    decreases n,
{
    if n == 0 {
    } else if 0 <= avg && 0 <= sample {
        lemma_ema_gap_bound(avg, sample, (n - 1) as nat);
        let prev = ema_iter(avg, sample, (n - 1) as nat);
        lemma_ema_step(prev, sample);
    }
}

} // verus!
