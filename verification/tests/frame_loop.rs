use windcore::state::{
    LoopAction, LoopEvent, Phase, PresentError, StartupError, State, Status, WindowInput,
};
use windcore::camera::Key;

fn running_state() -> State {
    let flags = vec![false, true, false];
    State::new(800, 600, &flags, 0).unwrap()
}

#[test]
fn startup_rejects_a_zero_area_window() {
    let flags = vec![true];
    assert!(matches!(
        State::new(0, 600, &flags, 0),
        Err(StartupError::ZeroWindowSize)
    ));
    assert!(matches!(
        State::new(800, 0, &flags, 0),
        Err(StartupError::ZeroWindowSize)
    ));
}

#[test]
fn startup_rejects_an_empty_format_list() {
    let flags: Vec<bool> = Vec::new();
    assert!(matches!(
        State::new(800, 600, &flags, 0),
        Err(StartupError::NoSurfaceFormat)
    ));
}

#[test]
fn startup_picks_the_first_srgb_format() {
    let s = running_state();
    assert_eq!(s.config.format_index, 1);
    let t = State::new(800, 600, &vec![false, false], 0).unwrap();
    assert_eq!(t.config.format_index, 0);
}

#[test]
fn startup_builds_the_initial_state() {
    let s = running_state();
    assert_eq!(s.phase, Phase::Running);
    assert_eq!((s.size.width, s.size.height), (800, 600));
    assert_eq!((s.config.width, s.config.height), (800, 600));
    assert_eq!((s.depth.width, s.depth.height), (800, 600));
    assert_eq!((s.projection.width, s.projection.height), (800, 600));
    assert_eq!(s.projection.fovy, 45_000_000);
    assert_eq!(s.projection.znear, 100_000);
    assert_eq!(s.projection.zfar, 100_000_000);
    assert_eq!((s.camera.x, s.camera.y, s.camera.z), (0, 5_000_000, 20_000_000));
    assert_eq!(s.camera.yaw, 270_000_000);
    assert_eq!(s.camera.pitch, -20_000_000);
    assert_eq!(s.camera_controller.speed, 10_000_000);
    assert_eq!(s.camera_controller.sensitivity, 1_000_000);
    assert_eq!(s.status, Status::default());
    assert!(!s.mouse_pressed);
    assert!(!s.surface_configured);
    assert_eq!(s.instances.len(), 3375);
    assert_eq!(s.num_indices, 6);
}

#[test]
fn instance_grid_gives_the_expected_counts() {
    let s = running_state();
    assert_eq!(s.instances.len(), 3375);
    assert_eq!(s.triangle_count(), 6750);
}

#[test]
fn resize_moves_all_dimensions_in_lock_step() {
    let mut s = running_state();
    s.resize(1920, 1080);
    assert_eq!((s.size.width, s.size.height), (1920, 1080));
    assert_eq!((s.config.width, s.config.height), (1920, 1080));
    assert_eq!((s.depth.width, s.depth.height), (1920, 1080));
    assert_eq!((s.projection.width, s.projection.height), (1920, 1080));
    // Repeating the same resize changes nothing further.
    s.resize(1920, 1080);
    assert_eq!((s.size.width, s.size.height), (1920, 1080));
    assert_eq!((s.depth.width, s.depth.height), (1920, 1080));
}

#[test]
fn zero_area_resize_is_a_no_op() {
    let mut s = running_state();
    s.resize(1024, 768);
    s.resize(0, 768);
    assert_eq!((s.config.width, s.config.height), (1024, 768));
    assert_eq!((s.depth.width, s.depth.height), (1024, 768));
    s.resize(1024, 0);
    assert_eq!((s.config.width, s.config.height), (1024, 768));
    assert_eq!((s.size.width, s.size.height), (1024, 768));
    s.resize(0, 0);
    assert_eq!((s.depth.width, s.depth.height), (1024, 768));
    assert_eq!((s.projection.width, s.projection.height), (1024, 768));
}

#[test]
fn redraw_before_the_first_resize_is_skipped() {
    let mut s = running_state();
    let action = s.handle_event(LoopEvent::RedrawRequested { now_micros: 1000 });
    assert_eq!(action, LoopAction::SkipFrame);
    let action = s.handle_event(LoopEvent::Resized { width: 800, height: 600 });
    assert_eq!(action, LoopAction::Reconfigure);
    assert!(s.surface_configured);
    let action = s.handle_event(LoopEvent::RedrawRequested { now_micros: 2000 });
    assert_eq!(action, LoopAction::Render);
}

#[test]
fn close_request_shuts_the_loop_down() {
    let mut s = running_state();
    let action = s.handle_event(LoopEvent::CloseRequested);
    assert_eq!(action, LoopAction::Exit);
    assert_eq!(s.phase, Phase::ShuttingDown);
    // Further events keep asking the host to exit.
    let action = s.handle_event(LoopEvent::RedrawRequested { now_micros: 5 });
    assert_eq!(action, LoopAction::Exit);
}

#[test]
fn pressed_escape_shuts_the_loop_down() {
    let mut s = running_state();
    let action = s.handle_event(LoopEvent::Window {
        input: WindowInput::Keyboard { key: Key::Escape, pressed: true },
    });
    assert_eq!(action, LoopAction::Exit);
    assert_eq!(s.phase, Phase::ShuttingDown);
}

#[test]
fn released_escape_is_only_forwarded() {
    let mut s = running_state();
    let action = s.handle_event(LoopEvent::Window {
        input: WindowInput::Keyboard { key: Key::Escape, pressed: false },
    });
    assert_eq!(action, LoopAction::Absorbed);
    assert_eq!(s.phase, Phase::Running);
}

#[test]
fn input_routing_consumes_camera_events() {
    let mut s = running_state();
    assert!(s.input(WindowInput::Keyboard { key: Key::KeyW, pressed: true }));
    assert_eq!(s.camera_controller.amount_forward, 1_000_000);
    assert!(s.input(WindowInput::MouseWheel { delta: 2_000_000 }));
    assert_eq!(s.camera_controller.scroll, 2_000_000);
    assert!(s.input(WindowInput::MouseLeftButton { pressed: true }));
    assert!(s.mouse_pressed);
    assert!(!s.input(WindowInput::Other));
    assert!(!s.input(WindowInput::Keyboard { key: Key::Other, pressed: true }));
}

#[test]
fn mouse_motion_rotates_only_while_the_button_is_held() {
    let mut s = running_state();
    s.handle_event(LoopEvent::MouseMotion { dx: 5_000_000, dy: 1_000_000 });
    assert_eq!(s.camera_controller.rotate_horizontal, 0);
    assert_eq!(s.camera_controller.rotate_vertical, 0);
    s.input(WindowInput::MouseLeftButton { pressed: true });
    s.handle_event(LoopEvent::MouseMotion { dx: 5_000_000, dy: 1_000_000 });
    assert_eq!(s.camera_controller.rotate_horizontal, 5_000_000);
    assert_eq!(s.camera_controller.rotate_vertical, 1_000_000);
    s.input(WindowInput::MouseLeftButton { pressed: false });
    s.handle_event(LoopEvent::MouseMotion { dx: 5_000_000, dy: 1_000_000 });
    assert_eq!(s.camera_controller.rotate_horizontal, 5_000_000);
}

#[test]
fn a_frame_updates_timing_statistics_exactly() {
    let mut s = running_state();
    s.handle_event(LoopEvent::Resized { width: 800, height: 600 });
    let action = s.handle_event(LoopEvent::RedrawRequested { now_micros: 16_667 });
    assert_eq!(action, LoopAction::Render);
    assert_eq!(s.status.delta, 16_667);
    assert_eq!(s.status.fps, 59_998_800);
    assert_eq!(s.status.fps_avg, 2_999_940);
    assert_eq!(s.last_render_time, 16_667);
    let action = s.handle_event(LoopEvent::RedrawRequested { now_micros: 33_334 });
    assert_eq!(action, LoopAction::Render);
    assert_eq!(s.status.delta, 16_667);
    assert_eq!(s.status.fps_avg, 5_849_883);
}

#[test]
fn a_frame_integrates_the_camera() {
    let mut s = running_state();
    s.handle_event(LoopEvent::Resized { width: 800, height: 600 });
    s.input(WindowInput::Keyboard { key: Key::KeyW, pressed: true });
    // Half a second after the creation timestamp.
    let action = s.handle_event(LoopEvent::RedrawRequested { now_micros: 500_000 });
    assert_eq!(action, LoopAction::Render);
    assert_eq!(s.camera.z, 15_000_000);
    assert_eq!(s.camera_controller.rotate_horizontal, 0);
}

#[test]
fn fps_average_converges_to_a_constant_signal() {
    let mut status = Status::default();
    let mut i = 0;
    while i < 500 {
        status.record_frame(16_667);
        i += 1;
    }
    assert_eq!(status.fps, 59_998_800);
    assert!(status.fps_avg <= status.fps);
    assert!(status.fps - status.fps_avg <= 19);
}

#[test]
fn a_backward_time_step_counts_as_a_zero_delta() {
    let mut s = running_state();
    s.handle_event(LoopEvent::Resized { width: 800, height: 600 });
    s.handle_event(LoopEvent::RedrawRequested { now_micros: 10_000 });
    let action = s.handle_event(LoopEvent::RedrawRequested { now_micros: 5_000 });
    assert_eq!(action, LoopAction::Render);
    assert_eq!(s.status.delta, 0);
    // A zero delta is floored to one microsecond for the rate.
    assert_eq!(s.status.fps, 1_000_000_000_000);
}

#[test]
fn lost_surface_triggers_one_resize_at_the_last_known_size() {
    let mut s = running_state();
    s.handle_event(LoopEvent::Resized { width: 1024, height: 768 });
    let action = s.after_render(Err(PresentError::Lost));
    assert_eq!(action, LoopAction::Reconfigure);
    assert_eq!((s.config.width, s.config.height), (1024, 768));
    assert_eq!((s.depth.width, s.depth.height), (1024, 768));
    assert_eq!(s.phase, Phase::Running);
    let action = s.after_render(Err(PresentError::Outdated));
    assert_eq!(action, LoopAction::Reconfigure);
    assert_eq!((s.size.width, s.size.height), (1024, 768));
}

#[test]
fn timeout_and_success_change_nothing() {
    let mut s = running_state();
    s.handle_event(LoopEvent::Resized { width: 800, height: 600 });
    let before = (s.config.width, s.config.height, s.phase);
    assert_eq!(s.after_render(Ok(())), LoopAction::Absorbed);
    assert_eq!(s.after_render(Err(PresentError::Timeout)), LoopAction::Absorbed);
    assert_eq!((s.config.width, s.config.height, s.phase), before);
}

#[test]
fn out_of_memory_is_fatal() {
    let mut s = running_state();
    let action = s.after_render(Err(PresentError::OutOfMemory));
    assert_eq!(action, LoopAction::Exit);
    assert_eq!(s.phase, Phase::ShuttingDown);
}

#[test]
fn the_frame_cap_sleeps_for_the_rest_of_the_budget() {
    let s = running_state();
    assert_eq!(s.cap_sleep_micros(10_000), 6_667);
    assert_eq!(s.cap_sleep_micros(16_667), 0);
    assert_eq!(s.cap_sleep_micros(20_000), 0);
    let mut t = running_state();
    t.status.cap_frame_rate = false;
    assert_eq!(t.cap_sleep_micros(10_000), 0);
}
