//! End-to-end: the assembled pipeline over a scripted run, plus the tick
//! source and the render output model.

use reactive_camera::camera::{CameraConfig, CameraPose};
use reactive_camera::error::PipelineError;
use reactive_camera::fixed::ONE;
use reactive_camera::frame::SceneConfig;
use reactive_camera::input::{ButtonConfig, ButtonId, InputEvent, KEY_D};
use reactive_camera::output::{Gamma, Output, program_from_backend,
    MASK_ALL, MASK_COLOR, MASK_DEPTH, MASK_STENCIL};
use reactive_camera::pipeline::Pipeline;
use reactive_camera::tick::Ticker;

const FOV_60_DEG: i64 = 10923;
const NEAR_TENTH: i64 = 6554;
const FAR_1000: i64 = 1000 * 65536;

fn build() -> Pipeline {
    let buttons = ButtonConfig::default();
    let start = CameraPose { x: 0, y: 0, z: 2 * ONE, yaw: 0, pitch: 0 };
    let config = CameraConfig { speed: ONE, sensitivity: 31 };
    let scene = SceneConfig {
        clear_red: 19661,
        clear_green: 19661,
        clear_blue: 19661,
        clear_alpha: ONE,
        mesh: 1,
        program: 1,
    };
    Pipeline::new(&buttons, 640, 480, FOV_60_DEG, NEAR_TENTH, FAR_1000, start, config, scene)
}

#[test]
fn three_ticks_with_one_cursor_move() {
    // Three 5ms ticks, no buttons, a one-pixel cursor move before tick 2:
    // with the window size unchanged, the scene at tick 3 differs from the
    // scene at tick 1 exactly by the yaw implied by the cursor move.
    let dt = 327; // 5ms in 16.16 fixed-point seconds
    let mut p = build();
    p.tick(dt);
    let scene1 = p.sample();
    let pose1 = p.pose();
    assert_eq!(p.handle_event(&InputEvent::CursorMoved(ONE, 0)), Ok(()));
    p.tick(dt);
    let pose2 = p.pose();
    p.tick(dt);
    let scene3 = p.sample();
    let pose3 = p.pose();

    // Zero button input: the position never moves.
    assert_eq!((pose3.x, pose3.y, pose3.z), (pose1.x, pose1.y, pose1.z));
    // The cursor move turns the yaw by one pixel times the sensitivity,
    // picked up at the tick after the move.
    assert_eq!(pose1.yaw, 0);
    assert_eq!(pose2.yaw, 31);
    assert_eq!(pose3.yaw, 31);
    assert_eq!(pose3.pitch, 0);
    // The projection is untouched, so the composed matrices differ only
    // through the pose.
    assert_eq!(p.projection.current, build().projection.current);
    assert_ne!(scene3.mvp, scene1.mvp);
    // Replaying the very same script reproduces the scene bit for bit.
    let mut q = build();
    q.tick(dt);
    let _ = q.handle_event(&InputEvent::CursorMoved(ONE, 0));
    q.tick(dt);
    q.tick(dt);
    assert_eq!(q.sample(), scene3);
}

#[test]
fn without_input_the_scene_is_stable() {
    let mut p = build();
    p.tick(327);
    let s1 = p.sample();
    p.tick(327);
    p.tick(327);
    let s3 = p.sample();
    assert_eq!(s1, s3);
}

#[test]
fn resize_changes_only_the_aspect_term() {
    let mut p = build();
    p.tick(327);
    let before = p.sample();
    assert_eq!(p.handle_event(&InputEvent::Resized(1280, 480)), Ok(()));
    p.tick(327);
    let after = p.sample();
    assert_ne!(after.mvp.m00, before.mvp.m00);
    assert_eq!(after.mvp.m11, before.mvp.m11);
}

#[test]
fn degenerate_resize_is_reported_and_absorbed() {
    let mut p = build();
    let before = p.projection.current;
    assert_eq!(
        p.handle_event(&InputEvent::Resized(640, 0)),
        Err(PipelineError::DegenerateAspect),
    );
    assert_eq!(p.projection.current, before);
    // The adapter still latched the size; sampling still works.
    assert_eq!(p.adapter.size(), (640, 0));
    let _ = p.sample();
}

#[test]
fn held_button_moves_the_camera() {
    let mut p = build();
    let _ = p.handle_event(&InputEvent::ButtonDown(ButtonId(KEY_D)));
    p.tick(ONE);
    let pose = p.pose();
    assert_eq!((pose.x, pose.y, pose.z), (ONE, 0, 2 * ONE));
}

#[test]
fn scene_carries_the_fixed_references() {
    let mut p = build();
    p.tick(327);
    let s = p.sample();
    assert_eq!((s.mesh, s.program), (1, 1));
    assert_eq!((s.clear_red, s.clear_green, s.clear_blue, s.clear_alpha),
        (19661, 19661, 19661, ONE));
}

#[test]
fn ticker_needs_the_clock() {
    assert_eq!(Ticker::subscribe(false, 5), Err(PipelineError::ClockUnavailable));
    let t = Ticker::subscribe(true, 5).unwrap();
    assert_eq!(t.period_ms, 5);
    assert_eq!(t.dt, 327); // 5ms in 16.16 fixed point, truncated
}

#[test]
fn gamma_refusal_is_typed_and_changes_nothing() {
    let mut o = Output::init(7, 9, 640, 480);
    assert_eq!(o.get_mask(), MASK_ALL);
    assert_eq!(MASK_ALL, MASK_COLOR | MASK_DEPTH | MASK_STENCIL);
    assert_eq!(o.get_handle(), Some(9));
    assert_eq!(o.get_size(), (640, 480));
    assert_eq!(o.get_gamma(), Gamma::Original);
    assert_eq!(o.set_gamma(Gamma::Convert), Ok(()));
    assert_eq!(o.get_gamma(), Gamma::Convert);

    let mut plain = Output { supports_gamma_conversion: false, ..Output::init(7, 9, 640, 480) };
    assert_eq!(plain.set_gamma(Gamma::Convert), Err(PipelineError::GammaUnsupported));
    assert_eq!(plain.get_gamma(), Gamma::Original);
    assert_eq!(plain.set_gamma(Gamma::Original), Ok(()));
}

#[test]
fn drawable_dispatch_preserves_order() {
    let mut p = build();
    p.tick(327);
    let s1 = p.sample();
    p.tick(ONE);
    let s2 = p.sample();
    assert_eq!(reactive_camera::frame::draw_calls(reactive_camera::frame::Drawable::Empty), vec![]);
    assert_eq!(
        reactive_camera::frame::draw_calls(reactive_camera::frame::Drawable::Triangle(s1)),
        vec![s1],
    );
    assert_eq!(
        reactive_camera::frame::draw_calls(
            reactive_camera::frame::Drawable::Composite(vec![s1, s2])),
        vec![s1, s2],
    );
}

#[test]
fn shader_outcome_is_surfaced() {
    assert_eq!(program_from_backend(Some(3)), Ok(3));
    assert_eq!(program_from_backend(None), Err(PipelineError::ShaderCompileError));
}
