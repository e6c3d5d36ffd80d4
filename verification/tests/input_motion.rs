//! The direction axis state machine, the input adapter's latches and the
//! relative motion tracker.

use reactive_camera::input::{ButtonConfig, ButtonId, DirectionTracker, InputAdapter,
    InputEvent, CURSOR_BOUND, KEY_W, KEY_A, KEY_S, KEY_D, KEY_SPACE, KEY_LSHIFT};
use reactive_camera::motion::RelativeMotion;

#[test]
fn default_button_layout() {
    let c = ButtonConfig::default();
    assert_eq!(c.forward, ButtonId(KEY_W));
    assert_eq!(c.backward, ButtonId(KEY_S));
    assert_eq!(c.right, ButtonId(KEY_D));
    assert_eq!(c.left, ButtonId(KEY_A));
    assert_eq!(c.up, ButtonId(KEY_SPACE));
    assert_eq!(c.down, ButtonId(KEY_LSHIFT));
}

#[test]
fn direction_basic_transitions() {
    let fwd = ButtonId(1);
    let back = ButtonId(2);
    let mut t = DirectionTracker::track(fwd, back);
    assert_eq!(t.value(), 0);
    t.on_event(&InputEvent::ButtonDown(fwd));
    assert_eq!(t.value(), 1);
    t.on_event(&InputEvent::ButtonUp(fwd));
    assert_eq!(t.value(), 0);
    t.on_event(&InputEvent::ButtonDown(back));
    assert_eq!(t.value(), -1);
    t.on_event(&InputEvent::ButtonUp(back));
    assert_eq!(t.value(), 0);
}

#[test]
fn direction_tie_break_last_pressed_wins_forward_first() {
    let fwd = ButtonId(1);
    let back = ButtonId(2);
    let mut t = DirectionTracker::track(fwd, back);
    t.on_event(&InputEvent::ButtonDown(fwd));
    t.on_event(&InputEvent::ButtonDown(back));
    // Both held: the most recent press (backward) wins.
    assert_eq!(t.value(), -1);
    // Releasing the winner reverts to the side still held, not to 0.
    t.on_event(&InputEvent::ButtonUp(back));
    assert_eq!(t.value(), 1);
    t.on_event(&InputEvent::ButtonUp(fwd));
    assert_eq!(t.value(), 0);
}

#[test]
fn direction_tie_break_last_pressed_wins_backward_first() {
    let fwd = ButtonId(1);
    let back = ButtonId(2);
    let mut t = DirectionTracker::track(fwd, back);
    t.on_event(&InputEvent::ButtonDown(back));
    t.on_event(&InputEvent::ButtonDown(fwd));
    assert_eq!(t.value(), 1);
    t.on_event(&InputEvent::ButtonUp(fwd));
    assert_eq!(t.value(), -1);
}

#[test]
fn direction_ignores_other_buttons_and_cursor() {
    let mut t = DirectionTracker::track(ButtonId(1), ButtonId(2));
    t.on_event(&InputEvent::ButtonDown(ButtonId(99)));
    t.on_event(&InputEvent::CursorMoved(5, 5));
    assert_eq!(t.value(), 0);
}

#[test]
fn adapter_latches_cursor_and_size() {
    let c = ButtonConfig::default();
    let mut a = InputAdapter::new(&c, 640, 480);
    assert_eq!(a.cursor(), (0, 0));
    assert_eq!(a.size(), (640, 480));
    a.handle_event(&InputEvent::CursorMoved(100, -200));
    assert_eq!(a.cursor(), (100, -200));
    a.handle_event(&InputEvent::Resized(800, 600));
    assert_eq!(a.size(), (800, 600));
    // Latched values hold across unrelated events.
    a.handle_event(&InputEvent::ButtonDown(ButtonId(KEY_W)));
    assert_eq!(a.cursor(), (100, -200));
    assert_eq!(a.size(), (800, 600));
}

#[test]
fn adapter_saturates_wild_cursor_values() {
    let c = ButtonConfig::default();
    let mut a = InputAdapter::new(&c, 640, 480);
    a.handle_event(&InputEvent::CursorMoved(i64::MAX, i64::MIN));
    assert_eq!(a.cursor(), (CURSOR_BOUND, -CURSOR_BOUND));
}

#[test]
fn adapter_axes_follow_buttons() {
    let c = ButtonConfig::default();
    let mut a = InputAdapter::new(&c, 640, 480);
    a.handle_event(&InputEvent::ButtonDown(ButtonId(KEY_D)));
    assert_eq!(a.strafe.value(), 1);
    a.handle_event(&InputEvent::ButtonDown(ButtonId(KEY_SPACE)));
    assert_eq!(a.vertical.value(), 1);
    // The fore axis is positive toward backward.
    a.handle_event(&InputEvent::ButtonDown(ButtonId(KEY_W)));
    assert_eq!(a.fore.value(), -1);
    a.handle_event(&InputEvent::ButtonDown(ButtonId(KEY_S)));
    assert_eq!(a.fore.value(), 1);
}

#[test]
fn first_delta_is_zero() {
    let mut m = RelativeMotion::new();
    assert_eq!(m.tick((10, 20)), (0, 0));
}

#[test]
fn later_deltas_are_sample_differences() {
    let mut m = RelativeMotion::new();
    let _ = m.tick((10, 20));
    assert_eq!(m.tick((15, 18)), (5, -2));
    assert_eq!(m.tick((15, 18)), (0, 0));
    assert_eq!(m.tick((0, 0)), (-15, -18));
}

#[test]
fn track_emits_every_delta_in_order() {
    let mut m = RelativeMotion::new();
    let samples = vec![(0i64, 0i64), (3, 4), (3, 4), (-1, 10)];
    let deltas = m.track(&samples);
    assert_eq!(deltas, vec![(0, 0), (3, 4), (0, 0), (-4, 6)]);
}

#[test]
fn track_is_independent_of_event_rate() {
    // Two cursor trajectories with different event rates but the same
    // sampled positions give the same deltas.
    let mut m1 = RelativeMotion::new();
    let mut m2 = RelativeMotion::new();
    let d1 = m1.track(&vec![(0i64, 0i64), (100, 50)]);
    let d2 = m2.track(&vec![(0i64, 0i64), (100, 50)]);
    assert_eq!(d1, d2);
}
