//! The camera state machine: determinism, the zero-dt no-op, movement in
//! world space, yaw wrapping, pitch clamping and position saturation.

use reactive_camera::camera::{Camera, CameraConfig, CameraPose, MovementState,
    TickInput, DT_BOUND, PITCH_LIMIT, POS_BOUND};
use reactive_camera::fixed::ONE;
use reactive_camera::trig::FULL_TURN;

fn start_pose() -> CameraPose {
    CameraPose { x: 0, y: 0, z: 2 * ONE, yaw: 0, pitch: 0 }
}

fn config() -> CameraConfig {
    CameraConfig { speed: ONE, sensitivity: 31 }
}

fn script() -> Vec<TickInput> {
    let mut inputs = Vec::new();
    for i in 0..50i64 {
        inputs.push(TickInput {
            dt: 327 + (i % 7),
            axes: MovementState::new((i % 3) as i8 - 1, ((i + 1) % 3) as i8 - 1, (i % 2) as i8),
            dx: (i * 1000 - 20000) * 37,
            dy: (7000 - i * 300) * 11,
        });
    }
    inputs
}

#[test]
fn replaying_identical_inputs_gives_identical_poses() {
    let mut a = Camera::new(start_pose(), config());
    let mut b = Camera::new(start_pose(), config());
    let inputs = script();
    a.replay(&inputs);
    b.replay(&inputs);
    assert_eq!(a.pose, b.pose);
}

#[test]
fn replay_matches_tick_by_tick() {
    let mut a = Camera::new(start_pose(), config());
    let mut b = Camera::new(start_pose(), config());
    let inputs = script();
    a.replay(&inputs);
    for input in &inputs {
        b.tick(*input);
    }
    assert_eq!(a.pose, b.pose);
}

#[test]
fn zero_dt_leaves_position_untouched() {
    let mut c = Camera::new(start_pose(), config());
    c.tick(TickInput {
        dt: 0,
        axes: MovementState::new(1, -1, 1),
        dx: 5 * ONE,
        dy: -3 * ONE,
    });
    assert_eq!(c.pose.x, 0);
    assert_eq!(c.pose.y, 0);
    assert_eq!(c.pose.z, 2 * ONE);
    // Orientation may still move with the cursor.
    assert_eq!(c.pose.yaw, 5 * 31);
    assert_eq!(c.pose.pitch, -3 * 31);
}

#[test]
fn movement_at_zero_yaw_is_axis_aligned() {
    // One second at speed one moves one world unit along each pressed axis;
    // the fore axis points toward positive z (backward).
    let mut c = Camera::new(start_pose(), config());
    c.tick(TickInput { dt: ONE, axes: MovementState::new(1, 0, 0), dx: 0, dy: 0 });
    assert_eq!((c.pose.x, c.pose.y, c.pose.z), (ONE, 0, 2 * ONE));
    c.tick(TickInput { dt: ONE, axes: MovementState::new(0, 1, 0), dx: 0, dy: 0 });
    assert_eq!((c.pose.x, c.pose.y, c.pose.z), (ONE, ONE, 2 * ONE));
    c.tick(TickInput { dt: ONE, axes: MovementState::new(0, 0, 1), dx: 0, dy: 0 });
    assert_eq!((c.pose.x, c.pose.y, c.pose.z), (ONE, ONE, 3 * ONE));
}

#[test]
fn movement_follows_yaw() {
    // A quarter turn of yaw rotates the strafe axis onto the world z axis.
    let mut c = Camera::new(start_pose(), config());
    let quarter = FULL_TURN / 4;
    // sensitivity 31: a cursor delta of quarter/31 fixed pixels turns a
    // quarter; feed it exactly.
    let dx = {
        // fx_mul(dx, 31) == quarter requires dx * 31 == quarter * 65536.
        quarter * 65536 / 31 + 1
    };
    c.tick(TickInput { dt: 0, axes: MovementState::new(0, 0, 0), dx, dy: 0 });
    assert_eq!(c.pose.yaw, quarter);
    c.tick(TickInput { dt: ONE, axes: MovementState::new(1, 0, 0), dx: 0, dy: 0 });
    // At yaw a quarter turn, the camera's right in world space is
    // (cos, 0, -sin) == (0, 0, -1), the transpose of the view rotation.
    assert_eq!((c.pose.x, c.pose.y, c.pose.z), (0, 0, ONE));
}

#[test]
fn yaw_wraps_and_pitch_clamps() {
    let mut c = Camera::new(start_pose(), config());
    c.tick(TickInput {
        dt: 0,
        axes: MovementState::new(0, 0, 0),
        dx: 0x4000_0000,
        dy: 0x4000_0000,
    });
    assert!(c.pose.yaw >= 0 && c.pose.yaw < FULL_TURN);
    assert_eq!(c.pose.pitch, PITCH_LIMIT);
    c.tick(TickInput { dt: 0, axes: MovementState::new(0, 0, 0), dx: 0, dy: -0x7000_0000 });
    assert_eq!(c.pose.pitch, -PITCH_LIMIT);
}

#[test]
fn position_saturates_at_the_world_bound() {
    let far_east = CameraPose { x: POS_BOUND, y: 0, z: 0, yaw: 0, pitch: 0 };
    let mut c = Camera::new(far_east, CameraConfig { speed: 16 * ONE, sensitivity: 0 });
    c.tick(TickInput { dt: DT_BOUND, axes: MovementState::new(1, 0, 0), dx: 0, dy: 0 });
    assert_eq!(c.pose.x, POS_BOUND);
}
