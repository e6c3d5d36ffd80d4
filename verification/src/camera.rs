//! Camera state machine: a continuous integrator of movement-direction
//! axes, relative cursor motion and tick deltas into a camera pose.
//!
//! Per tick the three axes form a velocity in camera space, the velocity is
//! rotated into world space by the current yaw, scaled by the configured
//! speed and integrated over `dt`; the cursor delta, scaled by the
//! configured sensitivity, accumulates into yaw and pitch. Yaw wraps around
//! the full turn; pitch is clamped short of straight up and down; position
//! saturates at the world bound so the integrator is total. Replaying the
//! same inputs always reproduces the same pose.

use vstd::prelude::*;
use crate::fixed::{ONE, fx_mul, fx_mul_spec, fx_abs, clamp, clamp_spec,
    lemma_fx_mul_bound, lemma_fx_mul_zero};
use crate::trig::{FULL_TURN, fx_sin, fx_cos, sin_spec, cos_spec};

verus! {

/// Position coordinates saturate at this magnitude (2048 world units in
/// 16.16 fixed point).
pub const POS_BOUND: i64 = 0x800_0000;

/// Pitch is clamped to this magnitude in turn units: about 89 degrees.
pub const PITCH_LIMIT: i64 = 16200;

/// A tick's `dt` is at most this (16 seconds in 16.16 fixed point).
pub const DT_BOUND: i64 = 0x10_0000;

/// Movement speed is at most this (16 units per second in 16.16 fixed
/// point).
pub const SPEED_BOUND: i64 = 0x10_0000;

/// Cursor deltas are at most this (twice the adapter's cursor bound).
pub const DELTA_BOUND: i64 = 0x8000_0000;

/// The camera pose: position in 16.16 fixed-point world units, yaw and
/// pitch in turn units.
#[derive(Clone, Copy, Debug, PartialEq, Eq, Structural)]
pub struct CameraPose {
    pub x: i64,
    pub y: i64,
    pub z: i64,
    pub yaw: i64,
    pub pitch: i64,
}

/// Fixed constants of the integrator: movement speed (16.16 units per
/// second) and look sensitivity (turn units per fixed-point cursor pixel).
#[derive(Clone, Copy, Debug, PartialEq, Eq, Structural)]
pub struct CameraConfig {
    pub speed: i64,
    pub sensitivity: i64,
}

/// Net movement axes for one tick, each in `{-1, 0, +1}`: strafe (positive
/// right), vertical (positive up) and fore (positive backward, since the
/// camera looks toward negative `z` at zero yaw).
#[derive(Clone, Copy, Debug, PartialEq, Eq, Structural)]
pub struct MovementState {
    pub strafe: i8,
    pub vertical: i8,
    pub fore: i8,
}

impl MovementState {
    /// Bundle three sampled axis values.
    pub fn new(strafe: i8, vertical: i8, fore: i8) -> (m: MovementState)
        ensures
            m == (MovementState { strafe, vertical, fore }),
    {
        MovementState { strafe, vertical, fore }
    }
}

/// Everything one tick feeds the integrator.
#[derive(Clone, Copy, Debug, PartialEq, Eq, Structural)]
pub struct TickInput {
    pub dt: i64,
    pub axes: MovementState,
    pub dx: i64,
    pub dy: i64,
}

/// Poses the integrator preserves: position within the world bound, yaw
/// normalized to one turn, pitch within the clamp.
pub open spec fn pose_wf(p: CameraPose) -> bool {
    &&& -POS_BOUND <= p.x <= POS_BOUND
    &&& -POS_BOUND <= p.y <= POS_BOUND
    &&& -POS_BOUND <= p.z <= POS_BOUND
    &&& 0 <= p.yaw < FULL_TURN
    &&& -PITCH_LIMIT <= p.pitch <= PITCH_LIMIT
}

/// Configurations the integrator accepts.
pub open spec fn config_wf(c: CameraConfig) -> bool {
    &&& 0 <= c.speed <= SPEED_BOUND
    &&& 0 <= c.sensitivity <= ONE
}

/// Tick inputs the integrator accepts.
pub open spec fn input_wf(i: TickInput) -> bool {
    &&& 0 <= i.dt <= DT_BOUND
    &&& -1 <= i.axes.strafe <= 1
    &&& -1 <= i.axes.vertical <= 1
    &&& -1 <= i.axes.fore <= 1
    &&& -DELTA_BOUND <= i.dx <= DELTA_BOUND
    &&& -DELTA_BOUND <= i.dy <= DELTA_BOUND
}

/// One position coordinate's movement: the camera-space velocity component
/// scaled by speed, integrated over `dt`, added and saturated at the world
/// bound.
pub open spec fn step_coord_spec(pos: int, v: int, speed: int, dt: int) -> int {
    clamp_spec(pos + fx_mul_spec(fx_mul_spec(v, speed), dt), -POS_BOUND as int, POS_BOUND as int)
}

/// The pose after one tick: velocity axes rotated into world space by the
/// current yaw (the transpose of the view rotation, so walking and looking
/// agree), integrated over `dt`; yaw accumulated modulo a full turn; pitch
/// accumulated and clamped.
pub open spec fn step_spec(p: CameraPose, c: CameraConfig, i: TickInput) -> CameraPose {
    let sy = sin_spec(p.yaw as int);
    let cy = cos_spec(p.yaw as int);
    let vx = i.axes.strafe * cy + i.axes.fore * sy;
    let vy = i.axes.vertical * (ONE as int);
    let vz = i.axes.fore * cy - i.axes.strafe * sy;
    CameraPose {
        x: step_coord_spec(p.x as int, vx, c.speed as int, i.dt as int) as i64,
        y: step_coord_spec(p.y as int, vy, c.speed as int, i.dt as int) as i64,
        z: step_coord_spec(p.z as int, vz, c.speed as int, i.dt as int) as i64,
        yaw: ((p.yaw + fx_mul_spec(i.dx as int, c.sensitivity as int)) % (FULL_TURN as int)) as i64,
        pitch: clamp_spec(
            p.pitch + fx_mul_spec(i.dy as int, c.sensitivity as int),
            -PITCH_LIMIT as int,
            PITCH_LIMIT as int,
        ) as i64,
    }
}

/// The pose after replaying a whole sequence of ticks, first tick first.
pub open spec fn replay_spec(p: CameraPose, c: CameraConfig, inputs: Seq<TickInput>) -> CameraPose
    decreases inputs.len(),
{
    if inputs.len() == 0 {
        p
    } else {
        replay_spec(step_spec(p, c, inputs[0]), c, inputs.skip(1))
    }
}

/// An axis value in `{-1, 0, +1}` times a fixed-point value, exactly and
/// without growing the magnitude.
fn axis_scale(a: i8, v: i64) -> (r: i64)
    requires
        -1 <= a <= 1,
        -0x8000_0000 <= v <= 0x8000_0000,
    ensures
        r as int == a * v,
        fx_abs(r as int) <= fx_abs(v as int),
{
    if a == 1 {
        v
    } else if a == -1 {
        proof {
            assert((-1) * (v as int) == -(v as int)) by (nonlinear_arith);
        }
        -v
    } else {
        proof {
            assert(0 * (v as int) == 0) by (nonlinear_arith);
        }
        0
    }
}

/// One saturating position update.
fn step_coord(pos: i64, v: i64, speed: i64, dt: i64) -> (r: i64)
    requires
        -POS_BOUND <= pos <= POS_BOUND,
        -2 * ONE <= v <= 2 * ONE,
        0 <= speed <= SPEED_BOUND,
        0 <= dt <= DT_BOUND,
    ensures
        r as int == step_coord_spec(pos as int, v as int, speed as int, dt as int),
        -POS_BOUND <= r <= POS_BOUND,
{
    let scaled = fx_mul(v, speed);
    proof {
        lemma_fx_mul_bound(v as int, speed as int, 2 * ONE as int, SPEED_BOUND as int);
    }
    let step = fx_mul(scaled, dt);
    proof {
        lemma_fx_mul_bound(scaled as int, dt as int, 0x20_0000, DT_BOUND as int);
    }
    clamp(pos + step, -POS_BOUND, POS_BOUND)
}

/// The camera: its pose and the fixed constants it integrates with.
#[derive(Clone, Copy, Debug, PartialEq, Eq, Structural)]
pub struct Camera {
    pub pose: CameraPose,
    pub config: CameraConfig,
}

impl Camera {
    /// A camera at a starting pose.
    pub fn new(pose: CameraPose, config: CameraConfig) -> (c: Camera)
        requires
            pose_wf(pose),
            config_wf(config),
        ensures
            c.pose == pose,
            c.config == config,
            pose_wf(c.pose),
            config_wf(c.config),
    {
        Camera { pose, config }
    }

    /// Advance the pose by one tick.
    pub fn tick(&mut self, input: TickInput)
        requires
            pose_wf(old(self).pose),
            config_wf(old(self).config),
            input_wf(input),
        ensures
            final(self).config == old(self).config,
            final(self).pose == step_spec(old(self).pose, old(self).config, input),
            pose_wf(final(self).pose),
    {
        let sy = fx_sin(self.pose.yaw);
        let cy = fx_cos(self.pose.yaw);
        let vx = axis_scale(input.axes.strafe, cy) + axis_scale(input.axes.fore, sy);
        let vy = axis_scale(input.axes.vertical, ONE);
        let vz = axis_scale(input.axes.fore, cy) - axis_scale(input.axes.strafe, sy);
        let x = step_coord(self.pose.x, vx, self.config.speed, input.dt);
        let y = step_coord(self.pose.y, vy, self.config.speed, input.dt);
        let z = step_coord(self.pose.z, vz, self.config.speed, input.dt);

        let yaw_delta = fx_mul(input.dx, self.config.sensitivity);
        let shifted: i64 = self.pose.yaw + yaw_delta + 0x8000_0000_0000;
        let yaw = ((shifted as u64) % 65536) as i64;
        proof {
            vstd::arithmetic::div_mod::lemma_mod_multiples_vanish(
                0x8000_0000, self.pose.yaw + fx_mul_spec(
                    input.dx as int, self.config.sensitivity as int), 65536);
            vstd::arithmetic::div_mod::lemma_mod_bound(shifted as int, 65536);
        }

        let pitch_delta = fx_mul(input.dy, self.config.sensitivity);
        let pitch = clamp(self.pose.pitch + pitch_delta, -PITCH_LIMIT, PITCH_LIMIT);

        self.pose = CameraPose { x, y, z, yaw, pitch };
    }

    /// Replay a whole sequence of ticks from the current pose.
    pub fn replay(&mut self, inputs: &Vec<TickInput>)
        requires
            pose_wf(old(self).pose),
            config_wf(old(self).config),
            forall|i: int| 0 <= i < inputs@.len() ==> input_wf(#[trigger] inputs@[i]),
        ensures
            final(self).config == old(self).config,
            final(self).pose == replay_spec(old(self).pose, old(self).config, inputs@),
            pose_wf(final(self).pose),
    {
        let ghost start = self.pose;
        let ghost cfg = self.config;
        let mut i: usize = 0;
        proof {
            assert(inputs@.skip(0) =~= inputs@);
        }
        while i < inputs.len()
            invariant
                0 <= i <= inputs@.len(),
                pose_wf(self.pose),
                self.config == cfg,
                config_wf(cfg),
                forall|k: int| 0 <= k < inputs@.len() ==> input_wf(#[trigger] inputs@[k]),
                replay_spec(self.pose, cfg, inputs@.skip(i as int))
                    == replay_spec(start, cfg, inputs@),
            decreases inputs@.len() - i,
        {
            proof {
                assert(inputs@.skip(i as int)[0] == inputs@[i as int]);
                assert(inputs@.skip(i as int).skip(1) =~= inputs@.skip(i as int + 1));
            }
            self.tick(inputs[i]);
            i = i + 1;
        }
        proof {
            assert(inputs@.skip(inputs@.len() as int) =~= Seq::<TickInput>::empty());
        }
    }
}

/// Replaying the camera state machine twice with identical starting poses,
/// configurations and input sequences yields identical final poses.
pub proof fn lemma_replay_deterministic(
    p1: CameraPose, c1: CameraConfig, s1: Seq<TickInput>,
    p2: CameraPose, c2: CameraConfig, s2: Seq<TickInput>,
)
    requires
        p1 == p2,
        c1 == c2,
        s1 == s2,
    ensures
        replay_spec(p1, c1, s1) == replay_spec(p2, c2, s2),
{
}

/// A tick with `dt == 0` leaves the position untouched, whatever the axis
/// state; only yaw and pitch can move.
pub proof fn lemma_zero_dt_position_noop(p: CameraPose, c: CameraConfig, i: TickInput)
    requires
        pose_wf(p),
        i.dt == 0,
    ensures
        step_spec(p, c, i).x == p.x,
        step_spec(p, c, i).y == p.y,
        step_spec(p, c, i).z == p.z,
{
    let sy = sin_spec(p.yaw as int);
    let cy = cos_spec(p.yaw as int);
    let vx = i.axes.strafe * cy + i.axes.fore * sy;
    let vy = i.axes.vertical * (ONE as int);
    let vz = i.axes.fore * cy - i.axes.strafe * sy;
    lemma_fx_mul_zero(fx_mul_spec(vx, c.speed as int));
    lemma_fx_mul_zero(fx_mul_spec(vy, c.speed as int));
    lemma_fx_mul_zero(fx_mul_spec(vz, c.speed as int));
}

} // verus!
