//! The assembled pipeline: input adapter, relative motion tracker, camera
//! state machine, projection composer and frame composer behind one
//! pull-based sampling surface.
//!
//! Raw events go through `handle_event`, ticks through `tick`, and `sample`
//! reads every upstream signal at one consistent instant. Only the camera
//! pose and the motion tracker's previous sample persist across frames;
//! everything else is a pure function of the latest upstream values.

use vstd::prelude::*;
use crate::camera::{Camera, CameraPose, CameraConfig, MovementState, TickInput,
    pose_wf, config_wf, input_wf, step_spec, DT_BOUND};
use crate::error::PipelineError;
use crate::frame::{FrameScene, SceneConfig, compose, mat_mul_spec, view_spec};
use crate::input::{ButtonConfig, InputAdapter, InputEvent, adapter_wf,
    adapter_step_spec, direction_value_spec, tracker_init_spec};
use crate::motion::{RelativeMotion, motion_wf, motion_delta_spec, sample_wf};
use crate::projection::{ProjectionComposer, composer_wf, supported_size,
    perspective_spec, projection_params_wf, FOV_MIN, FOV_MAX, NEAR_BOUND, FAR_BOUND,
    focal_of_fov};
use crate::fixed::{ONE, fx_div_spec};
use crate::trig::{sin_spec, cos_spec};

verus! {

/// The whole signal graph, sampled by the render loop driver.
#[derive(Clone, Copy, Debug)]
pub struct Pipeline {
    pub adapter: InputAdapter,
    pub motion: RelativeMotion,
    pub camera: Camera,
    pub projection: ProjectionComposer,
    pub scene: SceneConfig,
}

/// Every component holds its own invariant.
pub open spec fn pipeline_wf(p: Pipeline) -> bool {
    &&& adapter_wf(p.adapter)
    &&& motion_wf(p.motion)
    &&& pose_wf(p.camera.pose)
    &&& config_wf(p.camera.config)
    &&& composer_wf(p.projection)
}

/// The tick input one pipeline tick feeds the camera: the current axis
/// values, and the cursor delta against the previous tick's sample.
pub open spec fn tick_input_spec(p: Pipeline, dt: i64) -> TickInput {
    let cursor = (p.adapter.cursor_x, p.adapter.cursor_y);
    TickInput {
        dt,
        axes: MovementState {
            strafe: direction_value_spec(p.adapter.strafe) as i8,
            vertical: direction_value_spec(p.adapter.vertical) as i8,
            fore: direction_value_spec(p.adapter.fore) as i8,
        },
        dx: motion_delta_spec(p.motion, cursor).0 as i64,
        dy: motion_delta_spec(p.motion, cursor).1 as i64,
    }
}

impl Pipeline {
    /// Assemble the pipeline: derived signals start neutral, the camera at
    /// its starting pose, the projection primed for the initial size.
    pub fn new(
        buttons: &ButtonConfig,
        width: u32,
        height: u32,
        fov: i64,
        near: i64,
        far: i64,
        start: CameraPose,
        config: CameraConfig,
        scene: SceneConfig,
    ) -> (p: Pipeline)
        requires
            supported_size(width, height),
            FOV_MIN <= fov <= FOV_MAX,
            1 <= near <= NEAR_BOUND,
            near + ONE <= far <= FAR_BOUND,
            pose_wf(start),
            config_wf(config),
        ensures
            pipeline_wf(p),
            p.adapter.strafe == tracker_init_spec(buttons.right, buttons.left),
            p.adapter.vertical == tracker_init_spec(buttons.up, buttons.down),
            p.adapter.fore == tracker_init_spec(buttons.backward, buttons.forward),
            p.adapter.cursor_x == 0 && p.adapter.cursor_y == 0,
            p.adapter.width == width && p.adapter.height == height,
            p.motion.previous.is_none(),
            p.camera.pose == start,
            p.camera.config == config,
            p.projection.focal == fx_div_spec(
                cos_spec((fov as int) / 2) as int,
                sin_spec((fov as int) / 2) as int,
            ),
            p.projection.near == near && p.projection.far == far,
            p.projection.current == perspective_spec(
                width, height, p.projection.focal, near, far),
            p.scene == scene,
    {
        let focal = focal_of_fov(fov);
        Pipeline {
            adapter: InputAdapter::new(buttons, width, height),
            motion: RelativeMotion::new(),
            camera: Camera::new(start, config),
            projection: ProjectionComposer::new(width, height, focal, near, far),
            scene,
        }
    }

    /// Feed one raw window event through the derived signals. A resize
    /// recomputes the projection; a degenerate size is reported and the
    /// previous matrix held, so sampling never stalls.
    pub fn handle_event(&mut self, ev: &InputEvent) -> (r: Result<(), PipelineError>)
        requires
            pipeline_wf(*old(self)),
        ensures
            pipeline_wf(*final(self)),
            final(self).adapter == adapter_step_spec(old(self).adapter, *ev),
            final(self).motion == old(self).motion,
            final(self).camera == old(self).camera,
            final(self).scene == old(self).scene,
            final(self).projection.focal == old(self).projection.focal,
            final(self).projection.near == old(self).projection.near,
            final(self).projection.far == old(self).projection.far,
            match *ev {
                InputEvent::Resized(w, h) => {
                    &&& supported_size(w, h) ==> r is Ok
                        && final(self).projection.current == perspective_spec(
                            w, h, old(self).projection.focal,
                            old(self).projection.near, old(self).projection.far)
                    &&& !supported_size(w, h) ==> r == Err::<(), PipelineError>(
                            PipelineError::DegenerateAspect)
                        && final(self).projection == old(self).projection
                },
                _ => r is Ok && final(self).projection == old(self).projection,
            },
    {
        self.adapter.handle_event(ev);
        match ev {
            InputEvent::Resized(w, h) => self.projection.update(*w, *h),
            _ => Ok(()),
        }
    }

    /// Advance one tick: sample the cursor, diff it against the previous
    /// tick's sample, read the axis values and integrate the camera.
    pub fn tick(&mut self, dt: i64)
        requires
            pipeline_wf(*old(self)),
            0 <= dt <= DT_BOUND,
        ensures
            pipeline_wf(*final(self)),
            final(self).adapter == old(self).adapter,
            final(self).projection == old(self).projection,
            final(self).scene == old(self).scene,
            final(self).camera.config == old(self).camera.config,
            final(self).camera.pose == step_spec(
                old(self).camera.pose,
                old(self).camera.config,
                tick_input_spec(*old(self), dt),
            ),
            final(self).motion.previous == Some::<(i64, i64)>(
                (old(self).adapter.cursor_x, old(self).adapter.cursor_y)),
    {
        let cursor = self.adapter.cursor();
        let delta = self.motion.tick(cursor);
        let axes = MovementState::new(
            self.adapter.strafe.value(),
            self.adapter.vertical.value(),
            self.adapter.fore.value(),
        );
        let input = TickInput { dt, axes, dx: delta.0, dy: delta.1 };
        self.camera.tick(input);
    }

    /// Sample the composed scene signal once: every upstream value is read
    /// at this single instant and combined into one drawable frame.
    pub fn sample(&self) -> (s: FrameScene)
        requires
            pipeline_wf(*self),
        ensures
            s.mvp == mat_mul_spec(self.projection.current, view_spec(self.camera.pose)),
            s.clear_red == self.scene.clear_red,
            s.clear_green == self.scene.clear_green,
            s.clear_blue == self.scene.clear_blue,
            s.clear_alpha == self.scene.clear_alpha,
            s.mesh == self.scene.mesh,
            s.program == self.scene.program,
    {
        let projection = self.projection.matrix();
        compose(&self.camera.pose, &projection, &self.scene)
    }

    /// The current camera pose.
    pub fn pose(&self) -> (r: CameraPose)
        ensures
            r == self.camera.pose,
    {
        self.camera.pose
    }
}

} // verus!
