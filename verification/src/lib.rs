//! A pull-based reactive pipeline that derives a camera pose, a perspective
//! projection and a composed frame scene from timer ticks and window input.
//!
//! All scalar quantities (seconds, pixels, world units, angles) are carried in
//! 16.16 fixed point: an `i64` holds the quantity multiplied by 65536. Angles
//! are measured in turn units, 65536 units to a full turn.

pub mod camera;
pub mod error;
pub mod fixed;
pub mod frame;
pub mod input;
pub mod motion;
pub mod output;
pub mod pipeline;
pub mod projection;
pub mod tick;
pub mod trig;
