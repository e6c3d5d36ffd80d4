//! Error taxonomy of the pipeline.

use vstd::prelude::*;

verus! {

/// Everything that can go wrong while building or driving the pipeline.
///
/// `ClockUnavailable` and `ShaderCompileError` are construction-time and
/// fatal; `DegenerateAspect` is absorbed per frame by holding the last good
/// projection; `GammaUnsupported` is a typed refusal returned to the caller.
#[derive(Clone, Copy, Debug, PartialEq, Eq, Structural)]
pub enum PipelineError {
    ClockUnavailable,
    ShaderCompileError,
    DegenerateAspect,
    GammaUnsupported,
}

impl PipelineError {
    /// A short diagnostic name for the error.
    pub fn describe(&self) -> (r: &'static str)
        ensures
            r@ == self.describe_spec(),
    {
        match self {
            PipelineError::ClockUnavailable => "clock unavailable",
            PipelineError::ShaderCompileError => "shader compile error",
            PipelineError::DegenerateAspect => "degenerate aspect ratio",
            PipelineError::GammaUnsupported => "gamma conversion unsupported",
        }
    }

    /// The diagnostic name, as a sequence of characters.
    pub open spec fn describe_spec(&self) -> Seq<char> {
        match self {
            PipelineError::ClockUnavailable => "clock unavailable"@,
            PipelineError::ShaderCompileError => "shader compile error"@,
            PipelineError::DegenerateAspect => "degenerate aspect ratio"@,
            PipelineError::GammaUnsupported => "gamma conversion unsupported"@,
        }
    }
}

} // verus!
