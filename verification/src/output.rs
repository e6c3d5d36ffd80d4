//! The render output: a model of the window-backed framebuffer target,
//! carrying its clear mask, gamma state and latest size as plain values.
//!
//! The backend work itself (making a context current, swapping buffers)
//! stays outside this crate; these are the decisions and bookkeeping around
//! it.

use vstd::prelude::*;
use crate::error::PipelineError;

verus! {

/// Clear the color planes.
pub const MASK_COLOR: u8 = 1;

/// Clear the depth plane.
pub const MASK_DEPTH: u8 = 2;

/// Clear the stencil plane.
pub const MASK_STENCIL: u8 = 4;

/// Clear color, depth and stencil together.
pub const MASK_ALL: u8 = 7;

/// Gamma handling of the output: pass colors through unchanged, or convert.
#[derive(Clone, Copy, Debug, PartialEq, Eq, Structural)]
pub enum Gamma {
    Original,
    Convert,
}

/// A wrapper around the window that stands for the render target.
#[derive(Clone, Copy, Debug, PartialEq, Eq, Structural)]
pub struct Output {
    pub window: u64,
    pub frame: u64,
    pub width: u32,
    pub height: u32,
    pub mask: u8,
    pub supports_gamma_conversion: bool,
    pub gamma: Gamma,
}

impl Output {
    /// A fresh output over a window and its main framebuffer: every plane
    /// cleared, gamma passed through, conversion assumed supported.
    pub fn init(window: u64, frame: u64, width: u32, height: u32) -> (o: Output)
        ensures
            o.window == window,
            o.frame == frame,
            o.width == width,
            o.height == height,
            o.mask == MASK_ALL,
            o.supports_gamma_conversion,
            o.gamma == Gamma::Original,
    {
        Output {
            window,
            frame,
            width,
            height,
            mask: MASK_ALL,
            supports_gamma_conversion: true,
            gamma: Gamma::Original,
        }
    }

    /// Try to set the gamma conversion: passing colors through is always
    /// accepted, conversion only where the output supports it; a refusal is
    /// the typed `GammaUnsupported` failure and changes nothing.
    pub fn set_gamma(&mut self, gamma: Gamma) -> (r: Result<(), PipelineError>)
        ensures
            old(self).supports_gamma_conversion || gamma == Gamma::Original ==> r is Ok
                && *final(self) == (Output { gamma, ..*old(self) }),
            !(old(self).supports_gamma_conversion || gamma == Gamma::Original)
                ==> r == Err::<(), PipelineError>(PipelineError::GammaUnsupported)
                && *final(self) == *old(self),
    {
        if self.supports_gamma_conversion || gamma == Gamma::Original {
            self.gamma = gamma;
            Ok(())
        } else {
            Err(PipelineError::GammaUnsupported)
        }
    }

    /// The main framebuffer handle.
    pub fn get_handle(&self) -> (r: Option<u64>)
        ensures
            r == Some(self.frame),
    {
        Some(self.frame)
    }

    /// The latest known window size.
    pub fn get_size(&self) -> (r: (u32, u32))
        ensures
            r.0 == self.width && r.1 == self.height,
    {
        (self.width, self.height)
    }

    /// Which planes a clear touches.
    pub fn get_mask(&self) -> (r: u8)
        ensures
            r == self.mask,
    {
        self.mask
    }

    /// The current gamma handling.
    pub fn get_gamma(&self) -> (r: Gamma)
        ensures
            r == self.gamma,
    {
        self.gamma
    }
}

/// Surface the backend's program linking outcome: a handle on success, the
/// typed `ShaderCompileError` where the backend rejected the source.
pub fn program_from_backend(compiled: Option<u32>) -> (r: Result<u32, PipelineError>)
    ensures
        compiled is Some ==> r == Ok::<u32, PipelineError>(compiled->0),
        compiled is None ==> r == Err::<u32, PipelineError>(PipelineError::ShaderCompileError),
{
    match compiled {
        Some(handle) => Ok(handle),
        None => Err(PipelineError::ShaderCompileError),
    }
}

} // verus!
