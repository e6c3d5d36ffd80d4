//! Projection composer: a perspective matrix derived from the live window
//! size, with fixed field-of-view, near and far parameters.
//!
//! The aspect ratio is recomputed on every size change; a degenerate or
//! unsupported size is refused and the previous matrix is held, so the
//! render loop never stalls.

use vstd::prelude::*;
use crate::error::PipelineError;
use crate::fixed::{ONE, fx_mul, fx_mul_spec, fx_div, fx_div_spec,
    lemma_fx_mul_bound, lemma_fx_div_bound};
use crate::trig::{fx_sin, fx_cos, sin_spec, cos_spec};

verus! {

/// Matrix entries stay within this magnitude (16.16 fixed point).
pub const MAT_BOUND: i64 = 0x4000_0000;

/// Window sides are supported up to this many pixels.
pub const SIZE_BOUND: u32 = 16384;

/// Aspect ratios are supported up to this, either way around.
pub const ASPECT_BOUND: u32 = 16;

/// The focal scale (the cotangent of half the field of view) stays within
/// this (16 in 16.16 fixed point).
pub const FOCAL_BOUND: i64 = 0x10_0000;

/// The near plane distance is at most this (8 units in 16.16 fixed point).
pub const NEAR_BOUND: i64 = 0x8_0000;

/// The far plane distance is at most this (1024 units in 16.16 fixed
/// point).
pub const FAR_BOUND: i64 = 0x400_0000;

/// The narrowest supported field of view in turn units (11.25 degrees).
pub const FOV_MIN: i64 = 2048;

/// The widest supported field of view in turn units (about 165 degrees).
pub const FOV_MAX: i64 = 30000;

/// A 4 by 4 matrix in 16.16 fixed point, row major, applied to column
/// vectors.
#[derive(Clone, Copy, Debug, PartialEq, Eq, Structural)]
pub struct Mat4 {
    pub m00: i64, pub m01: i64, pub m02: i64, pub m03: i64,
    pub m10: i64, pub m11: i64, pub m12: i64, pub m13: i64,
    pub m20: i64, pub m21: i64, pub m22: i64, pub m23: i64,
    pub m30: i64, pub m31: i64, pub m32: i64, pub m33: i64,
}

/// Every entry stays within `MAT_BOUND`.
pub open spec fn mat_wf(m: Mat4) -> bool {
    &&& -MAT_BOUND <= m.m00 <= MAT_BOUND && -MAT_BOUND <= m.m01 <= MAT_BOUND
    &&& -MAT_BOUND <= m.m02 <= MAT_BOUND && -MAT_BOUND <= m.m03 <= MAT_BOUND
    &&& -MAT_BOUND <= m.m10 <= MAT_BOUND && -MAT_BOUND <= m.m11 <= MAT_BOUND
    &&& -MAT_BOUND <= m.m12 <= MAT_BOUND && -MAT_BOUND <= m.m13 <= MAT_BOUND
    &&& -MAT_BOUND <= m.m20 <= MAT_BOUND && -MAT_BOUND <= m.m21 <= MAT_BOUND
    &&& -MAT_BOUND <= m.m22 <= MAT_BOUND && -MAT_BOUND <= m.m23 <= MAT_BOUND
    &&& -MAT_BOUND <= m.m30 <= MAT_BOUND && -MAT_BOUND <= m.m31 <= MAT_BOUND
    &&& -MAT_BOUND <= m.m32 <= MAT_BOUND && -MAT_BOUND <= m.m33 <= MAT_BOUND
}

/// The identity transform.
pub open spec fn mat_identity_spec() -> Mat4 {
    Mat4 {
        m00: ONE, m01: 0, m02: 0, m03: 0,
        m10: 0, m11: ONE, m12: 0, m13: 0,
        m20: 0, m21: 0, m22: ONE, m23: 0,
        m30: 0, m31: 0, m32: 0, m33: ONE,
    }
}

/// Window sizes the composer accepts: neither side zero or beyond
/// `SIZE_BOUND`, aspect ratio within `ASPECT_BOUND` either way.
pub open spec fn supported_size(w: u32, h: u32) -> bool {
    &&& 1 <= w <= SIZE_BOUND
    &&& 1 <= h <= SIZE_BOUND
    &&& h <= ASPECT_BOUND * w
    &&& w <= ASPECT_BOUND * h
}

/// Decide whether a window size is supported.
pub fn size_supported(w: u32, h: u32) -> (r: bool)
    ensures
        r == supported_size(w, h),
{
    w >= 1 && w <= SIZE_BOUND && h >= 1 && h <= SIZE_BOUND
        && h <= ASPECT_BOUND * w && w <= ASPECT_BOUND * h
}

/// Projection parameters the composer accepts.
pub open spec fn projection_params_wf(focal: i64, near: i64, far: i64) -> bool {
    &&& 1 <= focal <= FOCAL_BOUND
    &&& 1 <= near <= NEAR_BOUND
    &&& near + ONE <= far <= FAR_BOUND
}

/// The perspective matrix: focal scale over the aspect ratio, focal scale,
/// and the standard depth mapping of `[near, far]` onto clip space.
pub open spec fn perspective_spec(w: u32, h: u32, focal: i64, near: i64, far: i64) -> Mat4 {
    Mat4 {
        m00: ((focal * h) / (w as int)) as i64, m01: 0, m02: 0, m03: 0,
        m10: 0, m11: focal, m12: 0, m13: 0,
        m20: 0, m21: 0,
        m22: fx_div_spec(-(far + near), far - near) as i64,
        m23: fx_div_spec(-2 * fx_mul_spec(far as int, near as int), far - near) as i64,
        m30: 0, m31: 0, m32: (-ONE) as i64, m33: 0,
    }
}

/// Build the perspective matrix for a supported size and parameters.
pub fn perspective(w: u32, h: u32, focal: i64, near: i64, far: i64) -> (m: Mat4)
    requires
        supported_size(w, h),
        projection_params_wf(focal, near, far),
    ensures
        m == perspective_spec(w, h, focal, near, far),
        mat_wf(m),
{
    proof {
        assert((focal as int) * (h as int) <= (w as int) * (16 * focal as int)
            && (focal as int) * (h as int) <= 0x10_0000int * 16384)
            by (nonlinear_arith)
            requires 0 < focal <= 0x10_0000, 0 < h <= 16384, h <= 16 * (w as int);
    }
    let m00u: u64 = (focal as u64) * (h as u64) / (w as u64);
    proof {
        vstd::arithmetic::div_mod::lemma_div_is_ordered(
            (focal as int) * (h as int), (w as int) * (16 * focal as int), w as int);
        vstd::arithmetic::div_mod::lemma_div_multiples_vanish(16 * focal as int, w as int);
        vstd::arithmetic::div_mod::lemma_div_pos_is_pos((focal as int) * (h as int), w as int);
    }
    let m00: i64 = m00u as i64;

    let q = fx_mul(far, near);
    proof {
        lemma_fx_mul_bound(far as int, near as int, FAR_BOUND as int, NEAR_BOUND as int);
        lemma_fx_div_bound(-(far + near) as int, (far - near) as int, FAR_BOUND + NEAR_BOUND as int);
        lemma_fx_div_bound(-2 * (q as int), (far - near) as int, MAT_BOUND as int);
    }
    let m22 = fx_div(-(far + near), far - near);
    let m23 = fx_div(-2 * q, far - near);

    Mat4 {
        m00, m01: 0, m02: 0, m03: 0,
        m10: 0, m11: focal, m12: 0, m13: 0,
        m20: 0, m21: 0, m22, m23,
        m30: 0, m31: 0, m32: -ONE, m33: 0,
    }
}

/// The focal scale of a field of view: the cotangent of half the angle, in
/// 16.16 fixed point.
///
/// The result is pinned to the fixed-point sine and cosine of this crate,
/// so the composer's matrix is reproducible exactly.
pub fn focal_of_fov(fov: i64) -> (r: i64)
    requires
        FOV_MIN <= fov <= FOV_MAX,
    ensures
        r == fx_div_spec(
            cos_spec((fov as int) / 2) as int,
            sin_spec((fov as int) / 2) as int,
        ),
        1 <= r <= FOCAL_BOUND,
{
    let half: i64 = ((fov as u64) / 2) as i64;
    let s = fx_sin(half);
    let c = fx_cos(half);
    proof {
        lemma_sin_lower(half as int);
        lemma_cos_lower(half as int);
        // focal >= cos(half) >= 1
        vstd::arithmetic::div_mod::lemma_div_is_ordered_by_denominator(
            (c as int) * (ONE as int), s as int, ONE as int);
        vstd::arithmetic::div_mod::lemma_div_multiples_vanish(c as int, ONE as int);
        // focal <= (ONE * ONE) / 4096 == FOCAL_BOUND
        vstd::arithmetic::div_mod::lemma_div_is_ordered_by_denominator(
            (c as int) * (ONE as int), 4096, s as int);
        vstd::arithmetic::div_mod::lemma_div_is_ordered(
            (c as int) * (ONE as int), 65536int * 65536, 4096);
        vstd::arithmetic::div_mod::lemma_div_multiples_vanish(0x10_0000, 4096);
        assert((c as int) * (ONE as int) <= 65536int * 65536) by (nonlinear_arith)
            requires 0 <= c <= 65536;
    }
    fx_div(c, s)
}

/// On the half waves that halved fields of view reach, the sine is well
/// above zero: at least 6150 on `[1024, 15000]`.
proof fn lemma_sin_lower(x: int)
    requires
        1024 <= x <= 15000,
    ensures
        6150 <= sin_spec(x) <= ONE as int,
{
    crate::trig::lemma_sin_bounds(x);
    let t = 4 * x * (32768 - x);
    assert(4 * x * (32768 - x) >= 16384int * 7936) by (nonlinear_arith)
        requires 1024 <= x <= 15000;
    assert(4 * x * (32768 - x) <= 16384int * 65536) by (nonlinear_arith)
        requires 0 <= x <= 32768;
    vstd::arithmetic::div_mod::lemma_div_is_ordered(16384int * 7936, t, 16384);
    vstd::arithmetic::div_mod::lemma_div_is_ordered(t, 16384int * 65536, 16384);
    vstd::arithmetic::div_mod::lemma_div_multiples_vanish(7936, 16384);
    vstd::arithmetic::div_mod::lemma_div_multiples_vanish(65536, 16384);
    let p = t / 16384;
    assert(7936 <= p <= 65536);
    let c = (14746 * p) / (ONE as int);
    vstd::arithmetic::div_mod::lemma_div_pos_is_pos(14746 * p, ONE as int);
    assert(p * (50790 + c) >= 65536int * 6150) by (nonlinear_arith)
        requires p >= 7936, c >= 0;
    vstd::arithmetic::div_mod::lemma_div_is_ordered(
        65536int * 6150, p * (50790 + c), 65536);
    vstd::arithmetic::div_mod::lemma_div_multiples_vanish(6150, 65536);
}

/// On the same range the cosine is positive too: at least 8217.
proof fn lemma_cos_lower(x: int)
    requires
        1024 <= x <= 15000,
    ensures
        8217 <= cos_spec(x) <= ONE as int,
{
    crate::trig::lemma_cos_bounds(x);
    let y = x + 16384;
    assert(cos_spec(x) == sin_spec(y));
    let t = 4 * y * (32768 - y);
    assert(4 * y * (32768 - y) >= 16384int * 10604) by (nonlinear_arith)
        requires 17408 <= y <= 31384;
    assert(4 * y * (32768 - y) <= 16384int * 65536) by (nonlinear_arith)
        requires 0 <= y <= 32768;
    vstd::arithmetic::div_mod::lemma_div_is_ordered(16384int * 10604, t, 16384);
    vstd::arithmetic::div_mod::lemma_div_is_ordered(t, 16384int * 65536, 16384);
    vstd::arithmetic::div_mod::lemma_div_multiples_vanish(10604, 16384);
    vstd::arithmetic::div_mod::lemma_div_multiples_vanish(65536, 16384);
    let p = t / 16384;
    assert(10604 <= p <= 65536);
    let c = (14746 * p) / (ONE as int);
    vstd::arithmetic::div_mod::lemma_div_pos_is_pos(14746 * p, ONE as int);
    assert(p * (50790 + c) >= 65536int * 8217) by (nonlinear_arith)
        requires p >= 10604, c >= 0;
    vstd::arithmetic::div_mod::lemma_div_is_ordered(
        65536int * 8217, p * (50790 + c), 65536);
    vstd::arithmetic::div_mod::lemma_div_multiples_vanish(8217, 65536);
}

/// The live projection signal: fixed parameters plus the last good matrix,
/// held across degenerate sizes.
#[derive(Clone, Copy, Debug, PartialEq, Eq, Structural)]
pub struct ProjectionComposer {
    pub focal: i64,
    pub near: i64,
    pub far: i64,
    pub current: Mat4,
}

/// The composer's invariant: parameters in range and a well-formed matrix.
pub open spec fn composer_wf(p: ProjectionComposer) -> bool {
    &&& projection_params_wf(p.focal, p.near, p.far)
    &&& mat_wf(p.current)
}

impl ProjectionComposer {
    /// A composer over fixed parameters, primed with the matrix of an
    /// initial supported size.
    pub fn new(w: u32, h: u32, focal: i64, near: i64, far: i64) -> (p: ProjectionComposer)
        requires
            supported_size(w, h),
            projection_params_wf(focal, near, far),
        ensures
            p.focal == focal && p.near == near && p.far == far,
            p.current == perspective_spec(w, h, focal, near, far),
            composer_wf(p),
    {
        let current = perspective(w, h, focal, near, far);
        ProjectionComposer { focal, near, far, current }
    }

    /// React to a size change: recompute the matrix for a supported size;
    /// refuse a degenerate one and hold the previous matrix unchanged.
    pub fn update(&mut self, w: u32, h: u32) -> (r: Result<(), PipelineError>)
        requires
            composer_wf(*old(self)),
        ensures
            composer_wf(*final(self)),
            final(self).focal == old(self).focal,
            final(self).near == old(self).near,
            final(self).far == old(self).far,
            supported_size(w, h) ==> r is Ok && final(self).current
                == perspective_spec(w, h, old(self).focal, old(self).near, old(self).far),
            !supported_size(w, h) ==> r == Err::<(), PipelineError>(PipelineError::DegenerateAspect)
                && final(self).current == old(self).current,
    {
        if w >= 1 && w <= SIZE_BOUND && h >= 1 && h <= SIZE_BOUND
            && h <= ASPECT_BOUND * w && w <= ASPECT_BOUND * h {
            self.current = perspective(w, h, self.focal, self.near, self.far);
            Ok(())
        } else {
            Err(PipelineError::DegenerateAspect)
        }
    }

    /// The current projection matrix.
    pub fn matrix(&self) -> (m: Mat4)
        ensures
            m == self.current,
    {
        self.current
    }
}

} // verus!
