//! Frame composer: camera pose and projection become one
//! model-view-projection matrix per sample, packaged with the fixed mesh and
//! program references and the clear color into a drawable frame scene.
//!
//! The model transform is the identity (the geometry is static), so the
//! composed matrix is the projection times the view transform of the pose.

use vstd::prelude::*;
use crate::camera::{CameraPose, POS_BOUND, pose_wf};
use crate::fixed::{ONE, fx_mul, fx_mul_spec, fx_abs, lemma_fx_mul_bound};
use crate::projection::{Mat4, MAT_BOUND, mat_wf};
use crate::trig::{sin_spec, cos_spec, sin_signed_spec, cos_signed_spec,
    fx_sin, fx_cos, fx_sin_signed, fx_cos_signed};

verus! {

/// A product of two unit-bounded fixed-point values is unit bounded.
proof fn lemma_unit_mul(a: int, b: int)
    requires
        fx_abs(a) <= ONE as int,
        fx_abs(b) <= ONE as int,
    ensures
        -(ONE as int) <= fx_mul_spec(a, b) <= ONE as int,
{
    lemma_fx_mul_bound(a, b, ONE as int, ONE as int);
    vstd::arithmetic::div_mod::lemma_div_multiples_vanish(ONE as int, ONE as int);
}

/// A unit-bounded rotation entry cannot grow a position coordinate.
proof fn lemma_rot_mul(a: int, p: int)
    requires
        fx_abs(a) <= ONE as int,
        fx_abs(p) <= POS_BOUND as int,
    ensures
        -(POS_BOUND as int) <= fx_mul_spec(a, p) <= POS_BOUND as int,
{
    lemma_fx_mul_bound(a, p, ONE as int, POS_BOUND as int);
    vstd::arithmetic::div_mod::lemma_div_multiples_vanish(POS_BOUND as int, ONE as int);
}

/// The view transform of a pose: the inverse yaw and pitch rotations applied
/// after the translation that moves the camera to the origin.
pub open spec fn view_spec(p: CameraPose) -> Mat4 {
    let sy = sin_spec(p.yaw as int);
    let cy = cos_spec(p.yaw as int);
    let sp = sin_signed_spec(p.pitch as int);
    let cp = cos_signed_spec(p.pitch as int);
    let r00 = cy;
    let r01 = 0int;
    let r02 = -sy;
    let r10 = fx_mul_spec(sp, sy);
    let r11 = cp;
    let r12 = fx_mul_spec(sp, cy);
    let r20 = fx_mul_spec(cp, sy);
    let r21 = -sp;
    let r22 = fx_mul_spec(cp, cy);
    Mat4 {
        m00: r00 as i64, m01: r01 as i64, m02: r02 as i64,
        m03: (-(fx_mul_spec(r00, p.x as int) + fx_mul_spec(r01, p.y as int)
            + fx_mul_spec(r02, p.z as int))) as i64,
        m10: r10 as i64, m11: r11 as i64, m12: r12 as i64,
        m13: (-(fx_mul_spec(r10, p.x as int) + fx_mul_spec(r11, p.y as int)
            + fx_mul_spec(r12, p.z as int))) as i64,
        m20: r20 as i64, m21: r21 as i64, m22: r22 as i64,
        m23: (-(fx_mul_spec(r20, p.x as int) + fx_mul_spec(r21, p.y as int)
            + fx_mul_spec(r22, p.z as int))) as i64,
        m30: 0, m31: 0, m32: 0, m33: ONE,
    }
}

/// Build the view matrix of a pose.
pub fn view(p: &CameraPose) -> (m: Mat4)
    requires
        pose_wf(*p),
    ensures
        m == view_spec(*p),
        mat_wf(m),
{
    let sy = fx_sin(p.yaw);
    let cy = fx_cos(p.yaw);
    let sp = fx_sin_signed(p.pitch);
    let cp = fx_cos_signed(p.pitch);
    let r10 = fx_mul(sp, sy);
    let r12 = fx_mul(sp, cy);
    let r20 = fx_mul(cp, sy);
    let r22 = fx_mul(cp, cy);
    proof {
        lemma_unit_mul(sp as int, sy as int);
        lemma_unit_mul(sp as int, cy as int);
        lemma_unit_mul(cp as int, sy as int);
        lemma_unit_mul(cp as int, cy as int);
        lemma_rot_mul(cy as int, p.x as int);
        lemma_rot_mul(-sy as int, p.z as int);
        lemma_rot_mul(r10 as int, p.x as int);
        lemma_rot_mul(cp as int, p.y as int);
        lemma_rot_mul(r12 as int, p.z as int);
        lemma_rot_mul(r20 as int, p.x as int);
        lemma_rot_mul(-sp as int, p.y as int);
        lemma_rot_mul(r22 as int, p.z as int);
        lemma_rot_mul(0, p.y as int);
    }
    let t0 = -(fx_mul(cy, p.x) + fx_mul(0, p.y) + fx_mul(-sy, p.z));
    let t1 = -(fx_mul(r10, p.x) + fx_mul(cp, p.y) + fx_mul(r12, p.z));
    let t2 = -(fx_mul(r20, p.x) + fx_mul(-sp, p.y) + fx_mul(r22, p.z));
    proof {
        crate::fixed::lemma_fx_mul_zero(p.y as int);
        assert(0 * (p.y as int) == 0) by (nonlinear_arith);
    }
    Mat4 {
        m00: cy, m01: 0, m02: -sy, m03: t0,
        m10: r10, m11: cp, m12: r12, m13: t1,
        m20: r20, m21: -sp, m22: r22, m23: t2,
        m30: 0, m31: 0, m32: 0, m33: ONE,
    }
}

/// The fixed-point dot product of one row against one column.
pub open spec fn dot4_spec(
    a0: int, a1: int, a2: int, a3: int,
    b0: int, b1: int, b2: int, b3: int,
) -> int {
    fx_mul_spec(a0, b0) + fx_mul_spec(a1, b1) + fx_mul_spec(a2, b2) + fx_mul_spec(a3, b3)
}

/// One row-times-column entry of a matrix product.
fn dot4(a0: i64, a1: i64, a2: i64, a3: i64, b0: i64, b1: i64, b2: i64, b3: i64) -> (r: i64)
    requires
        -MAT_BOUND <= a0 <= MAT_BOUND, -MAT_BOUND <= a1 <= MAT_BOUND,
        -MAT_BOUND <= a2 <= MAT_BOUND, -MAT_BOUND <= a3 <= MAT_BOUND,
        -MAT_BOUND <= b0 <= MAT_BOUND, -MAT_BOUND <= b1 <= MAT_BOUND,
        -MAT_BOUND <= b2 <= MAT_BOUND, -MAT_BOUND <= b3 <= MAT_BOUND,
    ensures
        r as int == dot4_spec(
            a0 as int, a1 as int, a2 as int, a3 as int,
            b0 as int, b1 as int, b2 as int, b3 as int,
        ),
{
    fx_mul(a0, b0) + fx_mul(a1, b1) + fx_mul(a2, b2) + fx_mul(a3, b3)
}

/// The fixed-point matrix product, row major times row major.
pub open spec fn mat_mul_spec(a: Mat4, b: Mat4) -> Mat4 {
    Mat4 {
        m00: dot4_spec(a.m00 as int, a.m01 as int, a.m02 as int, a.m03 as int,
            b.m00 as int, b.m10 as int, b.m20 as int, b.m30 as int) as i64,
        m01: dot4_spec(a.m00 as int, a.m01 as int, a.m02 as int, a.m03 as int,
            b.m01 as int, b.m11 as int, b.m21 as int, b.m31 as int) as i64,
        m02: dot4_spec(a.m00 as int, a.m01 as int, a.m02 as int, a.m03 as int,
            b.m02 as int, b.m12 as int, b.m22 as int, b.m32 as int) as i64,
        m03: dot4_spec(a.m00 as int, a.m01 as int, a.m02 as int, a.m03 as int,
            b.m03 as int, b.m13 as int, b.m23 as int, b.m33 as int) as i64,
        m10: dot4_spec(a.m10 as int, a.m11 as int, a.m12 as int, a.m13 as int,
            b.m00 as int, b.m10 as int, b.m20 as int, b.m30 as int) as i64,
        m11: dot4_spec(a.m10 as int, a.m11 as int, a.m12 as int, a.m13 as int,
            b.m01 as int, b.m11 as int, b.m21 as int, b.m31 as int) as i64,
        m12: dot4_spec(a.m10 as int, a.m11 as int, a.m12 as int, a.m13 as int,
            b.m02 as int, b.m12 as int, b.m22 as int, b.m32 as int) as i64,
        m13: dot4_spec(a.m10 as int, a.m11 as int, a.m12 as int, a.m13 as int,
            b.m03 as int, b.m13 as int, b.m23 as int, b.m33 as int) as i64,
        m20: dot4_spec(a.m20 as int, a.m21 as int, a.m22 as int, a.m23 as int,
            b.m00 as int, b.m10 as int, b.m20 as int, b.m30 as int) as i64,
        m21: dot4_spec(a.m20 as int, a.m21 as int, a.m22 as int, a.m23 as int,
            b.m01 as int, b.m11 as int, b.m21 as int, b.m31 as int) as i64,
        m22: dot4_spec(a.m20 as int, a.m21 as int, a.m22 as int, a.m23 as int,
            b.m02 as int, b.m12 as int, b.m22 as int, b.m32 as int) as i64,
        m23: dot4_spec(a.m20 as int, a.m21 as int, a.m22 as int, a.m23 as int,
            b.m03 as int, b.m13 as int, b.m23 as int, b.m33 as int) as i64,
        m30: dot4_spec(a.m30 as int, a.m31 as int, a.m32 as int, a.m33 as int,
            b.m00 as int, b.m10 as int, b.m20 as int, b.m30 as int) as i64,
        m31: dot4_spec(a.m30 as int, a.m31 as int, a.m32 as int, a.m33 as int,
            b.m01 as int, b.m11 as int, b.m21 as int, b.m31 as int) as i64,
        m32: dot4_spec(a.m30 as int, a.m31 as int, a.m32 as int, a.m33 as int,
            b.m02 as int, b.m12 as int, b.m22 as int, b.m32 as int) as i64,
        m33: dot4_spec(a.m30 as int, a.m31 as int, a.m32 as int, a.m33 as int,
            b.m03 as int, b.m13 as int, b.m23 as int, b.m33 as int) as i64,
    }
}

/// Multiply two well-formed fixed-point matrices.
pub fn mat_mul(a: &Mat4, b: &Mat4) -> (r: Mat4)
    requires
        mat_wf(*a),
        mat_wf(*b),
    ensures
        r == mat_mul_spec(*a, *b),
{
    Mat4 {
        m00: dot4(a.m00, a.m01, a.m02, a.m03, b.m00, b.m10, b.m20, b.m30),
        m01: dot4(a.m00, a.m01, a.m02, a.m03, b.m01, b.m11, b.m21, b.m31),
        m02: dot4(a.m00, a.m01, a.m02, a.m03, b.m02, b.m12, b.m22, b.m32),
        m03: dot4(a.m00, a.m01, a.m02, a.m03, b.m03, b.m13, b.m23, b.m33),
        m10: dot4(a.m10, a.m11, a.m12, a.m13, b.m00, b.m10, b.m20, b.m30),
        m11: dot4(a.m10, a.m11, a.m12, a.m13, b.m01, b.m11, b.m21, b.m31),
        m12: dot4(a.m10, a.m11, a.m12, a.m13, b.m02, b.m12, b.m22, b.m32),
        m13: dot4(a.m10, a.m11, a.m12, a.m13, b.m03, b.m13, b.m23, b.m33),
        m20: dot4(a.m20, a.m21, a.m22, a.m23, b.m00, b.m10, b.m20, b.m30),
        m21: dot4(a.m20, a.m21, a.m22, a.m23, b.m01, b.m11, b.m21, b.m31),
        m22: dot4(a.m20, a.m21, a.m22, a.m23, b.m02, b.m12, b.m22, b.m32),
        m23: dot4(a.m20, a.m21, a.m22, a.m23, b.m03, b.m13, b.m23, b.m33),
        m30: dot4(a.m30, a.m31, a.m32, a.m33, b.m00, b.m10, b.m20, b.m30),
        m31: dot4(a.m30, a.m31, a.m32, a.m33, b.m01, b.m11, b.m21, b.m31),
        m32: dot4(a.m30, a.m31, a.m32, a.m33, b.m02, b.m12, b.m22, b.m32),
        m33: dot4(a.m30, a.m31, a.m32, a.m33, b.m03, b.m13, b.m23, b.m33),
    }
}

/// The camera's movement rotation and the view rotation are mutual inverses
/// in the yaw plane: at level pitch, the view transform maps the world
/// direction of a pure strafe step (per the camera's `step_spec`, the x-z
/// pair `(cos yaw, -sin yaw)`) to a camera-space direction with no forward
/// part, and the world direction of a pure fore step (`(sin yaw, cos yaw)`)
/// to one with no sideways part. Walking and looking therefore agree: the
/// rendered scene and the motion are never mirror images.
pub proof fn lemma_view_inverts_movement(p: CameraPose)
    requires
        pose_wf(p),
        p.pitch == 0,
    ensures
        ({
            let m = view_spec(p);
            let sy = sin_spec(p.yaw as int);
            let cy = cos_spec(p.yaw as int);
            &&& fx_mul_spec(m.m20 as int, cy) + fx_mul_spec(m.m22 as int, -sy) == 0
            &&& fx_mul_spec(m.m00 as int, sy) + fx_mul_spec(m.m02 as int, cy) == 0
        }),
{
    let sy = sin_spec(p.yaw as int);
    let cy = cos_spec(p.yaw as int);
    crate::trig::lemma_sin_bounds(p.yaw as int);
    crate::trig::lemma_cos_bounds(p.yaw as int);
    crate::trig::lemma_sin_cardinal();
    // At level pitch the rotation rows reduce to the yaw block.
    assert(sin_signed_spec(p.pitch as int) == 0);
    assert(cos_signed_spec(p.pitch as int) == ONE as int);
    crate::fixed::lemma_fx_mul_comm(ONE as int, sy);
    crate::fixed::lemma_fx_mul_comm(ONE as int, cy);
    lemma_fx_mul_one(sy);
    lemma_fx_mul_one(cy);
    assert(view_spec(p).m20 as int == sy);
    assert(view_spec(p).m22 as int == cy);
    assert(view_spec(p).m00 as int == cy);
    assert(view_spec(p).m02 as int == -sy);
    // The cross terms cancel exactly: the truncation is symmetric and the
    // product commutative.
    crate::fixed::lemma_fx_mul_comm(sy, cy);
    crate::fixed::lemma_fx_mul_neg(cy, sy);
    crate::fixed::lemma_fx_mul_neg(sy, -cy);
    crate::fixed::lemma_fx_mul_comm(-sy, cy);
    crate::fixed::lemma_fx_mul_comm(cy, -sy);
}

/// One is neutral in the fixed-point product.
proof fn lemma_fx_mul_one(a: int)
    ensures
        fx_mul_spec(a, ONE as int) == a,
{
    if a >= 0 {
        assert(a * (ONE as int) == (ONE as int) * a) by (nonlinear_arith);
        vstd::arithmetic::div_mod::lemma_div_multiples_vanish(a, ONE as int);
        assert(a * (ONE as int) >= 0) by (nonlinear_arith)
            requires a >= 0;
    } else {
        assert(-(a * (ONE as int)) == (ONE as int) * -a) by (nonlinear_arith);
        vstd::arithmetic::div_mod::lemma_div_multiples_vanish(-a, ONE as int);
        assert(a * (ONE as int) < 0) by (nonlinear_arith)
            requires a < 0;
    }
}

/// The identity model transform is neutral in the fixed-point matrix
/// product: projection times view times model is projection times view, so
/// `compose` loses nothing by skipping the model factor.
pub proof fn lemma_identity_model_is_neutral(m: Mat4)
    ensures
        mat_mul_spec(m, crate::projection::mat_identity_spec()) == m,
{
    lemma_fx_mul_one(m.m00 as int); lemma_fx_mul_one(m.m01 as int);
    lemma_fx_mul_one(m.m02 as int); lemma_fx_mul_one(m.m03 as int);
    lemma_fx_mul_one(m.m10 as int); lemma_fx_mul_one(m.m11 as int);
    lemma_fx_mul_one(m.m12 as int); lemma_fx_mul_one(m.m13 as int);
    lemma_fx_mul_one(m.m20 as int); lemma_fx_mul_one(m.m21 as int);
    lemma_fx_mul_one(m.m22 as int); lemma_fx_mul_one(m.m23 as int);
    lemma_fx_mul_one(m.m30 as int); lemma_fx_mul_one(m.m31 as int);
    lemma_fx_mul_one(m.m32 as int); lemma_fx_mul_one(m.m33 as int);
    assert forall|a: int| fx_mul_spec(a, 0) == 0 by {
        crate::fixed::lemma_fx_mul_zero(a);
    }
}

/// The fixed references and clear color a scene is packaged with.
#[derive(Clone, Copy, Debug, PartialEq, Eq, Structural)]
pub struct SceneConfig {
    pub clear_red: i64,
    pub clear_green: i64,
    pub clear_blue: i64,
    pub clear_alpha: i64,
    pub mesh: u32,
    pub program: u32,
}

/// One drawable frame: a clear color, the composed model-view-projection
/// matrix and the mesh and program references. A transient value, rebuilt
/// on every sample.
#[derive(Clone, Copy, Debug, PartialEq, Eq, Structural)]
pub struct FrameScene {
    pub clear_red: i64,
    pub clear_green: i64,
    pub clear_blue: i64,
    pub clear_alpha: i64,
    pub mvp: Mat4,
    pub mesh: u32,
    pub program: u32,
}

/// A drawable unit: a closed variant set in place of dynamic dispatch over
/// trait objects. `Empty` draws nothing, `Triangle` one scene, `Composite`
/// a fixed sequence of scenes in order.
#[derive(Clone, Debug)]
pub enum Drawable {
    Empty,
    Triangle(FrameScene),
    Composite(Vec<FrameScene>),
}

/// The draw calls a backend issues for a drawable, in order.
pub open spec fn draw_calls_spec(d: Drawable) -> Seq<FrameScene> {
    match d {
        Drawable::Empty => Seq::empty(),
        Drawable::Triangle(s) => seq![s],
        Drawable::Composite(scenes) => scenes@,
    }
}

/// Dispatch one drawable into the ordered list of draw calls it stands for.
pub fn draw_calls(d: Drawable) -> (calls: Vec<FrameScene>)
    ensures
        calls@ == draw_calls_spec(d),
{
    match d {
        Drawable::Empty => Vec::new(),
        Drawable::Triangle(s) => {
            let mut calls = Vec::new();
            calls.push(s);
            proof {
                assert(calls@ =~= seq![s]);
            }
            calls
        },
        Drawable::Composite(scenes) => scenes,
    }
}

/// Compose one frame: the projection times the view of the pose (the model
/// transform is the identity), packaged with the scene configuration.
pub fn compose(pose: &CameraPose, projection: &Mat4, config: &SceneConfig) -> (s: FrameScene)
    requires
        pose_wf(*pose),
        mat_wf(*projection),
    ensures
        s.mvp == mat_mul_spec(*projection, view_spec(*pose)),
        s.clear_red == config.clear_red,
        s.clear_green == config.clear_green,
        s.clear_blue == config.clear_blue,
        s.clear_alpha == config.clear_alpha,
        s.mesh == config.mesh,
        s.program == config.program,
{
    let v = view(pose);
    let mvp = mat_mul(projection, &v);
    FrameScene {
        clear_red: config.clear_red,
        clear_green: config.clear_green,
        clear_blue: config.clear_blue,
        clear_alpha: config.clear_alpha,
        mvp,
        mesh: config.mesh,
        program: config.program,
    }
}

} // verus!
