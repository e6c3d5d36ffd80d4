//! The projection composer: the focal term against the real cotangent, the
//! aspect term, the degenerate-size refusal and the held matrix.

use reactive_camera::error::PipelineError;
use reactive_camera::fixed::ONE;
use reactive_camera::projection::{ProjectionComposer, focal_of_fov, perspective};

const FOV_60_DEG: i64 = 10923;
const NEAR_TENTH: i64 = 6554;
const FAR_1000: i64 = 1000 * 65536;

#[test]
fn focal_matches_the_real_cotangent() {
    // At a 60 degree field of view the focal term is 1/tan(30deg).
    let focal = focal_of_fov(FOV_60_DEG) as f64 / ONE as f64;
    let exact = 1.0 / (30.0f64.to_radians()).tan();
    assert!((focal - exact).abs() < 0.01, "focal {} vs {}", focal, exact);
}

#[test]
fn projection_entries_at_800_by_600() {
    let focal = focal_of_fov(FOV_60_DEG);
    let m = perspective(800, 600, focal, NEAR_TENTH, FAR_1000);
    // The focal term sits at row 1, column 1 untouched by the aspect.
    assert_eq!(m.m11, focal);
    // The aspect term divides the focal scale by w/h.
    assert_eq!(m.m00, focal * 600 / 800);
    // Depth mapping: (far + near) / (near - far) is just below -1.
    let m22 = m.m22 as f64 / ONE as f64;
    assert!((m22 - (-1.0002)).abs() < 0.001, "m22 {}", m22);
    // 2 * far * near / (near - far) is about -0.2.
    let m23 = m.m23 as f64 / ONE as f64;
    assert!((m23 - (-0.2)).abs() < 0.001, "m23 {}", m23);
    assert_eq!(m.m32, -ONE);
    assert_eq!((m.m01, m.m02, m.m03, m.m10, m.m12, m.m13), (0, 0, 0, 0, 0, 0));
    assert_eq!((m.m20, m.m21, m.m30, m.m31, m.m33), (0, 0, 0, 0, 0));
}

#[test]
fn zero_height_is_degenerate_and_holds_the_matrix() {
    let focal = focal_of_fov(FOV_60_DEG);
    let mut p = ProjectionComposer::new(800, 600, focal, NEAR_TENTH, FAR_1000);
    let before = p.matrix();
    let r = p.update(800, 0);
    assert_eq!(r, Err(PipelineError::DegenerateAspect));
    assert_eq!(p.matrix(), before);
}

#[test]
fn resize_recomputes_the_aspect() {
    let focal = focal_of_fov(FOV_60_DEG);
    let mut p = ProjectionComposer::new(800, 600, focal, NEAR_TENTH, FAR_1000);
    let before = p.matrix();
    assert_eq!(p.update(1200, 600), Ok(()));
    let after = p.matrix();
    assert_eq!(after.m00, focal * 600 / 1200);
    assert_eq!(after.m11, before.m11);
    assert_eq!(after.m22, before.m22);
    assert_eq!(after.m23, before.m23);
}

#[test]
fn extreme_aspect_is_degenerate_too() {
    let focal = focal_of_fov(FOV_60_DEG);
    let mut p = ProjectionComposer::new(800, 600, focal, NEAR_TENTH, FAR_1000);
    let before = p.matrix();
    assert_eq!(p.update(16384, 1), Err(PipelineError::DegenerateAspect));
    assert_eq!(p.matrix(), before);
}
