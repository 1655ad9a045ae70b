//! Crop normalization and mirroring on concrete values.

use capture_core::geom::{ContentSize, PixelRect, UvCoord, UvRect, mirror_horizontal, uv_of_crop};

fn frac(c: UvCoord) -> f64 {
    c.num as f64 / c.den as f64
}

#[test]
fn uv_crop_exact_scenario() {
    // A region capture of {x:100, y:100, w:400, h:300} against captured
    // content of 1920 x 1080.
    let crop = PixelRect { left: 100, top: 100, right: 500, bottom: 400 };
    let content = ContentSize { width: 1920, height: 1080 };
    let uv = uv_of_crop(crop, content).expect("content is usable");
    let tol = 1e-3;
    assert!((frac(uv.u_min) - 0.0521).abs() < tol);
    assert!((frac(uv.v_min) - 0.0926).abs() < tol);
    assert!((frac(uv.u_max) - 0.2604).abs() < tol);
    assert!((frac(uv.v_max) - 0.3704).abs() < tol);
}

#[test]
fn uv_crop_normalized_in_bounds() {
    // A crop within the content bounds gives 0 <= u_min < u_max <= 1 and
    // 0 <= v_min < v_max <= 1, as exact rationals.
    let crop = PixelRect { left: 10, top: 20, right: 600, bottom: 440 };
    let content = ContentSize { width: 800, height: 600 };
    let uv = uv_of_crop(crop, content).unwrap();
    let lt = |a: UvCoord, b: UvCoord| (a.num as u64) * (b.den as u64) < (b.num as u64) * (a.den as u64);
    assert!(uv.u_min.num == 0 || 0 < uv.u_min.num);
    assert!(lt(uv.u_min, uv.u_max));
    assert!(uv.u_max.num <= uv.u_max.den);
    assert!(lt(uv.v_min, uv.v_max));
    assert!(uv.v_max.num <= uv.v_max.den);
}

#[test]
fn uv_crop_clamps_out_of_bounds() {
    // An edge beyond the content is confined to it.
    let crop = PixelRect { left: -50, top: 10, right: 900, bottom: 500 };
    let content = ContentSize { width: 800, height: 600 };
    let uv = uv_of_crop(crop, content).unwrap();
    assert_eq!(uv.u_min, UvCoord { num: 0, den: 800 });
    assert_eq!(uv.u_max, UvCoord { num: 800, den: 800 });
    assert_eq!(uv.v_min, UvCoord { num: 10, den: 600 });
    assert_eq!(uv.v_max, UvCoord { num: 500, den: 600 });
}

#[test]
fn uv_crop_degenerate_content_is_none() {
    let crop = PixelRect { left: 0, top: 0, right: 10, bottom: 10 };
    assert!(uv_of_crop(crop, ContentSize { width: 0, height: 1080 }).is_none());
    assert!(uv_of_crop(crop, ContentSize { width: 1920, height: 0 }).is_none());
    assert!(uv_of_crop(crop, ContentSize { width: -3, height: 5 }).is_none());
}

#[test]
fn mirror_twice_restores_rect() {
    let uv = UvRect {
        u_min: UvCoord { num: 1, den: 8 },
        v_min: UvCoord { num: 2, den: 8 },
        u_max: UvCoord { num: 5, den: 8 },
        v_max: UvCoord { num: 7, den: 8 },
    };
    let once = mirror_horizontal(uv);
    assert_eq!(once.u_min, uv.u_max);
    assert_eq!(once.u_max, uv.u_min);
    assert_eq!(once.v_min, uv.v_min);
    assert_eq!(once.v_max, uv.v_max);
    let twice = mirror_horizontal(once);
    assert_eq!(twice, uv);
}
