use soccerbot::math::{abs, clamp, div_trunc, isqrt, lerp, max, min, mul_milli};
use soccerbot::vec2::Vec2;

#[test]
fn scalar_helpers() {
    assert_eq!(min(3, 5), 3);
    assert_eq!(max(3, 5), 5);
    assert_eq!(clamp(7, 0, 5), 5);
    assert_eq!(clamp(-7, 0, 5), 0);
    assert_eq!(clamp(3, 0, 5), 3);
    assert_eq!(abs(-42), 42);
    assert_eq!(abs(42), 42);
}

#[test]
fn truncating_division_rounds_toward_zero() {
    assert_eq!(div_trunc(7, 2), 3);
    assert_eq!(div_trunc(-7, 2), -3);
    assert_eq!(mul_milli(500, 500), 250);
    assert_eq!(mul_milli(-500, 500), -250);
}

#[test]
fn lerp_endpoints_are_exact() {
    assert_eq!(lerp(-3000, 9000, 0), -3000);
    assert_eq!(lerp(-3000, 9000, 1000), 9000);
    assert_eq!(lerp(0, 1000, 500), 500);
    // the fraction is clamped into [0, 1000]
    assert_eq!(lerp(0, 1000, 2500), 1000);
    assert_eq!(lerp(0, 1000, -2500), 0);
}

#[test]
fn isqrt_is_floor_of_square_root() {
    assert_eq!(isqrt(0), 0);
    assert_eq!(isqrt(1), 1);
    assert_eq!(isqrt(3), 1);
    assert_eq!(isqrt(4), 2);
    assert_eq!(isqrt(999_999), 999);
    assert_eq!(isqrt(1_000_000), 1000);
    assert_eq!(isqrt(500_000), 707);
    assert_eq!(isqrt(i64::MAX), 3_037_000_499);
}

#[test]
fn vec2_operations() {
    let a = Vec2 { x: 3000, y: 4000 };
    let b = Vec2 { x: -1000, y: 2000 };
    let s = a.plus(&b);
    assert_eq!((s.x, s.y), (2000, 6000));
    let d = a.minus(&b);
    assert_eq!((d.x, d.y), (4000, 2000));
    let sc = a.scale(500);
    assert_eq!((sc.x, sc.y), (1500, 2000));
    assert_eq!(a.dot(&b), 5000); // (3 * -1 + 4 * 2) units
    assert_eq!(a.magnitude(), 5000); // the 3-4-5 triangle
}

#[test]
fn normalize_has_unit_magnitude_within_tolerance() {
    // the milli-unit rendition of normalize().magnitude() == 1: within
    // one percent for anything of at least a tenth of a unit (quantization
    // dominates below that, as rounding error does for tiny floats)
    let samples = [
        Vec2 { x: 3000, y: 4000 },
        Vec2 { x: -2000, y: 12000 },
        Vec2 { x: 100, y: 100 },
        Vec2 { x: -70_000_000, y: 30_000_000 },
        Vec2 { x: 0, y: -1000 },
    ];
    for v in samples {
        let n = v.normalize();
        let m = n.magnitude();
        assert!((990..=1010).contains(&m), "magnitude was {m}");
    }
}

#[test]
fn normalize_of_zero_is_the_zero_sentinel() {
    let z = Vec2 { x: 0, y: 0 }.normalize();
    assert_eq!((z.x, z.y), (0, 0));
}

#[test]
fn vec_lerp_at_zero_returns_first_argument() {
    let a = Vec2 { x: 123, y: -456 };
    let b = Vec2 { x: 999, y: 888 };
    let r = a.lerp(&b, 0);
    assert_eq!((r.x, r.y), (123, -456));
    let r1 = a.lerp(&b, 1000);
    assert_eq!((r1.x, r1.y), (999, 888));
}
